//! What can go wrong while a description is read, rendered and written out.

use vstd::prelude::*;
use vstd::string::*;

verus! {

/// A required field of a description, named by its path from the top.
#[derive(Clone, Copy, Debug, PartialEq, Eq, Structural)]
pub enum Field {
    /// `agent`
    Agent,
    /// `agent.name`
    AgentName,
    /// `agent.tools`
    AgentTools,
    /// `agent.model`
    AgentModel,
}

impl Field {
    /// The path of the field, its keys joined by dots.
    pub open spec fn path_text(self) -> Seq<char> {
        match self {
            Field::Agent => "agent"@,
            Field::AgentName => "agent.name"@,
            Field::AgentTools => "agent.tools"@,
            Field::AgentModel => "agent.model"@,
        }
    }

    /// The path of the field, its keys joined by dots.
    pub fn path(&self) -> (text: &'static str)
        ensures
            text@ == self.path_text(),
    {
        match self {
            Field::Agent => "agent",
            Field::AgentName => "agent.name",
            Field::AgentTools => "agent.tools",
            Field::AgentModel => "agent.model",
        }
    }
}

/// Why a text was not accepted as a description.
#[derive(Clone, Debug, PartialEq, Eq)]
pub enum ParseError {
    /// The text is no document of the expected shape; the diagnostic says why.
    MalformedInput(String),
    /// A required field is absent.
    MissingField(Field),
    /// `agent.tools` holds a text that spells no tool.
    UnknownTool(String),
    /// `agent.model` holds a text that spells no model.
    UnknownModel(String),
}

/// A [`ParseError`] as a mathematical value.
pub enum ParseFailure {
    MalformedInput(Seq<char>),
    MissingField(Field),
    UnknownTool(Seq<char>),
    UnknownModel(Seq<char>),
}

impl View for ParseError {
    type V = ParseFailure;

    open spec fn view(&self) -> ParseFailure {
        match self {
            ParseError::MalformedInput(diagnostic) => ParseFailure::MalformedInput(diagnostic@),
            ParseError::MissingField(field) => ParseFailure::MissingField(*field),
            ParseError::UnknownTool(text) => ParseFailure::UnknownTool(text@),
            ParseError::UnknownModel(text) => ParseFailure::UnknownModel(text@),
        }
    }
}

impl ParseFailure {
    /// The line that reports this failure to a person.
    pub open spec fn message(self) -> Seq<char> {
        match self {
            ParseFailure::MalformedInput(diagnostic) => "malformed input: "@ + diagnostic,
            ParseFailure::MissingField(field) => "missing field `"@ + field.path_text() + "`"@,
            ParseFailure::UnknownTool(text) => "unknown tool `"@ + text + "`"@,
            ParseFailure::UnknownModel(text) => "unknown model `"@ + text + "`"@,
        }
    }
}

impl ParseError {
    /// The line that reports this error to a person.
    pub fn message(&self) -> (line: String)
        ensures
            line@ == self@.message(),
    {
        match self {
            ParseError::MalformedInput(diagnostic) => {
                String::from_str("malformed input: ").concat(diagnostic.as_str())
            },
            ParseError::MissingField(field) => {
                String::from_str("missing field `").concat(field.path()).concat("`")
            },
            ParseError::UnknownTool(text) => {
                String::from_str("unknown tool `").concat(text.as_str()).concat("`")
            },
            ParseError::UnknownModel(text) => {
                String::from_str("unknown model `").concat(text.as_str()).concat("`")
            },
        }
    }
}

/// Why no project could be rendered from a description.
#[derive(Clone, Debug, PartialEq, Eq)]
pub enum RenderError {
    /// The template engine gave up on the agent template; the diagnostic is
    /// the engine's own.
    Template(String),
}

impl RenderError {
    /// The line that reports this error to a person.
    pub fn message(&self) -> (line: String)
        ensures
            match self {
                RenderError::Template(diagnostic) => line@ == "rendering agent.py template: "@
                    + diagnostic@,
            },
    {
        match self {
            RenderError::Template(diagnostic) => {
                String::from_str("rendering agent.py template: ").concat(diagnostic.as_str())
            },
        }
    }
}

/// Why a file of a project was not written.
#[derive(Clone, Debug, PartialEq, Eq)]
pub enum WriteError {
    /// The agent's name cannot serve as the name of a directory.
    UnsafeName(String),
    /// A file is already at the path and overwriting was not asked for.
    AlreadyExists(String),
}

/// A [`WriteError`] as a mathematical value.
pub enum WriteFailure {
    UnsafeName(Seq<char>),
    AlreadyExists(Seq<char>),
}

impl View for WriteError {
    type V = WriteFailure;

    open spec fn view(&self) -> WriteFailure {
        match self {
            WriteError::UnsafeName(name) => WriteFailure::UnsafeName(name@),
            WriteError::AlreadyExists(path) => WriteFailure::AlreadyExists(path@),
        }
    }
}

impl WriteFailure {
    /// The line that reports this failure to a person.
    pub open spec fn message(self) -> Seq<char> {
        match self {
            WriteFailure::UnsafeName(name) => "agent name `"@ + name
                + "` cannot name a directory"@,
            WriteFailure::AlreadyExists(path) => "refusing to overwrite existing file: "@ + path
                + " (use --force)"@,
        }
    }
}

impl WriteError {
    /// The line that reports this error to a person.
    pub fn message(&self) -> (line: String)
        ensures
            line@ == self@.message(),
    {
        match self {
            WriteError::UnsafeName(name) => {
                String::from_str("agent name `").concat(name.as_str()).concat(
                    "` cannot name a directory",
                )
            },
            WriteError::AlreadyExists(path) => {
                String::from_str("refusing to overwrite existing file: ").concat(
                    path.as_str(),
                ).concat(" (use --force)")
            },
        }
    }
}

/// Why no project came of a text.
#[derive(Clone, Debug, PartialEq, Eq)]
pub enum GenerateError {
    /// The text is no valid description.
    Parse(ParseError),
    /// The description is valid, but its project cannot be put on disk.
    Write(WriteError),
    /// The description is valid, but its files could not be rendered.
    Render(RenderError),
}

impl GenerateError {
    /// The line that reports this error to a person: that of the error inside.
    pub fn message(&self) -> (line: String)
        ensures
            match self {
                GenerateError::Parse(error) => line@ == error@.message(),
                GenerateError::Write(error) => line@ == error@.message(),
                GenerateError::Render(RenderError::Template(diagnostic)) => line@
                    == "rendering agent.py template: "@ + diagnostic@,
            },
    {
        match self {
            GenerateError::Parse(error) => error.message(),
            GenerateError::Write(error) => error.message(),
            GenerateError::Render(error) => error.message(),
        }
    }
}

} // verus!
