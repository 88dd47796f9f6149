//! From the text of a description to its whole project, in one step.
//!
//! [`generate`] reads nothing and writes nothing: it takes the text and gives
//! back the project, or the first thing that is wrong. A caller that writes
//! the project out therefore starts only once the description has been
//! accepted, so a refused description leaves nothing behind.

use vstd::prelude::*;
use vstd::string::*;
use crate::error::{GenerateError, ParseError, WriteFailure};
use crate::loader::{document_outcome, parse};
use crate::output::{files_view, project_dir, safe_segment, OutputFile};
use crate::renderer::{render, render_outcome};
use crate::yaml::yaml_document;

verus! {

/// A generated project: the name of its directory and its files, in the order
/// in which they are to be written.
#[derive(Clone, Debug, PartialEq, Eq)]
pub struct Project {
    pub dir: String,
    pub files: Vec<OutputFile>,
}

/// Makes the project of the description in `text`.
///
/// The steps are taken in this order, and the first that fails decides the
/// error: the text is read as YAML and validated as a description (`Parse`),
/// the agent's name is checked to be a safe name for a directory (`Write`
/// with `UnsafeName`), and the files are rendered (`Render`). Where all
/// succeed, the project is named after the agent and holds the rendered
/// files.
pub fn generate(text: &str) -> (r: Result<Project, GenerateError>)
    ensures
        match yaml_document(text@) {
            None => r matches Err(GenerateError::Parse(ParseError::MalformedInput(_))),
            Some(document) => match document_outcome(document) {
                Err(failure) => r matches Err(GenerateError::Parse(error)) && error@ == failure,
                Ok(spec) => if !safe_segment(spec.agent.name) {
                    r matches Err(GenerateError::Write(error)) && error@
                        == WriteFailure::UnsafeName(spec.agent.name)
                } else {
                    match render_outcome(spec) {
                        None => r matches Err(GenerateError::Render(_)),
                        Some(files) => r matches Ok(made) && made.dir@ == spec.agent.name
                            && files_view(made.files@) == files,
                    }
                },
            },
        },
{
    let spec = match parse(text) {
        Ok(spec) => spec,
        Err(error) => {
            return Err(GenerateError::Parse(error));
        },
    };
    let dir = match project_dir(&spec.agent) {
        Ok(dir) => String::from_str(dir),
        Err(error) => {
            return Err(GenerateError::Write(error));
        },
    };
    match render(&spec) {
        Ok(files) => Ok(Project { dir, files }),
        Err(error) => Err(GenerateError::Render(error)),
    }
}

} // verus!
