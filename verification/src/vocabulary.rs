//! The closed vocabulary of an agent description: the tools and models that
//! can be named, the spellings they are named by, and the Python text that
//! each one is bound to.
//!
//! Every table here is a `match` over an enum, so a variant without an entry
//! does not compile: there is no lookup that could miss at run time.

use vstd::prelude::*;
use vstd::string::*;

verus! {

/// A capability that an agent can be given.
#[derive(Clone, Copy, Debug, PartialEq, Eq, Structural)]
pub enum Tool {
    /// Searching the web.
    Search,
    /// Fetching the text of a web page.
    Webpage,
}

/// An inference backend that an agent can run on.
#[derive(Clone, Copy, Debug, PartialEq, Eq, Structural)]
pub enum Model {
    /// Qwen 2.5 Coder, 32B, instruction-tuned.
    QwenCoder,
}

impl Tool {
    /// The class that generated code imports for this tool.
    pub open spec fn import_symbol(self) -> Seq<char> {
        match self {
            Tool::Search => "DuckDuckGoSearchTool"@,
            Tool::Webpage => "VisitWebpageTool"@,
        }
    }

    /// The expression by which generated code makes an instance of this tool.
    pub open spec fn instance_expr(self) -> Seq<char> {
        match self {
            Tool::Search => "DuckDuckGoSearchTool()"@,
            Tool::Webpage => "VisitWebpageTool()"@,
        }
    }

    /// The kebab-case spelling of this tool.
    pub open spec fn canonical_name(self) -> Seq<char> {
        match self {
            Tool::Search => "search"@,
            Tool::Webpage => "webpage"@,
        }
    }

    /// The older spelling of this tool that descriptions may still use.
    ///
    /// For the tools of today it is the same text as the canonical name; the
    /// two tables are kept apart so that either can change alone.
    pub open spec fn legacy_alias(self) -> Seq<char> {
        match self {
            Tool::Search => "search"@,
            Tool::Webpage => "webpage"@,
        }
    }

    /// Whether `text` is one of the spellings of this tool. The comparison is
    /// exact: case and every character count.
    pub open spec fn spelled(self, text: Seq<char>) -> bool {
        text == self.canonical_name() || text == self.legacy_alias()
    }

    /// The tool that `text` spells, if it spells one.
    pub open spec fn named(text: Seq<char>) -> Option<Tool> {
        if Tool::Search.spelled(text) {
            Some(Tool::Search)
        } else if Tool::Webpage.spelled(text) {
            Some(Tool::Webpage)
        } else {
            None
        }
    }

    /// The class that generated code imports for this tool.
    pub fn py_import_name(&self) -> (symbol: &'static str)
        ensures
            symbol@ == self.import_symbol(),
    {
        match self {
            Tool::Search => "DuckDuckGoSearchTool",
            Tool::Webpage => "VisitWebpageTool",
        }
    }

    /// The expression by which generated code makes an instance of this tool.
    pub fn py_instance(&self) -> (expr: &'static str)
        ensures
            expr@ == self.instance_expr(),
    {
        match self {
            Tool::Search => "DuckDuckGoSearchTool()",
            Tool::Webpage => "VisitWebpageTool()",
        }
    }

    /// The kebab-case spelling of this tool.
    pub fn name(&self) -> (text: &'static str)
        ensures
            text@ == self.canonical_name(),
    {
        match self {
            Tool::Search => "search",
            Tool::Webpage => "webpage",
        }
    }

    /// The older spelling of this tool.
    pub fn alias(&self) -> (text: &'static str)
        ensures
            text@ == self.legacy_alias(),
    {
        match self {
            Tool::Search => "search",
            Tool::Webpage => "webpage",
        }
    }

    /// Resolves a spelling to its tool: `Some` for the canonical name and the
    /// legacy alias of each tool, `None` for every other text.
    pub fn from_name(text: &str) -> (tool: Option<Tool>)
        ensures
            tool == Tool::named(text@),
    {
        if spells(text, Tool::Search.name(), Tool::Search.alias()) {
            Some(Tool::Search)
        } else if spells(text, Tool::Webpage.name(), Tool::Webpage.alias()) {
            Some(Tool::Webpage)
        } else {
            None
        }
    }
}

impl Model {
    /// The identifier by which the inference service knows this model.
    pub open spec fn identifier(self) -> Seq<char> {
        match self {
            Model::QwenCoder => "Qwen/Qwen2.5-Coder-32B-Instruct"@,
        }
    }

    /// The kebab-case spelling of this model.
    pub open spec fn canonical_name(self) -> Seq<char> {
        match self {
            Model::QwenCoder => "qwen-coder"@,
        }
    }

    /// The older spelling of this model that descriptions may still use.
    ///
    /// For the models of today it is the same text as the canonical name.
    pub open spec fn legacy_alias(self) -> Seq<char> {
        match self {
            Model::QwenCoder => "qwen-coder"@,
        }
    }

    /// Whether `text` is one of the spellings of this model, compared exactly.
    pub open spec fn spelled(self, text: Seq<char>) -> bool {
        text == self.canonical_name() || text == self.legacy_alias()
    }

    /// The model that `text` spells, if it spells one.
    pub open spec fn named(text: Seq<char>) -> Option<Model> {
        if Model::QwenCoder.spelled(text) {
            Some(Model::QwenCoder)
        } else {
            None
        }
    }

    /// The identifier by which the inference service knows this model.
    pub fn model_id(&self) -> (id: &'static str)
        ensures
            id@ == self.identifier(),
    {
        match self {
            Model::QwenCoder => "Qwen/Qwen2.5-Coder-32B-Instruct",
        }
    }

    /// The kebab-case spelling of this model.
    pub fn name(&self) -> (text: &'static str)
        ensures
            text@ == self.canonical_name(),
    {
        match self {
            Model::QwenCoder => "qwen-coder",
        }
    }

    /// The older spelling of this model.
    pub fn alias(&self) -> (text: &'static str)
        ensures
            text@ == self.legacy_alias(),
    {
        match self {
            Model::QwenCoder => "qwen-coder",
        }
    }

    /// Resolves a spelling to its model: `Some` for the canonical name and the
    /// legacy alias of each model, `None` for every other text.
    pub fn from_name(text: &str) -> (model: Option<Model>)
        ensures
            model == Model::named(text@),
    {
        if spells(text, Model::QwenCoder.name(), Model::QwenCoder.alias()) {
            Some(Model::QwenCoder)
        } else {
            None
        }
    }
}

/// Whether two texts hold the same characters.
pub fn same_text(left: &str, right: &str) -> (same: bool)
    ensures
        same == (left@ == right@),
{
    let left_owned = String::from_str(left);
    let right_owned = String::from_str(right);
    left_owned == right_owned
}

/// Whether `text` is exactly `canonical` or exactly `alias`.
fn spells(text: &str, canonical: &str, alias: &str) -> (hit: bool)
    ensures
        hit == (text@ == canonical@ || text@ == alias@),
{
    same_text(text, canonical) || same_text(text, alias)
}

/// Every spelling of a tool resolves to that tool: its legacy alias gives
/// what its canonical name gives.
pub proof fn lemma_tool_spellings_agree(tool: Tool)
    ensures
        Tool::named(tool.canonical_name()) == Some(tool),
        Tool::named(tool.legacy_alias()) == Tool::named(tool.canonical_name()),
{
    reveal_strlit("search");
    reveal_strlit("webpage");
    assert("search"@.len() != "webpage"@.len());
}

/// Every spelling of a model resolves to that model: its legacy alias gives
/// what its canonical name gives.
pub proof fn lemma_model_spellings_agree(model: Model)
    ensures
        Model::named(model.canonical_name()) == Some(model),
        Model::named(model.legacy_alias()) == Model::named(model.canonical_name()),
{
}

/// Only the spellings in the table resolve: a text names a tool exactly when
/// it is the canonical name or the legacy alias of that tool, and it names no
/// tool when it is neither of any.
pub proof fn lemma_tool_names_are_closed(text: Seq<char>)
    ensures
        forall|tool: Tool| Tool::named(text) == Some(tool) <==> #[trigger] tool.spelled(text),
        Tool::named(text) is None <==> forall|tool: Tool| !#[trigger] tool.spelled(text),
{
    reveal_strlit("search");
    reveal_strlit("webpage");
    assert("search"@.len() != "webpage"@.len());
    assert forall|tool: Tool| Tool::named(text) == Some(tool) <==> #[trigger] tool.spelled(text) by {
        match tool {
            Tool::Search => {},
            Tool::Webpage => {},
        }
    }
    if Tool::named(text) is None {
        assert forall|tool: Tool| !#[trigger] tool.spelled(text) by {
            match tool {
                Tool::Search => {},
                Tool::Webpage => {},
            }
        }
    } else {
        assert(Tool::named(text)->Some_0.spelled(text));
    }
}

/// Only the spellings in the table resolve: a text names a model exactly when
/// it is the canonical name or the legacy alias of that model.
pub proof fn lemma_model_names_are_closed(text: Seq<char>)
    ensures
        forall|model: Model| Model::named(text) == Some(model) <==> #[trigger] model.spelled(text),
        Model::named(text) is None <==> forall|model: Model| !#[trigger] model.spelled(text),
{
    assert forall|model: Model| Model::named(text) == Some(model) <==> #[trigger] model.spelled(text) by {
        match model {
            Model::QwenCoder => {},
        }
    }
    if Model::named(text) is None {
        assert forall|model: Model| !#[trigger] model.spelled(text) by {
            match model {
                Model::QwenCoder => {},
            }
        }
    } else {
        assert(Model::named(text)->Some_0.spelled(text));
    }
}

} // verus!
