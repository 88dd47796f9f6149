//! From a validated description to the files of its project.
//!
//! The agent definition is made by the Tera template engine from
//! [`PY_AGENT_TEMPLATE`] and three values taken from the description. The
//! engine is not verified: what comes out of it is spoken of by the name
//! [`template_output`], and what goes into it is proved.

use vstd::prelude::*;
use vstd::string::*;
use crate::agent::{AgentView, Spec, SpecView};
use crate::error::RenderError;
use crate::output::{files_view, project, project_files, OutputFile};
use crate::templates::{
    AGENT_FILE,
    CLI_FILE,
    ENV_EXAMPLE,
    ENV_FILE,
    PY_AGENT_TEMPLATE,
    PY_CLI_TEMPLATE,
    REQUIREMENTS,
    REQUIREMENTS_FILE,
};
use crate::vocabulary::Tool;

verus! {

/// A value that a template slot can be filled with.
pub enum SlotValue {
    /// One text.
    Text(Seq<char>),
    /// A list of texts.
    List(Seq<Seq<char>>),
}

/// `tera::Context`, the engine's table of values by slot name. Nothing is
/// known of what is inside one but through [`context_entries`].
#[verifier::external_type_specification]
#[verifier::external_body]
pub struct ExTeraContext(tera::Context);

/// `tera::Error`, the engine's complaint about a template or its values.
#[verifier::external_type_specification]
#[verifier::external_body]
pub struct ExTeraError(tera::Error);

/// What a `tera::Context` holds, for one that was made empty and filled with
/// texts and lists of texts.
pub uninterp spec fn context_entries(context: tera::Context) -> Map<Seq<char>, SlotValue>;

/// The text that `tera::Tera::one_off` makes of a template and the entries of
/// a context, or `None` where it gives an error. It stands for the engine's
/// whole behaviour on templates that call none of its functions; nothing more
/// is claimed of it.
pub uninterp spec fn template_output(
    template: Seq<char>,
    entries: Map<Seq<char>, SlotValue>,
    autoescape: bool,
) -> Option<Seq<char>>;

/// The texts that a run of strings holds, one for one.
pub open spec fn texts(items: Seq<String>) -> Seq<Seq<char>> {
    Seq::new(items.len(), |i: int| items[i]@)
}

/// The entries of a context that holds nothing.
pub open spec fn no_entries() -> Map<Seq<char>, SlotValue> {
    Map::empty()
}

/// Calls `tera::Context::new`.
///
/// Trusted: the context it gives holds nothing.
#[verifier::external_body]
fn context_new() -> (context: tera::Context)
    ensures
        context_entries(context) == no_entries(),
{
    tera::Context::new()
}

/// Calls `tera::Context::insert` with a list of strings.
///
/// Trusted: the context then holds the list under `key`, in place of what it
/// held there before, and everything else as before. The call serialises the
/// value and panics where that fails, which it cannot for strings.
#[verifier::external_body]
fn context_insert_list(context: &mut tera::Context, key: &str, items: &Vec<String>)
    ensures
        context_entries(*final(context)) == context_entries(*old(context)).insert(
            key@,
            SlotValue::List(texts(items@)),
        ),
{
    context.insert(key, items)
}

/// Calls `tera::Context::insert` with one text.
///
/// Trusted: the context then holds the text under `key`, in place of what it
/// held there before, and everything else as before.
#[verifier::external_body]
fn context_insert_text(context: &mut tera::Context, key: &str, text: &str)
    ensures
        context_entries(*final(context)) == context_entries(*old(context)).insert(
            key@,
            SlotValue::Text(text@),
        ),
{
    context.insert(key, text)
}

/// Calls `tera::Tera::one_off`.
///
/// Trusted: the call succeeds exactly where [`template_output`] is `Some`,
/// and gives that text. The engine's functions can read the environment, the
/// clock and a random source, so its output is a function of the template and
/// the context only for a template that calls none of them; the contract is
/// therefore stated for the agent template alone, which calls none.
#[verifier::external_body]
fn one_off(template: &str, context: &tera::Context, autoescape: bool) -> (r: Result<
    String,
    tera::Error,
>)
    requires
        template@ == PY_AGENT_TEMPLATE@,
    ensures
        r matches Ok(text) ==> template_output(template@, context_entries(*context), autoescape)
            == Some(text@),
        r is Err ==> template_output(template@, context_entries(*context), autoescape) is None,
{
    tera::Tera::one_off(template, context, autoescape)
}

/// The import symbols of `tools`, one for each and in their order.
pub open spec fn import_list(tools: Seq<Tool>) -> Seq<Seq<char>> {
    Seq::new(tools.len(), |i: int| tools[i].import_symbol())
}

/// The instance expressions of `tools`, one for each and in their order.
pub open spec fn instance_list(tools: Seq<Tool>) -> Seq<Seq<char>> {
    Seq::new(tools.len(), |i: int| tools[i].instance_expr())
}

/// The values that the agent template is filled with: the import symbols and
/// the instance expressions of the agent's tools, and the identifier of its
/// model.
pub open spec fn agent_entries(agent: AgentView) -> Map<Seq<char>, SlotValue> {
    no_entries().insert(
        "tool_imports"@,
        SlotValue::List(import_list(agent.tools)),
    ).insert("tool_instances"@, SlotValue::List(instance_list(agent.tools))).insert(
        "model_id"@,
        SlotValue::Text(agent.model.identifier()),
    )
}

/// The text of `agent.py` for an agent, or `None` where the engine gives an
/// error: what it makes of the agent template and [`agent_entries`], with
/// nothing escaped.
pub open spec fn agent_source(agent: AgentView) -> Option<Seq<char>> {
    template_output(PY_AGENT_TEMPLATE@, agent_entries(agent), false)
}

/// The files of the project of a description, as pairs of name and content,
/// or `None` where the engine gives an error.
pub open spec fn render_outcome(spec: SpecView) -> Option<Seq<(Seq<char>, Seq<char>)>> {
    match agent_source(spec.agent) {
        Some(source) => Some(project(source)),
        None => None,
    }
}

/// Lists the import symbols of `tools`, one for each and in their order.
pub fn tool_imports(tools: &Vec<Tool>) -> (symbols: Vec<String>)
    ensures
        texts(symbols@) == import_list(tools@),
{
    let mut symbols: Vec<String> = Vec::new();
    let mut index: usize = 0;
    while index < tools.len()
        invariant
            index <= tools.len(),
            symbols@.len() == index,
            forall|i: int| 0 <= i < index ==> (#[trigger] symbols@[i])@ == tools@[i].import_symbol(),
        decreases tools.len() - index,
    {
        symbols.push(String::from_str(tools[index].py_import_name()));
        index += 1;
    }
    assert(texts(symbols@) =~= import_list(tools@));
    symbols
}

/// Lists the instance expressions of `tools`, one for each and in their order.
pub fn tool_instances(tools: &Vec<Tool>) -> (exprs: Vec<String>)
    ensures
        texts(exprs@) == instance_list(tools@),
{
    let mut exprs: Vec<String> = Vec::new();
    let mut index: usize = 0;
    while index < tools.len()
        invariant
            index <= tools.len(),
            exprs@.len() == index,
            forall|i: int| 0 <= i < index ==> (#[trigger] exprs@[i])@ == tools@[i].instance_expr(),
        decreases tools.len() - index,
    {
        exprs.push(String::from_str(tools[index].py_instance()));
        index += 1;
    }
    assert(texts(exprs@) =~= instance_list(tools@));
    exprs
}

/// Renders `agent.py` for a description.
///
/// The engine is handed the agent template, exactly [`agent_entries`] and no
/// escaping. The result is its text, or `Template` with its diagnostic where
/// it gives an error.
pub fn render_agent_py(spec: &Spec) -> (r: Result<String, RenderError>)
    ensures
        match r {
            Ok(source) => agent_source(spec@.agent) == Some(source@),
            Err(error) => agent_source(spec@.agent) is None && error is Template,
        },
{
    let imports = tool_imports(&spec.agent.tools);
    let instances = tool_instances(&spec.agent.tools);
    let mut context = context_new();
    context_insert_list(&mut context, "tool_imports", &imports);
    context_insert_list(&mut context, "tool_instances", &instances);
    context_insert_text(&mut context, "model_id", spec.agent.model.model_id());
    match one_off(PY_AGENT_TEMPLATE, &context, false) {
        Ok(source) => Ok(source),
        Err(complaint) => Err(RenderError::Template(complaint.to_string())),
    }
}

/// Renders the four files of the project of a description, in the order in
/// which they are made. Nothing is written anywhere.
///
/// The result is `Ok` exactly where the engine renders the agent definition;
/// the files are then those of [`project`] around that text.
pub fn render(spec: &Spec) -> (r: Result<Vec<OutputFile>, RenderError>)
    ensures
        match r {
            Ok(files) => render_outcome(spec@) == Some(files_view(files@)),
            Err(error) => render_outcome(spec@) is None && error is Template,
        },
{
    match render_agent_py(spec) {
        Ok(source) => Ok(project_files(source)),
        Err(error) => Err(error),
    }
}

/// Rendering is a function of the description: equal descriptions have equal
/// outcomes, file for file and character for character.
pub proof fn lemma_render_is_deterministic(first: Spec, second: Spec)
    requires
        first@ == second@,
    ensures
        render_outcome(first@) == render_outcome(second@),
{
}

/// The agent's name has no part in what is rendered: descriptions with the
/// same tools and the same model have equal outcomes.
pub proof fn lemma_render_ignores_name(first: SpecView, second: SpecView)
    requires
        first.agent.tools == second.agent.tools,
        first.agent.model == second.agent.model,
    ensures
        render_outcome(first) == render_outcome(second),
{
}

/// The list of import symbols and the list of instance expressions are as
/// long as the list of tools and follow its order: the entry at each place is
/// that of the tool at that place.
pub proof fn lemma_lists_follow_tools(tools: Seq<Tool>)
    ensures
        import_list(tools).len() == tools.len(),
        instance_list(tools).len() == tools.len(),
        forall|i: int|
            0 <= i < tools.len() ==> #[trigger] import_list(tools)[i] == tools[i].import_symbol(),
        forall|i: int|
            0 <= i < tools.len() ==> #[trigger] instance_list(tools)[i]
                == tools[i].instance_expr(),
{
}

/// The agent template is filled with three values and no more: the two lists
/// under `tool_imports` and `tool_instances`, and the model's identifier under
/// `model_id`.
pub proof fn lemma_agent_entries(agent: AgentView)
    ensures
        agent_entries(agent).dom() =~= set!["tool_imports"@, "tool_instances"@, "model_id"@],
        agent_entries(agent)["tool_imports"@] == SlotValue::List(import_list(agent.tools)),
        agent_entries(agent)["tool_instances"@] == SlotValue::List(instance_list(agent.tools)),
        agent_entries(agent)["model_id"@] == SlotValue::Text(agent.model.identifier()),
{
    reveal_strlit("tool_imports");
    reveal_strlit("tool_instances");
    reveal_strlit("model_id");
    assert("tool_imports"@.len() != "tool_instances"@.len());
    assert("tool_imports"@.len() != "model_id"@.len());
    assert("tool_instances"@.len() != "model_id"@.len());
}

/// An agent without tools has an empty import list and an empty instance
/// list, and these are what the template is filled with.
pub proof fn lemma_no_tools_no_entries(agent: AgentView)
    requires
        agent.tools.len() == 0,
    ensures
        import_list(agent.tools) == Seq::<Seq<char>>::empty(),
        instance_list(agent.tools) == Seq::<Seq<char>>::empty(),
        agent_entries(agent)["tool_imports"@] == SlotValue::List(Seq::empty()),
        agent_entries(agent)["tool_instances"@] == SlotValue::List(Seq::empty()),
{
    lemma_agent_entries(agent);
    assert(import_list(agent.tools) =~= Seq::<Seq<char>>::empty());
    assert(instance_list(agent.tools) =~= Seq::<Seq<char>>::empty());
}

/// Whatever is rendered is a project of four files, of which all but the
/// agent definition are the same for every description.
pub proof fn lemma_rendered_project_shape(spec: SpecView)
    requires
        render_outcome(spec) is Some,
    ensures
        render_outcome(spec)->Some_0.len() == 4,
        render_outcome(spec)->Some_0[0] == (AGENT_FILE@, agent_source(spec.agent)->Some_0),
        render_outcome(spec)->Some_0[1] == (CLI_FILE@, PY_CLI_TEMPLATE@),
        render_outcome(spec)->Some_0[2] == (REQUIREMENTS_FILE@, REQUIREMENTS@),
        render_outcome(spec)->Some_0[3] == (ENV_FILE@, ENV_EXAMPLE@),
{
}

} // verus!
