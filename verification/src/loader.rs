//! From a document to a validated description.
//!
//! A description is a mapping with the key `agent`, whose value is a mapping
//! with the keys `name` (a text), `tools` (a sequence of texts, each the
//! spelling of a tool) and `model` (a text, the spelling of a model). Other
//! keys are passed over.
//!
//! Where several things are wrong with a document, one is reported: a field
//! that is present with the wrong content before a field that is absent, and
//! among each kind the earlier of `name`, `tools`, `model`.

use vstd::prelude::*;
use vstd::string::*;
use crate::agent::{Agent, AgentView, Spec, SpecView};
use crate::document::{items_doc, Doc, Node};
use crate::error::{Field, ParseError, ParseFailure};
use crate::vocabulary::{
    lemma_model_names_are_closed,
    lemma_tool_names_are_closed,
    lemma_tool_spellings_agree,
    Model,
    Tool,
};
use crate::yaml::{read, yaml_document};

verus! {

/// What is said of a document whose top is no mapping.
pub open spec fn top_complaint() -> Seq<char> {
    "expected a mapping at the top of the document"@
}

/// What is said of a field that is present but holds the wrong kind of value.
pub open spec fn shape_complaint(field: Field) -> Seq<char> {
    match field {
        Field::Agent => "agent: expected a mapping"@,
        Field::AgentName => "agent.name: expected a string"@,
        Field::AgentTools => "agent.tools: expected a sequence of strings"@,
        Field::AgentModel => "agent.model: expected a string"@,
    }
}

/// The failure for a field that is present but holds the wrong kind of value.
pub open spec fn misshapen(field: Field) -> ParseFailure {
    ParseFailure::MalformedInput(shape_complaint(field))
}

/// What a mapping holds under `key` where a text is expected: nothing, the
/// text, or the failure for `field` where the value is no text.
pub open spec fn text_slot(agent: Doc, key: Seq<char>, field: Field) -> Result<
    Option<Seq<char>>,
    ParseFailure,
> {
    match agent.field(key) {
        None => Ok(None),
        Some(Doc::Text(text)) => Ok(Some(text)),
        Some(_) => Err(misshapen(field)),
    }
}

/// What one item of `agent.tools` stands for: the tool it spells, or why it
/// stands for none.
pub open spec fn tool_entry(item: Doc) -> Result<Tool, ParseFailure> {
    match item {
        Doc::Text(text) => match Tool::named(text) {
            Some(tool) => Ok(tool),
            None => Err(ParseFailure::UnknownTool(text)),
        },
        _ => Err(misshapen(Field::AgentTools)),
    }
}

/// Whether each of the first `upto` items stands for a tool.
pub open spec fn entries_accepted(items: Seq<Doc>, upto: int) -> bool {
    forall|i: int| 0 <= i < upto ==> tool_entry(#[trigger] items[i]) is Ok
}

/// Whether item `index` is the first that stands for no tool.
pub open spec fn is_first_rejected(items: Seq<Doc>, index: int) -> bool {
    &&& 0 <= index < items.len()
    &&& tool_entry(items[index]) is Err
    &&& entries_accepted(items, index)
}

/// What the items of `agent.tools` stand for: the tools they spell, one for
/// one and in their order, or the failure of the first item that spells none.
pub open spec fn tools_outcome(items: Seq<Doc>) -> Result<Seq<Tool>, ParseFailure> {
    if entries_accepted(items, items.len() as int) {
        Ok(Seq::new(items.len(), |i: int| tool_entry(items[i])->Ok_0))
    } else {
        Err(tool_entry(items[choose|index: int| is_first_rejected(items, index)])->Err_0)
    }
}

/// What an agent mapping gives for `name`.
pub open spec fn name_slot(agent: Doc) -> Result<Option<Seq<char>>, ParseFailure> {
    text_slot(agent, "name"@, Field::AgentName)
}

/// What an agent mapping gives for `tools`.
pub open spec fn tools_slot(agent: Doc) -> Result<Option<Seq<Tool>>, ParseFailure> {
    match agent.field("tools"@) {
        None => Ok(None),
        Some(Doc::List(items)) => match tools_outcome(items) {
            Ok(tools) => Ok(Some(tools)),
            Err(failure) => Err(failure),
        },
        Some(_) => Err(misshapen(Field::AgentTools)),
    }
}

/// What an agent mapping gives for `model`.
pub open spec fn model_slot(agent: Doc) -> Result<Option<Model>, ParseFailure> {
    match text_slot(agent, "model"@, Field::AgentModel) {
        Err(failure) => Err(failure),
        Ok(None) => Ok(None),
        Ok(Some(text)) => match Model::named(text) {
            Some(model) => Ok(Some(model)),
            None => Err(ParseFailure::UnknownModel(text)),
        },
    }
}

/// The agent that an agent mapping describes, or the one failure reported
/// for it: that of the first of `name`, `tools`, `model` that is present with
/// the wrong content, else the first of them that is absent.
pub open spec fn agent_outcome(agent: Doc) -> Result<AgentView, ParseFailure> {
    let name = name_slot(agent);
    let tools = tools_slot(agent);
    let model = model_slot(agent);
    if name is Err {
        Err(name->Err_0)
    } else if tools is Err {
        Err(tools->Err_0)
    } else if model is Err {
        Err(model->Err_0)
    } else if name->Ok_0 is None {
        Err(ParseFailure::MissingField(Field::AgentName))
    } else if tools->Ok_0 is None {
        Err(ParseFailure::MissingField(Field::AgentTools))
    } else if model->Ok_0 is None {
        Err(ParseFailure::MissingField(Field::AgentModel))
    } else {
        Ok(
            AgentView {
                name: name->Ok_0->Some_0,
                tools: tools->Ok_0->Some_0,
                model: model->Ok_0->Some_0,
            },
        )
    }
}

/// The description that a document holds, or the one failure reported for it.
pub open spec fn document_outcome(doc: Doc) -> Result<SpecView, ParseFailure> {
    if !(doc is Table) {
        Err(ParseFailure::MalformedInput(top_complaint()))
    } else {
        match doc.field("agent"@) {
            None => Err(ParseFailure::MissingField(Field::Agent)),
            Some(agent) => if agent is Table {
                match agent_outcome(agent) {
                    Ok(agent) => Ok(SpecView { agent }),
                    Err(failure) => Err(failure),
                }
            } else {
                Err(misshapen(Field::Agent))
            },
        }
    }
}

/// The result of loading, as a mathematical value.
pub open spec fn outcome_view(r: Result<Spec, ParseError>) -> Result<SpecView, ParseFailure> {
    match r {
        Ok(spec) => Ok(spec@),
        Err(error) => Err(error@),
    }
}

/// The error for a field that is present but holds the wrong kind of value.
fn wrong_shape(field: Field) -> (error: ParseError)
    ensures
        error@ == misshapen(field),
{
    let complaint = match field {
        Field::Agent => "agent: expected a mapping",
        Field::AgentName => "agent.name: expected a string",
        Field::AgentTools => "agent.tools: expected a sequence of strings",
        Field::AgentModel => "agent.model: expected a string",
    };
    ParseError::MalformedInput(String::from_str(complaint))
}

/// Reads the text under `key` of an agent mapping.
fn text_field<'a>(agent: &'a Node, key: &str, field: Field) -> (r: Result<
    Option<&'a String>,
    ParseError,
>)
    ensures
        match r {
            Ok(None) => text_slot(agent@, key@, field) == Ok::<Option<Seq<char>>, ParseFailure>(None),
            Ok(Some(text)) => text_slot(agent@, key@, field) == Ok::<
                Option<Seq<char>>,
                ParseFailure,
            >(Some(text@)),
            Err(error) => text_slot(agent@, key@, field) == Err::<Option<Seq<char>>, ParseFailure>(
                error@,
            ),
        },
{
    match agent.field(key) {
        None => Ok(None),
        Some(value) => match value.as_text() {
            Some(text) => Ok(Some(text)),
            None => Err(wrong_shape(field)),
        },
    }
}

/// Resolves one item of `agent.tools`.
fn resolve_tool(item: &Node) -> (r: Result<Tool, ParseError>)
    ensures
        match r {
            Ok(tool) => tool_entry(item@) == Ok::<Tool, ParseFailure>(tool),
            Err(error) => tool_entry(item@) == Err::<Tool, ParseFailure>(error@),
        },
{
    match item.as_text() {
        Some(text) => match Tool::from_name(text.as_str()) {
            Some(tool) => Ok(tool),
            None => Err(ParseError::UnknownTool(text.clone())),
        },
        None => Err(wrong_shape(Field::AgentTools)),
    }
}

/// Resolves the items of `agent.tools` to the tools they spell, one for one
/// and in their order; the first item that spells none decides the error.
pub fn resolve_tools(items: &Vec<Node>) -> (r: Result<Vec<Tool>, ParseError>)
    ensures
        match r {
            Ok(tools) => tools_outcome(items_doc(items@)) == Ok::<Seq<Tool>, ParseFailure>(tools@),
            Err(error) => tools_outcome(items_doc(items@)) == Err::<Seq<Tool>, ParseFailure>(
                error@,
            ),
        },
{
    let ghost docs = items_doc(items@);
    let mut tools: Vec<Tool> = Vec::new();
    let mut index: usize = 0;
    while index < items.len()
        invariant
            index <= items.len(),
            docs == items_doc(items@),
            entries_accepted(docs, index as int),
            tools@.len() == index,
            forall|i: int| 0 <= i < index ==> tool_entry(docs[i]) == Ok::<Tool, ParseFailure>(#[trigger] tools@[i]),
        decreases items.len() - index,
    {
        match resolve_tool(&items[index]) {
            Ok(tool) => {
                tools.push(tool);
            },
            Err(error) => {
                proof {
                    let here = index as int;
                    assert(docs[here] == items@[here]@);
                    assert(is_first_rejected(docs, here));
                    let chosen = choose|i: int| is_first_rejected(docs, i);
                    assert(is_first_rejected(docs, chosen));
                    assert(chosen == here) by {
                        if chosen < here {
                            assert(tool_entry(docs[chosen]) is Ok);
                        } else if here < chosen {
                            assert(tool_entry(docs[here]) is Ok);
                        }
                    }
                    assert(!entries_accepted(docs, docs.len() as int));
                }
                return Err(error);
            },
        }
        index += 1;
    }
    proof {
        assert(tools@ =~= Seq::new(docs.len(), |i: int| tool_entry(docs[i])->Ok_0));
    }
    Ok(tools)
}

/// Reads `agent.tools` of an agent mapping.
fn tools_field(agent: &Node) -> (r: Result<Option<Vec<Tool>>, ParseError>)
    ensures
        match r {
            Ok(None) => tools_slot(agent@) == Ok::<Option<Seq<Tool>>, ParseFailure>(None),
            Ok(Some(tools)) => tools_slot(agent@) == Ok::<Option<Seq<Tool>>, ParseFailure>(
                Some(tools@),
            ),
            Err(error) => tools_slot(agent@) == Err::<Option<Seq<Tool>>, ParseFailure>(error@),
        },
{
    match agent.field("tools") {
        None => Ok(None),
        Some(value) => match value.as_list() {
            Some(items) => match resolve_tools(items) {
                Ok(tools) => Ok(Some(tools)),
                Err(error) => Err(error),
            },
            None => Err(wrong_shape(Field::AgentTools)),
        },
    }
}

/// Reads `agent.model` of an agent mapping.
fn model_field(agent: &Node) -> (r: Result<Option<Model>, ParseError>)
    ensures
        match r {
            Ok(model) => model_slot(agent@) == Ok::<Option<Model>, ParseFailure>(model),
            Err(error) => model_slot(agent@) == Err::<Option<Model>, ParseFailure>(error@),
        },
{
    match text_field(agent, "model", Field::AgentModel) {
        Err(error) => Err(error),
        Ok(None) => Ok(None),
        Ok(Some(text)) => match Model::from_name(text.as_str()) {
            Some(model) => Ok(Some(model)),
            None => Err(ParseError::UnknownModel(text.clone())),
        },
    }
}

/// Reads an agent from its mapping.
fn load_agent(agent: &Node) -> (r: Result<Agent, ParseError>)
    ensures
        match r {
            Ok(loaded) => agent_outcome(agent@) == Ok::<AgentView, ParseFailure>(loaded@),
            Err(error) => agent_outcome(agent@) == Err::<AgentView, ParseFailure>(error@),
        },
{
    let name = match text_field(agent, "name", Field::AgentName) {
        Ok(name) => name,
        Err(error) => {
            return Err(error);
        },
    };
    let tools = match tools_field(agent) {
        Ok(tools) => tools,
        Err(error) => {
            return Err(error);
        },
    };
    let model = match model_field(agent) {
        Ok(model) => model,
        Err(error) => {
            return Err(error);
        },
    };
    let name = match name {
        Some(name) => name.clone(),
        None => {
            return Err(ParseError::MissingField(Field::AgentName));
        },
    };
    let tools = match tools {
        Some(tools) => tools,
        None => {
            return Err(ParseError::MissingField(Field::AgentTools));
        },
    };
    let model = match model {
        Some(model) => model,
        None => {
            return Err(ParseError::MissingField(Field::AgentModel));
        },
    };
    Ok(Agent { name, tools, model })
}

/// Validates a document as a description.
///
/// The result is `Ok` exactly for a mapping whose `agent` is a mapping with a
/// text `name`, a `tools` sequence of tool spellings and a `model` that is a
/// model spelling; the description then holds that name, the tools in the
/// order of the document and the model. Every other document gives the one
/// error that [`document_outcome`] names for it.
pub fn validate(document: &Node) -> (r: Result<Spec, ParseError>)
    ensures
        outcome_view(r) == document_outcome(document@),
{
    if !document.is_table() {
        return Err(
            ParseError::MalformedInput(
                String::from_str("expected a mapping at the top of the document"),
            ),
        );
    }
    match document.field("agent") {
        None => Err(ParseError::MissingField(Field::Agent)),
        Some(agent) => {
            if agent.is_table() {
                match load_agent(agent) {
                    Ok(agent) => Ok(Spec { agent }),
                    Err(error) => Err(error),
                }
            } else {
                Err(wrong_shape(Field::Agent))
            }
        },
    }
}

/// Reads a description from YAML text.
///
/// A text that the YAML parser rejects gives `MalformedInput` with the
/// parser's diagnostic. A text that it accepts gives what [`validate`] gives
/// for the document read from it.
pub fn parse(text: &str) -> (r: Result<Spec, ParseError>)
    ensures
        match yaml_document(text@) {
            Some(document) => outcome_view(r) == document_outcome(document),
            None => r matches Err(ParseError::MalformedInput(_)),
        },
{
    match read(text) {
        Ok(document) => validate(&document),
        Err(diagnostic) => Err(ParseError::MalformedInput(diagnostic)),
    }
}

/// Whether each of `name`, `tools` and `model` that an agent mapping holds is
/// of the kind of its field: a text, a sequence of texts, a text.
pub open spec fn well_typed(agent: Doc) -> bool {
    &&& agent.field("name"@) matches Some(value) ==> value is Text
    &&& agent.field("tools"@) matches Some(value) ==> value is List && forall|i: int|
        0 <= i < value->List_0.len() ==> (#[trigger] value->List_0[i]) is Text
    &&& agent.field("model"@) matches Some(value) ==> value is Text
}

/// Whether `agent.tools` holds the text `text` and `text` spells no tool.
pub open spec fn holds_unknown_tool(agent: Doc, text: Seq<char>) -> bool {
    &&& agent.field("tools"@) matches Some(Doc::List(items))
    &&& items.contains(Doc::Text(text))
    &&& Tool::named(text) is None
}

/// Whether `agent.model` is the text `text` and `text` spells no model.
pub open spec fn holds_unknown_model(agent: Doc, text: Seq<char>) -> bool {
    &&& agent.field("model"@) == Some(Doc::Text(text))
    &&& Model::named(text) is None
}

/// Among items of which one stands for no tool, one is the first to do so.
proof fn lemma_first_rejected_exists(items: Seq<Doc>, rejected: int)
    requires
        0 <= rejected < items.len(),
        tool_entry(items[rejected]) is Err,
    ensures
        exists|index: int| is_first_rejected(items, index),
    decreases rejected,
{
    if entries_accepted(items, rejected) {
        assert(is_first_rejected(items, rejected));
    } else {
        let earlier = choose|i: int| 0 <= i < rejected && !(tool_entry(#[trigger] items[i]) is Ok);
        lemma_first_rejected_exists(items, earlier);
    }
}

/// The legacy alias of a tool reads as its canonical name does: an item of
/// `agent.tools` in either spelling stands for that tool.
pub proof fn lemma_alias_reads_as_canonical(tool: Tool)
    ensures
        tool_entry(Doc::Text(tool.canonical_name())) == Ok::<Tool, ParseFailure>(tool),
        tool_entry(Doc::Text(tool.legacy_alias())) == tool_entry(Doc::Text(tool.canonical_name())),
{
    lemma_tool_spellings_agree(tool);
}

/// A spelling outside the vocabulary is refused, and nothing is made of the
/// rest of the document.
///
/// Take a document whose `agent` is a mapping in which `name`, `tools` and
/// `model`, as far as they are present, are of the right kind. If `tools`
/// holds a text that spells no tool, or `model` is a text that spells no
/// model, the outcome is an error, and it is `UnknownTool` or `UnknownModel`
/// with such a text: that of a tool where there is one.
pub proof fn lemma_unknown_spelling_is_refused(document: Doc, agent: Doc, text: Seq<char>)
    requires
        document.field("agent"@) == Some(agent),
        agent is Table,
        well_typed(agent),
        holds_unknown_tool(agent, text) || holds_unknown_model(agent, text),
    ensures
        document_outcome(document) is Err,
        match document_outcome(document)->Err_0 {
            ParseFailure::UnknownTool(found) => holds_unknown_tool(agent, found),
            ParseFailure::UnknownModel(found) => holds_unknown_model(agent, found) && !exists|
                other: Seq<char>,
            | holds_unknown_tool(agent, other),
            _ => false,
        },
{
    assert(name_slot(agent) is Ok);
    match agent.field("tools"@) {
        Some(Doc::List(items)) => {
            if entries_accepted(items, items.len() as int) {
                assert forall|other: Seq<char>| !holds_unknown_tool(agent, other) by {
                    if holds_unknown_tool(agent, other) {
                        let at = choose|i: int| 0 <= i < items.len() && items[i] == Doc::Text(other);
                        assert(tool_entry(items[at]) is Ok);
                    }
                }
            } else {
                let rejected = choose|i: int| 0 <= i < items.len() && !(tool_entry(#[trigger] items[i]) is Ok);
                lemma_first_rejected_exists(items, rejected);
                let first = choose|index: int| is_first_rejected(items, index);
                assert(is_first_rejected(items, first));
                assert(items[first] is Text);
                assert(items.contains(items[first]));
            }
        },
        _ => {},
    }
}

/// A description that lacks only its model is refused for that: where `name`
/// and `tools` are present and in order and `model` is absent, the outcome is
/// `MissingField` with `agent.model`.
pub proof fn lemma_absent_model_is_reported(document: Doc, agent: Doc)
    requires
        document.field("agent"@) == Some(agent),
        agent is Table,
        name_slot(agent) matches Ok(Some(_)),
        tools_slot(agent) matches Ok(Some(_)),
        agent.field("model"@) is None,
    ensures
        document_outcome(document) == Err::<SpecView, ParseFailure>(
            ParseFailure::MissingField(Field::AgentModel),
        ),
{
}

/// A complete description in known spellings is accepted as written: where
/// `name` is a text, every item of `tools` is a spelling of the tool at its
/// place in `tools_meant`, and `model` is a spelling of `model_meant`, the
/// outcome is the description with that name, those tools in that order and
/// that model.
pub proof fn lemma_known_description_is_accepted(
    document: Doc,
    agent: Doc,
    name: Seq<char>,
    items: Seq<Doc>,
    tools_meant: Seq<Tool>,
    model_text: Seq<char>,
    model_meant: Model,
)
    requires
        document.field("agent"@) == Some(agent),
        agent is Table,
        agent.field("name"@) == Some(Doc::Text(name)),
        agent.field("tools"@) == Some(Doc::List(items)),
        agent.field("model"@) == Some(Doc::Text(model_text)),
        items.len() == tools_meant.len(),
        forall|i: int|
            0 <= i < items.len() ==> (#[trigger] items[i]) is Text && tools_meant[i].spelled(
                items[i]->Text_0,
            ),
        model_meant.spelled(model_text),
    ensures
        document_outcome(document) == Ok::<SpecView, ParseFailure>(
            SpecView { agent: AgentView { name, tools: tools_meant, model: model_meant } },
        ),
{
    assert forall|i: int| 0 <= i < items.len() implies tool_entry(#[trigger] items[i]) == Ok::<
        Tool,
        ParseFailure,
    >(tools_meant[i]) by {
        lemma_tool_names_are_closed(items[i]->Text_0);
    }
    lemma_model_names_are_closed(model_text);
    assert(entries_accepted(items, items.len() as int));
    assert(Seq::new(items.len(), |i: int| tool_entry(items[i])->Ok_0) =~= tools_meant);
}

/// What is accepted was written: where the outcome is a description, the
/// document's `agent` is a mapping whose `name` is the description's name,
/// whose `tools` holds, place for place, a spelling of each of the
/// description's tools and nothing else, and whose `model` is a spelling of
/// the description's model.
pub proof fn lemma_accepted_description_was_written(document: Doc, spec: SpecView)
    requires
        document_outcome(document) == Ok::<SpecView, ParseFailure>(spec),
    ensures
        document.field("agent"@) is Some,
        ({
            let agent = document.field("agent"@)->Some_0;
            &&& agent is Table
            &&& agent.field("name"@) == Some(Doc::Text(spec.agent.name))
            &&& agent.field("tools"@) matches Some(Doc::List(items)) && items.len()
                == spec.agent.tools.len() && forall|i: int|
                0 <= i < items.len() ==> (#[trigger] items[i]) is Text
                    && spec.agent.tools[i].spelled(items[i]->Text_0)
            &&& agent.field("model"@) matches Some(Doc::Text(text)) && spec.agent.model.spelled(
                text,
            )
        }),
{
    let agent = document.field("agent"@)->Some_0;
    let items = agent.field("tools"@)->Some_0->List_0;
    assert(entries_accepted(items, items.len() as int));
    assert forall|i: int| 0 <= i < items.len() implies (#[trigger] items[i]) is Text
        && spec.agent.tools[i].spelled(items[i]->Text_0) by {
        assert(tool_entry(items[i]) is Ok);
        lemma_tool_names_are_closed(items[i]->Text_0);
    }
    lemma_model_names_are_closed(agent.field("model"@)->Some_0->Text_0);
}

} // verus!
