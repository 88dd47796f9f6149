use tachi::agent::{Agent, Spec};
use tachi::document::Node;
use tachi::error::{Field, ParseError};
use tachi::loader::{parse, resolve_tools, validate};
use tachi::vocabulary::{Model, Tool};

fn text(content: &str) -> Node {
    Node::Text(content.to_string())
}

fn malformed(complaint: &str) -> ParseError {
    ParseError::MalformedInput(complaint.to_string())
}

fn demo(tools: Vec<Tool>) -> Spec {
    Spec { agent: Agent { name: "demo".to_string(), tools, model: Model::QwenCoder } }
}

#[test]
fn a_complete_description_is_accepted() {
    let spec = parse("agent:\n  name: demo\n  tools: [search]\n  model: qwen-coder\n").unwrap();
    assert_eq!(spec, demo(vec![Tool::Search]));
}

#[test]
fn tools_keep_the_order_of_the_document() {
    let forward = parse("agent:\n  name: demo\n  tools: [search, webpage]\n  model: qwen-coder\n");
    let backward = parse("agent:\n  name: demo\n  tools: [webpage, search]\n  model: qwen-coder\n");
    assert_eq!(forward, Ok(demo(vec![Tool::Search, Tool::Webpage])));
    assert_eq!(backward, Ok(demo(vec![Tool::Webpage, Tool::Search])));
}

#[test]
fn a_tool_may_be_listed_twice() {
    let spec = parse("agent:\n  name: demo\n  tools: [search, search]\n  model: qwen-coder\n");
    assert_eq!(spec, Ok(demo(vec![Tool::Search, Tool::Search])));
}

#[test]
fn tools_may_be_empty() {
    let spec = parse("agent:\n  name: demo\n  tools: []\n  model: qwen-coder\n");
    assert_eq!(spec, Ok(demo(vec![])));
}

#[test]
fn fields_may_come_in_any_order_and_among_others() {
    let spec = parse(
        "version: 3\nagent:\n  model: qwen-coder\n  note: kept for later\n  tools:\n    - webpage\n  name: demo\n",
    );
    assert_eq!(spec, Ok(demo(vec![Tool::Webpage])));
}

#[test]
fn an_alias_reads_as_the_canonical_name() {
    for tool in [Tool::Search, Tool::Webpage] {
        let by_alias = parse(&format!(
            "agent:\n  name: demo\n  tools: [{}]\n  model: {}\n",
            tool.alias(),
            Model::QwenCoder.alias()
        ));
        let by_name = parse(&format!(
            "agent:\n  name: demo\n  tools: [{}]\n  model: {}\n",
            tool.name(),
            Model::QwenCoder.name()
        ));
        assert_eq!(by_alias, Ok(demo(vec![tool])));
        assert_eq!(by_alias, by_name);
    }
}

#[test]
fn an_unknown_tool_is_refused_by_name() {
    let r = parse("agent:\n  name: demo\n  tools: [search, telepathy, webpage]\n  model: qwen-coder\n");
    assert_eq!(r, Err(ParseError::UnknownTool("telepathy".to_string())));
}

#[test]
fn the_first_unknown_tool_is_the_one_reported() {
    let r = parse("agent:\n  name: demo\n  tools: [one, two]\n  model: qwen-coder\n");
    assert_eq!(r, Err(ParseError::UnknownTool("one".to_string())));
}

#[test]
fn a_tool_in_another_case_is_unknown() {
    let r = parse("agent:\n  name: demo\n  tools: [Search]\n  model: qwen-coder\n");
    assert_eq!(r, Err(ParseError::UnknownTool("Search".to_string())));
}

#[test]
fn an_unknown_model_is_refused_by_name() {
    let r = parse("agent:\n  name: demo\n  tools: [search]\n  model: gpt-oss\n");
    assert_eq!(r, Err(ParseError::UnknownModel("gpt-oss".to_string())));
}

#[test]
fn an_unknown_tool_is_reported_before_an_unknown_model() {
    let r = parse("agent:\n  name: demo\n  model: gpt-oss\n  tools: [telepathy]\n");
    assert_eq!(r, Err(ParseError::UnknownTool("telepathy".to_string())));
}

#[test]
fn a_document_without_model_is_refused_for_it() {
    let r = parse("agent:\n  name: demo\n  tools: [search]\n");
    assert_eq!(r, Err(ParseError::MissingField(Field::AgentModel)));
    assert_eq!(Field::AgentModel.path(), "agent.model");
}

#[test]
fn a_document_without_name_is_refused_for_it() {
    let r = parse("agent:\n  tools: [search]\n  model: qwen-coder\n");
    assert_eq!(r, Err(ParseError::MissingField(Field::AgentName)));
    assert_eq!(Field::AgentName.path(), "agent.name");
}

#[test]
fn a_document_without_tools_is_refused_for_it() {
    let r = parse("agent:\n  name: demo\n  model: qwen-coder\n");
    assert_eq!(r, Err(ParseError::MissingField(Field::AgentTools)));
    assert_eq!(Field::AgentTools.path(), "agent.tools");
}

#[test]
fn a_document_without_agent_is_refused_for_it() {
    let r = parse("name: demo\ntools: [search]\nmodel: qwen-coder\n");
    assert_eq!(r, Err(ParseError::MissingField(Field::Agent)));
    assert_eq!(Field::Agent.path(), "agent");
}

#[test]
fn the_first_absent_field_is_the_one_reported() {
    assert_eq!(parse("agent: {}\n"), Err(ParseError::MissingField(Field::AgentName)));
    assert_eq!(parse("agent:\n  name: demo\n"), Err(ParseError::MissingField(Field::AgentTools)));
}

#[test]
fn wrong_content_is_reported_before_an_absent_field() {
    let r = parse("agent:\n  tools: [telepathy]\n");
    assert_eq!(r, Err(ParseError::UnknownTool("telepathy".to_string())));
    let r = parse("agent:\n  model: gpt-oss\n");
    assert_eq!(r, Err(ParseError::UnknownModel("gpt-oss".to_string())));
}

#[test]
fn text_that_is_no_yaml_is_malformed() {
    for text in ["agent: [unclosed", "agent:\n  name: demo\n  name: again\n", "a: 1\n---\nb: 2\n"] {
        match parse(text) {
            Err(ParseError::MalformedInput(diagnostic)) => assert!(!diagnostic.is_empty()),
            other => panic!("{:?} gave {:?}", text, other),
        }
    }
}

#[test]
fn a_document_that_is_no_mapping_is_malformed() {
    let complaint = "expected a mapping at the top of the document";
    assert_eq!(parse("- agent\n- demo\n"), Err(malformed(complaint)));
    assert_eq!(parse("just words"), Err(malformed(complaint)));
    assert_eq!(parse("42"), Err(malformed(complaint)));
    assert_eq!(validate(&Node::Null), Err(malformed(complaint)));
}

#[test]
fn an_agent_that_is_no_mapping_is_malformed() {
    let complaint = "agent: expected a mapping";
    assert_eq!(parse("agent: demo\n"), Err(malformed(complaint)));
    assert_eq!(parse("agent:\n"), Err(malformed(complaint)));
    assert_eq!(parse("agent: [demo]\n"), Err(malformed(complaint)));
}

#[test]
fn a_field_of_the_wrong_kind_is_malformed() {
    assert_eq!(
        parse("agent:\n  name: [demo]\n  tools: [search]\n  model: qwen-coder\n"),
        Err(malformed("agent.name: expected a string"))
    );
    assert_eq!(
        parse("agent:\n  name: 7\n  tools: [search]\n  model: qwen-coder\n"),
        Err(malformed("agent.name: expected a string"))
    );
    assert_eq!(
        parse("agent:\n  name: demo\n  tools: search\n  model: qwen-coder\n"),
        Err(malformed("agent.tools: expected a sequence of strings"))
    );
    assert_eq!(
        parse("agent:\n  name: demo\n  tools: [search, 3]\n  model: qwen-coder\n"),
        Err(malformed("agent.tools: expected a sequence of strings"))
    );
    assert_eq!(
        parse("agent:\n  name: demo\n  tools: [search]\n  model: {id: qwen-coder}\n"),
        Err(malformed("agent.model: expected a string"))
    );
}

#[test]
fn the_earlier_field_with_wrong_content_is_the_one_reported() {
    assert_eq!(
        parse("agent:\n  model: gpt-oss\n  tools: 5\n  name: [x]\n"),
        Err(malformed("agent.name: expected a string"))
    );
    assert_eq!(
        parse("agent:\n  model: gpt-oss\n  tools: 5\n  name: x\n"),
        Err(malformed("agent.tools: expected a sequence of strings"))
    );
}

#[test]
fn a_quoted_number_is_a_name() {
    let spec = parse("agent:\n  name: \"7\"\n  tools: []\n  model: qwen-coder\n").unwrap();
    assert_eq!(spec.agent.name, "7");
}

#[test]
fn validate_reads_a_tree_built_by_hand() {
    let document = Node::Table(vec![(
        text("agent"),
        Node::Table(vec![
            (text("name"), text("demo")),
            (text("tools"), Node::List(vec![text("webpage"), text("search")])),
            (text("model"), text("qwen-coder")),
        ]),
    )]);
    assert_eq!(validate(&document), Ok(demo(vec![Tool::Webpage, Tool::Search])));
}

#[test]
fn resolve_tools_goes_item_by_item() {
    assert_eq!(resolve_tools(&vec![]), Ok(vec![]));
    assert_eq!(
        resolve_tools(&vec![text("webpage"), text("search"), text("webpage")]),
        Ok(vec![Tool::Webpage, Tool::Search, Tool::Webpage])
    );
    assert_eq!(
        resolve_tools(&vec![text("webpage"), Node::Null, text("telepathy")]),
        Err(malformed("agent.tools: expected a sequence of strings"))
    );
    assert_eq!(
        resolve_tools(&vec![text("webpage"), text("telepathy"), Node::Null]),
        Err(ParseError::UnknownTool("telepathy".to_string()))
    );
}

#[test]
fn parse_errors_read_as_sentences() {
    assert_eq!(
        ParseError::MissingField(Field::AgentModel).message(),
        "missing field `agent.model`"
    );
    assert_eq!(
        ParseError::UnknownTool("telepathy".to_string()).message(),
        "unknown tool `telepathy`"
    );
    assert_eq!(ParseError::UnknownModel("gpt-oss".to_string()).message(), "unknown model `gpt-oss`");
    assert_eq!(malformed("agent: expected a mapping").message(), "malformed input: agent: expected a mapping");
}

#[test]
fn an_empty_text_is_malformed() {
    let complaint = "expected a mapping at the top of the document";
    assert_eq!(parse(""), Err(malformed(complaint)));
    assert_eq!(parse("# only a comment\n"), Err(malformed(complaint)));
}
