use tachi::document::Node;
use tachi::yaml::read;

fn text(content: &str) -> Node {
    Node::Text(content.to_string())
}

#[test]
fn field_finds_the_value_under_a_key() {
    let table = Node::Table(vec![(text("a"), text("1")), (text("b"), text("2"))]);
    assert_eq!(table.field("a"), Some(&text("1")));
    assert_eq!(table.field("b"), Some(&text("2")));
    assert_eq!(table.field("c"), None);
}

#[test]
fn field_takes_the_first_of_two_entries_with_one_key() {
    let table = Node::Table(vec![(text("a"), text("first")), (text("a"), text("second"))]);
    assert_eq!(table.field("a"), Some(&text("first")));
}

#[test]
fn field_looks_at_text_keys_only() {
    let table = Node::Table(vec![
        (Node::Number("1".to_string()), text("number")),
        (Node::Null, text("null")),
        (text("1"), text("text")),
    ]);
    assert_eq!(table.field("1"), Some(&text("text")));
    assert_eq!(table.field("null"), None);
}

#[test]
fn only_a_table_has_fields() {
    assert_eq!(text("a").field("a"), None);
    assert_eq!(Node::List(vec![text("a")]).field("a"), None);
    assert_eq!(Node::Null.field("a"), None);
}

#[test]
fn accessors_tell_the_kinds_apart() {
    let list = Node::List(vec![text("x")]);
    let table = Node::Table(vec![]);
    assert_eq!(text("x").as_text(), Some(&"x".to_string()));
    assert_eq!(list.as_text(), None);
    assert_eq!(list.as_list(), Some(&vec![text("x")]));
    assert_eq!(text("x").as_list(), None);
    assert!(table.is_table());
    assert!(!list.is_table());
    assert!(text("x").is_text("x"));
    assert!(!text("x").is_text("y"));
    assert!(!Node::Number("x".to_string()).is_text("x"));
}

#[test]
fn read_gives_the_tree_of_a_yaml_text() {
    let node = read("agent:\n  name: demo\n  tools:\n    - search\n    - webpage\n  model: qwen-coder\n")
        .unwrap();
    let expected = Node::Table(vec![(
        text("agent"),
        Node::Table(vec![
            (text("name"), text("demo")),
            (text("tools"), Node::List(vec![text("search"), text("webpage")])),
            (text("model"), text("qwen-coder")),
        ]),
    )]);
    assert_eq!(node, expected);
}

#[test]
fn read_keeps_the_order_of_entries() {
    let node = read("z: 1\na: 2\nm: 3\n").unwrap();
    let expected = Node::Table(vec![
        (text("z"), Node::Number("1".to_string())),
        (text("a"), Node::Number("2".to_string())),
        (text("m"), Node::Number("3".to_string())),
    ]);
    assert_eq!(node, expected);
}

#[test]
fn read_tells_scalars_apart() {
    assert_eq!(read("~").unwrap(), Node::Null);
    assert_eq!(read("true").unwrap(), Node::Flag(true));
    assert_eq!(read("-17").unwrap(), Node::Number("-17".to_string()));
    assert_eq!(read("1.5").unwrap(), Node::Number("1.5".to_string()));
    assert_eq!(read("\"17\"").unwrap(), text("17"));
    assert_eq!(read("plain words").unwrap(), text("plain words"));
}

#[test]
fn read_keeps_tags() {
    let node = read("!thing value").unwrap();
    assert_eq!(node, Node::Tagged("!thing".to_string(), Box::new(text("value"))));
}

#[test]
fn read_refuses_what_is_no_single_document() {
    assert!(read("agent: [unclosed").is_err());
    assert!(read("a: 1\n---\nb: 2\n").is_err());
    assert!(read("a: 1\na: 2\n").is_err());
    assert!(read("key: \"unterminated").is_err());
}
