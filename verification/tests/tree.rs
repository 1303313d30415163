use girstub::tree::{Elem, Node};

#[test]
fn new_element_is_empty() {
    let e = Elem::new("type");
    assert_eq!(e.name, "type");
    assert!(e.attributes.is_empty());
    assert!(e.children.is_empty());
    assert_eq!(e.attr("name"), None);
    assert!(e.child("type").is_none());
    assert_eq!(e.text(), None);
}

#[test]
fn attribute_lookup_by_key() {
    let e = Elem::new("type").with_attribute("name", "gint").with_attribute("type", "int");
    assert_eq!(e.attr("name").map(|s| s.as_str()), Some("gint"));
    assert_eq!(e.attr("type").map(|s| s.as_str()), Some("int"));
    assert_eq!(e.attr("Name"), None);
    assert_eq!(e.attr(""), None);
}

#[test]
fn setting_an_attribute_again_replaces_its_value() {
    let e = Elem::new("type")
        .with_attribute("name", "first")
        .with_attribute("other", "kept")
        .with_attribute("name", "second");
    assert_eq!(e.attr("name").map(|s| s.as_str()), Some("second"));
    assert_eq!(e.attr("other").map(|s| s.as_str()), Some("kept"));
    assert_eq!(e.attributes.len(), 2);
}

#[test]
fn of_two_attributes_with_one_key_the_earlier_counts() {
    let mut e = Elem::new("type");
    e.attributes.push(("name".to_string(), "first".to_string()));
    e.attributes.push(("name".to_string(), "second".to_string()));
    assert_eq!(e.attr("name").map(|s| s.as_str()), Some("first"));
}

#[test]
fn first_child_with_the_tag_is_found() {
    let e = Elem::new("method")
        .with_text("lead")
        .with_child(Elem::new("doc").with_attribute("n", "1"))
        .with_child(Elem::new("return-value"))
        .with_child(Elem::new("doc").with_attribute("n", "2"));
    let doc = e.child("doc").unwrap();
    assert_eq!(doc.attr("n").map(|s| s.as_str()), Some("1"));
    assert!(e.child("return-value").is_some());
    assert!(e.child("parameters").is_none());
    assert!(e.child("lead").is_none());
}

#[test]
fn child_search_is_not_deep() {
    let e = Elem::new("a").with_child(Elem::new("b").with_child(Elem::new("c")));
    assert!(e.child("c").is_none());
    assert!(e.child("b").unwrap().child("c").is_some());
}

#[test]
fn text_joins_text_and_character_data() {
    let mut e = Elem::new("doc").with_text("one ");
    e.children.push(Node::Comment("not text".to_string()));
    e.children.push(Node::CData("two".to_string()));
    e.children.push(Node::Elem(Elem::new("b").with_text("inner")));
    e.children.push(Node::Instruction("pi".to_string(), Some("data".to_string())));
    e.children.push(Node::Text(" three".to_string()));
    assert_eq!(e.text(), Some("one two three".to_string()));
}

#[test]
fn text_is_absent_without_text_children() {
    let mut e = Elem::new("doc").with_child(Elem::new("b").with_text("inner"));
    e.children.push(Node::Comment("c".to_string()));
    assert_eq!(e.text(), None);
}

#[test]
fn empty_text_child_still_counts_as_text() {
    let e = Elem::new("doc").with_text("");
    assert_eq!(e.text(), Some(String::new()));
}

#[test]
fn builders_keep_order() {
    let e = Elem::new("p").with_child(Elem::new("a")).with_text("t").with_child(Elem::new("b"));
    assert_eq!(
        e.children,
        vec![
            Node::Elem(Elem::new("a")),
            Node::Text("t".to_string()),
            Node::Elem(Elem::new("b")),
        ]
    );
}
