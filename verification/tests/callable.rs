use girstub::callable::{
    documentation, extract_callable, hidden, native_type, parameter, parameters, return_types,
};
use girstub::model::Function;
use girstub::tree::Elem;

fn typed(tag: &str, name: Option<&str>, native: &str) -> Elem {
    let e = Elem::new(tag).with_child(Elem::new("type").with_attribute("name", native));
    match name {
        Some(n) => e.with_attribute("name", n),
        None => e,
    }
}

fn pair(a: &str, b: &str) -> (String, String) {
    (a.to_string(), b.to_string())
}

#[test]
fn full_callable() {
    let node = Elem::new("method")
        .with_attribute("name", "set_label")
        .with_child(Elem::new("doc").with_text("Sets the label."))
        .with_child(typed("return-value", None, "none"))
        .with_child(
            Elem::new("parameters")
                .with_child(typed("instance-parameter", Some("self"), "Button"))
                .with_child(typed("parameter", Some("label"), "utf8"))
                .with_child(typed("parameter", Some("parent"), "Widget"))
                .with_child(typed("parameter", Some("other"), "Gdk.Event")),
        );
    let expected = Function {
        name: "set_label".to_string(),
        doc: Some("Sets the label.".to_string()),
        params: vec![
            pair("label", "string"),
            pair("parent", "Gtk.Widget"),
            pair("other", "Gdk.Event"),
        ],
        returns: vec!["nil".to_string()],
    };
    assert_eq!(extract_callable(&node, "Gtk"), Some(expected));
}

#[test]
fn bare_callable_has_empty_parts() {
    let node = Elem::new("function").with_attribute("name", "init");
    let expected =
        Function { name: "init".to_string(), doc: None, params: vec![], returns: vec![] };
    assert_eq!(extract_callable(&node, "Gtk"), Some(expected));
}

#[test]
fn callable_marked_zero_is_excluded() {
    let node = Elem::new("method")
        .with_attribute("name", "secret")
        .with_attribute("introspectable", "0");
    assert!(hidden(&node));
    assert_eq!(extract_callable(&node, "Gtk"), None);
}

#[test]
fn callable_without_the_mark_is_included() {
    let node = Elem::new("method").with_attribute("name", "open");
    assert!(!hidden(&node));
    assert_eq!(extract_callable(&node, "Gtk").map(|f| f.name), Some("open".to_string()));
}

#[test]
fn callable_marked_otherwise_is_included() {
    for mark in ["1", "00", "", "false", " 0"] {
        let node = Elem::new("method")
            .with_attribute("name", "open")
            .with_attribute("introspectable", mark);
        assert!(!hidden(&node));
        assert!(extract_callable(&node, "Gtk").is_some());
    }
}

#[test]
fn callable_without_a_name_is_skipped() {
    let node = Elem::new("method").with_child(typed("return-value", None, "gint"));
    assert_eq!(extract_callable(&node, "Gtk"), None);
}

#[test]
fn pointer_parameter_is_dropped_at_any_place() {
    let names = ["a", "b", "c"];
    for place in 0..=names.len() {
        let mut list = Elem::new("parameters");
        for (i, name) in names.iter().enumerate() {
            if i == place {
                list = list.with_child(typed("parameter", Some("data"), "gpointer"));
            }
            list = list.with_child(typed("parameter", Some(name), "gint"));
        }
        if place == names.len() {
            list = list.with_child(typed("parameter", Some("data"), "gpointer"));
        }
        let node = Elem::new("function").with_attribute("name", "f").with_child(list);
        assert_eq!(
            parameters(&node, "Gtk"),
            vec![pair("a", "num"), pair("b", "num"), pair("c", "num")]
        );
    }
}

#[test]
fn only_pointer_parameters_leave_none() {
    let list = Elem::new("parameters")
        .with_child(typed("parameter", Some("x"), "gpointer"))
        .with_child(typed("parameter", Some("y"), "gpointer"));
    let node = Elem::new("function").with_attribute("name", "f").with_child(list);
    assert!(parameters(&node, "Gtk").is_empty());
}

#[test]
fn missing_parameter_list_is_empty() {
    let node = Elem::new("function").with_attribute("name", "f");
    assert!(parameters(&node, "Gtk").is_empty());
}

#[test]
fn parameter_without_name_or_type_is_dropped() {
    assert_eq!(parameter(&typed("parameter", None, "gint"), "Gtk"), None);
    assert_eq!(parameter(&Elem::new("parameter").with_attribute("name", "x"), "Gtk"), None);
    let untyped = Elem::new("parameter").with_attribute("name", "x").with_child(Elem::new("type"));
    assert_eq!(parameter(&untyped, "Gtk"), None);
    assert_eq!(parameter(&typed("parameter", Some("x"), "gint"), "Gtk"), Some(pair("x", "num")));
}

#[test]
fn only_the_first_parameter_list_is_read() {
    let node = Elem::new("function")
        .with_attribute("name", "f")
        .with_child(Elem::new("parameters").with_child(typed("parameter", Some("a"), "utf8")))
        .with_child(Elem::new("parameters").with_child(typed("parameter", Some("b"), "utf8")));
    assert_eq!(parameters(&node, "Gtk"), vec![pair("a", "string")]);
}

#[test]
fn scalar_type_comes_before_array() {
    let both = Elem::new("return-value")
        .with_child(Elem::new("array").with_attribute("name", "GLib.Array"))
        .with_child(Elem::new("type").with_attribute("name", "gint"));
    assert_eq!(native_type(&both).map(|s| s.as_str()), Some("gint"));
    let array_only =
        Elem::new("return-value").with_child(Elem::new("array").with_attribute("name", "GLib.Array"));
    assert_eq!(native_type(&array_only).map(|s| s.as_str()), Some("GLib.Array"));
    assert_eq!(native_type(&Elem::new("return-value")), None);
    let nameless = Elem::new("return-value")
        .with_child(Elem::new("type"))
        .with_child(Elem::new("array").with_attribute("name", "GLib.Array"));
    assert_eq!(native_type(&nameless), None);
}

#[test]
fn return_types_hold_one_translated_type_or_none() {
    let scalar = Elem::new("method").with_child(typed("return-value", None, "Widget"));
    assert_eq!(return_types(&scalar, "Gtk"), vec!["Gtk.Widget".to_string()]);
    let array = Elem::new("method").with_child(
        Elem::new("return-value").with_child(Elem::new("array").with_attribute("name", "GLib.Array")),
    );
    assert_eq!(return_types(&array, "Gtk"), vec!["GLib.Array".to_string()]);
    assert!(return_types(&Elem::new("method"), "Gtk").is_empty());
    let empty = Elem::new("method").with_child(Elem::new("return-value"));
    assert!(return_types(&empty, "Gtk").is_empty());
    let pointer = Elem::new("method").with_child(typed("return-value", None, "gpointer"));
    assert_eq!(return_types(&pointer, "Gtk"), vec!["Gtk.gpointer".to_string()]);
}

#[test]
fn documentation_is_the_text_of_the_first_doc_child() {
    let node = Elem::new("method")
        .with_child(Elem::new("doc").with_text("first"))
        .with_child(Elem::new("doc").with_text("second"));
    assert_eq!(documentation(&node), Some("first".to_string()));
    assert_eq!(documentation(&Elem::new("method")), None);
    assert_eq!(documentation(&Elem::new("method").with_child(Elem::new("doc"))), None);
}
