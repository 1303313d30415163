use girstub::text::{has_separator, qualify};
use girstub::types::translate;

#[test]
fn primitive_names_ignore_the_namespace() {
    for ns in ["Gtk", "", "A.B", "utf8"] {
        assert_eq!(translate("utf8", ns), "string");
        assert_eq!(translate("gboolean", ns), "boolean");
        assert_eq!(translate("gint64", ns), "num");
        assert_eq!(translate("none", ns), "nil");
    }
}

#[test]
fn local_names_are_qualified_and_qualified_names_pass() {
    assert_eq!(translate("Widget", "Gtk"), "Gtk.Widget");
    assert_eq!(translate("Gtk.Widget", "Foo"), "Gtk.Widget");
}

#[test]
fn every_spelling_of_a_text_is_a_string() {
    for native in ["utf8", "filename", "gchar*", "const gchar*", "char*", "const char*"] {
        assert_eq!(translate(native, "Gtk"), "string");
    }
}

#[test]
fn every_spelling_of_a_truth_value_is_a_boolean() {
    for native in ["gboolean", "boolean", "bool"] {
        assert_eq!(translate(native, "Gtk"), "boolean");
    }
}

#[test]
fn every_integer_and_size_type_is_a_num() {
    for native in [
        "gint", "guint", "gint8", "guint8", "gint16", "guint16", "gint32", "guint32", "gint64",
        "guint64", "gshort", "gushort", "glong", "gulong", "gsize", "gssize",
    ] {
        assert_eq!(translate(native, "Gtk"), "num");
    }
}

#[test]
fn the_table_comes_before_the_separator_rule() {
    // A C spelling holds no separator, yet it is not put under the namespace.
    assert_eq!(translate("const char*", "GLib"), "string");
    assert_ne!(translate("const char*", "GLib"), "GLib.const char*");
}

#[test]
fn names_outside_the_table_are_not_primitives() {
    assert_eq!(translate("gdouble", "Gtk"), "Gtk.gdouble");
    assert_eq!(translate("gpointer", "Gtk"), "Gtk.gpointer");
    assert_eq!(translate("UTF8", "Gtk"), "Gtk.UTF8");
    assert_eq!(translate("gint64 ", "Gtk"), "Gtk.gint64 ");
}

#[test]
fn edge_names() {
    assert_eq!(translate("", "Gtk"), "Gtk.");
    assert_eq!(translate("Widget", ""), ".Widget");
    assert_eq!(translate(".", "Gtk"), ".");
    assert_eq!(translate("Gdk.Event.Key", "Gtk"), "Gdk.Event.Key");
    assert_eq!(translate("Fenêtre", "Gtk"), "Gtk.Fenêtre");
}

#[test]
fn separator_is_found_anywhere() {
    assert!(has_separator("a.b"));
    assert!(has_separator(".ab"));
    assert!(has_separator("ab."));
    assert!(!has_separator("ab"));
    assert!(!has_separator(""));
    assert!(!has_separator("a,b"));
}

#[test]
fn qualify_joins_with_one_separator() {
    assert_eq!(qualify("Gtk", "Align"), "Gtk.Align");
    assert_eq!(qualify("", ""), ".");
}
