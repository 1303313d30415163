use girstub::error::WalkError;
use girstub::xml::{read_document, read_tree, ReadError};

const DEMO: &str = r#"<?xml version="1.0"?>
<repository version="1.2"
            xmlns="http://www.gtk.org/introspection/core/1.0"
            xmlns:c="http://www.gtk.org/introspection/c/1.0"
            xmlns:glib="http://www.gtk.org/introspection/glib/1.0">
  <include name="GObject" version="2.0"/>
  <namespace name="Demo" version="1.0" c:identifier-prefixes="Demo">
    <class name="Widget" c:type="DemoWidget" parent="GObject.Object">
      <constructor name="new" c:identifier="demo_widget_new">
        <return-value transfer-ownership="none">
          <type name="Widget" c:type="DemoWidget*"/>
        </return-value>
      </constructor>
    </class>
    <enumeration name="Mode" c:type="DemoMode">
      <member name="a" value="0" c:identifier="DEMO_MODE_A"/>
      <member name="b" value="1" c:identifier="DEMO_MODE_B"/>
    </enumeration>
  </namespace>
</repository>"#;

#[test]
fn minimal_namespace_end_to_end() {
    let document = read_document(DEMO).unwrap().unwrap();
    assert_eq!(document.namespace, "Demo");
    assert_eq!(document.classes.len(), 1);
    assert_eq!(document.classes[0].name, "Widget");
    assert_eq!(document.classes[0].constructors.len(), 1);
    assert!(document.classes[0].constructors[0].params.is_empty());
    assert_eq!(document.classes[0].constructors[0].returns, vec!["Demo.Widget".to_string()]);
    assert_eq!(document.enums, vec!["Demo.Mode.A".to_string(), "Demo.Mode.B".to_string()]);
}

#[test]
fn malformed_text_is_reported() {
    assert!(matches!(read_document("<a><b></a>"), Err(ReadError::Malformed(_))));
    assert!(matches!(read_document(""), Err(ReadError::Malformed(_))));
    assert!(matches!(read_document("no markup at all"), Err(ReadError::Malformed(_))));
}

#[test]
fn unknown_tag_in_the_text_is_fatal() {
    let text = r#"<repository><namespace name="Demo">
        <function name="init"/>
        <deprecated-marker/>
    </namespace></repository>"#;
    assert_eq!(
        read_document(text),
        Err(ReadError::Walk(WalkError::UnknownNamespaceChild("deprecated-marker".to_string())))
    );
}

#[test]
fn text_without_a_namespace_gives_no_document() {
    assert_eq!(read_document("<repository><include name=\"GLib\"/></repository>"), Ok(None));
}

#[test]
fn documentation_and_parameters_come_through_the_parser() {
    let text = r#"<repository><namespace name="Gtk">
      <function name="run" c:identifier="gtk_run" xmlns:c="c">
        <doc xml:space="preserve">Runs &amp; waits.<![CDATA[ <done>]]></doc>
        <return-value><type name="gboolean"/></return-value>
        <parameters>
          <parameter name="data"><type name="gpointer"/></parameter>
          <parameter name="label"><type name="utf8"/></parameter>
          <!-- a comment between parameters -->
          <parameter name="count"><type name="guint"/></parameter>
        </parameters>
      </function>
      <function name="hidden" introspectable="0"/>
    </namespace></repository>"#;
    let document = read_document(text).unwrap().unwrap();
    assert_eq!(document.functions.len(), 1);
    let run = &document.functions[0];
    assert_eq!(run.name, "run");
    assert_eq!(run.doc, Some("Runs & waits. <done>".to_string()));
    assert_eq!(run.returns, vec!["boolean".to_string()]);
    assert_eq!(
        run.params,
        vec![("label".to_string(), "string".to_string()), ("count".to_string(), "num".to_string())]
    );
}

#[test]
fn tree_holds_what_the_text_holds() {
    let root = read_tree("<a k=\"v\"><b/>text<!--c--><![CDATA[raw]]><?pi data?></a>").unwrap();
    assert_eq!(root.name, "a");
    assert_eq!(root.attr("k").map(|s| s.as_str()), Some("v"));
    assert_eq!(root.children.len(), 5);
    assert!(root.child("b").is_some());
    assert_eq!(root.text(), Some("textraw".to_string()));
}

#[test]
fn attributes_are_kept_by_local_name() {
    let root = read_tree("<a xmlns:c=\"urn:c\" c:type=\"T\" name=\"n\"/>").unwrap();
    assert_eq!(root.attr("type").map(|s| s.as_str()), Some("T"));
    assert_eq!(root.attr("name").map(|s| s.as_str()), Some("n"));
    assert_eq!(root.attr("c:type"), None);
}

const EXCERPT: &str = r#"<?xml version="1.0"?>
<repository version="1.2"
            xmlns="http://www.gtk.org/introspection/core/1.0"
            xmlns:c="http://www.gtk.org/introspection/c/1.0"
            xmlns:glib="http://www.gtk.org/introspection/glib/1.0">
  <include name="Gdk" version="3.0"/>
  <package name="gtk+-3.0"/>
  <namespace name="Gtk" version="3.0" shared-library="libgtk-3.so.0"
             c:identifier-prefixes="Gtk" c:symbol-prefixes="gtk">
    <alias name="Allocation" c:type="GtkAllocation">
      <type name="Gdk.Rectangle" c:type="GdkRectangle"/>
    </alias>
    <bitfield name="AccelFlags" c:type="GtkAccelFlags">
      <member name="visible" value="1" c:identifier="GTK_ACCEL_VISIBLE"/>
    </bitfield>
    <class name="Button" c:symbol-prefix="button" parent="Bin">
      <doc xml:space="preserve">A button.
It can be clicked.</doc>
      <source-position filename="gtk/gtkbutton.h" line="62"/>
      <implements name="Actionable"/>
      <constructor name="new_with_label" c:identifier="gtk_button_new_with_label">
        <return-value transfer-ownership="none">
          <type name="Widget" c:type="GtkWidget*"/>
        </return-value>
        <parameters>
          <parameter name="label" transfer-ownership="none">
            <type name="utf8" c:type="const gchar*"/>
          </parameter>
        </parameters>
      </constructor>
      <method name="get_label" c:identifier="gtk_button_get_label">
        <return-value><type name="utf8"/></return-value>
        <parameters>
          <instance-parameter name="button"><type name="Button"/></instance-parameter>
        </parameters>
      </method>
      <virtual-method name="clicked">
        <return-value><type name="none"/></return-value>
      </virtual-method>
      <property name="label" writable="1"><type name="utf8"/></property>
      <field name="bin"><type name="Bin"/></field>
      <field name="priv" readable="0">
        <doc xml:space="preserve">private data</doc>
        <type name="ButtonPrivate"/>
      </field>
      <glib:signal name="clicked" when="first">
        <return-value><type name="none"/></return-value>
      </glib:signal>
    </class>
    <function name="init" c:identifier="gtk_init">
      <return-value><type name="none"/></return-value>
      <parameters>
        <parameter name="argc"><type name="gint"/></parameter>
        <parameter name="argv"><array c:type="char***"><type name="utf8"/></array></parameter>
        <parameter name="data"><type name="gpointer"/></parameter>
        <parameter name="window"><type name="Gdk.Window"/></parameter>
      </parameters>
    </function>
    <function-macro name="BUTTON" c:identifier="GTK_BUTTON" introspectable="0">
      <parameters><parameter name="obj"/></parameters>
    </function-macro>
    <function-macro name="CHECK_VERSION" c:identifier="GTK_CHECK_VERSION">
      <parameters><parameter name="major"/></parameters>
    </function-macro>
    <enumeration name="Align" c:type="GtkAlign">
      <member name="start" value="1" c:identifier="GTK_ALIGN_START"/>
      <member name="end" value="2" c:identifier="GTK_ALIGN_END"/>
    </enumeration>
    <record name="ButtonClass" c:type="GtkButtonClass">
      <field name="parent_class"><type name="BinClass"/></field>
    </record>
    <constant name="MAJOR_VERSION" value="3"><type name="gint"/></constant>
    <callback name="Callback"><return-value><type name="none"/></return-value></callback>
    <interface name="Actionable"/>
    <docsection name="overview"/>
    <glib:boxed glib:name="Boxed"/>
  </namespace>
</repository>"#;

#[test]
fn excerpt_of_a_real_file() {
    let document = read_document(EXCERPT).unwrap().unwrap();
    assert_eq!(document.namespace, "Gtk");
    assert_eq!(document.classes.len(), 1);
    let button = &document.classes[0];
    assert_eq!(button.name, "Button");
    assert_eq!(button.doc, Some("A button.\nIt can be clicked.".to_string()));
    assert_eq!(button.constructors.len(), 1);
    assert_eq!(button.constructors[0].name, "new_with_label");
    assert_eq!(
        button.constructors[0].params,
        vec![("label".to_string(), "string".to_string())]
    );
    assert_eq!(button.constructors[0].returns, vec!["Gtk.Widget".to_string()]);
    assert!(button.functions.is_empty());
    assert_eq!(button.methods.len(), 1);
    assert_eq!(button.methods[0].name, "get_label");
    assert!(button.methods[0].params.is_empty());
    assert_eq!(button.methods[0].returns, vec!["string".to_string()]);
    assert_eq!(button.virtual_methods.len(), 1);
    assert_eq!(button.virtual_methods[0].returns, vec!["nil".to_string()]);
    assert_eq!(button.fields, vec![("priv".to_string(), "private data".to_string())]);

    assert_eq!(document.functions.len(), 1);
    let init = &document.functions[0];
    assert_eq!(init.name, "init");
    assert_eq!(init.returns, vec!["nil".to_string()]);
    assert_eq!(
        init.params,
        vec![
            ("argc".to_string(), "num".to_string()),
            ("window".to_string(), "Gdk.Window".to_string()),
        ]
    );
    assert_eq!(document.macros.len(), 1);
    assert_eq!(document.macros[0].name, "CHECK_VERSION");
    assert!(document.macros[0].params.is_empty());
    assert_eq!(document.enums, vec!["Gtk.Align.START".to_string(), "Gtk.Align.END".to_string()]);
}
