//! What holds of the translation and of the walks, for every input.

use vstd::prelude::*;
use crate::callable::{
    callable_of,
    is_hidden,
    is_opaque,
    native_type_of,
    parameter_entry,
    role_entry,
};
use crate::class::{
    class_child_failure,
    class_doc,
    class_child_known,
    class_of,
    class_outcome,
    field_entry,
    lemma_class_tags,
};
use crate::document::{
    class_entry,
    constants_entry,
    document_outcome,
    ingest_outcome,
    lemma_namespace_tags,
    namespace_child_failure,
    namespace_child_known,
};
use crate::model::FunctionView;
use crate::seqs::{
    lemma_filter_map_insert_dropped,
    lemma_filter_map_kept,
    lemma_filter_map_push_kept,
    lemma_flat_map_insert_empty,
};
use crate::text::{qualified, separator};
use crate::tree::{ElemView, NodeView};
use crate::types::{
    boolean_like,
    is_primitive,
    lemma_families_apart,
    lemma_table_is_plain,
    nothing_like,
    number_like,
    string_like,
    translated,
};

verus! {

/// The element with one more child, an element, at place `i`.
pub open spec fn with_child(e: ElemView, i: int, child: ElemView) -> ElemView {
    ElemView {
        name: e.name,
        attributes: e.attributes,
        children: e.children.insert(i, NodeView::Elem(child)),
    }
}

/// Whether the tag is that of a callable inside a class.
pub open spec fn is_role(tag: Seq<char>) -> bool {
    ||| tag == "constructor"@
    ||| tag == "function"@
    ||| tag == "method"@
    ||| tag == "virtual-method"@
}

/// In every namespace `utf8` is a `string`, `gboolean` a `boolean`, `gint64`
/// a `num` and `none` is `nil`.
pub proof fn law_primitives_in_every_namespace(namespace: Seq<char>)
    ensures
        translated("utf8"@, namespace) == "string"@,
        translated("gboolean"@, namespace) == "boolean"@,
        translated("gint64"@, namespace) == "num"@,
        translated("none"@, namespace) == "nil"@,
{
    lemma_families_apart("gboolean"@);
    lemma_families_apart("gint64"@);
    lemma_families_apart("none"@);
}

/// A name of one family of the fixed table translates to that family's
/// target, whatever the namespace.
pub proof fn law_each_family_has_its_target(native: Seq<char>, namespace: Seq<char>)
    ensures
        string_like(native) ==> translated(native, namespace) == "string"@,
        boolean_like(native) ==> translated(native, namespace) == "boolean"@,
        number_like(native) ==> translated(native, namespace) == "num"@,
        nothing_like(native) ==> translated(native, namespace) == "nil"@,
{
    lemma_families_apart(native);
}

/// A name of the fixed table translates alike in any two namespaces.
pub proof fn law_primitive_ignores_namespace(native: Seq<char>, a: Seq<char>, b: Seq<char>)
    requires
        is_primitive(native),
    ensures
        translated(native, a) == translated(native, b),
{
}

/// A name that holds the separator passes unchanged.
pub proof fn law_qualified_name_passes(native: Seq<char>, namespace: Seq<char>)
    requires
        native.contains(separator()),
    ensures
        translated(native, namespace) == native,
{
    if is_primitive(native) {
        lemma_table_is_plain(native);
    }
}

/// A name outside the fixed table that holds no separator is put under the
/// enclosing namespace.
pub proof fn law_local_name_is_qualified(native: Seq<char>, namespace: Seq<char>)
    requires
        !is_primitive(native),
        !native.contains(separator()),
    ensures
        translated(native, namespace) == qualified(namespace, native),
{
}

/// An element describes a callable exactly when it has a name and is not
/// marked as unusable from bindings: with the mark `0` it is skipped,
/// without any mark it is kept.
pub proof fn law_callable_kept_unless_hidden(e: ElemView, namespace: Seq<char>)
    ensures
        callable_of(e, namespace) is Some <==> e.attr("name"@) is Some && !is_hidden(e),
        e.attr("introspectable"@) == Some("0"@) ==> callable_of(e, namespace) is None,
        e.attr("introspectable"@) is None && e.attr("name"@) is Some ==> callable_of(
            e,
            namespace,
        ) is Some,
{
}

/// A node that is no `doc` element can be put in anywhere without changing
/// the documentation of the class.
proof fn lemma_class_doc_insert(nodes: Seq<NodeView>, i: int, x: NodeView)
    requires
        0 <= i <= nodes.len(),
        !(x is Elem && x->Elem_0.name == "doc"@),
    ensures
        class_doc(nodes.insert(i, x)) == class_doc(nodes),
    decreases nodes.len() - i,
{
    let longer = nodes.insert(i, x);
    if i == nodes.len() {
        assert(longer.drop_last() =~= nodes);
    } else {
        assert(longer.drop_last() =~= nodes.drop_last().insert(i, x));
        if !(nodes.last() is Elem && nodes.last()->Elem_0.name == "doc"@) {
            lemma_class_doc_insert(nodes.drop_last(), i, x);
        }
    }
}

/// A callable that is marked as unusable from bindings, put among the
/// children of a class at any place, changes nothing: the walk ends as it
/// does without it.
pub proof fn law_hidden_callable_in_class(
    class: ElemView,
    i: int,
    callable: ElemView,
    namespace: Seq<char>,
)
    requires
        0 <= i <= class.children.len(),
        is_role(callable.name),
        is_hidden(callable),
    ensures
        class_outcome(with_child(class, i, callable), namespace) == class_outcome(class, namespace),
{
    let x = NodeView::Elem(callable);
    let nodes = class.children;
    lemma_class_tags();
    lemma_filter_map_insert_dropped(nodes, class_child_failure(), i, x);
    lemma_filter_map_insert_dropped(nodes, role_entry("constructor"@, namespace), i, x);
    lemma_filter_map_insert_dropped(nodes, role_entry("function"@, namespace), i, x);
    lemma_filter_map_insert_dropped(nodes, role_entry("method"@, namespace), i, x);
    lemma_filter_map_insert_dropped(nodes, role_entry("virtual-method"@, namespace), i, x);
    lemma_filter_map_insert_dropped(nodes, field_entry(), i, x);
    lemma_class_doc_insert(nodes, i, x);
}

/// A function or macro that is marked as unusable from bindings, put among
/// the children of a namespace at any place, changes nothing.
pub proof fn law_hidden_callable_in_namespace(namespace: ElemView, i: int, callable: ElemView)
    requires
        0 <= i <= namespace.children.len(),
        callable.name == "function"@ || callable.name == "function-macro"@,
        is_hidden(callable),
    ensures
        document_outcome(with_child(namespace, i, callable)) == document_outcome(namespace),
{
    let x = NodeView::Elem(callable);
    let nodes = namespace.children;
    lemma_namespace_tags();
    lemma_filter_map_insert_dropped(nodes, namespace_child_failure(), i, x);
    if namespace.attr("name"@) is Some {
        let ns = namespace.attr("name"@)->0;
        lemma_filter_map_insert_dropped(nodes, class_entry(ns), i, x);
        lemma_filter_map_insert_dropped(nodes, role_entry("function"@, ns), i, x);
        lemma_filter_map_insert_dropped(nodes, role_entry("function-macro"@, ns), i, x);
        lemma_flat_map_insert_empty(nodes, constants_entry(ns), i, x);
    }
}

/// A callable joins the sequence of the role whose tag it has, behind what
/// is there, if it is kept; it joins no other.
pub proof fn law_callable_joins_its_role_only(
    nodes: Seq<NodeView>,
    callable: ElemView,
    role: Seq<char>,
    namespace: Seq<char>,
)
    ensures
        nodes.push(NodeView::Elem(callable)).filter_map(role_entry(role, namespace)) == if callable.name
            == role && callable_of(callable, namespace) is Some {
            nodes.filter_map(role_entry(role, namespace)).push(callable_of(callable, namespace)->0)
        } else {
            nodes.filter_map(role_entry(role, namespace))
        },
{
    lemma_filter_map_push_kept(nodes, role_entry(role, namespace), NodeView::Elem(callable));
}

/// Every callable in the sequence of a role comes from an element with the
/// role's tag that has a name and is not marked as unusable from bindings.
pub proof fn law_every_callable_is_visible(
    nodes: Seq<NodeView>,
    role: Seq<char>,
    namespace: Seq<char>,
    callable: FunctionView,
)
    requires
        nodes.filter_map(role_entry(role, namespace)).contains(callable),
    ensures
        exists|i: int|
            {
                &&& 0 <= i < nodes.len()
                &&& (#[trigger] nodes[i]) is Elem
                &&& nodes[i]->Elem_0.name == role
                &&& nodes[i]->Elem_0.attr("name"@) == Some(callable.name)
                &&& !is_hidden(nodes[i]->Elem_0)
                &&& callable_of(nodes[i]->Elem_0, namespace) == Some(callable)
            },
{
    nodes.lemma_filter_map_contains(role_entry(role, namespace), callable);
    let source = choose|t: NodeView| #[trigger]
        nodes.contains(t) && role_entry(role, namespace)(t) == Some(callable);
    let i = choose|i: int| 0 <= i < nodes.len() && nodes[i] == source;
    assert(nodes[i] is Elem);
}

/// Whether a node is a callable that the role keeps: an element with the
/// role's tag that describes a callable.
pub open spec fn kept_in_role(role: Seq<char>, namespace: Seq<char>) -> spec_fn(NodeView) -> bool {
    |n: NodeView| n is Elem && n->Elem_0.name == role && callable_of(n->Elem_0, namespace) is Some
}

/// The sequence of a role has one entry for each child with the role's tag
/// that is kept, wherever among the children it stands.
pub proof fn law_role_counts_its_callables(
    nodes: Seq<NodeView>,
    role: Seq<char>,
    namespace: Seq<char>,
)
    ensures
        nodes.filter_map(role_entry(role, namespace)).len() == nodes.filter(
            kept_in_role(role, namespace),
        ).len(),
    decreases nodes.len(),
{
    if nodes.len() == 0 {
        reveal(Seq::filter);
    } else {
        let rest = nodes.drop_last();
        let last = nodes.last();
        assert(nodes =~= rest.push(last));
        law_role_counts_its_callables(rest, role, namespace);
        lemma_filter_map_push_kept(rest, role_entry(role, namespace), last);
        rest.lemma_filter_push(last, kept_in_role(role, namespace));
    }
}

/// Whether a node is a callable that a class keeps: an element with the tag
/// of a role that describes a callable.
pub open spec fn kept_in_class(namespace: Seq<char>) -> spec_fn(NodeView) -> bool {
    |n: NodeView|
        n is Elem && is_role(n->Elem_0.name) && callable_of(n->Elem_0, namespace) is Some
}

/// The four roles part the callables of a class: every callable that is kept
/// is in the sequence of one role and in no other, so that the four
/// sequences together are as long as the kept callables are many.
pub proof fn law_roles_part_the_callables(nodes: Seq<NodeView>, namespace: Seq<char>)
    ensures
        nodes.filter_map(role_entry("constructor"@, namespace)).len() + nodes.filter_map(
            role_entry("function"@, namespace),
        ).len() + nodes.filter_map(role_entry("method"@, namespace)).len() + nodes.filter_map(
            role_entry("virtual-method"@, namespace),
        ).len() == nodes.filter(kept_in_class(namespace)).len(),
    decreases nodes.len(),
{
    if nodes.len() == 0 {
        reveal(Seq::filter);
    } else {
        let rest = nodes.drop_last();
        let last = nodes.last();
        assert(nodes =~= rest.push(last));
        law_roles_part_the_callables(rest, namespace);
        lemma_class_tags();
        lemma_filter_map_push_kept(rest, role_entry("constructor"@, namespace), last);
        lemma_filter_map_push_kept(rest, role_entry("function"@, namespace), last);
        lemma_filter_map_push_kept(rest, role_entry("method"@, namespace), last);
        lemma_filter_map_push_kept(rest, role_entry("virtual-method"@, namespace), last);
        rest.lemma_filter_push(last, kept_in_class(namespace));
    }
}

/// A parameter whose declared type is the untyped pointer, put among the
/// children of a parameter list at any place, adds nothing to the parameters.
pub proof fn law_opaque_parameter_is_dropped(
    nodes: Seq<NodeView>,
    i: int,
    parameter: ElemView,
    namespace: Seq<char>,
)
    requires
        0 <= i <= nodes.len(),
        native_type_of(parameter) == Some("gpointer"@),
    ensures
        nodes.insert(i, NodeView::Elem(parameter)).filter_map(parameter_entry(namespace))
            == nodes.filter_map(parameter_entry(namespace)),
{
    lemma_filter_map_insert_dropped(
        nodes,
        parameter_entry(namespace),
        i,
        NodeView::Elem(parameter),
    );
}

/// Every parameter of a callable comes from a `parameter` element that has
/// a name and a declared type other than the untyped pointer.
pub proof fn law_parameters_are_never_opaque(
    nodes: Seq<NodeView>,
    namespace: Seq<char>,
    parameter: (Seq<char>, Seq<char>),
)
    requires
        nodes.filter_map(parameter_entry(namespace)).contains(parameter),
    ensures
        exists|i: int|
            {
                &&& 0 <= i < nodes.len()
                &&& (#[trigger] nodes[i]) is Elem
                &&& nodes[i]->Elem_0.name == "parameter"@
                &&& nodes[i]->Elem_0.attr("name"@) == Some(parameter.0)
                &&& native_type_of(nodes[i]->Elem_0) is Some
                &&& !is_opaque(native_type_of(nodes[i]->Elem_0)->0)
                &&& parameter.1 == translated(native_type_of(nodes[i]->Elem_0)->0, namespace)
            },
{
    nodes.lemma_filter_map_contains(parameter_entry(namespace), parameter);
    let source = choose|t: NodeView| #[trigger]
        nodes.contains(t) && parameter_entry(namespace)(t) == Some(parameter);
    let i = choose|i: int| 0 <= i < nodes.len() && nodes[i] == source;
    assert(nodes[i] is Elem);
}

/// A named class whose children are one constructor, one method and one
/// virtual method, each of them kept, has that one callable in each of the
/// three sequences and nothing in the functions and the fields.
pub proof fn law_one_callable_of_each_role(
    class: ElemView,
    constructor: ElemView,
    method: ElemView,
    virtual_method: ElemView,
    namespace: Seq<char>,
)
    requires
        class.attr("name"@) is Some,
        class.children == seq![
            NodeView::Elem(constructor),
            NodeView::Elem(method),
            NodeView::Elem(virtual_method),
        ],
        constructor.name == "constructor"@,
        method.name == "method"@,
        virtual_method.name == "virtual-method"@,
        callable_of(constructor, namespace) is Some,
        callable_of(method, namespace) is Some,
        callable_of(virtual_method, namespace) is Some,
    ensures
        class_outcome(class, namespace) is Ok,
        class_of(class, namespace) matches Some(built) && {
            &&& built.constructors == seq![callable_of(constructor, namespace)->0]
            &&& built.methods == seq![callable_of(method, namespace)->0]
            &&& built.virtual_methods == seq![callable_of(virtual_method, namespace)->0]
            &&& built.functions.len() == 0
            &&& built.fields.len() == 0
        },
{
    lemma_class_tags();
    let c = NodeView::Elem(constructor);
    let m = NodeView::Elem(method);
    let v = NodeView::Elem(virtual_method);
    let none = Seq::<NodeView>::empty();
    assert(class.children =~= none.push(c).push(m).push(v));
    lemma_filter_map_push_kept(none, class_child_failure(), c);
    lemma_filter_map_push_kept(none.push(c), class_child_failure(), m);
    lemma_filter_map_push_kept(none.push(c).push(m), class_child_failure(), v);
    lemma_filter_map_push_kept(none, field_entry(), c);
    lemma_filter_map_push_kept(none.push(c), field_entry(), m);
    lemma_filter_map_push_kept(none.push(c).push(m), field_entry(), v);
    law_callable_joins_its_role_only(none, constructor, "constructor"@, namespace);
    law_callable_joins_its_role_only(none.push(c), method, "constructor"@, namespace);
    law_callable_joins_its_role_only(none.push(c).push(m), virtual_method, "constructor"@, namespace);
    law_callable_joins_its_role_only(none, constructor, "method"@, namespace);
    law_callable_joins_its_role_only(none.push(c), method, "method"@, namespace);
    law_callable_joins_its_role_only(none.push(c).push(m), virtual_method, "method"@, namespace);
    law_callable_joins_its_role_only(none, constructor, "virtual-method"@, namespace);
    law_callable_joins_its_role_only(none.push(c), method, "virtual-method"@, namespace);
    law_callable_joins_its_role_only(
        none.push(c).push(m),
        virtual_method,
        "virtual-method"@,
        namespace,
    );
    law_callable_joins_its_role_only(none, constructor, "function"@, namespace);
    law_callable_joins_its_role_only(none.push(c), method, "function"@, namespace);
    law_callable_joins_its_role_only(none.push(c).push(m), virtual_method, "function"@, namespace);
}

/// A class with a child element whose tag is not known gives an error and
/// no class.
pub proof fn law_unknown_class_child_fails(class: ElemView, i: int, namespace: Seq<char>)
    requires
        0 <= i < class.children.len(),
        class.children[i] is Elem,
        !class_child_known(class.children[i]->Elem_0.name),
    ensures
        class_outcome(class, namespace) is Err,
{
    lemma_filter_map_kept(class.children, class_child_failure(), i);
}

/// A namespace with a child element whose tag is not known gives an error
/// and no document, and so does the file whose namespace it is.
pub proof fn law_unknown_namespace_child_fails(root: ElemView, namespace: ElemView, i: int)
    requires
        0 <= i < namespace.children.len(),
        namespace.children[i] is Elem,
        !namespace_child_known(namespace.children[i]->Elem_0.name),
    ensures
        document_outcome(namespace) is Err,
        root.child("namespace"@) == Some(namespace) ==> ingest_outcome(root) is Err,
{
    lemma_filter_map_kept(namespace.children, namespace_child_failure(), i);
}

/// A namespace that holds a class whose walk fails gives an error and no
/// document.
pub proof fn law_failing_class_fails_namespace(namespace: ElemView, i: int, any: Seq<char>)
    requires
        0 <= i < namespace.children.len(),
        namespace.children[i] is Elem,
        namespace.children[i]->Elem_0.name == "class"@,
        class_outcome(namespace.children[i]->Elem_0, any) is Err,
    ensures
        document_outcome(namespace) is Err,
{
    lemma_filter_map_kept(namespace.children, namespace_child_failure(), i);
}

} // verus!
