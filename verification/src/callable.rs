//! Extraction of one callable: its name, documentation, parameters and
//! return types.

use vstd::prelude::*;
use crate::model::{Function, FunctionView};
use crate::tree::{Elem, ElemView, Node, NodeView};
use crate::types::{translate, translated};

verus! {

/// The native type name that a parameter or a return value declares: the
/// name of its `type` child where it has one, else that of its `array` child.
pub open spec fn native_type_of(e: ElemView) -> Option<Seq<char>> {
    match e.child("type"@) {
        Some(scalar) => scalar.attr("name"@),
        None => match e.child("array"@) {
            Some(array) => array.attr("name"@),
            None => None,
        },
    }
}

/// Whether a native type name is the untyped pointer, of which a reader of
/// the stubs learns nothing.
pub open spec fn is_opaque(native: Seq<char>) -> bool {
    native == "gpointer"@
}

/// The name and translated type of one `parameter` element. A parameter that
/// lacks either, or whose type is the untyped pointer, gives nothing.
pub open spec fn parameter_of(e: ElemView, namespace: Seq<char>) -> Option<
    (Seq<char>, Seq<char>),
> {
    match (e.attr("name"@), native_type_of(e)) {
        (Some(name), Some(native)) => if is_opaque(native) {
            None
        } else {
            Some((name, translated(native, namespace)))
        },
        _ => None,
    }
}

/// What a child of a `parameters` element adds to the parameter list.
pub open spec fn parameter_entry(namespace: Seq<char>) -> spec_fn(NodeView) -> Option<
    (Seq<char>, Seq<char>),
> {
    |n: NodeView|
        match n {
            NodeView::Elem(e) => if e.name == "parameter"@ {
                parameter_of(e, namespace)
            } else {
                None
            },
            _ => None,
        }
}

/// The parameters of a callable, in order. Without a `parameters` child
/// there are none.
pub open spec fn parameters_of(e: ElemView, namespace: Seq<char>) -> Seq<
    (Seq<char>, Seq<char>),
> {
    match e.child("parameters"@) {
        Some(list) => list.children.filter_map(parameter_entry(namespace)),
        None => Seq::empty(),
    }
}

/// The return types of a callable: the translated type that its
/// `return-value` child declares, or none.
pub open spec fn returns_of(e: ElemView, namespace: Seq<char>) -> Seq<Seq<char>> {
    match e.child("return-value"@) {
        Some(value) => match native_type_of(value) {
            Some(native) => seq![translated(native, namespace)],
            None => Seq::empty(),
        },
        None => Seq::empty(),
    }
}

/// The documentation of an element: the text of its first `doc` child.
pub open spec fn documentation_of(e: ElemView) -> Option<Seq<char>> {
    match e.child("doc"@) {
        Some(doc) => doc.text(),
        None => None,
    }
}

/// Whether the element is marked as not usable from bindings.
pub open spec fn is_hidden(e: ElemView) -> bool {
    e.attr("introspectable"@) == Some("0"@)
}

/// The callable that an element describes. An element without a name, or
/// one marked as not usable from bindings, describes none.
pub open spec fn callable_of(e: ElemView, namespace: Seq<char>) -> Option<FunctionView> {
    match e.attr("name"@) {
        Some(name) => if is_hidden(e) {
            None
        } else {
            Some(
                FunctionView {
                    name,
                    doc: documentation_of(e),
                    params: parameters_of(e, namespace),
                    returns: returns_of(e, namespace),
                },
            )
        },
        None => None,
    }
}

/// What a node adds to the callables of one role: an element with the
/// role's tag gives the callable that it describes, any other node nothing.
pub open spec fn role_entry(tag: Seq<char>, namespace: Seq<char>) -> spec_fn(NodeView) -> Option<
    FunctionView,
> {
    |n: NodeView|
        match n {
            NodeView::Elem(e) => if e.name == tag {
                callable_of(e, namespace)
            } else {
                None
            },
            _ => None,
        }
}

/// The native type name that a parameter or a return value declares.
pub fn native_type(node: &Elem) -> (r: Option<&String>)
    ensures
        r.deep_view() == native_type_of(node@),
{
    match node.child("type") {
        Some(scalar) => scalar.attr("name"),
        None => match node.child("array") {
            Some(array) => array.attr("name"),
            None => None,
        },
    }
}

/// The name and translated type of one `parameter` element.
pub fn parameter(node: &Elem, namespace: &str) -> (r: Option<(String, String)>)
    ensures
        r.deep_view() == parameter_of(node@, namespace@),
{
    match (node.attr("name"), native_type(node)) {
        (Some(name), Some(native)) => {
            if native.as_str().eq("gpointer") {
                None
            } else {
                Some((name.clone(), translate(native.as_str(), namespace)))
            }
        },
        _ => None,
    }
}

/// The parameters of a callable, in order.
pub fn parameters(node: &Elem, namespace: &str) -> (r: Vec<(String, String)>)
    ensures
        r.deep_view() == parameters_of(node@, namespace@),
{
    let mut out: Vec<(String, String)> = Vec::new();
    match node.child("parameters") {
        Some(list) => {
            let ghost nodes = list@.children;
            let ghost entry = parameter_entry(namespace@);
            let mut i: usize = 0;
            while i < list.children.len()
                invariant
                    0 <= i <= list.children.len(),
                    nodes == list@.children,
                    nodes.len() == list.children.len(),
                    entry == parameter_entry(namespace@),
                    out.deep_view() == nodes.take(i as int).filter_map(entry),
                decreases list.children.len() - i,
            {
                proof {
                    nodes.lemma_filter_map_take_succ(entry, i as int);
                }
                if let Node::Elem(e) = &list.children[i] {
                    if e.name.as_str().eq("parameter") {
                        if let Some(pair) = parameter(e, namespace) {
                            out.push(pair);
                        }
                    }
                }
                i += 1;
            }
            assert(nodes.take(i as int) =~= nodes);
        },
        None => {},
    }
    out
}

/// The return types of a callable.
pub fn return_types(node: &Elem, namespace: &str) -> (r: Vec<String>)
    ensures
        r.deep_view() == returns_of(node@, namespace@),
{
    let mut out: Vec<String> = Vec::new();
    if let Some(value) = node.child("return-value") {
        if let Some(native) = native_type(value) {
            let target = translate(native.as_str(), namespace);
            out.push(target);
            return out;
        }
    }
    out
}

/// The documentation of an element.
pub fn documentation(node: &Elem) -> (r: Option<String>)
    ensures
        r.deep_view() == documentation_of(node@),
{
    match node.child("doc") {
        Some(doc) => doc.text(),
        None => None,
    }
}

/// Whether the element is marked as not usable from bindings.
pub fn hidden(node: &Elem) -> (r: bool)
    ensures
        r == is_hidden(node@),
{
    match node.attr("introspectable") {
        Some(flag) => flag.as_str().eq("0"),
        None => false,
    }
}

/// Builds the callable that a constructor, function, method, virtual-method
/// or macro element describes.
///
/// An element without a name is skipped, and so is one marked as not usable
/// from bindings. Nothing else can fail: missing documentation, parameters
/// or return value leave that part empty.
pub fn extract_callable(node: &Elem, namespace: &str) -> (r: Option<Function>)
    ensures
        r.deep_view() == callable_of(node@, namespace@),
{
    match node.attr("name") {
        Some(name) => {
            if hidden(node) {
                None
            } else {
                Some(
                    Function {
                        name: name.clone(),
                        doc: documentation(node),
                        params: parameters(node, namespace),
                        returns: return_types(node, namespace),
                    },
                )
            }
        },
        None => None,
    }
}

/// Adds the callable that child `i` describes, if it describes one, to the
/// sequence of its role.
pub(crate) fn push_callable(
    role: &mut Vec<Function>,
    node: &Elem,
    namespace: &str,
    Ghost(nodes): Ghost<Seq<NodeView>>,
    Ghost(tag): Ghost<Seq<char>>,
    Ghost(i): Ghost<int>,
)
    requires
        0 <= i < nodes.len(),
        nodes[i] == NodeView::Elem(node@),
        node@.name == tag,
        old(role).deep_view() == nodes.take(i).filter_map(role_entry(tag, namespace@)),
    ensures
        final(role).deep_view() == nodes.take(i + 1).filter_map(role_entry(tag, namespace@)),
{
    proof {
        nodes.lemma_filter_map_take_succ(role_entry(tag, namespace@), i);
    }
    if let Some(callable) = extract_callable(node, namespace) {
        role.push(callable);
    }
}

} // verus!
