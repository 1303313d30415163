//! The walk over the children of a class.

use vstd::prelude::*;
use crate::callable::{documentation, documentation_of, push_callable, role_entry};
use crate::error::{walked, WalkError, WalkErrorView};
use crate::model::{Class, ClassView, Function};
use crate::seqs::{first_of, lemma_filter_map_first};
use crate::tree::{Elem, ElemView, Node, NodeView};

verus! {

/// The tags of the children of a class that are read but add nothing to
/// the model.
pub open spec fn class_child_inert(tag: Seq<char>) -> bool {
    ||| tag == "property"@
    ||| tag == "signal"@
    ||| tag == "implements"@
    ||| tag == "source-position"@
}

/// The tags that a child element of a class may have.
pub open spec fn class_child_known(tag: Seq<char>) -> bool {
    ||| tag == "doc"@
    ||| tag == "field"@
    ||| tag == "constructor"@
    ||| tag == "function"@
    ||| tag == "method"@
    ||| tag == "virtual-method"@
    ||| class_child_inert(tag)
}

/// The name and documentation of a `field` element that has both.
pub open spec fn field_of(e: ElemView) -> Option<(Seq<char>, Seq<char>)> {
    match (e.attr("name"@), documentation_of(e)) {
        (Some(name), Some(doc)) => Some((name, doc)),
        _ => None,
    }
}

/// What a node adds to the fields of a class.
pub open spec fn field_entry() -> spec_fn(NodeView) -> Option<(Seq<char>, Seq<char>)> {
    |n: NodeView|
        match n {
            NodeView::Elem(e) => if e.name == "field"@ {
                field_of(e)
            } else {
                None
            },
            _ => None,
        }
}

/// The documentation that the children of a class give it: the text of the
/// last `doc` child.
pub open spec fn class_doc(nodes: Seq<NodeView>) -> Option<Seq<char>>
    decreases nodes.len(),
{
    if nodes.len() == 0 {
        None
    } else if nodes.last() is Elem && nodes.last()->Elem_0.name == "doc"@ {
        nodes.last()->Elem_0.text()
    } else {
        class_doc(nodes.drop_last())
    }
}

/// The failure that a node causes as the child of a class.
pub open spec fn class_child_failure() -> spec_fn(NodeView) -> Option<WalkErrorView> {
    |n: NodeView|
        match n {
            NodeView::Elem(e) => if class_child_known(e.name) {
                None
            } else {
                Some(WalkErrorView::UnknownClassChild(e.name))
            },
            _ => None,
        }
}

/// The failure that ends the walk of a class: that of its first child
/// element with an unknown tag.
pub open spec fn class_failure(e: ElemView) -> Option<WalkErrorView> {
    first_of(e.children.filter_map(class_child_failure()))
}

/// The class that an element describes. An element without a name
/// describes none.
pub open spec fn class_of(e: ElemView, namespace: Seq<char>) -> Option<ClassView> {
    match e.attr("name"@) {
        Some(name) => Some(
            ClassView {
                name,
                doc: class_doc(e.children),
                constructors: e.children.filter_map(role_entry("constructor"@, namespace)),
                functions: e.children.filter_map(role_entry("function"@, namespace)),
                methods: e.children.filter_map(role_entry("method"@, namespace)),
                virtual_methods: e.children.filter_map(role_entry("virtual-method"@, namespace)),
                fields: e.children.filter_map(field_entry()),
            },
        ),
        None => None,
    }
}

/// What the walk of a class ends in.
pub open spec fn class_outcome(e: ElemView, namespace: Seq<char>) -> Result<
    Option<ClassView>,
    WalkErrorView,
> {
    match class_failure(e) {
        Some(failure) => Err(failure),
        None => Ok(class_of(e, namespace)),
    }
}

/// The tags that the walk tells apart differ in length.
pub proof fn lemma_class_tags()
    ensures
        "doc"@.len() == 3,
        "field"@.len() == 5,
        "constructor"@.len() == 11,
        "function"@.len() == 8,
        "method"@.len() == 6,
        "virtual-method"@.len() == 14,
{
    reveal_strlit("doc");
    reveal_strlit("field");
    reveal_strlit("constructor");
    reveal_strlit("function");
    reveal_strlit("method");
    reveal_strlit("virtual-method");
}

/// The name and documentation of a `field` element that has both.
pub fn field(node: &Elem) -> (r: Option<(String, String)>)
    ensures
        r.deep_view() == field_of(node@),
{
    match (node.attr("name"), documentation(node)) {
        (Some(name), Some(doc)) => Some((name.clone(), doc)),
        _ => None,
    }
}

/// Whether a child of a class with this tag is read without adding to the
/// model.
fn inert_in_class(tag: &str) -> (r: bool)
    ensures
        r == class_child_inert(tag@),
{
    tag.eq("property") || tag.eq("signal") || tag.eq("implements") || tag.eq("source-position")
}

/// Builds the class that a `class` element describes inside `namespace`.
///
/// Every child element must have a known tag; the first that has not ends
/// the walk with an error. A `doc` child sets the documentation, a `field`
/// child with a name and documentation adds a field, and each callable
/// joins the sequence of its role unless it is skipped. A class without a
/// name is skipped.
pub fn build_class(node: &Elem, namespace: &str) -> (r: Result<Option<Class>, WalkError>)
    ensures
        walked(r) == class_outcome(node@, namespace@),
{
    let ghost nodes = node@.children;
    let ghost ns = namespace@;
    let ghost failing = class_child_failure();
    let mut doc: Option<String> = None;
    let mut constructors: Vec<Function> = Vec::new();
    let mut functions: Vec<Function> = Vec::new();
    let mut methods: Vec<Function> = Vec::new();
    let mut virtual_methods: Vec<Function> = Vec::new();
    let mut fields: Vec<(String, String)> = Vec::new();
    proof {
        lemma_class_tags();
    }
    let mut i: usize = 0;
    while i < node.children.len()
        invariant
            0 <= i <= node.children.len(),
            nodes == node@.children,
            nodes.len() == node.children.len(),
            ns == namespace@,
            failing == class_child_failure(),
            "doc"@.len() == 3,
            "field"@.len() == 5,
            "constructor"@.len() == 11,
            "function"@.len() == 8,
            "method"@.len() == 6,
            "virtual-method"@.len() == 14,
            nodes.take(i as int).filter_map(failing).len() == 0,
            doc.deep_view() == class_doc(nodes.take(i as int)),
            constructors.deep_view() == nodes.take(i as int).filter_map(
                role_entry("constructor"@, ns),
            ),
            functions.deep_view() == nodes.take(i as int).filter_map(role_entry("function"@, ns)),
            methods.deep_view() == nodes.take(i as int).filter_map(role_entry("method"@, ns)),
            virtual_methods.deep_view() == nodes.take(i as int).filter_map(
                role_entry("virtual-method"@, ns),
            ),
            fields.deep_view() == nodes.take(i as int).filter_map(field_entry()),
        decreases node.children.len() - i,
    {
        proof {
            nodes.lemma_filter_map_take_succ(failing, i as int);
            nodes.lemma_filter_map_take_succ(role_entry("constructor"@, ns), i as int);
            nodes.lemma_filter_map_take_succ(role_entry("function"@, ns), i as int);
            nodes.lemma_filter_map_take_succ(role_entry("method"@, ns), i as int);
            nodes.lemma_filter_map_take_succ(role_entry("virtual-method"@, ns), i as int);
            nodes.lemma_filter_map_take_succ(field_entry(), i as int);
            assert(nodes.take(i + 1).drop_last() =~= nodes.take(i as int));
        }
        let ghost fields_before = fields.deep_view();
        if let Node::Elem(child) = &node.children[i] {
            let tag = child.name.as_str();
            if tag.eq("doc") {
                doc = child.text();
            } else if tag.eq("field") {
                if let Some(pair) = field(child) {
                    let ghost added = pair.deep_view();
                    fields.push(pair);
                    assert(fields.deep_view() =~= fields_before + seq![added]);
                }
            } else if tag.eq("constructor") {
                push_callable(
                    &mut constructors,
                    child,
                    namespace,
                    Ghost(nodes),
                    Ghost("constructor"@),
                    Ghost(i as int),
                );
            } else if tag.eq("function") {
                push_callable(
                    &mut functions,
                    child,
                    namespace,
                    Ghost(nodes),
                    Ghost("function"@),
                    Ghost(i as int),
                );
            } else if tag.eq("method") {
                push_callable(
                    &mut methods,
                    child,
                    namespace,
                    Ghost(nodes),
                    Ghost("method"@),
                    Ghost(i as int),
                );
            } else if tag.eq("virtual-method") {
                push_callable(
                    &mut virtual_methods,
                    child,
                    namespace,
                    Ghost(nodes),
                    Ghost("virtual-method"@),
                    Ghost(i as int),
                );
            } else if !inert_in_class(tag) {
                proof {
                    lemma_filter_map_first(nodes, failing, i as int);
                }
                return Err(WalkError::UnknownClassChild(child.name.clone()));
            }
        }
        i += 1;
    }
    assert(nodes.take(i as int) =~= nodes);
    match node.attr("name") {
        Some(name) => Ok(
            Some(
                Class {
                    name: name.clone(),
                    doc,
                    constructors,
                    functions,
                    methods,
                    virtual_methods,
                    fields,
                },
            ),
        ),
        None => Ok(None),
    }
}

} // verus!
