//! The walk over the children of a namespace, and the search for the
//! namespace in a parsed file.

use vstd::prelude::*;
use crate::callable::{push_callable, role_entry};
use crate::class::{build_class, class_failure, class_of};
use crate::enumeration::{constants_of, enum_constants};
use crate::error::{walked, WalkError, WalkErrorView};
use crate::model::{Class, ClassView, Document, DocumentView, Function};
use crate::seqs::{first_of, lemma_filter_map_first};
use crate::tree::{Elem, ElemView, Node, NodeView};

verus! {

/// The tags of the children of a namespace that are read but add nothing
/// to the model.
pub open spec fn namespace_child_inert(tag: Seq<char>) -> bool {
    ||| tag == "record"@
    ||| tag == "constant"@
    ||| tag == "callback"@
    ||| tag == "bitfield"@
    ||| tag == "docsection"@
    ||| tag == "name"@
    ||| tag == "alias"@
    ||| tag == "interface"@
    ||| tag == "boxed"@
}

/// The tags that a child element of a namespace may have.
pub open spec fn namespace_child_known(tag: Seq<char>) -> bool {
    ||| tag == "class"@
    ||| tag == "function"@
    ||| tag == "function-macro"@
    ||| tag == "enumeration"@
    ||| namespace_child_inert(tag)
}

/// What a node adds to the classes of a namespace.
pub open spec fn class_entry(namespace: Seq<char>) -> spec_fn(NodeView) -> Option<ClassView> {
    |n: NodeView|
        match n {
            NodeView::Elem(e) => if e.name == "class"@ {
                class_of(e, namespace)
            } else {
                None
            },
            _ => None,
        }
}

/// What a node adds to the enumeration constants of a namespace.
pub open spec fn constants_entry(namespace: Seq<char>) -> spec_fn(NodeView) -> Seq<Seq<char>> {
    |n: NodeView|
        match n {
            NodeView::Elem(e) => if e.name == "enumeration"@ {
                constants_of(e, namespace)
            } else {
                Seq::empty()
            },
            _ => Seq::empty(),
        }
}

/// The failure that a node causes as the child of a namespace: that of the
/// class it describes, or its own unknown tag.
pub open spec fn namespace_child_failure() -> spec_fn(NodeView) -> Option<WalkErrorView> {
    |n: NodeView|
        match n {
            NodeView::Elem(e) => if e.name == "class"@ {
                class_failure(e)
            } else if namespace_child_known(e.name) {
                None
            } else {
                Some(WalkErrorView::UnknownNamespaceChild(e.name))
            },
            _ => None,
        }
}

/// The failure that ends the walk of a namespace: the first that a child
/// causes, in document order.
pub open spec fn document_failure(e: ElemView) -> Option<WalkErrorView> {
    first_of(e.children.filter_map(namespace_child_failure()))
}

/// The document that a namespace with the name `namespace` describes.
pub open spec fn document_named(e: ElemView, namespace: Seq<char>) -> DocumentView {
    DocumentView {
        title: Seq::empty(),
        prefix: Seq::empty(),
        namespace,
        classes: e.children.filter_map(class_entry(namespace)),
        functions: e.children.filter_map(role_entry("function"@, namespace)),
        macros: e.children.filter_map(role_entry("function-macro"@, namespace)),
        enums: e.children.flat_map(constants_entry(namespace)),
    }
}

/// The document that a namespace element describes. An element without a
/// name describes none.
pub open spec fn document_of(e: ElemView) -> Option<DocumentView> {
    match e.attr("name"@) {
        Some(namespace) => Some(document_named(e, namespace)),
        None => None,
    }
}

/// What the walk of a namespace ends in.
pub open spec fn document_outcome(e: ElemView) -> Result<Option<DocumentView>, WalkErrorView> {
    match document_failure(e) {
        Some(failure) => Err(failure),
        None => Ok(document_of(e)),
    }
}

/// What the ingestion of a parsed file ends in: the outcome of its first
/// `namespace` child, or no document where it has none.
pub open spec fn ingest_outcome(root: ElemView) -> Result<Option<DocumentView>, WalkErrorView> {
    match root.child("namespace"@) {
        Some(namespace) => document_outcome(namespace),
        None => Ok(None),
    }
}

/// The tags that the walk tells apart differ in length.
pub proof fn lemma_namespace_tags()
    ensures
        "class"@.len() == 5,
        "function"@.len() == 8,
        "function-macro"@.len() == 14,
        "enumeration"@.len() == 11,
{
    reveal_strlit("class");
    reveal_strlit("function");
    reveal_strlit("function-macro");
    reveal_strlit("enumeration");
}

/// Whether a child of a namespace with this tag is read without adding to
/// the model.
fn inert_in_namespace(tag: &str) -> (r: bool)
    ensures
        r == namespace_child_inert(tag@),
{
    tag.eq("record") || tag.eq("constant") || tag.eq("callback") || tag.eq("bitfield") || tag.eq(
        "docsection",
    ) || tag.eq("name") || tag.eq("alias") || tag.eq("interface") || tag.eq("boxed")
}

/// Appends the constants of the enumeration that child `i` is.
fn push_constants(
    enums: &mut Vec<String>,
    node: &Elem,
    namespace: &str,
    Ghost(nodes): Ghost<Seq<NodeView>>,
    Ghost(i): Ghost<int>,
)
    requires
        0 <= i < nodes.len(),
        nodes[i] == NodeView::Elem(node@),
        node@.name == "enumeration"@,
        old(enums).deep_view() == nodes.take(i).flat_map(constants_entry(namespace@)),
    ensures
        final(enums).deep_view() == nodes.take(i + 1).flat_map(constants_entry(namespace@)),
{
    let mut constants = enum_constants(node, namespace);
    proof {
        nodes.lemma_flat_map_take_append(constants_entry(namespace@), i);
    }
    enums.append(&mut constants);
}

/// Builds the document that a `namespace` element describes.
///
/// Every child element must have a known tag, and so must every child of
/// each class; the first that has not, in document order, ends the walk
/// with an error and no document. Classes, functions, macros and
/// enumeration constants keep the order of the source. A namespace without
/// a name gives no document.
pub fn build_document(node: &Elem) -> (r: Result<Option<Document>, WalkError>)
    ensures
        walked(r) == document_outcome(node@),
{
    let name = node.attr("name");
    let empty = String::new();
    let namespace: &str = match name {
        Some(n) => n.as_str(),
        None => empty.as_str(),
    };
    let ghost nodes = node@.children;
    let ghost ns = namespace@;
    let ghost failing = namespace_child_failure();
    let mut classes: Vec<Class> = Vec::new();
    let mut functions: Vec<Function> = Vec::new();
    let mut macros: Vec<Function> = Vec::new();
    let mut enums: Vec<String> = Vec::new();
    proof {
        lemma_namespace_tags();
    }
    let mut i: usize = 0;
    while i < node.children.len()
        invariant
            0 <= i <= node.children.len(),
            nodes == node@.children,
            nodes.len() == node.children.len(),
            ns == namespace@,
            failing == namespace_child_failure(),
            "class"@.len() == 5,
            "function"@.len() == 8,
            "function-macro"@.len() == 14,
            "enumeration"@.len() == 11,
            nodes.take(i as int).filter_map(failing).len() == 0,
            classes.deep_view() == nodes.take(i as int).filter_map(class_entry(ns)),
            functions.deep_view() == nodes.take(i as int).filter_map(role_entry("function"@, ns)),
            macros.deep_view() == nodes.take(i as int).filter_map(
                role_entry("function-macro"@, ns),
            ),
            enums.deep_view() == nodes.take(i as int).flat_map(constants_entry(ns)),
        decreases node.children.len() - i,
    {
        proof {
            nodes.lemma_filter_map_take_succ(failing, i as int);
            nodes.lemma_filter_map_take_succ(class_entry(ns), i as int);
            nodes.lemma_filter_map_take_succ(role_entry("function"@, ns), i as int);
            nodes.lemma_filter_map_take_succ(role_entry("function-macro"@, ns), i as int);
            nodes.lemma_flat_map_take_append(constants_entry(ns), i as int);
        }
        if let Node::Elem(child) = &node.children[i] {
            let tag = child.name.as_str();
            if tag.eq("class") {
                match build_class(child, namespace) {
                    Ok(Some(class)) => {
                        classes.push(class);
                    },
                    Ok(None) => {},
                    Err(failure) => {
                        proof {
                            lemma_filter_map_first(nodes, failing, i as int);
                        }
                        return Err(failure);
                    },
                }
            } else if tag.eq("function") {
                push_callable(
                    &mut functions,
                    child,
                    namespace,
                    Ghost(nodes),
                    Ghost("function"@),
                    Ghost(i as int),
                );
            } else if tag.eq("function-macro") {
                push_callable(
                    &mut macros,
                    child,
                    namespace,
                    Ghost(nodes),
                    Ghost("function-macro"@),
                    Ghost(i as int),
                );
            } else if tag.eq("enumeration") {
                push_constants(&mut enums, child, namespace, Ghost(nodes), Ghost(i as int));
            } else if !inert_in_namespace(tag) {
                proof {
                    lemma_filter_map_first(nodes, failing, i as int);
                }
                return Err(WalkError::UnknownNamespaceChild(child.name.clone()));
            }
        }
        i += 1;
    }
    assert(nodes.take(i as int) =~= nodes);
    match name {
        Some(n) => Ok(
            Some(
                Document {
                    title: String::new(),
                    prefix: String::new(),
                    namespace: n.clone(),
                    classes,
                    functions,
                    macros,
                    enums,
                },
            ),
        ),
        None => Ok(None),
    }
}

/// Finds the namespace of a parsed file, its first `namespace` child, and
/// builds the document that it describes. A file without a namespace gives
/// no document.
pub fn ingest(root: &Elem) -> (r: Result<Option<Document>, WalkError>)
    ensures
        walked(r) == ingest_outcome(root@),
{
    match root.child("namespace") {
        Some(namespace) => build_document(namespace),
        None => Ok(None),
    }
}

} // verus!
