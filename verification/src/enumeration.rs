//! Extraction of the constants of an enumeration.

use vstd::prelude::*;
use crate::text::{qualified, qualify, uppercase};
use crate::tree::{Elem, ElemView, Node, NodeView};

verus! {

/// The qualified name of a constant whose upper-case name is `upper`:
/// namespace, enumeration and constant, joined by separators.
pub open spec fn constant_named(namespace: Seq<char>, enumeration: Seq<char>, upper: Seq<char>) -> Seq<
    char,
> {
    qualified(qualified(namespace, enumeration), upper)
}

/// What a child of an enumeration adds to its constants: a `member` with a
/// name gives one constant, anything else none.
pub open spec fn member_entry(namespace: Seq<char>, enumeration: Seq<char>) -> spec_fn(
    NodeView,
) -> Option<Seq<char>> {
    |n: NodeView|
        match n {
            NodeView::Elem(e) => if e.name == "member"@ {
                match e.attr("name"@) {
                    Some(member) => Some(constant_named(namespace, enumeration, uppercase(member))),
                    None => None,
                }
            } else {
                None
            },
            _ => None,
        }
}

/// The constants of an enumeration, one for each named member, in order. An
/// enumeration without a name has none.
pub open spec fn constants_of(e: ElemView, namespace: Seq<char>) -> Seq<Seq<char>> {
    match e.attr("name"@) {
        Some(enumeration) => e.children.filter_map(member_entry(namespace, enumeration)),
        None => Seq::empty(),
    }
}

/// Joins namespace, enumeration and the upper-case name of a constant.
pub fn constant_name(namespace: &str, enumeration: &str, upper: &str) -> (r: String)
    ensures
        r@ == constant_named(namespace@, enumeration@, upper@),
{
    let owner = qualify(namespace, enumeration);
    qualify(owner.as_str(), upper)
}

/// The fully qualified constants of an enumeration element, one for each
/// named `member` child, in the order of the source.
pub fn enum_constants(node: &Elem, namespace: &str) -> (r: Vec<String>)
    ensures
        r.deep_view() == constants_of(node@, namespace@),
{
    let mut out: Vec<String> = Vec::new();
    match node.attr("name") {
        Some(enumeration) => {
            let ghost nodes = node@.children;
            let ghost entry = member_entry(namespace@, enumeration@);
            let mut i: usize = 0;
            while i < node.children.len()
                invariant
                    0 <= i <= node.children.len(),
                    nodes == node@.children,
                    nodes.len() == node.children.len(),
                    entry == member_entry(namespace@, enumeration@),
                    out.deep_view() == nodes.take(i as int).filter_map(entry),
                decreases node.children.len() - i,
            {
                proof {
                    nodes.lemma_filter_map_take_succ(entry, i as int);
                }
                if let Node::Elem(e) = &node.children[i] {
                    if e.name.as_str().eq("member") {
                        if let Some(member) = e.attr("name") {
                            let upper = member.as_str().to_uppercase();
                            let constant = constant_name(
                                namespace,
                                enumeration.as_str(),
                                upper.as_str(),
                            );
                            out.push(constant);
                        }
                    }
                }
                i += 1;
            }
            assert(nodes.take(i as int) =~= nodes);
        },
        None => {},
    }
    out
}

} // verus!
