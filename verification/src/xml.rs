//! Reading a document from XML text.
//!
//! The parsing is `xmltree`'s, and Verus does not read it. What the library
//! takes from it stands in this file: two names, for what the parser makes
//! of a text and for what one of its elements holds, and three functions
//! whose contracts are believed, not proved. Everything behind them is
//! verified against those contracts.

use vstd::prelude::*;
use xmltree::XMLNode;
use crate::document::{ingest, ingest_outcome};
use crate::error::{WalkError, WalkErrorView};
use crate::model::{Document, DocumentView};
use crate::tree::{Elem, ElemView, Node};

verus! {

/// `xmltree::Element`, the element tree that the parser builds. Verus sees
/// nothing inside a value of it.
#[verifier::external_type_specification]
#[verifier::external_body]
pub struct ExParsedElement(xmltree::Element);

/// `xmltree::ParseError`, the parser's report of a text that it cannot
/// read. Verus sees nothing inside a value of it.
#[verifier::external_type_specification]
#[verifier::external_body]
pub struct ExParseError(xmltree::ParseError);

/// What `xmltree::Element::parse` makes of a text: the root element, seen
/// as [`content`] sees it, or nothing where it reports an error.
pub uninterp spec fn parsed(text: Seq<char>) -> Option<ElemView>;

/// What an element of `xmltree` holds: its field `name`, the pairs of its
/// field `attributes` as a map, and its field `children` in order, each
/// child as the node of its kind and each child element seen in the same
/// way.
pub uninterp spec fn content(element: xmltree::Element) -> ElemView;

/// Calls `xmltree::Element::parse` on the bytes of the text.
///
/// Believed, not proved: whether the parser gives an element or an error,
/// and which element, depends on the text alone. Nothing is said of which
/// texts it accepts.
#[verifier::external_body]
fn parse(text: &str) -> (r: Result<xmltree::Element, xmltree::ParseError>)
    ensures
        match r {
            Ok(root) => parsed(text@) == Some(content(root)),
            Err(_) => parsed(text@) is None,
        },
{
    xmltree::Element::parse(text.as_bytes())
}

/// Copies an element of `xmltree` into an [`Elem`]: the name, each pair of
/// the attributes, and each child as the node of its kind, a child element
/// by a copy of the same making.
///
/// Believed, not proved: the view of the copy is what the element holds.
/// The attributes come in the order in which the parser's map hands them
/// out; its keys are distinct, so the order does not show in the view.
#[verifier::external_body]
fn copy_element(element: &xmltree::Element) -> (r: Elem)
    ensures
        r@ == content(*element),
{
    let mut attributes = Vec::new();
    for (key, value) in element.attributes.iter() {
        attributes.push((key.clone(), value.clone()));
    }
    let mut children = Vec::new();
    for node in element.children.iter() {
        children.push(match node {
            XMLNode::Element(e) => Node::Elem(copy_element(e)),
            XMLNode::Text(s) => Node::Text(s.clone()),
            XMLNode::CData(s) => Node::CData(s.clone()),
            XMLNode::Comment(s) => Node::Comment(s.clone()),
            XMLNode::ProcessingInstruction(t, d) => Node::Instruction(t.clone(), d.clone()),
        });
    }
    Elem { name: element.name.clone(), attributes, children }
}

/// The sentence in which `xmltree::ParseError` reports itself through
/// `Display`. Nothing is claimed of the wording.
#[verifier::external_body]
fn describe(error: &xmltree::ParseError) -> String {
    error.to_string()
}

/// Why a text gave no answer.
#[derive(Clone, Debug, PartialEq, Eq)]
pub enum ReadError {
    /// The text is not well-formed XML; the parser's report is enclosed.
    Malformed(String),
    /// The text was parsed and the walk of its tree failed.
    Walk(WalkError),
}

/// What reading a text ends in, given what the parser makes of it.
pub enum ReadOutcome {
    Malformed,
    Failed(WalkErrorView),
    Done(Option<DocumentView>),
}

/// What reading ends in for a parsed tree, or for none.
pub open spec fn read_outcome(tree: Option<ElemView>) -> ReadOutcome {
    match tree {
        Some(root) => match ingest_outcome(root) {
            Ok(document) => ReadOutcome::Done(document),
            Err(failure) => ReadOutcome::Failed(failure),
        },
        None => ReadOutcome::Malformed,
    }
}

/// What a result of reading stands for.
pub open spec fn outcome_of(r: Result<Option<Document>, ReadError>) -> ReadOutcome {
    match r {
        Ok(document) => ReadOutcome::Done(document.deep_view()),
        Err(ReadError::Walk(failure)) => ReadOutcome::Failed(failure@),
        Err(ReadError::Malformed(_)) => ReadOutcome::Malformed,
    }
}

/// Parses a text in XML into its element tree. A text that the parser
/// rejects gives `Malformed`.
pub fn read_tree(text: &str) -> (r: Result<Elem, ReadError>)
    ensures
        match r {
            Ok(root) => parsed(text@) == Some(root@),
            Err(failure) => parsed(text@) is None && failure is Malformed,
        },
{
    match parse(text) {
        Ok(tree) => Ok(copy_element(&tree)),
        Err(error) => Err(ReadError::Malformed(describe(&error))),
    }
}

/// Parses a text in XML and builds the document of its namespace.
///
/// A text that the parser rejects gives `Malformed`; a tree with an unknown
/// tag in its namespace or in a class gives the walk's error; a tree without
/// a namespace, or with one that has no name, gives no document.
pub fn read_document(text: &str) -> (r: Result<Option<Document>, ReadError>)
    ensures
        outcome_of(r) == read_outcome(parsed(text@)),
{
    match read_tree(text) {
        Ok(root) => match ingest(&root) {
            Ok(document) => Ok(document),
            Err(failure) => Err(ReadError::Walk(failure)),
        },
        Err(failure) => Err(failure),
    }
}

} // verus!
