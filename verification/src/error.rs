//! The failures that end the walk of a document.

use vstd::prelude::*;

verus! {

/// A tag that the walker does not know.
///
/// The grammar of classes and namespaces is closed: a child element with a
/// tag outside it means that the input has outgrown the walker, and the
/// whole document is given up rather than read in part.
#[derive(Clone, Debug, PartialEq, Eq)]
pub enum WalkError {
    /// A class holds a child element with this tag.
    UnknownClassChild(String),
    /// A namespace holds a child element with this tag.
    UnknownNamespaceChild(String),
}

/// A [`WalkError`], as contracts see it.
pub enum WalkErrorView {
    UnknownClassChild(Seq<char>),
    UnknownNamespaceChild(Seq<char>),
}

impl View for WalkError {
    type V = WalkErrorView;

    open spec fn view(&self) -> WalkErrorView {
        match self {
            WalkError::UnknownClassChild(tag) => WalkErrorView::UnknownClassChild(tag@),
            WalkError::UnknownNamespaceChild(tag) => WalkErrorView::UnknownNamespaceChild(tag@),
        }
    }
}

impl DeepView for WalkError {
    type V = WalkErrorView;

    open spec fn deep_view(&self) -> WalkErrorView {
        self@
    }
}

/// What the result of a walk stands for in contracts: the view of what was
/// built, or the view of the failure.
pub open spec fn walked<T: DeepView>(r: Result<T, WalkError>) -> Result<T::V, WalkErrorView> {
    match r {
        Ok(built) => Ok(built.deep_view()),
        Err(failure) => Err(failure@),
    }
}

impl WalkErrorView {
    /// The tag that was not known.
    pub open spec fn tag(self) -> Seq<char> {
        match self {
            WalkErrorView::UnknownClassChild(tag) => tag,
            WalkErrorView::UnknownNamespaceChild(tag) => tag,
        }
    }

    /// The sentence that reports the failure.
    pub open spec fn message(self) -> Seq<char> {
        match self {
            WalkErrorView::UnknownClassChild(tag) => "unknown element in class: "@ + tag,
            WalkErrorView::UnknownNamespaceChild(tag) => "unknown element in namespace: "@ + tag,
        }
    }
}

impl WalkError {
    /// The tag that was not known.
    pub fn tag(&self) -> (r: &String)
        ensures
            r@ == self@.tag(),
    {
        match self {
            WalkError::UnknownClassChild(tag) => tag,
            WalkError::UnknownNamespaceChild(tag) => tag,
        }
    }

    /// The sentence that reports the failure.
    pub fn message(&self) -> (r: String)
        ensures
            r@ == self@.message(),
    {
        match self {
            WalkError::UnknownClassChild(tag) => String::from_str(
                "unknown element in class: ",
            ).concat(tag.as_str()),
            WalkError::UnknownNamespaceChild(tag) => String::from_str(
                "unknown element in namespace: ",
            ).concat(tag.as_str()),
        }
    }
}

} // verus!
