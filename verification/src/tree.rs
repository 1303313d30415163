//! The element tree that the extractors walk.
//!
//! An [`Elem`] holds its tag, its attributes and its children in document
//! order. Contracts speak of its view, in which the attributes form a map, so
//! that the order in which they were written plays no part.

use vstd::prelude::*;

verus! {

/// One child of an element.
#[derive(Debug, PartialEq, Eq)]
pub enum Node {
    Elem(Elem),
    Text(String),
    CData(String),
    Comment(String),
    Instruction(String, Option<String>),
}

/// An element: its tag, its attributes and its children in document order.
///
/// Of two attributes with one key the earlier one counts; the builders
/// write no second one.
#[derive(Debug, PartialEq, Eq)]
pub struct Elem {
    pub name: String,
    pub attributes: Vec<(String, String)>,
    pub children: Vec<Node>,
}

/// A child of an element, as contracts see it.
pub enum NodeView {
    Elem(ElemView),
    Text(Seq<char>),
    CData(Seq<char>),
    Comment(Seq<char>),
    Instruction(Seq<char>, Option<Seq<char>>),
}

/// An element, as contracts see it.
pub struct ElemView {
    pub name: Seq<char>,
    pub attributes: Map<Seq<char>, Seq<char>>,
    pub children: Seq<NodeView>,
}

/// The map that a list of pairs stands for: of two pairs with one key the
/// earlier one counts.
pub open spec fn pairs_to_map(pairs: Seq<(Seq<char>, Seq<char>)>) -> Map<Seq<char>, Seq<char>>
    decreases pairs.len(),
{
    if pairs.len() == 0 {
        Map::empty()
    } else {
        pairs_to_map(pairs.drop_first()).insert(pairs[0].0, pairs[0].1)
    }
}

/// The first element among `nodes` whose tag is `tag`.
pub open spec fn first_named(nodes: Seq<NodeView>, tag: Seq<char>) -> Option<ElemView>
    decreases nodes.len(),
{
    if nodes.len() == 0 {
        None
    } else if nodes[0] is Elem && nodes[0]->Elem_0.name == tag {
        Some(nodes[0]->Elem_0)
    } else {
        first_named(nodes.drop_first(), tag)
    }
}

/// The text that a node carries: the content of a text or character-data
/// node, nothing for any other node.
pub open spec fn text_piece(node: NodeView) -> Seq<char> {
    match node {
        NodeView::Text(s) => s,
        NodeView::CData(s) => s,
        _ => Seq::empty(),
    }
}

/// Whether a node carries text.
pub open spec fn is_textual(node: NodeView) -> bool {
    node is Text || node is CData
}

impl ElemView {
    /// The value of the attribute `key`, if the element has it.
    pub open spec fn attr(self, key: Seq<char>) -> Option<Seq<char>> {
        if self.attributes.contains_key(key) {
            Some(self.attributes[key])
        } else {
            None
        }
    }

    /// The first child element whose tag is `tag`.
    pub open spec fn child(self, tag: Seq<char>) -> Option<ElemView> {
        first_named(self.children, tag)
    }

    /// The text directly inside the element: its text and character-data
    /// children joined in order, or nothing where it has none.
    pub open spec fn text(self) -> Option<Seq<char>> {
        if exists|i: int| 0 <= i < self.children.len() && is_textual(#[trigger] self.children[i]) {
            Some(self.children.flat_map(|n: NodeView| text_piece(n)))
        } else {
            None
        }
    }
}

impl View for Node {
    type V = NodeView;

    open spec fn view(&self) -> NodeView
        decreases self,
    {
        match self {
            Node::Elem(e) => NodeView::Elem(e.view()),
            Node::Text(s) => NodeView::Text(s@),
            Node::CData(s) => NodeView::CData(s@),
            Node::Comment(s) => NodeView::Comment(s@),
            Node::Instruction(target, data) => NodeView::Instruction(target@, data.deep_view()),
        }
    }
}

impl View for Elem {
    type V = ElemView;

    open spec fn view(&self) -> ElemView
        decreases self,
    {
        ElemView {
            name: self.name@,
            attributes: pairs_to_map(self.attributes.deep_view()),
            children: Seq::new(
                self.children@.len(),
                |i: int|
                    if 0 <= i < self.children@.len() {
                        self.children@[i].view()
                    } else {
                        arbitrary()
                    },
            ),
        }
    }
}

/// A key that none of the first `i` pairs has is looked up in the rest.
pub proof fn lemma_pairs_skip(pairs: Seq<(Seq<char>, Seq<char>)>, key: Seq<char>, i: int)
    requires
        0 <= i <= pairs.len(),
        forall|j: int| 0 <= j < i ==> (#[trigger] pairs[j]).0 != key,
    ensures
        pairs_to_map(pairs).contains_key(key) == pairs_to_map(pairs.skip(i)).contains_key(key),
        pairs_to_map(pairs).contains_key(key) ==> pairs_to_map(pairs)[key] == pairs_to_map(
            pairs.skip(i),
        )[key],
    decreases i,
{
    if i == 0 {
        assert(pairs.skip(0) =~= pairs);
    } else {
        let rest = pairs.drop_first();
        assert forall|j: int| 0 <= j < i - 1 implies (#[trigger] rest[j]).0 != key by {
            assert(rest[j] == pairs[j + 1]);
        }
        lemma_pairs_skip(rest, key, i - 1);
        assert(rest.skip(i - 1) =~= pairs.skip(i));
    }
}

/// Elements that come after nodes of another tag, or of another kind, are found
/// behind them.
pub proof fn lemma_first_named_skip(nodes: Seq<NodeView>, tag: Seq<char>, i: int)
    requires
        0 <= i <= nodes.len(),
        forall|j: int|
            0 <= j < i ==> !((#[trigger] nodes[j]) is Elem && nodes[j]->Elem_0.name == tag),
    ensures
        first_named(nodes, tag) == first_named(nodes.skip(i), tag),
    decreases i,
{
    if i == 0 {
        assert(nodes.skip(0) =~= nodes);
    } else {
        let rest = nodes.drop_first();
        assert forall|j: int| 0 <= j < i - 1 implies !((#[trigger] rest[j]) is Elem
            && rest[j]->Elem_0.name == tag) by {
            assert(rest[j] == nodes[j + 1]);
        }
        lemma_first_named_skip(rest, tag, i - 1);
        assert(rest.skip(i - 1) =~= nodes.skip(i));
    }
}

/// A pair added behind the others counts only where its key is new.
pub proof fn lemma_pairs_push(pairs: Seq<(Seq<char>, Seq<char>)>, key: Seq<char>, value: Seq<char>)
    ensures
        pairs_to_map(pairs.push((key, value))) == if pairs_to_map(pairs).contains_key(key) {
            pairs_to_map(pairs)
        } else {
            pairs_to_map(pairs).insert(key, value)
        },
    decreases pairs.len(),
{
    let longer = pairs.push((key, value));
    if pairs.len() == 0 {
        assert(longer.drop_first() =~= pairs);
    } else {
        assert(longer.drop_first() =~= pairs.drop_first().push((key, value)));
        lemma_pairs_push(pairs.drop_first(), key, value);
        let rest = pairs_to_map(pairs.drop_first());
        if rest.contains_key(key) {
        } else if pairs[0].0 == key {
            assert(rest.insert(key, value).insert(pairs[0].0, pairs[0].1) =~= rest.insert(
                pairs[0].0,
                pairs[0].1,
            ));
        } else {
            assert(rest.insert(key, value).insert(pairs[0].0, pairs[0].1) =~= rest.insert(
                pairs[0].0,
                pairs[0].1,
            ).insert(key, value));
        }
    }
}

/// A new value for the first pair with a key is a new value for the key.
pub proof fn lemma_pairs_update(pairs: Seq<(Seq<char>, Seq<char>)>, i: int, value: Seq<char>)
    requires
        0 <= i < pairs.len(),
        forall|j: int| 0 <= j < i ==> (#[trigger] pairs[j]).0 != pairs[i].0,
    ensures
        pairs_to_map(pairs.update(i, (pairs[i].0, value))) == pairs_to_map(pairs).insert(
            pairs[i].0,
            value,
        ),
    decreases i,
{
    let key = pairs[i].0;
    let changed = pairs.update(i, (key, value));
    let rest = pairs.drop_first();
    if i == 0 {
        assert(changed.drop_first() =~= rest);
    } else {
        assert(changed.drop_first() =~= rest.update(i - 1, (key, value)));
        assert forall|j: int| 0 <= j < i - 1 implies (#[trigger] rest[j]).0 != rest[i - 1].0 by {
            assert(rest[j] == pairs[j + 1]);
        }
        lemma_pairs_update(rest, i - 1, value);
    }
}

/// The place of the first attribute with the key.
fn position(attributes: &Vec<(String, String)>, key: &str) -> (r: Option<usize>)
    ensures
        match r {
            Some(i) => {
                &&& i < attributes.len()
                &&& attributes.deep_view()[i as int].0 == key@
                &&& forall|j: int| 0 <= j < i ==> (#[trigger] attributes.deep_view()[j]).0 != key@
            },
            None => forall|j: int|
                0 <= j < attributes.len() ==> (#[trigger] attributes.deep_view()[j]).0 != key@,
        },
{
    let ghost pairs = attributes.deep_view();
    let mut i: usize = 0;
    while i < attributes.len()
        invariant
            0 <= i <= attributes.len(),
            pairs == attributes.deep_view(),
            pairs.len() == attributes.len(),
            forall|j: int| 0 <= j < i ==> (#[trigger] pairs[j]).0 != key@,
        decreases attributes.len() - i,
    {
        if attributes[i].0.as_str().eq(key) {
            return Some(i);
        }
        i += 1;
    }
    None
}

impl Elem {
    /// An element with the tag `name`, without attributes and children.
    pub fn new(name: &str) -> (r: Elem)
        ensures
            r@.name == name@,
            r@.attributes == Map::<Seq<char>, Seq<char>>::empty(),
            r@.children == Seq::<NodeView>::empty(),
    {
        Elem { name: String::from_str(name), attributes: Vec::new(), children: Vec::new() }
    }

    /// The element with the attribute `key` set to `value`, in place of the
    /// value that it had, if it had one.
    pub fn with_attribute(self, key: &str, value: &str) -> (r: Elem)
        ensures
            r@.name == self@.name,
            r@.children == self@.children,
            r@.attributes == self@.attributes.insert(key@, value@),
    {
        let ghost before = self.attributes.deep_view();
        let mut r = self;
        let entry = (String::from_str(key), String::from_str(value));
        match position(&r.attributes, key) {
            Some(i) => {
                r.attributes.set(i, entry);
                proof {
                    assert(r.attributes.deep_view() =~= before.update(i as int, (key@, value@)));
                    lemma_pairs_update(before, i as int, value@);
                }
            },
            None => {
                r.attributes.push(entry);
                proof {
                    assert(r.attributes.deep_view() =~= before.push((key@, value@)));
                    lemma_pairs_skip(before, key@, before.len() as int);
                    lemma_pairs_push(before, key@, value@);
                }
            },
        }
        r
    }

    /// The element with one more child, an element, behind those it has.
    pub fn with_child(self, child: Elem) -> (r: Elem)
        ensures
            r@.name == self@.name,
            r@.attributes == self@.attributes,
            r@.children == self@.children.push(NodeView::Elem(child@)),
    {
        let mut r = self;
        r.children.push(Node::Elem(child));
        r
    }

    /// The element with one more child, a text, behind those it has.
    pub fn with_text(self, text: &str) -> (r: Elem)
        ensures
            r@.name == self@.name,
            r@.attributes == self@.attributes,
            r@.children == self@.children.push(NodeView::Text(text@)),
    {
        let mut r = self;
        r.children.push(Node::Text(String::from_str(text)));
        r
    }

    /// The value of the attribute `key`, if the element has it.
    pub fn attr(&self, key: &str) -> (r: Option<&String>)
        ensures
            r.deep_view() == self@.attr(key@),
    {
        let ghost pairs = self.attributes.deep_view();
        match position(&self.attributes, key) {
            Some(i) => {
                proof {
                    lemma_pairs_skip(pairs, key@, i as int);
                }
                Some(&self.attributes[i].1)
            },
            None => {
                proof {
                    lemma_pairs_skip(pairs, key@, pairs.len() as int);
                }
                None
            },
        }
    }

    /// The first child element whose tag is `tag`.
    pub fn child(&self, tag: &str) -> (r: Option<&Elem>)
        ensures
            match r {
                Some(e) => self@.child(tag@) == Some(e@),
                None => self@.child(tag@) is None,
            },
    {
        let ghost nodes = self@.children;
        let mut i: usize = 0;
        while i < self.children.len()
            invariant
                0 <= i <= self.children.len(),
                nodes == self@.children,
                nodes.len() == self.children.len(),
                forall|j: int|
                    0 <= j < i ==> !((#[trigger] nodes[j]) is Elem && nodes[j]->Elem_0.name
                        == tag@),
            decreases self.children.len() - i,
        {
            assert(nodes[i as int] == self.children@[i as int]@);
            if let Node::Elem(e) = &self.children[i] {
                if e.name.as_str().eq(tag) {
                    proof {
                        lemma_first_named_skip(nodes, tag@, i as int);
                    }
                    return Some(e);
                }
            }
            i += 1;
        }
        proof {
            lemma_first_named_skip(nodes, tag@, i as int);
        }
        None
    }

    /// The text directly inside the element, if it has any.
    pub fn text(&self) -> (r: Option<String>)
        ensures
            r.deep_view() == self@.text(),
    {
        let ghost nodes = self@.children;
        let ghost piece = |n: NodeView| text_piece(n);
        let mut out = String::new();
        let mut found = false;
        let mut i: usize = 0;
        while i < self.children.len()
            invariant
                0 <= i <= self.children.len(),
                nodes == self@.children,
                nodes.len() == self.children.len(),
                piece == |n: NodeView| text_piece(n),
                out@ == nodes.take(i as int).flat_map(piece),
                found == (exists|j: int| 0 <= j < i && is_textual(#[trigger] nodes[j])),
            decreases self.children.len() - i,
        {
            proof {
                nodes.lemma_flat_map_take_append(piece, i as int);
            }
            match &self.children[i] {
                Node::Text(s) => {
                    out.append(s.as_str());
                    found = true;
                },
                Node::CData(s) => {
                    out.append(s.as_str());
                    found = true;
                },
                _ => {},
            }
            i += 1;
        }
        assert(nodes.take(i as int) =~= nodes);
        if found {
            Some(out)
        } else {
            None
        }
    }
}

} // verus!
