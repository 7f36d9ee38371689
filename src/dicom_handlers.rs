//! Receivers of decoded elements: a tree container and a counter.
use vstd::prelude::*;

use crate::dicom_tag::{DicomTag, DicomTagView};

verus! {

/// One call of `handle_tag`: the parent index it was given, the element, and
/// the index it returned.
pub type HandlerCall = (usize, DicomTagView, usize);

/// Receives each decoded element, in stream order, with the index that the
/// handler gave its parent (`0` for the root), and returns the index that the
/// element's own children will be handed with.
pub trait DicomHandler {
    /// The calls received so far, oldest first.
    spec fn received(&self) -> Seq<HandlerCall>;

    fn handle_tag(&mut self, parent_index: usize, tag: DicomTag) -> (r: usize)
        ensures
            final(self).received() == old(self).received().push((parent_index, tag@, r)),
    ;
}

/// A node of the tree: the element (none for the root) and the indices of
/// its children, in stream order.
#[derive(Debug, PartialEq, Eq)]
pub struct DicomNode {
    pub tag: Option<DicomTag>,
    pub children: Vec<usize>,
}

/// The decoded elements as a tree stored in a flat list; node `0` is the
/// root.
pub struct DicomContainer {
    pub nodes: Vec<DicomNode>,
    /// The calls received so far.
    pub calls: Ghost<Seq<HandlerCall>>,
}

/// The mathematical content of a [`DicomNode`].
pub struct DicomNodeView {
    pub tag: Option<DicomTagView>,
    pub children: Seq<usize>,
}

impl View for DicomNode {
    type V = DicomNodeView;

    open spec fn view(&self) -> DicomNodeView {
        DicomNodeView {
            tag: match self.tag {
                Some(t) => Some(t@),
                None => None,
            },
            children: self.children@,
        }
    }
}

impl View for DicomContainer {
    type V = Seq<DicomNodeView>;

    open spec fn view(&self) -> Seq<DicomNodeView> {
        self.nodes@.map_values(|n: DicomNode| n@)
    }
}

/// The nodes after an element `tag` is added under node `parent`: the new
/// node goes at the end, and is listed as the last child of `parent` when
/// `parent` is a node of the tree.
pub open spec fn with_child(nodes: Seq<DicomNodeView>, parent: int, tag: DicomTagView) -> Seq<
    DicomNodeView,
> {
    let linked = if 0 <= parent < nodes.len() {
        nodes.update(
            parent,
            DicomNodeView {
                tag: nodes[parent].tag,
                children: nodes[parent].children.push(nodes.len() as usize),
            },
        )
    } else {
        nodes
    };
    linked.push(DicomNodeView { tag: Some(tag), children: Seq::empty() })
}

impl DicomContainer {
    /// A container holding only the root.
    pub fn new() -> (r: DicomContainer)
        ensures
            r@ == seq![DicomNodeView { tag: None, children: Seq::empty() }],
            r.received() == Seq::<HandlerCall>::empty(),
    {
        let mut nodes: Vec<DicomNode> = Vec::new();
        nodes.push(DicomNode { tag: None, children: Vec::new() });
        let r = DicomContainer { nodes, calls: Ghost(Seq::empty()) };
        assert(r@ =~= seq![DicomNodeView { tag: None, children: Seq::empty() }]);
        r
    }
}

impl DicomHandler for DicomContainer {
    closed spec fn received(&self) -> Seq<HandlerCall> {
        self.calls@
    }

    /// Adds the element as a new node, listed among the children of node
    /// `parent_index` when that node exists, and returns the new node's index.
    fn handle_tag(&mut self, parent_index: usize, tag: DicomTag) -> (r: usize)
        ensures
            r == old(self)@.len(),
            final(self)@ == with_child(old(self)@, parent_index as int, tag@),
    {
        let ghost before = self@;
        let index = self.nodes.len();
        if parent_index < index {
            self.nodes[parent_index].children.push(index);
        }
        let ghost linked = self@;
        let ghost tag_view = tag@;
        let child = DicomNode { tag: Some(tag), children: Vec::new() };
        self.nodes.push(child);
        assert(self@ =~= linked.push(DicomNodeView { tag: Some(tag_view), children: Seq::empty() }));
        self.calls = Ghost(self.calls@.push((parent_index, tag_view, index)));
        index
    }
}

/// A handler that only counts the elements it receives.
pub struct DicomDumper {
    tags_count: usize,
    calls: Ghost<Seq<HandlerCall>>,
}

impl DicomDumper {
    /// A counter at zero.
    pub fn new() -> (r: DicomDumper)
        ensures
            r.count() == 0,
            r.received() == Seq::<HandlerCall>::empty(),
    {
        DicomDumper { tags_count: 0, calls: Ghost(Seq::empty()) }
    }

    /// The number of elements received so far.
    pub closed spec fn count(&self) -> nat {
        self.tags_count as nat
    }

    /// The number of elements received so far.
    pub fn len(&self) -> (r: usize)
        ensures
            r == self.count(),
    {
        self.tags_count
    }
}

impl DicomHandler for DicomDumper {
    closed spec fn received(&self) -> Seq<HandlerCall> {
        self.calls@
    }

    /// Counts the element (saturating at `usize::MAX`) and returns the new
    /// count, which numbers the elements from one in stream order.
    fn handle_tag(&mut self, parent_index: usize, tag: DicomTag) -> (r: usize)
        ensures
            old(self).count() < usize::MAX ==> final(self).count() == old(self).count() + 1,
            old(self).count() == usize::MAX ==> final(self).count() == old(self).count(),
            r == final(self).count(),
    {
        if self.tags_count < usize::MAX {
            self.tags_count = self.tags_count + 1;
        }
        self.calls = Ghost(self.calls@.push((parent_index, tag@, self.tags_count)));
        self.tags_count
    }
}

} // verus!
