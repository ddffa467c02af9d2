use std::collections::BTreeSet;

use vstd::prelude::*;

use super::{Frame, FrameId, FrameView, Panel, PanelId};

verus! {

/// Dock tree node, generic over the split geometry it carries.
#[derive(Debug, PartialEq)]
pub enum DockNode<S> {
    /// Leaf frame.
    Frame(Frame),
    /// Split between two nodes.
    Split {
        /// Split geometry (axis, ratio and minimum sizes).
        split: S,
        /// First child.
        first: Box<DockNode<S>>,
        /// Second child.
        second: Box<DockNode<S>>,
    },
}

impl<S: Copy> Clone for DockNode<S> {
    fn clone(&self) -> (copy: Self)
        ensures
            node_view(copy) == node_view(*self),
        decreases self,
    {
        match self {
            DockNode::Frame(frame) => DockNode::Frame(frame.clone()),
            DockNode::Split { split, first, second } => DockNode::Split {
                split: *split,
                first: Box::new((**first).clone()),
                second: Box::new((**second).clone()),
            },
        }
    }
}

/// The mathematical content of a dock tree.
pub enum DockTree<S> {
    /// Leaf frame.
    Frame(FrameView),
    /// Split between two trees.
    Split { split: S, first: Box<DockTree<S>>, second: Box<DockTree<S>> },
}

/// The mathematical content of a dock node.
pub open spec fn node_view<S>(node: DockNode<S>) -> DockTree<S>
    decreases node,
{
    match node {
        DockNode::Frame(frame) => DockTree::Frame(frame@),
        DockNode::Split { split, first, second } => DockTree::Split {
            split,
            first: Box::new(node_view(*first)),
            second: Box::new(node_view(*second)),
        },
    }
}

/// Frames of the tree, in deterministic tree order.
pub open spec fn tree_frames<S>(tree: DockTree<S>) -> Seq<FrameView>
    decreases tree,
{
    match tree {
        DockTree::Frame(frame) => seq![frame],
        DockTree::Split { first, second, .. } => tree_frames(*first) + tree_frames(*second),
    }
}

/// Some frame of the tree has the given ID.
pub open spec fn tree_has_frame<S>(tree: DockTree<S>, id: FrameId) -> bool
    decreases tree,
{
    match tree {
        DockTree::Frame(frame) => frame.id == id,
        DockTree::Split { first, second, .. } => tree_has_frame(*first, id) || tree_has_frame(
            *second,
            id,
        ),
    }
}

/// The first frame of the tree, in tree order, with the given ID.
pub open spec fn tree_frame<S>(tree: DockTree<S>, id: FrameId) -> FrameView
    decreases tree,
{
    match tree {
        DockTree::Frame(frame) => frame,
        DockTree::Split { first, second, .. } => if tree_has_frame(*first, id) {
            tree_frame(*first, id)
        } else {
            tree_frame(*second, id)
        },
    }
}

/// The tree with its first frame of the given ID replaced by `frame`.
pub open spec fn tree_replace_frame<S>(tree: DockTree<S>, id: FrameId, frame: FrameView) -> DockTree<
    S,
>
    decreases tree,
{
    match tree {
        DockTree::Frame(old) => if old.id == id {
            DockTree::Frame(frame)
        } else {
            tree
        },
        DockTree::Split { split, first, second } => if tree_has_frame(*first, id) {
            DockTree::Split { split, first: Box::new(tree_replace_frame(*first, id, frame)), second }
        } else {
            DockTree::Split { split, first, second: Box::new(tree_replace_frame(*second, id, frame)) }
        },
    }
}

/// The tree with empty frames pruned, and whether any frame holds panels.
///
/// A split keeps both children when both hold panels, collapses to the child
/// that holds panels when only one does, and stays as it is when neither does.
pub open spec fn tree_pruned<S>(tree: DockTree<S>) -> (DockTree<S>, bool)
    decreases tree,
{
    match tree {
        DockTree::Frame(frame) => (tree, frame.panels.len() > 0),
        DockTree::Split { split, first, second } => {
            let (a, keep_first) = tree_pruned(*first);
            let (b, keep_second) = tree_pruned(*second);
            if keep_first && keep_second {
                (DockTree::Split { split, first: Box::new(a), second: Box::new(b) }, true)
            } else if keep_first {
                (a, true)
            } else if keep_second {
                (b, true)
            } else {
                (DockTree::Split { split, first: Box::new(a), second: Box::new(b) }, false)
            }
        },
    }
}

fn node_has_frame<S>(node: &DockNode<S>, id: FrameId) -> (found: bool)
    ensures
        found == tree_has_frame(node_view(*node), id),
    decreases node,
{
    match node {
        DockNode::Frame(frame) => frame.id == id,
        DockNode::Split { first, second, .. } => node_has_frame(first, id) || node_has_frame(
            second,
            id,
        ),
    }
}

fn find_frame<'a, S>(node: &'a DockNode<S>, id: FrameId) -> (found: Option<&'a Frame>)
    ensures
        found is Some == tree_has_frame(node_view(*node), id),
        found matches Some(frame) ==> frame@ == tree_frame(node_view(*node), id),
    decreases node,
{
    match node {
        DockNode::Frame(frame) => if frame.id == id {
            Some(frame)
        } else {
            None
        },
        DockNode::Split { first, second, .. } => if node_has_frame(first, id) {
            find_frame(first, id)
        } else {
            find_frame(second, id)
        },
    }
}

fn collect_frames<'a, S>(node: &'a DockNode<S>, frames: &mut Vec<&'a Frame>)
    ensures
        final(frames)@.len() == old(frames)@.len() + tree_frames(node_view(*node)).len(),
        forall|i: int| 0 <= i < old(frames)@.len() ==> final(frames)@[i] == old(frames)@[i],
        forall|i: int|
            0 <= i < tree_frames(node_view(*node)).len() ==> (#[trigger] final(frames)@[old(
                frames,
            )@.len() + i])@ == tree_frames(node_view(*node))[i],
    decreases node,
{
    match node {
        DockNode::Frame(frame) => {
            frames.push(frame);
        },
        DockNode::Split { first, second, .. } => {
            let ghost before = frames@;
            collect_frames(first, frames);
            let ghost middle = frames@;
            collect_frames(second, frames);
            proof {
                let a = tree_frames(node_view(**first));
                let b = tree_frames(node_view(**second));
                assert forall|i: int| 0 <= i < (a + b).len() implies (#[trigger] frames@[before.len()
                    + i])@ == (a + b)[i] by {
                    if i < a.len() {
                        assert(frames@[before.len() + i] == middle[before.len() + i]);
                    } else {
                        assert(frames@[middle.len() + (i - a.len())]@ == b[i - a.len()]);
                    }
                }
            }
        },
    }
}

fn find_frame_mut<'a, S>(node: &'a mut DockNode<S>, id: FrameId) -> (found: Option<&'a mut Frame>)
    ensures
        found is Some == tree_has_frame(node_view(*old(node)), id),
        found is None ==> node_view(*final(node)) == node_view(*old(node)),
        found matches Some(frame) ==> (*frame)@ == tree_frame(node_view(*old(node)), id)
            && node_view(*final(node)) == tree_replace_frame(
            node_view(*old(node)),
            id,
            (*final(frame))@,
        ),
    decreases *old(node),
{
    match node {
        DockNode::Frame(frame) => if frame.id == id {
            Some(frame)
        } else {
            None
        },
        DockNode::Split { first, second, .. } => if node_has_frame(first, id) {
            find_frame_mut(first, id)
        } else {
            find_frame_mut(second, id)
        },
    }
}

fn select_in_node<S>(node: &mut DockNode<S>, id: FrameId, panel: PanelId) -> (selected: bool)
    requires
        tree_has_frame(node_view(*old(node)), id),
    ensures
        selected == tree_frame(node_view(*old(node)), id).holds(panel),
        node_view(*final(node)) == tree_replace_frame(
            node_view(*old(node)),
            id,
            tree_frame(node_view(*old(node)), id).after_select(panel),
        ),
    decreases *old(node),
{
    match node {
        DockNode::Frame(frame) => frame.select_panel(panel),
        DockNode::Split { first, second, .. } => {
            if node_has_frame(first, id) {
                select_in_node(first, id, panel)
            } else {
                select_in_node(second, id, panel)
            }
        },
    }
}

fn remove_in_node<S>(node: &mut DockNode<S>, id: FrameId, panel: PanelId) -> (removed: Option<
    (Panel, bool),
>)
    requires
        tree_has_frame(node_view(*old(node)), id),
    ensures
        ({
            let frame = tree_frame(node_view(*old(node)), id);
            &&& removed is Some == frame.holds(panel)
            &&& removed matches Some((p, dismissible)) ==> p == frame.panels[frame.position_of(
                panel,
            )] && dismissible == frame.dismissible.contains(panel@)
            &&& node_view(*final(node)) == tree_replace_frame(
                node_view(*old(node)),
                id,
                frame.after_remove(panel),
            )
        }),
    decreases *old(node),
{
    match node {
        DockNode::Frame(frame) => frame.remove_panel_with_policy(panel),
        DockNode::Split { first, second, .. } => {
            if node_has_frame(first, id) {
                remove_in_node(first, id, panel)
            } else {
                remove_in_node(second, id, panel)
            }
        },
    }
}

fn receive_in_node<S>(node: &mut DockNode<S>, id: FrameId, panel: Panel, dismissible: bool)
    requires
        tree_has_frame(node_view(*old(node)), id),
    ensures
        node_view(*final(node)) == tree_replace_frame(
            node_view(*old(node)),
            id,
            tree_frame(node_view(*old(node)), id).received(panel, dismissible),
        ),
    decreases *old(node),
{
    match node {
        DockNode::Frame(frame) => {
            frame.push_panel_with_policy(panel, dismissible);
            let len = frame.panels.len();
            frame.active = if len == 0 {
                0
            } else {
                len - 1
            };
        },
        DockNode::Split { first, second, .. } => {
            if node_has_frame(first, id) {
                receive_in_node(first, id, panel, dismissible)
            } else {
                receive_in_node(second, id, panel, dismissible)
            }
        },
    }
}

fn empty_in_node<S>(node: &mut DockNode<S>, id: FrameId) -> (contents: (Vec<Panel>, BTreeSet<u64>))
    requires
        tree_has_frame(node_view(*old(node)), id),
    ensures
        contents.0@ == tree_frame(node_view(*old(node)), id).panels,
        contents.1@ == tree_frame(node_view(*old(node)), id).dismissible,
        node_view(*final(node)) == tree_replace_frame(
            node_view(*old(node)),
            id,
            tree_frame(node_view(*old(node)), id).emptied(),
        ),
    decreases *old(node),
{
    match node {
        DockNode::Frame(frame) => frame.take_contents(),
        DockNode::Split { first, second, .. } => {
            if node_has_frame(first, id) {
                empty_in_node(first, id)
            } else {
                empty_in_node(second, id)
            }
        },
    }
}

fn absorb_in_node<S>(
    node: &mut DockNode<S>,
    id: FrameId,
    panels: Vec<Panel>,
    dismissible: BTreeSet<u64>,
)
    requires
        tree_has_frame(node_view(*old(node)), id),
    ensures
        node_view(*final(node)) == tree_replace_frame(
            node_view(*old(node)),
            id,
            tree_frame(node_view(*old(node)), id).absorbed(panels@, dismissible@),
        ),
    decreases *old(node),
{
    match node {
        DockNode::Frame(frame) => frame.absorb(panels, dismissible),
        DockNode::Split { first, second, .. } => {
            if node_has_frame(first, id) {
                absorb_in_node(first, id, panels, dismissible)
            } else {
                absorb_in_node(second, id, panels, dismissible)
            }
        },
    }
}

fn prune_empty_frames<S>(node: &mut DockNode<S>) -> (has_panels: bool)
    ensures
        (node_view(*final(node)), has_panels) == tree_pruned(node_view(*old(node))),
    decreases *old(node),
{
    let (keep_first, keep_second) = match node {
        DockNode::Frame(frame) => {
            return frame.panels.len() != 0;
        },
        DockNode::Split { first, second, .. } => {
            let keep_first = prune_empty_frames(first);
            let keep_second = prune_empty_frames(second);
            (keep_first, keep_second)
        },
    };
    if keep_first && keep_second {
        return true;
    }
    if !keep_first && !keep_second {
        return false;
    }
    let mut taken = DockNode::Frame(Frame::new(FrameId::from_raw(0), Vec::new()));
    std::mem::swap(node, &mut taken);
    match taken {
        DockNode::Split { first, second, .. } => {
            if keep_first {
                *node = *first;
            } else {
                *node = *second;
            }
        },
        DockNode::Frame(_) => {},
    }
    true
}

/// The frame found for an identity carries that identity.
pub proof fn lemma_tree_frame_id<S>(tree: DockTree<S>, id: FrameId)
    requires
        tree_has_frame(tree, id),
    ensures
        tree_frame(tree, id).id == id,
    decreases tree,
{
    match tree {
        DockTree::Frame(_) => {},
        DockTree::Split { first, second, .. } => {
            if tree_has_frame(*first, id) {
                lemma_tree_frame_id(*first, id);
            } else {
                lemma_tree_frame_id(*second, id);
            }
        },
    }
}

/// Replacing a frame by itself leaves the tree unchanged.
pub proof fn lemma_replace_same<S>(tree: DockTree<S>, id: FrameId)
    requires
        tree_has_frame(tree, id),
    ensures
        tree_replace_frame(tree, id, tree_frame(tree, id)) == tree,
    decreases tree,
{
    match tree {
        DockTree::Frame(_) => {},
        DockTree::Split { split, first, second } => {
            if tree_has_frame(*first, id) {
                lemma_replace_same(*first, id);
            } else {
                lemma_replace_same(*second, id);
            }
        },
    }
}

/// Replacing a frame by one with the same identity keeps every frame identity present.
pub proof fn lemma_replace_keeps_frames<S>(tree: DockTree<S>, id: FrameId, frame: FrameView, other: FrameId)
    requires
        frame.id == id,
        tree_has_frame(tree, id),
    ensures
        tree_has_frame(tree_replace_frame(tree, id, frame), other) == tree_has_frame(tree, other),
        other != id && tree_has_frame(tree, other) ==> tree_frame(
            tree_replace_frame(tree, id, frame),
            other,
        ) == tree_frame(tree, other),
        tree_frame(tree_replace_frame(tree, id, frame), id) == frame,
    decreases tree,
{
    match tree {
        DockTree::Frame(_) => {},
        DockTree::Split { split, first, second } => {
            if tree_has_frame(*first, id) {
                lemma_replace_keeps_frames(*first, id, frame, other);
                lemma_replace_keeps_frames(*first, id, frame, id);
            } else {
                lemma_replace_keeps_frames(*second, id, frame, other);
                lemma_replace_keeps_frames(*second, id, frame, id);
            }
        },
    }
}

/// Root dock area.
#[derive(Debug, PartialEq)]
pub struct DockArea<S> {
    /// Root dock node.
    pub root: DockNode<S>,
}

impl<S: Copy> Clone for DockArea<S> {
    fn clone(&self) -> (copy: Self)
        ensures
            copy@ == self@,
    {
        DockArea { root: self.root.clone() }
    }
}

impl<S> View for DockArea<S> {
    type V = DockTree<S>;

    open spec fn view(&self) -> DockTree<S> {
        node_view(self.root)
    }
}

impl<S> DockArea<S> {
    /// Creates a dock area.
    pub fn new(root: DockNode<S>) -> (area: Self)
        ensures
            area.root == root,
    {
        DockArea { root }
    }

    /// Visits all frames in deterministic tree order.
    pub fn frames(&self) -> (frames: Vec<&Frame>)
        ensures
            frames@.len() == tree_frames(self@).len(),
            forall|i: int| 0 <= i < frames@.len() ==> (#[trigger] frames@[i])@ == tree_frames(self@)[i],
    {
        let mut frames: Vec<&Frame> = Vec::new();
        collect_frames(&self.root, &mut frames);
        proof {
            assert forall|i: int| 0 <= i < frames@.len() implies (#[trigger] frames@[i])@ == tree_frames(self@)[i] by {
                assert(frames@[0 + i]@ == tree_frames(self@)[i]);
            }
        }
        frames
    }

    /// Finds an immutable frame: the first one in tree order with the given ID.
    pub fn frame(&self, frame: FrameId) -> (found: Option<&Frame>)
        ensures
            found is Some == tree_has_frame(self@, frame),
            found matches Some(f) ==> f@ == tree_frame(self@, frame),
    {
        find_frame(&self.root, frame)
    }

    /// Finds a mutable frame: the first one in tree order with the given ID.
    ///
    /// Whatever is done to the frame through the returned reference is what
    /// the area holds afterwards in its place.
    pub fn frame_mut(&mut self, frame: FrameId) -> (found: Option<&mut Frame>)
        ensures
            found is Some == tree_has_frame(old(self)@, frame),
            found is None ==> final(self)@ == old(self)@,
            found matches Some(f) ==> (*f)@ == tree_frame(old(self)@, frame) && final(self)@
                == tree_replace_frame(old(self)@, frame, (*final(f))@),
    {
        find_frame_mut(&mut self.root, frame)
    }

    /// Selects a panel in a frame.
    ///
    /// Returns false when the frame or the panel is missing.
    pub fn select_panel(&mut self, frame: FrameId, panel: PanelId) -> (selected: bool)
        ensures
            selected == (tree_has_frame(old(self)@, frame) && tree_frame(old(self)@, frame).holds(panel)),
            final(self)@ == (if tree_has_frame(old(self)@, frame) {
                tree_replace_frame(old(self)@, frame, tree_frame(old(self)@, frame).after_select(panel))
            } else {
                old(self)@
            }),
    {
        if !node_has_frame(&self.root, frame) {
            return false;
        }
        select_in_node(&mut self.root, frame, panel)
    }

    /// Moves a panel between frames.
    ///
    /// Nothing changes, and the answer is false, when the frames are the same,
    /// when either frame is missing, or when the source frame lacks the panel.
    /// Otherwise the panel leaves the source frame with its dismissal policy,
    /// becomes the active last tab of the target frame, and empty frames are pruned.
    pub fn move_panel(&mut self, from: FrameId, to: FrameId, panel: PanelId) -> (moved: bool)
        ensures
            moved == (from != to && tree_has_frame(old(self)@, to) && tree_has_frame(old(self)@, from)
                && tree_frame(old(self)@, from).holds(panel)),
            !moved ==> final(self)@ == old(self)@,
            moved ==> final(self)@ == moved_panel_tree(old(self)@, from, to, panel),
    {
        if from == to || !node_has_frame(&self.root, to) || !node_has_frame(&self.root, from) {
            return false;
        }
        let ghost before = self@;
        let removed = remove_in_node(&mut self.root, from, panel);
        let (moving, dismissible) = match removed {
            Some(entry) => entry,
            None => {
                proof {
                    lemma_replace_same(before, from);
                }
                return false;
            },
        };
        proof {
            lemma_tree_frame_id(before, from);
            lemma_replace_keeps_frames(before, from, tree_frame(before, from).after_remove(panel), to);
        }
        receive_in_node(&mut self.root, to, moving, dismissible);
        prune_empty_frames(&mut self.root);
        true
    }

    /// Merges all source frame panels into the target frame.
    ///
    /// Nothing changes, and the answer is false, when the frames are the same
    /// or either is missing. Otherwise the target frame appends the source
    /// panels with their dismissal policy, its last tab becomes active, the
    /// source frame is emptied, and empty frames are pruned.
    pub fn merge_frames(&mut self, source: FrameId, target: FrameId) -> (merged: bool)
        ensures
            merged == (source != target && tree_has_frame(old(self)@, source) && tree_has_frame(old(self)@, target)),
            !merged ==> final(self)@ == old(self)@,
            merged ==> final(self)@ == merged_frames_tree(old(self)@, source, target),
    {
        if source == target || !node_has_frame(&self.root, source) || !node_has_frame(&self.root, target) {
            return false;
        }
        let ghost before = self@;
        let (panels, dismissible) = empty_in_node(&mut self.root, source);
        proof {
            lemma_tree_frame_id(before, source);
            lemma_replace_keeps_frames(before, source, tree_frame(before, source).emptied(), target);
        }
        absorb_in_node(&mut self.root, target, panels, dismissible);
        prune_empty_frames(&mut self.root);
        true
    }
}

/// The tree after moving `panel` from frame `from` to frame `to`.
pub open spec fn moved_panel_tree<S>(tree: DockTree<S>, from: FrameId, to: FrameId, panel: PanelId) -> DockTree<S> {
    let source = tree_frame(tree, from);
    let moving = source.panels[source.position_of(panel)];
    let dismissible = source.dismissible.contains(panel@);
    let removed = tree_replace_frame(tree, from, source.after_remove(panel));
    let received = tree_replace_frame(removed, to, tree_frame(removed, to).received(moving, dismissible));
    tree_pruned(received).0
}

/// The tree after merging frame `source` into frame `target`.
pub open spec fn merged_frames_tree<S>(tree: DockTree<S>, source: FrameId, target: FrameId) -> DockTree<S> {
    let from = tree_frame(tree, source);
    let emptied = tree_replace_frame(tree, source, from.emptied());
    let absorbed = tree_replace_frame(emptied, target, tree_frame(emptied, target).absorbed(from.panels, from.dismissible));
    tree_pruned(absorbed).0
}

} // verus!
