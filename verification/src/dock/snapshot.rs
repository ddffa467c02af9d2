use std::collections::BTreeSet;

use vstd::prelude::*;
use vstd::std_specs::btree::spec_btree_keys_iter;
use vstd::std_specs::iter::IteratorSpec;

use crate::raw_ids::{lemma_keys_in_order, raw_ids_ordered};

use super::area::{DockArea, DockNode, DockTree, node_view};
use super::{DockRestoreError, Frame, FrameId, FrameView, Panel, PanelId, raw_panel_ids};
#[allow(unused_imports)]
use super::{lemma_frame_id_view_injective, lemma_panel_id_view_injective};

verus! {

broadcast use lemma_panel_id_view_injective, lemma_frame_id_view_injective;

/// Persistable dock snapshot.
#[derive(Debug, PartialEq)]
pub struct DockSnapshot<S> {
    /// Root snapshot node.
    pub root: DockSnapshotNode<S>,
}

/// Snapshot node.
#[derive(Debug, PartialEq)]
pub enum DockSnapshotNode<S> {
    /// Frame snapshot.
    Frame {
        /// Frame identity.
        id: FrameId,
        /// Panels.
        panels: Vec<Panel>,
        /// Active panel index.
        active: usize,
        /// Panels whose frame tabs expose close/dismiss affordances.
        dismissible_panels: Vec<PanelId>,
    },
    /// Split snapshot.
    Split {
        /// Split geometry (axis, ratio and minimum sizes).
        split: S,
        /// First child.
        first: Box<DockSnapshotNode<S>>,
        /// Second child.
        second: Box<DockSnapshotNode<S>>,
    },
}

impl<S: Copy> Clone for DockSnapshotNode<S> {
    fn clone(&self) -> (copy: Self)
        ensures
            snapshot_tree(copy) == snapshot_tree(*self),
            forall|tree: DockTree<S>| #[trigger] snapshots(copy, tree) == snapshots(*self, tree),
        decreases self,
    {
        match self {
            DockSnapshotNode::Frame { id, panels, active, dismissible_panels } => {
                let mut listed: Vec<PanelId> = Vec::new();
                let n = dismissible_panels.len();
                for i in 0..n
                    invariant
                        n == dismissible_panels@.len(),
                        listed@ == dismissible_panels@.take(i as int),
                {
                    listed.push(dismissible_panels[i]);
                    assert(listed@ =~= dismissible_panels@.take(i + 1));
                }
                assert(dismissible_panels@.take(n as int) =~= dismissible_panels@);
                DockSnapshotNode::Frame {
                    id: *id,
                    panels: copy_panels(panels),
                    active: *active,
                    dismissible_panels: listed,
                }
            },
            DockSnapshotNode::Split { split, first, second } => {
                let first_copy = (**first).clone();
                let second_copy = (**second).clone();
                let copy = DockSnapshotNode::Split {
                    split: *split,
                    first: Box::new(first_copy),
                    second: Box::new(second_copy),
                };
                assert forall|tree: DockTree<S>| #[trigger]
                    snapshots(copy, tree) == snapshots(*self, tree) by {
                    if let DockTree::Split { first: tree_first, second: tree_second, .. } = tree {
                        assert(snapshots(first_copy, *tree_first) == snapshots(**first, *tree_first));
                        assert(snapshots(second_copy, *tree_second) == snapshots(
                            **second,
                            *tree_second,
                        ));
                    }
                }
                copy
            },
        }
    }
}

impl<S: Copy> Clone for DockSnapshot<S> {
    fn clone(&self) -> (copy: Self)
        ensures
            snapshot_tree(copy.root) == snapshot_tree(self.root),
            forall|tree: DockTree<S>| #[trigger] snapshots(copy.root, tree) == snapshots(self.root, tree),
    {
        DockSnapshot { root: self.root.clone() }
    }
}

/// Raw IDs of the listed panels.
pub open spec fn raw_listed_ids(ids: Seq<PanelId>) -> Set<u64> {
    Set::new(|x: u64| exists|i: int| 0 <= i < ids.len() && (#[trigger] ids[i])@ == x)
}

/// `ids` lists the raw IDs of `set` in strictly increasing order.
pub open spec fn lists_ids_in_order(ids: Seq<PanelId>, set: Set<u64>) -> bool {
    &&& forall|i: int, j: int| 0 <= i < j < ids.len() ==> (#[trigger] ids[i])@ < (#[trigger] ids[j])@
    &&& raw_listed_ids(ids) == set
}

/// The dock tree a snapshot restores to.
pub open spec fn snapshot_tree<S>(node: DockSnapshotNode<S>) -> DockTree<S>
    decreases node,
{
    match node {
        DockSnapshotNode::Frame { id, panels, active, dismissible_panels } => DockTree::Frame(
            FrameView { id, panels: panels@, active, dismissible: raw_listed_ids(dismissible_panels@) },
        ),
        DockSnapshotNode::Split { split, first, second } => DockTree::Split {
            split,
            first: Box::new(snapshot_tree(*first)),
            second: Box::new(snapshot_tree(*second)),
        },
    }
}

/// `node` is a snapshot of `tree`, with dismissible panels listed in increasing order.
pub open spec fn snapshots<S>(node: DockSnapshotNode<S>, tree: DockTree<S>) -> bool
    decreases node,
{
    match (node, tree) {
        (
            DockSnapshotNode::Frame { id, panels, active, dismissible_panels },
            DockTree::Frame(frame),
        ) => {
            &&& id == frame.id
            &&& panels@ == frame.panels
            &&& active == frame.active
            &&& lists_ids_in_order(dismissible_panels@, frame.dismissible)
        },
        (
            DockSnapshotNode::Split { split, first, second },
            DockTree::Split { split: tree_split, first: tree_first, second: tree_second },
        ) => {
            &&& split == tree_split
            &&& snapshots(*first, *tree_first)
            &&& snapshots(*second, *tree_second)
        },
        _ => false,
    }
}

/// A copy of a panel list.
pub(crate) fn copy_panels(panels: &Vec<Panel>) -> (copy: Vec<Panel>)
    ensures
        copy@ == panels@,
{
    let mut copy: Vec<Panel> = Vec::new();
    let n = panels.len();
    for i in 0..n
        invariant
            n == panels@.len(),
            copy@ == panels@.take(i as int),
    {
        copy.push(panels[i].clone());
        assert(copy@ =~= panels@.take(i + 1));
    }
    assert(panels@.take(n as int) =~= panels@);
    copy
}

fn listed_dismissible(frame: &Frame) -> (ids: Vec<PanelId>)
    ensures
        lists_ids_in_order(ids@, frame@.dismissible),
{
    let set = frame.dismissible_set();
    let mut ids: Vec<PanelId> = Vec::new();
    let ghost keys = spec_btree_keys_iter(set).remaining();
    for raw in it: set.iter()
        invariant
            it.seq() == keys,
            keys == spec_btree_keys_iter(set).remaining(),
            ids@.len() == it.index(),
            forall|k: int| 0 <= k < it.index() ==> (#[trigger] ids@[k])@ == *keys[k],
    {
        ids.push(PanelId::from_raw(*raw));
    }
    proof {
        lemma_keys_in_order(set);
        assert(ids@.len() == keys.len());
        assert forall|x: u64| raw_listed_ids(ids@).contains(x) <==> set@.contains(x) by {
            if set@.contains(x) {
                let k = choose|k: int| 0 <= k < keys.len() && *keys[k] == x;
                assert(ids@[k]@ == x);
            }
        }
        assert(raw_listed_ids(ids@) =~= set@);
    }
    ids
}

fn snapshot_node<S: Copy>(node: &DockNode<S>) -> (snapshot: DockSnapshotNode<S>)
    ensures
        snapshots(snapshot, node_view(*node)),
    decreases node,
{
    match node {
        DockNode::Frame(frame) => DockSnapshotNode::Frame {
            id: frame.id,
            panels: copy_panels(&frame.panels),
            active: frame.active,
            dismissible_panels: listed_dismissible(frame),
        },
        DockNode::Split { split, first, second } => DockSnapshotNode::Split {
            split: *split,
            first: Box::new(snapshot_node(first)),
            second: Box::new(snapshot_node(second)),
        },
    }
}

impl<S: Copy> DockArea<S> {
    /// Creates a snapshot for persistence.
    ///
    /// Dismissible panels are listed in increasing ID order.
    pub fn snapshot(&self) -> (snapshot: DockSnapshot<S>)
        ensures
            snapshots(snapshot.root, self@),
    {
        DockSnapshot { root: snapshot_node(&self.root) }
    }
}

/// Restoring a snapshot reproduces the dock tree it was taken from.
pub proof fn lemma_snapshot_round_trip<S>(node: DockSnapshotNode<S>, tree: DockTree<S>)
    requires
        snapshots(node, tree),
    ensures
        snapshot_tree(node) == tree,
    decreases node,
{
    match (node, tree) {
        (DockSnapshotNode::Frame { .. }, DockTree::Frame(frame)) => {
        },
        (
            DockSnapshotNode::Split { split, first, second },
            DockTree::Split { split: tree_split, first: tree_first, second: tree_second },
        ) => {
            lemma_snapshot_round_trip(*first, *tree_first);
            lemma_snapshot_round_trip(*second, *tree_second);
        },
        _ => {},
    }
}

/// The split check answers the same for the same split.
pub open spec fn checks_consistently<S, F: Fn(&S) -> Option<DockRestoreError>>(split_error: F) -> bool {
    forall|split: S, r1: Option<DockRestoreError>, r2: Option<DockRestoreError>|
        #![trigger split_error.ensures((&split,), r1), split_error.ensures((&split,), r2)]
        split_error.ensures((&split,), r1) && split_error.ensures((&split,), r2) ==> r1 == r2
}

/// What the split check answers for a split.
pub open spec fn split_verdict<S, F: Fn(&S) -> Option<DockRestoreError>>(
    split_error: F,
    split: S,
) -> Option<DockRestoreError> {
    choose|r: Option<DockRestoreError>| split_error.ensures((&split,), r)
}

/// No two panels share an ID, and none reuses an ID in `seen`.
pub open spec fn panels_fresh(panels: Seq<Panel>, seen: Set<u64>) -> bool {
    &&& forall|i: int, j: int| 0 <= i < j < panels.len() ==> (#[trigger] panels[i]).id != (#[trigger] panels[j]).id
    &&& forall|i: int| 0 <= i < panels.len() ==> !seen.contains((#[trigger] panels[i]).id@)
}

/// The first fault of a dismissible list, walked from the front with the IDs
/// already listed in `listed`: a repeated ID, or an ID outside `frame_ids`.
pub open spec fn dismissible_fault(ids: Seq<PanelId>, listed: Set<u64>, frame_ids: Set<u64>) -> Option<
    DockRestoreError,
>
    decreases ids.len(),
{
    if ids.len() == 0 {
        None
    } else if listed.contains(ids[0]@) {
        Some(DockRestoreError::DuplicateDismissiblePanel)
    } else if !frame_ids.contains(ids[0]@) {
        Some(DockRestoreError::InvalidDismissiblePanel)
    } else {
        dismissible_fault(ids.drop_first(), listed.insert(ids[0]@), frame_ids)
    }
}

/// The outcome of validating a snapshot node in tree order, given the frame
/// and panel IDs met so far: the first fault, or the IDs met afterwards.
pub open spec fn restore_verdict<S, F: Fn(&S) -> Option<DockRestoreError>>(
    node: DockSnapshotNode<S>,
    frames: Set<u64>,
    panels: Set<u64>,
    split_error: F,
) -> Result<(Set<u64>, Set<u64>), DockRestoreError>
    decreases node,
{
    match node {
        DockSnapshotNode::Frame { id, panels: frame_panels, active, dismissible_panels } => {
            if frames.contains(id@) {
                Err(DockRestoreError::DuplicateFrameId)
            } else if frame_panels@.len() == 0 {
                Err(DockRestoreError::EmptyFrame)
            } else if active >= frame_panels@.len() {
                Err(DockRestoreError::InvalidActiveIndex)
            } else if !panels_fresh(frame_panels@, panels) {
                Err(DockRestoreError::DuplicatePanelId)
            } else {
                match dismissible_fault(dismissible_panels@, Set::empty(), raw_panel_ids(frame_panels@)) {
                    Some(fault) => Err(fault),
                    None => Ok((frames.insert(id@), panels.union(raw_panel_ids(frame_panels@)))),
                }
            }
        },
        DockSnapshotNode::Split { split, first, second } => match split_verdict(split_error, split) {
            Some(fault) => Err(fault),
            None => match restore_verdict(*first, frames, panels, split_error) {
                Err(fault) => Err(fault),
                Ok((frames, panels)) => restore_verdict(*second, frames, panels, split_error),
            },
        },
    }
}

/// Raw IDs of the frames of a dock tree.
pub open spec fn tree_frame_ids<S>(tree: DockTree<S>) -> Set<u64>
    decreases tree,
{
    match tree {
        DockTree::Frame(frame) => Set::empty().insert(frame.id@),
        DockTree::Split { first, second, .. } => tree_frame_ids(*first).union(
            tree_frame_ids(*second),
        ),
    }
}

/// Raw IDs of the panels of a dock tree.
pub open spec fn tree_panel_ids<S>(tree: DockTree<S>) -> Set<u64>
    decreases tree,
{
    match tree {
        DockTree::Frame(frame) => raw_panel_ids(frame.panels),
        DockTree::Split { first, second, .. } => tree_panel_ids(*first).union(
            tree_panel_ids(*second),
        ),
    }
}

/// Every answer the split check can give for `split` is "no fault".
pub open spec fn split_passes<S, F: Fn(&S) -> Option<DockRestoreError>>(
    split_error: F,
    split: S,
) -> bool {
    forall|r: Option<DockRestoreError>| split_error.ensures((&split,), r) ==> r is None
}

/// A snapshot node passes validation after the frame and panel IDs met so
/// far, whatever the split check answers within its possible answers.
spec fn snapshot_passes<S, F: Fn(&S) -> Option<DockRestoreError>>(
    node: DockSnapshotNode<S>,
    frames: Set<u64>,
    panels: Set<u64>,
    split_error: F,
) -> bool
    decreases node,
{
    match node {
        DockSnapshotNode::Frame { id, panels: frame_panels, active, dismissible_panels } => {
            &&& !frames.contains(id@)
            &&& frame_panels@.len() > 0
            &&& active < frame_panels@.len()
            &&& panels_fresh(frame_panels@, panels)
            &&& dismissible_fault(dismissible_panels@, Set::empty(), raw_panel_ids(frame_panels@))
                is None
        },
        DockSnapshotNode::Split { split, first, second } => {
            &&& split_passes(split_error, split)
            &&& snapshot_passes(*first, frames, panels, split_error)
            &&& snapshot_passes(
                *second,
                frames.union(tree_frame_ids(snapshot_tree(*first))),
                panels.union(tree_panel_ids(snapshot_tree(*first))),
                split_error,
            )
        },
    }
}

/// A dock tree that restoring accepts: every frame has panels, an active
/// index among them and dismissible panels among its own; no frame ID and
/// no panel ID occurs twice anywhere in the tree; and the split check finds
/// fault in any split, whatever it answers.
pub open spec fn is_valid_tree<S, F: Fn(&S) -> Option<DockRestoreError>>(
    tree: DockTree<S>,
    split_error: F,
) -> bool
    decreases tree,
{
    match tree {
        DockTree::Frame(frame) => {
            &&& frame.panels.len() > 0
            &&& frame.active < frame.panels.len()
            &&& frame.dismissible.subset_of(raw_panel_ids(frame.panels))
            &&& panels_fresh(frame.panels, Set::empty())
        },
        DockTree::Split { split, first, second } => {
            &&& split_passes(split_error, split)
            &&& is_valid_tree(*first, split_error)
            &&& is_valid_tree(*second, split_error)
            &&& tree_frame_ids(*first).disjoint(tree_frame_ids(*second))
            &&& tree_panel_ids(*first).disjoint(tree_panel_ids(*second))
        },
    }
}

/// A dismissible list in strictly increasing order, drawn from `frame_ids`
/// and disjoint from `listed`, has no fault.
proof fn lemma_ordered_dismissible_has_no_fault(
    ids: Seq<PanelId>,
    listed: Set<u64>,
    frame_ids: Set<u64>,
)
    requires
        forall|i: int, j: int| 0 <= i < j < ids.len() ==> (#[trigger] ids[i])@ < (#[trigger] ids[j])@,
        forall|i: int| 0 <= i < ids.len() ==> frame_ids.contains((#[trigger] ids[i])@),
        forall|i: int| 0 <= i < ids.len() ==> !listed.contains((#[trigger] ids[i])@),
    ensures
        dismissible_fault(ids, listed, frame_ids) is None,
    decreases ids.len(),
{
    if ids.len() > 0 {
        let rest = ids.drop_first();
        let head = ids[0]@;
        assert forall|i: int| 0 <= i < rest.len() implies !listed.insert(head).contains(
            (#[trigger] rest[i])@,
        ) by {
            assert(rest[i] == ids[i + 1]);
        }
        assert forall|i: int, j: int| 0 <= i < j < rest.len() implies (#[trigger] rest[i])@ < (
        #[trigger] rest[j])@ by {
            assert(rest[i] == ids[i + 1] && rest[j] == ids[j + 1]);
        }
        assert forall|i: int| 0 <= i < rest.len() implies frame_ids.contains(
            (#[trigger] rest[i])@,
        ) by {
            assert(rest[i] == ids[i + 1]);
        }
        lemma_ordered_dismissible_has_no_fault(rest, listed.insert(head), frame_ids);
    }
}

/// A snapshot of a valid tree, after frame and panel IDs that the tree does
/// not use, passes validation.
proof fn lemma_valid_tree_passes<S, F: Fn(&S) -> Option<DockRestoreError>>(
    node: DockSnapshotNode<S>,
    tree: DockTree<S>,
    frames: Set<u64>,
    panels: Set<u64>,
    split_error: F,
)
    requires
        snapshots(node, tree),
        is_valid_tree(tree, split_error),
        frames.disjoint(tree_frame_ids(tree)),
        panels.disjoint(tree_panel_ids(tree)),
    ensures
        snapshot_passes(node, frames, panels, split_error),
    decreases node,
{
    lemma_snapshot_round_trip(node, tree);
    match (node, tree) {
        (
            DockSnapshotNode::Frame { id, panels: frame_panels, active, dismissible_panels },
            DockTree::Frame(frame),
        ) => {
            assert(tree_frame_ids(tree).contains(id@));
            let own = raw_panel_ids(frame_panels@);
            assert forall|i: int| 0 <= i < frame_panels@.len() implies !panels.contains(
                (#[trigger] frame_panels@[i]).id@,
            ) by {
                assert(own.contains(frame_panels@[i].id@));
            }
            let ids = dismissible_panels@;
            assert forall|i: int| 0 <= i < ids.len() implies own.contains((#[trigger] ids[i])@) by {
                assert(raw_listed_ids(ids).contains(ids[i]@));
            }
            lemma_ordered_dismissible_has_no_fault(ids, Set::empty(), own);
        },
        (
            DockSnapshotNode::Split { split, first, second },
            DockTree::Split { split: tree_split, first: tree_first, second: tree_second },
        ) => {
            let f1 = tree_frame_ids(*tree_first);
            let p1 = tree_panel_ids(*tree_first);
            lemma_valid_tree_passes(*first, *tree_first, frames, panels, split_error);
            lemma_snapshot_round_trip(*first, *tree_first);
            lemma_valid_tree_passes(*second, *tree_second, frames.union(f1), panels.union(p1), split_error);
        },
        _ => {},
    }
}

fn check_panels(
    panels: &Vec<Panel>,
    panel_ids: &mut BTreeSet<u64>,
) -> (fresh: bool)
    ensures
        fresh == panels_fresh(panels@, old(panel_ids)@),
        fresh ==> final(panel_ids)@ == old(panel_ids)@.union(raw_panel_ids(panels@)),
{
    assert(raw_ids_ordered());
    let mut frame_ids: BTreeSet<u64> = BTreeSet::new();
    let ghost start = panel_ids@;
    let n = panels.len();
    for i in 0..n
        invariant
            n == panels@.len(),
            raw_ids_ordered(),
            frame_ids@ == raw_panel_ids(panels@.take(i as int)),
            panel_ids@ == start.union(raw_panel_ids(panels@.take(i as int))),
            panels_fresh(panels@.take(i as int), start),
            start == old(panel_ids)@,
    {
        let raw = panels[i].id.raw();
        let ghost prefix = panels@.take(i as int);
        let ghost next = panels@.take(i + 1);
        proof {
            assert(next =~= prefix.push(panels@[i as int]));
            assert forall|x: u64| raw_panel_ids(next).contains(x) <==> raw_panel_ids(prefix).insert(raw).contains(x) by {
                if raw_panel_ids(next).contains(x) && x != raw {
                    let k = choose|k: int| 0 <= k < next.len() && (#[trigger] next[k]).id@ == x;
                    assert(prefix[k] == next[k]);
                }
                if raw_panel_ids(prefix).contains(x) {
                    let k = choose|k: int| 0 <= k < prefix.len() && (#[trigger] prefix[k]).id@ == x;
                    assert(prefix[k] == next[k]);
                }
                assert(next[i as int].id@ == raw);
            }
            assert(raw_panel_ids(next) =~= raw_panel_ids(prefix).insert(raw));
        }
        if !frame_ids.insert(raw) {
            proof {
                let k = choose|k: int| 0 <= k < prefix.len() && (#[trigger] prefix[k]).id@ == raw;
                assert(prefix[k] == panels@[k]);
                assert(panels@[k].id == panels@[i as int].id);
            }
            return false;
        }
        if !panel_ids.insert(raw) {
            proof {
                assert(start.contains(raw));
                assert(panels@[i as int].id@ == raw);
            }
            return false;
        }
        proof {
            assert forall|p: int, q: int| 0 <= p < q < next.len() implies (#[trigger] next[p]).id != (#[trigger] next[q]).id by {
                if q == i {
                    assert(next[p] == prefix[p]);
                    assert(raw_panel_ids(prefix).contains(next[p].id@));
                } else {
                    assert(next[p] == prefix[p] && next[q] == prefix[q]);
                }
            }
            assert forall|p: int| 0 <= p < next.len() implies !start.contains((#[trigger] next[p]).id@) by {
                if p < i {
                    assert(next[p] == prefix[p]);
                }
            }
            assert(panel_ids@ =~= start.union(raw_panel_ids(next)));
        }
    }
    assert(panels@.take(n as int) =~= panels@);
    true
}

fn check_dismissible(ids: &Vec<PanelId>, frame_panels: &Vec<Panel>) -> (fault: Option<DockRestoreError>)
    ensures
        fault == dismissible_fault(ids@, Set::empty(), raw_panel_ids(frame_panels@)),
{
    assert(raw_ids_ordered());
    let mut listed: BTreeSet<u64> = BTreeSet::new();
    let n = ids.len();
    assert(ids@.skip(0) =~= ids@);
    for i in 0..n
        invariant
            n == ids@.len(),
            raw_ids_ordered(),
            dismissible_fault(ids@, Set::empty(), raw_panel_ids(frame_panels@)) == dismissible_fault(
                ids@.skip(i as int),
                listed@,
                raw_panel_ids(frame_panels@),
            ),
    {
        let id = ids[i];
        let ghost rest = ids@.skip(i as int);
        assert(rest[0] == id);
        assert(rest.drop_first() =~= ids@.skip(i + 1));
        if listed.contains(&id.raw()) {
            return Some(DockRestoreError::DuplicateDismissiblePanel);
        }
        if !frame_holds(frame_panels, id) {
            return Some(DockRestoreError::InvalidDismissiblePanel);
        }
        listed.insert(id.raw());
    }
    assert(ids@.skip(n as int).len() == 0);
    None
}

fn frame_holds(panels: &Vec<Panel>, id: PanelId) -> (found: bool)
    ensures
        found == raw_panel_ids(panels@).contains(id@),
{
    let n = panels.len();
    for i in 0..n
        invariant
            n == panels@.len(),
            forall|j: int| 0 <= j < i ==> panels@[j].id@ != id@,
    {
        if panels[i].id == id {
            assert(panels@[i as int].id@ == id@);
            return true;
        }
    }
    false
}

fn validate_node<S, F: Fn(&S) -> Option<DockRestoreError>>(
    node: &DockSnapshotNode<S>,
    frame_ids: &mut BTreeSet<u64>,
    panel_ids: &mut BTreeSet<u64>,
    split_error: &F,
) -> (outcome: Result<(), DockRestoreError>)
    requires
        forall|split: S| split_error.requires((&split,)),
    ensures
        checks_consistently(*split_error) ==> match restore_verdict(
            *node,
            old(frame_ids)@,
            old(panel_ids)@,
            *split_error,
        ) {
            Ok((frames, panels)) => outcome is Ok && final(frame_ids)@ == frames && final(panel_ids)@ == panels,
            Err(fault) => outcome == Err::<(), DockRestoreError>(fault),
        },
        snapshot_passes(*node, old(frame_ids)@, old(panel_ids)@, *split_error) ==> {
            &&& outcome is Ok
            &&& final(frame_ids)@ == old(frame_ids)@.union(tree_frame_ids(snapshot_tree(*node)))
            &&& final(panel_ids)@ == old(panel_ids)@.union(tree_panel_ids(snapshot_tree(*node)))
        },
    decreases node,
{
    let ghost frames_before = frame_ids@;
    let ghost panels_before = panel_ids@;
    match node {
        DockSnapshotNode::Frame { id, panels, active, dismissible_panels } => {
            assert(raw_ids_ordered());
            if !frame_ids.insert(id.raw()) {
                return Err(DockRestoreError::DuplicateFrameId);
            }
            if panels.len() == 0 {
                return Err(DockRestoreError::EmptyFrame);
            }
            if *active >= panels.len() {
                return Err(DockRestoreError::InvalidActiveIndex);
            }
            if !check_panels(panels, panel_ids) {
                return Err(DockRestoreError::DuplicatePanelId);
            }
            let fault = check_dismissible(dismissible_panels, panels);
            assert(frames_before.insert(id@) =~= frames_before.union(
                tree_frame_ids(snapshot_tree(*node)),
            ));
            match fault {
                Some(fault) => Err(fault),
                None => Ok(()),
            }
        },
        DockSnapshotNode::Split { split, first, second } => {
            let verdict = split_error(split);
            proof {
                if checks_consistently(*split_error) {
                    assert(split_error.ensures((split,), verdict));
                    let chosen = split_verdict(*split_error, *split);
                    assert(split_error.ensures((split,), chosen));
                }
            }
            if let Some(fault) = verdict {
                return Err(fault);
            }
            match validate_node(first, frame_ids, panel_ids, split_error) {
                Err(fault) => Err(fault),
                Ok(()) => {
                    let outcome = validate_node(second, frame_ids, panel_ids, split_error);
                    proof {
                        let f1 = tree_frame_ids(snapshot_tree(**first));
                        let f2 = tree_frame_ids(snapshot_tree(**second));
                        let p1 = tree_panel_ids(snapshot_tree(**first));
                        let p2 = tree_panel_ids(snapshot_tree(**second));
                        assert(frames_before.union(f1).union(f2) =~= frames_before.union(
                            tree_frame_ids(snapshot_tree(*node)),
                        ));
                        assert(panels_before.union(p1).union(p2) =~= panels_before.union(
                            tree_panel_ids(snapshot_tree(*node)),
                        ));
                    }
                    outcome
                },
            }
        },
    }
}

fn restore_node<S>(snapshot: DockSnapshotNode<S>) -> (node: DockNode<S>)
    ensures
        node_view(node) == snapshot_tree(snapshot),
    decreases snapshot,
{
    match snapshot {
        DockSnapshotNode::Frame { id, panels, active, dismissible_panels } => {
            DockNode::Frame(Frame::restored(id, panels, active, &dismissible_panels))
        },
        DockSnapshotNode::Split { split, first, second } => DockNode::Split {
            split,
            first: Box::new(restore_node(*first)),
            second: Box::new(restore_node(*second)),
        },
    }
}

impl<S> DockArea<S> {
    /// Restores a snapshot after validation.
    ///
    /// Nodes are checked in tree order; a split is first checked by
    /// `split_error`, which answers the fault of its geometry, if any. The
    /// first fault met is returned. When the split check answers the same for
    /// the same split, the outcome is exactly `restore_verdict`, and a
    /// snapshot of a valid tree (`is_valid_tree`) restores to that tree.
    pub fn restore<F: Fn(&S) -> Option<DockRestoreError>>(
        snapshot: DockSnapshot<S>,
        split_error: F,
    ) -> (restored: Result<Self, DockRestoreError>)
        requires
            forall|split: S| split_error.requires((&split,)),
        ensures
            restored matches Ok(area) ==> area@ == snapshot_tree(snapshot.root),
            checks_consistently(split_error) ==> match restore_verdict(
                snapshot.root,
                Set::empty(),
                Set::empty(),
                split_error,
            ) {
                Ok(_) => restored is Ok,
                Err(fault) => restored matches Err(e) && e == fault,
            },
            forall|tree: DockTree<S>|
                #[trigger] snapshots(snapshot.root, tree) && is_valid_tree(tree, split_error) ==> (
                restored matches Ok(area) && area@ == tree),
    {
        let ghost root = snapshot.root;
        let mut frame_ids: BTreeSet<u64> = BTreeSet::new();
        let mut panel_ids: BTreeSet<u64> = BTreeSet::new();
        let restored = match validate_node(&snapshot.root, &mut frame_ids, &mut panel_ids, &split_error) {
            Err(fault) => Err(fault),
            Ok(()) => Ok(DockArea { root: restore_node(snapshot.root) }),
        };
        proof {
            assert forall|tree: DockTree<S>|
                #[trigger] snapshots(root, tree) && is_valid_tree(
                    tree,
                    split_error,
                ) implies (restored matches Ok(area) && area@ == tree) by {
                lemma_valid_tree_passes(root, tree, Set::empty(), Set::empty(), split_error);
                lemma_snapshot_round_trip(root, tree);
            }
        }
        restored
    }
}

} // verus!
