use vstd::multiset::Multiset;
use vstd::prelude::*;
use vstd::seq_lib::lemma_multiset_commutative;

use super::area::{
    DockTree, lemma_replace_keeps_frames, lemma_tree_frame_id, merged_frames_tree,
    moved_panel_tree, tree_frame, tree_has_frame, tree_pruned, tree_replace_frame,
};
use super::{
    Frame, FrameId, FrameTab, FrameView, Panel, PanelId, is_first_panel_position, presents_tab,
    raw_panel_ids,
};

verus! {

broadcast use vstd::seq_lib::group_to_multiset_ensures, vstd::multiset::group_multiset_axioms;

/// All panels of the tree, frame after frame in tree order.
pub open spec fn tree_panels<S>(tree: DockTree<S>) -> Seq<Panel>
    decreases tree,
{
    match tree {
        DockTree::Frame(frame) => frame.panels,
        DockTree::Split { first, second, .. } => tree_panels(*first) + tree_panels(*second),
    }
}

/// Replacing a frame trades its panels for the new frame's panels.
pub proof fn lemma_replace_trades_panels<S>(tree: DockTree<S>, id: FrameId, frame: FrameView)
    requires
        tree_has_frame(tree, id),
    ensures
        tree_panels(tree_replace_frame(tree, id, frame)).to_multiset().add(
            tree_frame(tree, id).panels.to_multiset(),
        ) == tree_panels(tree).to_multiset().add(frame.panels.to_multiset()),
    decreases tree,
{
    let old = tree_frame(tree, id);
    match tree {
        DockTree::Frame(_) => {
            assert(frame.panels.to_multiset().add(old.panels.to_multiset()) =~= old.panels.to_multiset().add(
                frame.panels.to_multiset(),
            ));
        },
        DockTree::Split { split, first, second } => {
            lemma_multiset_commutative(tree_panels(*first), tree_panels(*second));
            if tree_has_frame(*first, id) {
                lemma_replace_trades_panels(*first, id, frame);
                let replaced = tree_replace_frame(*first, id, frame);
                lemma_multiset_commutative(tree_panels(replaced), tree_panels(*second));
                assert(tree_panels(replaced).to_multiset().add(tree_panels(*second).to_multiset()).add(
                    old.panels.to_multiset(),
                ) =~= tree_panels(replaced).to_multiset().add(old.panels.to_multiset()).add(
                    tree_panels(*second).to_multiset(),
                ));
                assert(tree_panels(*first).to_multiset().add(frame.panels.to_multiset()).add(
                    tree_panels(*second).to_multiset(),
                ) =~= tree_panels(*first).to_multiset().add(tree_panels(*second).to_multiset()).add(
                    frame.panels.to_multiset(),
                ));
            } else {
                lemma_replace_trades_panels(*second, id, frame);
                let replaced = tree_replace_frame(*second, id, frame);
                lemma_multiset_commutative(tree_panels(*first), tree_panels(replaced));
                assert(tree_panels(*first).to_multiset().add(tree_panels(replaced).to_multiset()).add(
                    old.panels.to_multiset(),
                ) =~= tree_panels(*first).to_multiset().add(
                    tree_panels(replaced).to_multiset().add(old.panels.to_multiset()),
                ));
                assert(tree_panels(*first).to_multiset().add(
                    tree_panels(*second).to_multiset().add(frame.panels.to_multiset()),
                ) =~= tree_panels(*first).to_multiset().add(tree_panels(*second).to_multiset()).add(
                    frame.panels.to_multiset(),
                ));
            }
        },
    }
}

/// A panel held by a tab list has a first tab position.
pub proof fn lemma_first_panel_position(panels: Seq<Panel>, panel: PanelId)
    requires
        exists|i: int| 0 <= i < panels.len() && (#[trigger] panels[i]).id == panel,
    ensures
        exists|p: int| is_first_panel_position(panels, panel, p),
    decreases panels.len(),
{
    let last = panels.len() - 1;
    if exists|i: int| 0 <= i < last && (#[trigger] panels.drop_last()[i]).id == panel {
        lemma_first_panel_position(panels.drop_last(), panel);
        let p = choose|p: int| is_first_panel_position(panels.drop_last(), panel, p);
        assert forall|j: int| 0 <= j < p implies panels[j].id != panel by {
            assert(panels.drop_last()[j] == panels[j]);
        }
        assert(panels.drop_last()[p] == panels[p]);
        assert(is_first_panel_position(panels, panel, p));
    } else {
        assert forall|j: int| 0 <= j < last implies panels[j].id != panel by {
            assert(panels.drop_last()[j] == panels[j]);
        }
        let i = choose|i: int| 0 <= i < panels.len() && (#[trigger] panels[i]).id == panel;
        assert(is_first_panel_position(panels, panel, last));
    }
}

/// Pruning keeps every panel, and reports whether the tree holds any.
pub proof fn lemma_prune_keeps_panels<S>(tree: DockTree<S>)
    ensures
        tree_panels(tree_pruned(tree).0).to_multiset() == tree_panels(tree).to_multiset(),
        tree_pruned(tree).1 == (tree_panels(tree).len() > 0),
    decreases tree,
{
    match tree {
        DockTree::Frame(_) => {},
        DockTree::Split { split, first, second } => {
            lemma_prune_keeps_panels(*first);
            lemma_prune_keeps_panels(*second);
            let (a, keep_first) = tree_pruned(*first);
            let (b, keep_second) = tree_pruned(*second);
            lemma_multiset_commutative(tree_panels(*first), tree_panels(*second));
            lemma_multiset_commutative(tree_panels(a), tree_panels(b));
            if !keep_second {
                assert(tree_panels(*second).to_multiset() =~= Multiset::empty());
            }
            if !keep_first {
                assert(tree_panels(*first).to_multiset() =~= Multiset::empty());
            }
        },
    }
}

/// Moving a panel between frames neither loses nor duplicates any panel of the area.
pub proof fn lemma_move_keeps_panels<S>(tree: DockTree<S>, from: FrameId, to: FrameId, panel: PanelId)
    requires
        from != to,
        tree_has_frame(tree, from),
        tree_has_frame(tree, to),
        tree_frame(tree, from).holds(panel),
    ensures
        tree_panels(moved_panel_tree(tree, from, to, panel)).to_multiset() == tree_panels(
            tree,
        ).to_multiset(),
{
    let source = tree_frame(tree, from);
    lemma_first_panel_position(source.panels, panel);
    let position = source.position_of(panel);
    assert(is_first_panel_position(source.panels, panel, position));
    let moving = source.panels[position];
    let dismissible = source.dismissible.contains(panel@);
    let after = source.after_remove(panel);
    let removed = tree_replace_frame(tree, from, after);
    lemma_tree_frame_id(tree, from);
    lemma_replace_keeps_frames(tree, from, after, to);
    lemma_replace_trades_panels(tree, from, after);
    let target = tree_frame(removed, to);
    let arrived = target.received(moving, dismissible);
    let received = tree_replace_frame(removed, to, arrived);
    lemma_replace_trades_panels(removed, to, arrived);
    lemma_prune_keeps_panels(received);
    assert(source.panels.to_multiset().count(moving) > 0) by {
        assert(source.panels.contains(moving));
    }
    assert(after.panels.to_multiset().insert(moving) =~= source.panels.to_multiset());
    assert(arrived.panels.to_multiset() =~= target.panels.to_multiset().insert(moving));
    let t = tree_panels(tree).to_multiset();
    let r = tree_panels(removed).to_multiset();
    let v = tree_panels(received).to_multiset();
    assert forall|x: Panel| v.count(x) == t.count(x) by {
        assert(r.add(source.panels.to_multiset()).count(x) == t.add(after.panels.to_multiset()).count(x));
        assert(v.add(target.panels.to_multiset()).count(x) == r.add(arrived.panels.to_multiset()).count(x));
        assert(after.panels.to_multiset().insert(moving).count(x) == source.panels.to_multiset().count(x));
        assert(arrived.panels.to_multiset().count(x) == target.panels.to_multiset().insert(moving).count(x));
    }
    assert(v =~= t);
}

/// Merging frames neither loses nor duplicates any panel of the area.
pub proof fn lemma_merge_keeps_panels<S>(tree: DockTree<S>, source: FrameId, target: FrameId)
    requires
        source != target,
        tree_has_frame(tree, source),
        tree_has_frame(tree, target),
    ensures
        tree_panels(merged_frames_tree(tree, source, target)).to_multiset() == tree_panels(
            tree,
        ).to_multiset(),
{
    let from = tree_frame(tree, source);
    let empty = from.emptied();
    let emptied = tree_replace_frame(tree, source, empty);
    lemma_tree_frame_id(tree, source);
    lemma_replace_keeps_frames(tree, source, empty, target);
    lemma_replace_trades_panels(tree, source, empty);
    let into = tree_frame(emptied, target);
    let grown = into.absorbed(from.panels, from.dismissible);
    let absorbed = tree_replace_frame(emptied, target, grown);
    lemma_replace_trades_panels(emptied, target, grown);
    lemma_multiset_commutative(into.panels, from.panels);
    lemma_prune_keeps_panels(absorbed);
    assert(empty.panels.to_multiset() =~= Multiset::empty());
    let t = tree_panels(tree).to_multiset();
    let e = tree_panels(emptied).to_multiset();
    let a = tree_panels(absorbed).to_multiset();
    assert forall|x: Panel| a.count(x) == t.count(x) by {
        assert(e.add(from.panels.to_multiset()).count(x) == t.add(empty.panels.to_multiset()).count(x));
        assert(a.add(into.panels.to_multiset()).count(x) == e.add(grown.panels.to_multiset()).count(x));
        assert(grown.panels.to_multiset().count(x) == into.panels.to_multiset().add(from.panels.to_multiset()).count(x));
    }
    assert(a =~= t);
}

proof fn lemma_pruning_adds_no_frames<S>(tree: DockTree<S>, id: FrameId)
    ensures
        tree_has_frame(tree_pruned(tree).0, id) ==> tree_has_frame(tree, id),
    decreases tree,
{
    if let DockTree::Split { first, second, .. } = tree {
        lemma_pruning_adds_no_frames(*first, id);
        lemma_pruning_adds_no_frames(*second, id);
    }
}

proof fn lemma_held_frame_has_panels<S>(tree: DockTree<S>, id: FrameId)
    requires
        tree_has_frame(tree, id),
        tree_frame(tree, id).panels.len() > 0,
    ensures
        tree_panels(tree).len() > 0,
    decreases tree,
{
    if let DockTree::Split { first, second, .. } = tree {
        if tree_has_frame(*first, id) {
            lemma_held_frame_has_panels(*first, id);
        } else {
            lemma_held_frame_has_panels(*second, id);
        }
    }
}

proof fn lemma_pruning_keeps_held_frame<S>(tree: DockTree<S>, id: FrameId)
    requires
        tree_has_frame(tree, id),
        tree_frame(tree, id).panels.len() > 0,
    ensures
        tree_has_frame(tree_pruned(tree).0, id),
        tree_frame(tree_pruned(tree).0, id) == tree_frame(tree, id),
    decreases tree,
{
    if let DockTree::Split { first, second, .. } = tree {
        lemma_prune_keeps_panels(*first);
        lemma_prune_keeps_panels(*second);
        if tree_has_frame(*first, id) {
            lemma_pruning_keeps_held_frame(*first, id);
            lemma_held_frame_has_panels(*first, id);
        } else {
            lemma_pruning_keeps_held_frame(*second, id);
            lemma_held_frame_has_panels(*second, id);
            lemma_pruning_adds_no_frames(*first, id);
        }
    }
}

/// Moving a panel carries its dismissal policy along: afterwards the target
/// frame ends with the moved panel as its active last tab, dismissible exactly
/// when it was dismissible in the source frame.
pub proof fn lemma_move_carries_dismissal<S>(tree: DockTree<S>, from: FrameId, to: FrameId, panel: PanelId)
    requires
        from != to,
        tree_has_frame(tree, from),
        tree_has_frame(tree, to),
        tree_frame(tree, from).holds(panel),
        tree_frame(tree, to).panels.len() < usize::MAX,
    ensures
        ({
            let target = tree_frame(moved_panel_tree(tree, from, to, panel), to);
            &&& tree_has_frame(moved_panel_tree(tree, from, to, panel), to)
            &&& target.panels.len() > 0
            &&& target.panels.last().id == panel
            &&& target.active == target.panels.len() - 1
            &&& target.dismissible.contains(panel@) == tree_frame(tree, from).dismissible.contains(
                panel@,
            )
        }),
{
    let source = tree_frame(tree, from);
    lemma_first_panel_position(source.panels, panel);
    let position = source.position_of(panel);
    assert(is_first_panel_position(source.panels, panel, position));
    let moving = source.panels[position];
    let dismissible = source.dismissible.contains(panel@);
    let after = source.after_remove(panel);
    let removed = tree_replace_frame(tree, from, after);
    lemma_tree_frame_id(tree, from);
    lemma_replace_keeps_frames(tree, from, after, to);
    let target = tree_frame(removed, to);
    lemma_tree_frame_id(removed, to);
    let arrived = target.received(moving, dismissible);
    let received = tree_replace_frame(removed, to, arrived);
    lemma_replace_keeps_frames(removed, to, arrived, to);
    assert(arrived.panels.last() == moving);
    assert(moving.id == panel);
    assert(arrived.dismissible.contains(panel@) == dismissible);
    assert(tree_frame(received, to) == arrived);
    lemma_pruning_keeps_held_frame(received, to);
}

/// Closing a tab leaves the active index at the smaller of its old value
/// and the last remaining position: it stays put while it still names a tab,
/// so closing a tab after the active one keeps the same panel active.
pub proof fn lemma_remove_clamps_active(frame: FrameView, panel: PanelId)
    requires
        frame.holds(panel),
    ensures
        ({
            let after = frame.after_remove(panel);
            &&& after.panels.len() == frame.panels.len() - 1
            &&& frame.active < after.panels.len() ==> after.active == frame.active
            &&& after.panels.len() > 0 && frame.active >= after.panels.len() ==> after.active
                == after.panels.len() - 1
            &&& frame.active < frame.position_of(panel) ==> after.panels[after.active as int]
                == frame.panels[frame.active as int]
        }),
{
    lemma_first_panel_position(frame.panels, panel);
    let position = frame.position_of(panel);
    assert(is_first_panel_position(frame.panels, panel, position));
}

/// A frame tab shows its close affordance exactly when its panel may be
/// dismissed, whichever tab is active; in a frame whose panels are all
/// dismissible, as a new frame's are, every tab shows it. The tab presents
/// the panel at its position, is active exactly at the active index, and can
/// always be dragged.
pub proof fn lemma_tab_close_follows_dismissal(frame: &Frame, index: int, tab: FrameTab)
    requires
        0 <= index < frame.tab_panels().len(),
        presents_tab(frame, index, tab),
    ensures
        tab.close_visible == frame.dismissible_ids().contains(tab.panel@),
        frame.dismissible_ids() == raw_panel_ids(frame.tab_panels()) ==> tab.close_visible,
        tab.panel == frame.tab_panels()[index].id,
        tab.active == (index == frame.active_index()),
        tab.draggable,
{
    assert(frame.tab_panels()[index].id == tab.panel);
}

/// Merging frames appends the source panels to the target's tabs, with the
/// source's dismissal policy, and makes the target's last tab active.
pub proof fn lemma_merge_activates_last_tab<S>(tree: DockTree<S>, source: FrameId, target: FrameId)
    requires
        source != target,
        tree_has_frame(tree, source),
        tree_has_frame(tree, target),
        0 < tree_frame(tree, target).panels.len() + tree_frame(tree, source).panels.len()
            <= usize::MAX,
    ensures
        ({
            let merged = merged_frames_tree(tree, source, target);
            let into = tree_frame(merged, target);
            &&& tree_has_frame(merged, target)
            &&& into.panels == tree_frame(tree, target).panels + tree_frame(tree, source).panels
            &&& into.active == into.panels.len() - 1
            &&& into.dismissible == tree_frame(tree, target).dismissible.union(
                tree_frame(tree, source).dismissible,
            )
        }),
{
    let from = tree_frame(tree, source);
    let empty = from.emptied();
    lemma_tree_frame_id(tree, source);
    lemma_replace_keeps_frames(tree, source, empty, target);
    let emptied = tree_replace_frame(tree, source, empty);
    let into = tree_frame(emptied, target);
    lemma_tree_frame_id(emptied, target);
    let grown = into.absorbed(from.panels, from.dismissible);
    lemma_replace_keeps_frames(emptied, target, grown, target);
    let absorbed = tree_replace_frame(emptied, target, grown);
    lemma_pruning_keeps_held_frame(absorbed, target);
}

/// Selecting a panel that a frame holds makes its first tab active and
/// changes nothing else; selecting one it does not hold changes nothing.
pub proof fn lemma_select_activates_panel(frame: FrameView, panel: PanelId)
    requires
        frame.panels.len() <= usize::MAX,
    ensures
        frame.holds(panel) ==> {
            let after = frame.after_select(panel);
            &&& after.panels == frame.panels
            &&& after.dismissible == frame.dismissible
            &&& after.active < after.panels.len()
            &&& after.panels[after.active as int].id == panel
            &&& forall|j: int| 0 <= j < after.active ==> after.panels[j].id != panel
        },
        !frame.holds(panel) ==> frame.after_select(panel) == frame,
{
    if frame.holds(panel) {
        lemma_first_panel_position(frame.panels, panel);
        assert(is_first_panel_position(frame.panels, panel, frame.position_of(panel)));
    }
}

/// Closing a tab removes exactly the first tab of that panel, keeping the
/// other tabs in order, and forgets the panel's dismissal policy.
pub proof fn lemma_remove_drops_first_tab(frame: FrameView, panel: PanelId)
    requires
        frame.holds(panel),
    ensures
        ({
            let after = frame.after_remove(panel);
            let position = frame.position_of(panel);
            &&& 0 <= position < frame.panels.len()
            &&& frame.panels[position].id == panel
            &&& forall|j: int| 0 <= j < position ==> frame.panels[j].id != panel
            &&& forall|j: int| 0 <= j < position ==> after.panels[j] == frame.panels[j]
            &&& forall|j: int|
                position <= j < after.panels.len() ==> after.panels[j] == frame.panels[j + 1]
            &&& !after.dismissible.contains(panel@)
            &&& forall|x: u64| x != panel@ ==> (after.dismissible.contains(x)
                == frame.dismissible.contains(x))
        }),
{
    lemma_first_panel_position(frame.panels, panel);
    assert(is_first_panel_position(frame.panels, panel, frame.position_of(panel)));
}

/// Adding a panel appends it as the last tab, keeps the active index, and
/// gives that panel the requested dismissal policy while every other panel
/// keeps its own.
pub proof fn lemma_push_appends_tab(frame: FrameView, panel: Panel, dismissible: bool)
    ensures
        ({
            let after = frame.after_push(panel, dismissible);
            &&& after.panels.len() == frame.panels.len() + 1
            &&& after.panels.last() == panel
            &&& forall|j: int| 0 <= j < frame.panels.len() ==> after.panels[j] == frame.panels[j]
            &&& after.active == frame.active
            &&& after.dismissible.contains(panel.id@) == dismissible
            &&& forall|x: u64| x != panel.id@ ==> (after.dismissible.contains(x)
                == frame.dismissible.contains(x))
        }),
{
}

} // verus!
