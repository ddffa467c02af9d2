//! `DockArea`, `Frame`, and `Panel` models for editor layouts.

use std::collections::BTreeSet;

use vstd::prelude::*;

mod area;
mod ids;
mod laws;
mod snapshot;

use snapshot::copy_panels;

pub use laws::{
    lemma_merge_activates_last_tab, lemma_merge_keeps_panels, lemma_move_carries_dismissal,
    lemma_move_keeps_panels, lemma_prune_keeps_panels, lemma_push_appends_tab,
    lemma_remove_clamps_active, lemma_remove_drops_first_tab, lemma_replace_trades_panels,
    lemma_select_activates_panel, lemma_tab_close_follows_dismissal, tree_panels,
};
pub use snapshot::{
    DockSnapshot, DockSnapshotNode, checks_consistently, dismissible_fault, is_valid_tree,
    lemma_snapshot_round_trip, lists_ids_in_order, panels_fresh,
    raw_listed_ids, restore_verdict, snapshot_tree, snapshots, split_passes, split_verdict, tree_frame_ids,
    tree_panel_ids,
};
pub use area::{DockArea, DockNode, DockTree, lemma_replace_keeps_frames, lemma_replace_same, lemma_tree_frame_id, merged_frames_tree, moved_panel_tree, node_view, tree_frame, tree_frames, tree_has_frame, tree_pruned, tree_replace_frame};

pub use ids::{FrameId, PanelId, lemma_frame_id_view_injective, lemma_panel_id_view_injective};

use crate::raw_ids::{insert_all, raw_ids_ordered};

verus! {

broadcast use lemma_panel_id_view_injective, lemma_frame_id_view_injective;

/// Passive panel metadata.
#[derive(Debug, PartialEq, Eq)]
pub struct Panel {
    /// Panel identity.
    pub id: PanelId,
    /// Display title used by frame tabs.
    pub title: String,
}

impl Clone for Panel {
    fn clone(&self) -> (panel: Self)
        ensures
            panel == *self,
    {
        Panel { id: self.id, title: self.title.clone() }
    }
}

impl Panel {
    /// Creates a panel.
    pub fn new(id: PanelId, title: &str) -> (panel: Self)
        ensures
            panel.id == id,
            panel.title@ == title@,
    {
        Panel { id, title: title.to_owned() }
    }
}

/// The IDs of `panels`, in tab order.
pub open spec fn panel_ids(panels: Seq<Panel>) -> Seq<PanelId> {
    panels.map_values(|panel: Panel| panel.id)
}

/// Some panel of `panels` has the given ID.
pub open spec fn holds_panel(panels: Seq<Panel>, id: PanelId) -> bool {
    exists|i: int| 0 <= i < panels.len() && (#[trigger] panels[i]).id == id
}

/// `position` is the first tab position of the panel with the given ID.
pub open spec fn is_first_panel_position(panels: Seq<Panel>, id: PanelId, position: int) -> bool {
    &&& 0 <= position < panels.len()
    &&& panels[position].id == id
    &&& forall|j: int| 0 <= j < position ==> panels[j].id != id
}

/// Raw IDs of `panels`.
pub open spec fn raw_panel_ids(panels: Seq<Panel>) -> Set<u64> {
    Set::new(|x: u64| exists|i: int| 0 <= i < panels.len() && (#[trigger] panels[i]).id@ == x)
}

/// The active index after the tab list shrinks to `len` panels.
pub open spec fn clamped_active(active: usize, len: nat) -> usize {
    if len == 0 {
        0
    } else if active < len {
        active
    } else {
        (len - 1) as usize
    }
}

/// The last tab index of a list of `len` panels, or zero when it is empty.
pub open spec fn last_tab(len: nat) -> usize {
    if len == 0 {
        0
    } else {
        (len - 1) as usize
    }
}

/// The mathematical content of a frame.
pub struct FrameView {
    /// Frame identity.
    pub id: FrameId,
    /// Panels in tab order.
    pub panels: Seq<Panel>,
    /// Active panel index.
    pub active: usize,
    /// Raw IDs of the panels whose tabs can be dismissed.
    pub dismissible: Set<u64>,
}

impl FrameView {
    /// Some tab holds the panel.
    pub open spec fn holds(self, panel: PanelId) -> bool {
        holds_panel(self.panels, panel)
    }

    /// The first tab position of the panel.
    pub open spec fn position_of(self, panel: PanelId) -> int {
        choose|p: int| is_first_panel_position(self.panels, panel, p)
    }

    /// The frame after selecting `panel`: its first tab becomes active when present.
    pub open spec fn after_select(self, panel: PanelId) -> FrameView {
        if self.holds(panel) {
            FrameView { active: self.position_of(panel) as usize, ..self }
        } else {
            self
        }
    }

    /// The frame after removing the first tab of `panel`, when present: the
    /// panel loses its dismissal policy and the active index is clamped.
    pub open spec fn after_remove(self, panel: PanelId) -> FrameView {
        if self.holds(panel) {
            let panels = self.panels.remove(self.position_of(panel));
            FrameView {
                panels,
                active: clamped_active(self.active, panels.len()),
                dismissible: self.dismissible.remove(panel@),
                ..self
            }
        } else {
            self
        }
    }

    /// The frame after setting the dismissal policy of `panel`, when present.
    pub open spec fn after_set_dismissible(self, panel: PanelId, dismissible: bool) -> FrameView {
        if !self.holds(panel) {
            self
        } else if dismissible {
            FrameView { dismissible: self.dismissible.insert(panel@), ..self }
        } else {
            FrameView { dismissible: self.dismissible.remove(panel@), ..self }
        }
    }

    /// The frame emptied of its panels and dismissal policy, first tab active.
    pub open spec fn emptied(self) -> FrameView {
        FrameView { panels: Seq::empty(), active: 0, dismissible: Set::empty(), ..self }
    }

    /// The frame after appending `panels` with their dismissal policy; the last
    /// tab becomes active.
    pub open spec fn absorbed(self, panels: Seq<Panel>, dismissible: Set<u64>) -> FrameView {
        FrameView {
            panels: self.panels + panels,
            active: last_tab((self.panels + panels).len()),
            dismissible: self.dismissible.union(dismissible),
            ..self
        }
    }

    /// The frame after receiving a moved panel, which becomes the active tab.
    pub open spec fn received(self, panel: Panel, dismissible: bool) -> FrameView {
        let pushed = self.after_push(panel, dismissible);
        FrameView { active: last_tab(pushed.panels.len()), ..pushed }
    }

    /// The frame after appending `panel` with the given dismissal policy.
    pub open spec fn after_push(self, panel: Panel, dismissible: bool) -> FrameView {
        FrameView {
            panels: self.panels.push(panel),
            dismissible: if dismissible {
                self.dismissible.insert(panel.id@)
            } else {
                self.dismissible.remove(panel.id@)
            },
            ..self
        }
    }
}

/// Docked frame containing tabbed panels.
#[derive(Debug, PartialEq, Eq)]
pub struct Frame {
    /// Frame identity.
    pub id: FrameId,
    /// Panels in tab order.
    pub panels: Vec<Panel>,
    /// Active panel index.
    pub active: usize,
    /// Raw IDs of the panels whose frame tabs expose close/dismiss affordances.
    dismissible_panels: BTreeSet<u64>,
}

impl Clone for Frame {
    fn clone(&self) -> (copy: Self)
        ensures
            copy@ == self@,
    {
        Frame {
            id: self.id,
            panels: copy_panels(&self.panels),
            active: self.active,
            dismissible_panels: self.dismissible_panels.clone(),
        }
    }
}

impl View for Frame {
    type V = FrameView;

    closed spec fn view(&self) -> FrameView {
        FrameView {
            id: self.id,
            panels: self.panels@,
            active: self.active,
            dismissible: self.dismissible_panels@,
        }
    }
}

impl Frame {
    /// The frame identity.
    pub open spec fn frame_id(&self) -> FrameId {
        self@.id
    }

    /// Panels in tab order.
    pub open spec fn tab_panels(&self) -> Seq<Panel> {
        self@.panels
    }

    /// The active panel index.
    pub open spec fn active_index(&self) -> usize {
        self@.active
    }

    /// Raw IDs of the panels whose tabs can be dismissed.
    pub open spec fn dismissible_ids(&self) -> Set<u64> {
        self@.dismissible
    }

    /// A frame holds no more panels than a `usize` counts, so tab positions
    /// and the active index compare with the panel count as machine integers.
    pub proof fn lemma_panel_count_fits(&self)
        ensures
            self@.panels.len() <= usize::MAX,
    {
        assert(self.panels.len() == self.panels@.len());
    }

    /// Creates a frame with panels.
    ///
    /// Every panel starts dismissible and the first tab is active.
    pub fn new(id: FrameId, panels: Vec<Panel>) -> (frame: Self)
        ensures
            frame@ == (FrameView { id, panels: panels@, active: 0, dismissible: raw_panel_ids(panels@) }),
    {
        assert(raw_ids_ordered());
        let mut dismissible_panels: BTreeSet<u64> = BTreeSet::new();
        let n = panels.len();
        for i in 0..n
            invariant
                n == panels@.len(),
                raw_ids_ordered(),
                dismissible_panels@ == raw_panel_ids(panels@.take(i as int)),
        {
            dismissible_panels.insert(panels[i].id.raw());
            proof {
                let prefix = panels@.take(i + 1);
                assert forall|x: u64| #[trigger] dismissible_panels@.contains(x) <==> raw_panel_ids(
                    prefix,
                ).contains(x) by {
                    if dismissible_panels@.contains(x) && x != panels@[i as int].id@ {
                        let k = choose|k: int|
                            0 <= k < i && (#[trigger] panels@.take(i as int)[k]).id@ == x;
                        assert(prefix[k] == panels@.take(i as int)[k]);
                    }
                    if raw_panel_ids(prefix).contains(x) {
                        let k = choose|k: int| 0 <= k < i + 1 && (#[trigger] prefix[k]).id@ == x;
                        if k < i {
                            assert(panels@.take(i as int)[k] == prefix[k]);
                        }
                    }
                    assert(prefix[i as int] == panels@[i as int]);
                }
                assert(dismissible_panels@ =~= raw_panel_ids(prefix));
            }
        }
        assert(panels@.take(n as int) =~= panels@);
        Frame { id, panels, active: 0, dismissible_panels }
    }

    /// Returns the active panel.
    pub fn active_panel(&self) -> (panel: Option<&Panel>)
        ensures
            panel == (if self.active_index() < self.tab_panels().len() {
                Some(&self.tab_panels()[self.active_index() as int])
            } else {
                None::<&Panel>
            }),
    {
        if self.active < self.panels.len() {
            Some(&self.panels[self.active])
        } else {
            None
        }
    }

    /// Returns the first tab position of a panel.
    fn panel_position(&self, panel: PanelId) -> (position: Option<usize>)
        ensures
            position is None <==> !self@.holds(panel),
            position matches Some(p) ==> is_first_panel_position(self.panels@, panel, p as int)
                && p == self@.position_of(panel),
    {
        let n = self.panels.len();
        for i in 0..n
            invariant
                n == self.panels@.len(),
                forall|j: int| 0 <= j < i ==> self.panels@[j].id != panel,
        {
            if self.panels[i].id == panel {
                proof {
                    let p = self@.position_of(panel);
                    assert(is_first_panel_position(self.panels@, panel, i as int));
                    if p < i {
                        assert(self.panels@[p].id != panel);
                    } else if p > i {
                        assert(self.panels@[i as int].id == panel);
                    }
                }
                return Some(i);
            }
        }
        None
    }

    /// Selects a panel by ID.
    ///
    /// Returns false, changing nothing, when the panel is not in this frame.
    pub fn select_panel(&mut self, panel: PanelId) -> (selected: bool)
        ensures
            selected == old(self)@.holds(panel),
            final(self)@ == old(self)@.after_select(panel),
    {
        match self.panel_position(panel) {
            Some(index) => {
                self.active = index;
                true
            },
            None => false,
        }
    }

    /// Removes a panel by ID.
    ///
    /// The removed panel loses its dismissal policy and the active index is
    /// clamped to the remaining tabs.
    pub fn remove_panel(&mut self, panel: PanelId) -> (removed: Option<Panel>)
        ensures
            removed is Some == old(self)@.holds(panel),
            removed matches Some(p) ==> p == old(self)@.panels[old(self)@.position_of(panel)],
            final(self)@ == old(self)@.after_remove(panel),
            removed is Some && old(self)@.active < final(self)@.panels.len() ==> final(self)@.active
                == old(self)@.active,
    {
        match self.remove_panel_with_policy(panel) {
            Some((removed, _)) => Some(removed),
            None => None,
        }
    }

    /// Removes a panel by ID, also reporting whether its tab was dismissible.
    fn remove_panel_with_policy(&mut self, panel: PanelId) -> (removed: Option<(Panel, bool)>)
        ensures
            removed is Some == old(self)@.holds(panel),
            removed matches Some((p, dismissible)) ==> p == old(self)@.panels[old(
                self,
            )@.position_of(panel)] && dismissible == old(self)@.dismissible.contains(panel@),
            final(self)@ == old(self)@.after_remove(panel),
    {
        let index = match self.panel_position(panel) {
            Some(index) => index,
            None => return None,
        };
        assert(raw_ids_ordered());
        let dismissible = self.dismissible_panels.remove(&panel.raw());
        let removed = self.panels.remove(index);
        let len = self.panels.len();
        let last = if len == 0 {
            0
        } else {
            len - 1
        };
        if self.active > last {
            self.active = last;
        }
        proof {
            assert(self@.dismissible == old(self)@.dismissible.remove(panel@));
        }
        Some((removed, dismissible))
    }

    /// Adds a panel at the end; its tab is dismissible.
    pub fn push_panel(&mut self, panel: Panel)
        ensures
            final(self)@ == old(self)@.after_push(panel, true),
    {
        self.push_panel_with_policy(panel, true);
    }

    /// Adds a panel at the end with the given dismissal policy.
    fn push_panel_with_policy(&mut self, panel: Panel, dismissible: bool)
        ensures
            final(self)@ == old(self)@.after_push(panel, dismissible),
    {
        let id = panel.id;
        let ghost pushed = panel;
        self.panels.push(panel);
        proof {
            assert(self.panels@[self.panels@.len() - 1] == pushed);
            assert(self@.holds(id));
        }
        self.set_panel_dismissible(id, dismissible);
    }

    /// Sets whether a frame tab can expose close/dismiss affordances.
    ///
    /// Returns `false`, changing nothing, when the panel is not in this frame.
    pub fn set_panel_dismissible(&mut self, panel: PanelId, dismissible: bool) -> (set: bool)
        ensures
            set == old(self)@.holds(panel),
            final(self)@ == old(self)@.after_set_dismissible(panel, dismissible),
    {
        if self.panel_position(panel).is_none() {
            return false;
        }
        assert(raw_ids_ordered());
        if dismissible {
            self.dismissible_panels.insert(panel.raw());
        } else {
            self.dismissible_panels.remove(&panel.raw());
        }
        true
    }

    /// Rebuilds a frame from its persisted parts.
    fn restored(id: FrameId, panels: Vec<Panel>, active: usize, dismissible: &Vec<PanelId>) -> (frame: Self)
        ensures
            frame@ == (FrameView { id, panels: panels@, active, dismissible: raw_listed_ids(dismissible@) }),
    {
        assert(raw_ids_ordered());
        let mut dismissible_panels: BTreeSet<u64> = BTreeSet::new();
        let n = dismissible.len();
        for i in 0..n
            invariant
                n == dismissible@.len(),
                raw_ids_ordered(),
                dismissible_panels@ == raw_listed_ids(dismissible@.take(i as int)),
        {
            dismissible_panels.insert(dismissible[i].raw());
            proof {
                let prefix = dismissible@.take(i as int);
                let next = dismissible@.take(i + 1);
                assert forall|x: u64| #[trigger] dismissible_panels@.contains(x) <==> raw_listed_ids(next).contains(x) by {
                    if dismissible_panels@.contains(x) && x != dismissible@[i as int]@ {
                        let k = choose|k: int| 0 <= k < prefix.len() && (#[trigger] prefix[k])@ == x;
                        assert(next[k] == prefix[k]);
                    }
                    if raw_listed_ids(next).contains(x) {
                        let k = choose|k: int| 0 <= k < next.len() && (#[trigger] next[k])@ == x;
                        if k < i {
                            assert(next[k] == prefix[k]);
                        }
                    }
                    assert(next[i as int] == dismissible@[i as int]);
                }
                assert(dismissible_panels@ =~= raw_listed_ids(next));
            }
        }
        assert(dismissible@.take(n as int) =~= dismissible@);
        Frame { id, panels, active, dismissible_panels }
    }

    /// The set of raw IDs of dismissible panels.
    fn dismissible_set(&self) -> (set: &BTreeSet<u64>)
        ensures
            set@ == self@.dismissible,
    {
        &self.dismissible_panels
    }

    /// Takes the panels and dismissal policy out of this frame, leaving it empty.
    fn take_contents(&mut self) -> (contents: (Vec<Panel>, BTreeSet<u64>))
        ensures
            contents.0@ == old(self)@.panels,
            contents.1@ == old(self)@.dismissible,
            final(self)@ == old(self)@.emptied(),
    {
        self.active = 0;
        let mut panels: Vec<Panel> = Vec::new();
        let mut dismissible: BTreeSet<u64> = BTreeSet::new();
        std::mem::swap(&mut self.panels, &mut panels);
        std::mem::swap(&mut self.dismissible_panels, &mut dismissible);
        (panels, dismissible)
    }

    /// Appends `panels` with their dismissal policy; the last tab becomes active.
    fn absorb(&mut self, panels: Vec<Panel>, dismissible: BTreeSet<u64>)
        ensures
            final(self)@ == old(self)@.absorbed(panels@, dismissible@),
    {
        let mut panels = panels;
        self.panels.append(&mut panels);
        insert_all(&mut self.dismissible_panels, &dismissible);
        let len = self.panels.len();
        self.active = if len == 0 {
            0
        } else {
            len - 1
        };
    }

    /// Returns true when a frame tab can expose close/dismiss affordances.
    pub fn panel_dismissible(&self, panel: PanelId) -> (dismissible: bool)
        ensures
            dismissible == self@.dismissible.contains(panel@),
    {
        assert(raw_ids_ordered());
        self.dismissible_panels.contains(&panel.raw())
    }
}

/// Tab presentation data.
#[derive(Debug, Clone, PartialEq, Eq)]
pub struct FrameTab {
    /// Panel identity.
    pub panel: PanelId,
    /// Tab title.
    pub title: String,
    /// Whether this tab is active.
    pub active: bool,
    /// Whether this tab can be closed.
    pub close_visible: bool,
    /// Whether this tab can begin a drag operation.
    pub draggable: bool,
}

/// `tab` presents the panel at `index` of `frame`.
pub open spec fn presents_tab(frame: &Frame, index: int, tab: FrameTab) -> bool {
    let panel = frame.tab_panels()[index];
    &&& tab.panel == panel.id
    &&& tab.title@ == panel.title@
    &&& tab.active == (index == frame.active_index())
    &&& tab.close_visible == frame.dismissible_ids().contains(panel.id@)
    &&& tab.draggable
}

/// Produces frame tab presentation records, one per panel in tab order.
pub fn frame_tabs(frame: &Frame) -> (tabs: Vec<FrameTab>)
    ensures
        tabs@.len() == frame.tab_panels().len(),
        forall|i: int| 0 <= i < tabs@.len() ==> presents_tab(frame, i, #[trigger] tabs@[i]),
        forall|i: int|
            0 <= i < tabs@.len() ==> (#[trigger] tabs@[i]).close_visible
                == frame.dismissible_ids().contains(tabs@[i].panel@),
{
    let mut tabs: Vec<FrameTab> = Vec::new();
    let n = frame.panels.len();
    for index in 0..n
        invariant
            n == frame.tab_panels().len(),
            tabs@.len() == index,
            forall|i: int| 0 <= i < index ==> presents_tab(frame, i, #[trigger] tabs@[i]),
    {
        let panel = &frame.panels[index];
        let tab = FrameTab {
            panel: panel.id,
            title: panel.title.clone(),
            active: index == frame.active,
            close_visible: frame.panel_dismissible(panel.id),
            draggable: true,
        };
        tabs.push(tab);
        assert(presents_tab(frame, index as int, tabs@[index as int]));
    }
    tabs
}

/// Snapshot restore error.
#[derive(Debug, Clone, Copy, PartialEq, Eq, Structural)]
pub enum DockRestoreError {
    /// Frame contains no panels.
    EmptyFrame,
    /// Active tab index is outside the panel list.
    InvalidActiveIndex,
    /// Two frames use the same stable frame identity.
    DuplicateFrameId,
    /// Two panels use the same stable panel identity.
    DuplicatePanelId,
    /// Dismissible panel policy references a panel missing from the frame.
    InvalidDismissiblePanel,
    /// Dismissible panel policy contains the same panel more than once.
    DuplicateDismissiblePanel,
    /// Split ratio is not finite or is outside the inclusive 0.0..=1.0 range.
    InvalidSplitRatio,
    /// Split minimum is not finite or is negative.
    InvalidSplitMinimum,
}

} // verus!
