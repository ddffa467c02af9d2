use std::collections::BTreeSet;

use vstd::prelude::*;

use vstd::std_specs::btree::spec_btree_keys_iter;
use vstd::std_specs::iter::IteratorSpec;

use crate::raw_ids::{lemma_keys_in_order, raw_ids_ordered};

use super::identity::{
    CollectionProjectedItem, CollectionProjection, ItemId, identity_projection,
    lemma_item_id_view_injective, projected_ids,
};

verus! {

broadcast use lemma_item_id_view_injective;

/// `ids` lists exactly the members of `set`, in strictly increasing raw order.
pub open spec fn lists_in_order(ids: Seq<ItemId>, set: Set<u64>) -> bool {
    &&& forall|i: int, j: int| 0 <= i < j < ids.len() ==> (#[trigger] ids[i])@ < (#[trigger] ids[j])@
    &&& forall|i: int| 0 <= i < ids.len() ==> set.contains((#[trigger] ids[i])@)
    &&& forall|x: u64| #[trigger] set.contains(x) ==> exists|i: int| 0 <= i < ids.len() && (#[trigger] ids[i])@ == x
}

/// Some item of `items` carries the raw ID `raw`.
pub open spec fn shows(items: Seq<ItemId>, raw: u64) -> bool {
    exists|i: int| 0 <= i < items.len() && (#[trigger] items[i])@ == raw
}

/// Some projected item carries the ID `id`.
pub open spec fn projects(items: Seq<CollectionProjectedItem>, id: ItemId) -> bool {
    exists|i: int| 0 <= i < items.len() && (#[trigger] items[i]).id == id
}

/// `position` is the first position of `id` in `items`.
pub open spec fn is_first_index(items: Seq<ItemId>, id: ItemId, position: int) -> bool {
    &&& 0 <= position < items.len()
    &&& items[position] == id
    &&& forall|j: int| 0 <= j < position ==> items[j] != id
}

/// Raw IDs of `items[lo..=hi]`.
pub open spec fn raw_ids_between(items: Seq<ItemId>, lo: int, hi: int) -> Set<u64> {
    Set::new(|x: u64| exists|k: int| lo <= k <= hi && (#[trigger] items[k])@ == x)
}

/// The anchor a range extends from: the retained anchor, else the range end.
pub open spec fn range_anchor(anchor: Option<ItemId>, end: ItemId) -> ItemId {
    match anchor {
        Some(a) => a,
        None => end,
    }
}

/// Raw IDs of the items from position `p` to position `q`, in either order, inclusive.
pub open spec fn raw_ids_spanning(items: Seq<ItemId>, p: int, q: int) -> Set<u64> {
    if p <= q {
        raw_ids_between(items, p, q)
    } else {
        raw_ids_between(items, q, p)
    }
}

/// The selection after toggling `raw`.
pub open spec fn toggled(set: Set<u64>, raw: u64) -> Set<u64> {
    if set.contains(raw) {
        set.remove(raw)
    } else {
        set.insert(raw)
    }
}

/// An optional ID kept only when it satisfies `visible`.
pub open spec fn kept_if(id: Option<ItemId>, visible: bool) -> Option<ItemId> {
    if visible {
        id
    } else {
        None
    }
}

/// Selection projection behavior.
#[derive(Debug, Clone, Copy, PartialEq, Eq, Structural)]
pub enum SelectionProjectionPolicy {
    /// Keep hidden selected IDs in the app-owned selection while exposing
    /// visible selected IDs and repaired visible active/anchor IDs.
    PreserveHidden,
}

impl Default for SelectionProjectionPolicy {
    fn default() -> (policy: Self)
        ensures
            policy == SelectionProjectionPolicy::PreserveHidden,
    {
        SelectionProjectionPolicy::PreserveHidden
    }
}

/// Non-mutating view of selection state through a collection projection.
#[derive(Debug, Clone, PartialEq, Eq)]
pub struct SelectionProjection {
    /// All selected IDs in selection's deterministic order.
    pub selected: Vec<ItemId>,
    /// Selected IDs currently present in projected visible order.
    pub visible_selected: Vec<ItemId>,
    /// Selected IDs hidden by the projection, in selection's deterministic order.
    pub hidden_selected: Vec<ItemId>,
    /// App-owned active ID before projection.
    pub active: Option<ItemId>,
    /// App-owned anchor ID before projection.
    pub anchor: Option<ItemId>,
    /// Active ID only when it is visible through the projection.
    pub visible_active: Option<ItemId>,
    /// Anchor ID only when it is visible through the projection.
    pub visible_anchor: Option<ItemId>,
    /// Visible active ID repaired deterministically for the projected view.
    pub repaired_active: Option<ItemId>,
    /// Visible anchor ID repaired deterministically for the projected view.
    pub repaired_anchor: Option<ItemId>,
}

impl SelectionProjection {
    /// Returns true when at least one selected item is hidden by the projection.
    pub fn has_hidden_selection(&self) -> (hidden: bool)
        ensures
            hidden == (self.hidden_selected@.len() > 0),
    {
        self.hidden_selected.len() != 0
    }
}

/// Shared multi-selection state.
#[derive(Debug, Clone, PartialEq, Eq)]
pub struct Selection {
    selected: BTreeSet<u64>,
    /// Active item.
    pub active: Option<ItemId>,
    anchor: Option<ItemId>,
}

impl Default for Selection {
    fn default() -> (selection: Self)
        ensures
            selection.selected_ids() == Set::<u64>::empty(),
            selection.active_id() is None,
            selection.anchor_id() is None,
    {
        Selection::new()
    }
}

impl Selection {
    /// Raw bits of the selected items.
    pub closed spec fn selected_ids(&self) -> Set<u64> {
        self.selected@
    }

    /// The active item.
    pub closed spec fn active_id(&self) -> Option<ItemId> {
        self.active
    }

    /// The range anchor.
    pub closed spec fn anchor_id(&self) -> Option<ItemId> {
        self.anchor
    }

    /// Creates an empty selection.
    pub fn new() -> (selection: Self)
        ensures
            selection.selected_ids() == Set::<u64>::empty(),
            selection.active_id() is None,
            selection.anchor_id() is None,
    {
        Selection { selected: BTreeSet::new(), active: None, anchor: None }
    }

    /// Returns true when an item is selected.
    pub fn contains(&self, item: ItemId) -> (selected: bool)
        ensures
            selected == self.selected_ids().contains(item@),
    {
        self.selected.contains(&item.raw())
    }

    /// Returns selected items in sorted order.
    pub fn selected(&self) -> (items: Vec<ItemId>)
        ensures
            lists_in_order(items@, self.selected_ids()),
    {
        let mut items: Vec<ItemId> = Vec::new();
        let ghost keys = spec_btree_keys_iter(&self.selected).remaining();
        for raw in it: self.selected.iter()
            invariant
                it.seq() == keys,
                keys == spec_btree_keys_iter(&self.selected).remaining(),
                items@.len() == it.index(),
                forall|k: int| 0 <= k < it.index() ==> (#[trigger] items@[k])@ == *keys[k],
        {
            items.push(ItemId::from_raw(*raw));
        }
        proof {
            lemma_keys_in_order(&self.selected);
            assert(items@.len() == keys.len());
            assert forall|x: u64| #[trigger] self.selected@.contains(x) implies exists|i: int|
                0 <= i < items@.len() && (#[trigger] items@[i])@ == x by {
                let i = choose|i: int| 0 <= i < keys.len() && *keys[i] == x;
                assert(items@[i]@ == x);
            }
        }
        items
    }

    /// `view` is this selection seen through the projected `items`.
    pub open spec fn describes_projection(
        &self,
        items: Seq<CollectionProjectedItem>,
        view: SelectionProjection,
    ) -> bool {
        &&& lists_in_order(view.selected@, self.selected_ids())
        &&& view.visible_selected@ == projected_ids(items).filter(
            |id: ItemId| self.selected_ids().contains(id@),
        )
        &&& view.hidden_selected@ == view.selected@.filter(|id: ItemId| !projects(items, id))
        &&& view.active == self.active_id()
        &&& view.anchor == self.anchor_id()
        &&& view.visible_active == (match self.active_id() {
            Some(a) => kept_if(Some(a), projects(items, a)),
            None => None,
        })
        &&& view.visible_anchor == (match self.anchor_id() {
            Some(a) => kept_if(Some(a), projects(items, a)),
            None => None,
        })
        &&& view.repaired_active == (if view.visible_active is Some {
            view.visible_active
        } else if view.visible_selected@.len() > 0 {
            Some(view.visible_selected@[0])
        } else {
            None
        })
        &&& view.repaired_anchor == (if view.visible_anchor is Some {
            view.visible_anchor
        } else {
            view.repaired_active
        })
    }

    /// Returns the range anchor, when one is set.
    pub fn anchor(&self) -> (anchor: Option<ItemId>)
        ensures
            anchor == self.anchor_id(),
    {
        self.anchor
    }

    /// Returns true when the current range anchor is present in the visible items.
    pub fn anchor_visible(&self, visible_items: &[ItemId]) -> (visible: bool)
        ensures
            visible == (self.anchor_id() matches Some(a) && visible_items@.contains(a)),
    {
        match self.anchor {
            Some(anchor) => slice_contains(visible_items, anchor),
            None => false,
        }
    }

    /// Retains selected, active, and anchored items present in the visible item set.
    ///
    /// Returns true when selection state changed.
    pub fn retain_visible(&mut self, visible_items: &[ItemId]) -> (changed: bool)
        ensures
            final(self).selected_ids() == old(self).selected_ids().filter(
                |x: u64| shows(visible_items@, x),
            ),
            final(self).active_id() == (match old(self).active_id() {
                Some(a) => kept_if(Some(a), visible_items@.contains(a)),
                None => None,
            }),
            final(self).anchor_id() == (match old(self).anchor_id() {
                Some(a) => kept_if(Some(a), visible_items@.contains(a)),
                None => None,
            }),
            changed == (final(self).selected_ids() != old(self).selected_ids()
                || final(self).active_id() != old(self).active_id()
                || final(self).anchor_id() != old(self).anchor_id()),
    {
        let ghost old_set = self.selected@;
        let current = self.selected();
        let mut retained: BTreeSet<u64> = BTreeSet::new();
        let mut dropped = false;
        let n = current.len();
        for i in 0..n
            invariant
                n == current@.len(),
                lists_in_order(current@, old_set),
                raw_ids_ordered(),
                retained@ == Set::new(
                    |x: u64| exists|k: int| 0 <= k < i && (#[trigger] current@[k])@ == x && shows(
                        visible_items@,
                        x,
                    ),
                ),
                dropped == exists|k: int| 0 <= k < i && !shows(visible_items@, (#[trigger] current@[k])@),
        {
            let raw = current[i].raw();
            if slice_shows(visible_items, raw) {
                retained.insert(raw);
            } else {
                dropped = true;
            }
            proof {
                assert forall|x: u64| #[trigger] retained@.contains(x) <==> exists|k: int|
                    0 <= k < i + 1 && (#[trigger] current@[k])@ == x && shows(visible_items@, x) by {
                    if retained@.contains(x) && x != raw {
                        let k = choose|k: int| 0 <= k < i && (#[trigger] current@[k])@ == x && shows(visible_items@, x);
                        assert(0 <= k < i + 1 && current@[k]@ == x);
                    }
                    if exists|k: int| 0 <= k < i + 1 && (#[trigger] current@[k])@ == x && shows(visible_items@, x) {
                        let k = choose|k: int| 0 <= k < i + 1 && (#[trigger] current@[k])@ == x && shows(visible_items@, x);
                        if k < i {
                            assert(exists|k: int| 0 <= k < i && (#[trigger] current@[k])@ == x && shows(visible_items@, x));
                        }
                    }
                }
                assert(retained@ =~= Set::new(
                    |x: u64| exists|k: int| 0 <= k < i + 1 && (#[trigger] current@[k])@ == x && shows(
                        visible_items@,
                        x,
                    ),
                ));
                if dropped && !(exists|k: int| 0 <= k < i && !shows(visible_items@, (#[trigger] current@[k])@)) {
                    assert(!shows(visible_items@, current@[i as int]@));
                }
            }
        }
        proof {
            assert(retained@ =~= old_set.filter(|x: u64| shows(visible_items@, x)));
            if dropped {
                let k = choose|k: int| 0 <= k < n && !shows(visible_items@, (#[trigger] current@[k])@);
                assert(old_set.contains(current@[k]@));
                assert(!retained@.contains(current@[k]@));
            } else {
                assert forall|x: u64| old_set.contains(x) implies retained@.contains(x) by {
                    let k = choose|k: int| 0 <= k < current@.len() && (#[trigger] current@[k])@ == x;
                    assert(shows(visible_items@, current@[k]@));
                }
                assert(retained@ =~= old_set);
            }
        }
        self.selected = retained;
        let mut changed = dropped;
        if let Some(active) = self.active {
            if !slice_contains(visible_items, active) {
                self.active = None;
                changed = true;
            }
        }
        if let Some(anchor) = self.anchor {
            if !slice_contains(visible_items, anchor) {
                self.anchor = None;
                changed = true;
            }
        }
        changed
    }

    /// Projects selection through visible item IDs without mutating selection.
    pub fn project_visible(
        &self,
        visible_items: &[ItemId],
        policy: SelectionProjectionPolicy,
    ) -> (projected: SelectionProjection)
        ensures
            self.describes_projection(identity_projection(visible_items@), projected),
    {
        let projection = CollectionProjection::from_source_ids(visible_items);
        self.project(&projection, policy)
    }

    /// Projects selection through a collection projection without mutating selection.
    pub fn project(
        &self,
        projection: &CollectionProjection,
        policy: SelectionProjectionPolicy,
    ) -> (projected: SelectionProjection)
        ensures
            self.describes_projection(projection@, projected),
    {
        match policy {
            SelectionProjectionPolicy::PreserveHidden => {
                let selected = self.selected();
                let items = projection.items();
                let n = items.len();
                let mut visible_selected: Vec<ItemId> = Vec::new();
                for i in 0..n
                    invariant
                        n == items@.len(),
                        items@ == projection@,
                        visible_selected@ == projected_ids(items@.take(i as int)).filter(
                            |id: ItemId| self.selected_ids().contains(id@),
                        ),
                {
                    let id = items[i].id;
                    proof {
                        assert(projected_ids(items@.take(i + 1)) =~= projected_ids(
                            items@.take(i as int),
                        ).push(id));
                        projected_ids(items@.take(i as int)).lemma_filter_push(
                            id,
                            |id: ItemId| self.selected_ids().contains(id@),
                        );
                    }
                    if self.contains(id) {
                        visible_selected.push(id);
                    }
                }
                assert(items@.take(n as int) =~= items@);
                let m = selected.len();
                let mut hidden_selected: Vec<ItemId> = Vec::new();
                for i in 0..m
                    invariant
                        m == selected@.len(),
                        items@ == projection@,
                        hidden_selected@ == selected@.take(i as int).filter(
                            |id: ItemId| !projects(projection@, id),
                        ),
                {
                    let id = selected[i];
                    proof {
                        assert(selected@.take(i + 1) =~= selected@.take(i as int).push(id));
                        selected@.take(i as int).lemma_filter_push(
                            id,
                            |id: ItemId| !projects(projection@, id),
                        );
                    }
                    if !projection_contains(items, id) {
                        hidden_selected.push(id);
                    }
                }
                assert(selected@.take(m as int) =~= selected@);
                let visible_active = match self.active {
                    Some(active) => if projection_contains(items, active) {
                        Some(active)
                    } else {
                        None
                    },
                    None => None,
                };
                let visible_anchor = match self.anchor {
                    Some(anchor) => if projection_contains(items, anchor) {
                        Some(anchor)
                    } else {
                        None
                    },
                    None => None,
                };
                let repaired_active = match visible_active {
                    Some(active) => Some(active),
                    None => if visible_selected.len() > 0 {
                        Some(visible_selected[0])
                    } else {
                        None
                    },
                };
                let repaired_anchor = match visible_anchor {
                    Some(anchor) => Some(anchor),
                    None => repaired_active,
                };
                SelectionProjection {
                    selected,
                    visible_selected,
                    hidden_selected,
                    active: self.active,
                    anchor: self.anchor,
                    visible_active,
                    visible_anchor,
                    repaired_active,
                    repaired_anchor,
                }
            },
        }
    }

    /// Clears selection.
    pub fn clear(&mut self)
        ensures
            final(self).selected_ids() == Set::<u64>::empty(),
            final(self).active_id() is None,
            final(self).anchor_id() is None,
    {
        self.selected.clear();
        self.active = None;
        self.anchor = None;
    }

    /// Replaces selection with one item.
    pub fn replace(&mut self, item: ItemId)
        ensures
            final(self).selected_ids() == Set::<u64>::empty().insert(item@),
            final(self).active_id() == Some(item),
            final(self).anchor_id() == Some(item),
    {
        assert(raw_ids_ordered());
        self.selected.clear();
        self.selected.insert(item.raw());
        self.active = Some(item);
        self.anchor = Some(item);
    }

    /// Toggles an item.
    pub fn toggle(&mut self, item: ItemId)
        ensures
            final(self).selected_ids() == toggled(old(self).selected_ids(), item@),
            final(self).active_id() == Some(item),
            final(self).anchor_id() == Some(item),
    {
        assert(raw_ids_ordered());
        let raw = item.raw();
        if !self.selected.remove(&raw) {
            self.selected.insert(raw);
        }
        self.active = Some(item);
        self.anchor = Some(item);
    }

    /// Selects a range using the current anchor or the provided end as anchor.
    ///
    /// Returns false, changing nothing, when the anchor or the end is missing
    /// from `ordered_items`. Otherwise the selection becomes the items between
    /// the first occurrences of the anchor and the end, inclusive, the end
    /// becomes active, and the anchor is kept.
    pub fn select_range(&mut self, ordered_items: &[ItemId], end: ItemId) -> (selected: bool)
        ensures
            selected == (ordered_items@.contains(range_anchor(old(self).anchor_id(), end))
                && ordered_items@.contains(end)),
            !selected ==> *final(self) == *old(self),
            selected ==> exists|p: int, q: int|
                {
                    &&& is_first_index(ordered_items@, range_anchor(old(self).anchor_id(), end), p)
                    &&& is_first_index(ordered_items@, end, q)
                    &&& #[trigger] raw_ids_spanning(ordered_items@, p, q) == final(self).selected_ids()
                },
            selected ==> final(self).active_id() == Some(end),
            selected ==> final(self).anchor_id() == old(self).anchor_id(),
    {
        let anchor = match self.anchor {
            Some(anchor) => anchor,
            None => end,
        };
        let anchor_index = match slice_position(ordered_items, anchor) {
            Some(index) => index,
            None => return false,
        };
        let end_index = match slice_position(ordered_items, end) {
            Some(index) => index,
            None => return false,
        };
        let lo = if anchor_index <= end_index {
            anchor_index
        } else {
            end_index
        };
        let hi = if anchor_index <= end_index {
            end_index
        } else {
            anchor_index
        };
        assert(raw_ids_ordered());
        self.selected.clear();
        let ghost kept_anchor = self.anchor;
        let mut k = lo;
        while k <= hi
            invariant
                self.anchor == kept_anchor,
                lo <= k <= hi + 1,
                hi < ordered_items@.len(),
                raw_ids_ordered(),
                self.selected@ == raw_ids_between(ordered_items@, lo as int, k - 1),
            decreases hi + 1 - k,
        {
            self.selected.insert(ordered_items[k].raw());
            proof {
                assert(self.selected@ =~= raw_ids_between(ordered_items@, lo as int, k as int));
            }
            k = k + 1;
        }
        self.active = Some(end);
        assert(self.selected_ids() == raw_ids_spanning(
            ordered_items@,
            anchor_index as int,
            end_index as int,
        ));
        true
    }
}

/// Returns true when some item of `items` equals `id`.
fn slice_contains(items: &[ItemId], id: ItemId) -> (found: bool)
    ensures
        found == items@.contains(id),
{
    match slice_position(items, id) {
        Some(_) => true,
        None => false,
    }
}

/// Returns true when some item of `items` carries the raw ID `raw`.
fn slice_shows(items: &[ItemId], raw: u64) -> (found: bool)
    ensures
        found == shows(items@, raw),
{
    slice_contains(items, ItemId::from_raw(raw))
}

/// Returns the first position of `id` in `items`.
fn slice_position(items: &[ItemId], id: ItemId) -> (position: Option<usize>)
    ensures
        position is None <==> !items@.contains(id),
        position matches Some(p) ==> is_first_index(items@, id, p as int),
{
    let n = items.len();
    for i in 0..n
        invariant
            n == items@.len(),
            forall|j: int| 0 <= j < i ==> items@[j] != id,
    {
        if items[i] == id {
            return Some(i);
        }
    }
    None
}

/// Returns true when some projected item carries `id`.
fn projection_contains(items: &[CollectionProjectedItem], id: ItemId) -> (found: bool)
    ensures
        found == projects(items@, id),
{
    let n = items.len();
    for i in 0..n
        invariant
            n == items@.len(),
            forall|j: int| 0 <= j < i ==> items@[j].id != id,
    {
        if items[i].id == id {
            return true;
        }
    }
    false
}

} // verus!
