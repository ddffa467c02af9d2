use vstd::prelude::*;

use super::identity::{
    CollectionProjectedItem, ItemId, identity_projection, is_first_position, kept_items, lacks_id,
    lemma_item_id_view_injective, projected_ids,
};
use super::sorting::is_rearrangement;
use super::navigation::{CollectionCursorMove, moved_position, resolved_position};
use super::selection::{Selection, SelectionProjection, projects, shows, toggled};

verus! {

broadcast use lemma_item_id_view_injective;

/// Toggling an item twice leaves the selected set as it was.
pub proof fn lemma_toggle_twice_restores(selected: Set<u64>, raw: u64)
    ensures
        toggled(toggled(selected, raw), raw) == selected,
{
    assert(toggled(toggled(selected, raw), raw) =~= selected);
}

/// A selection seen through projected items accounts for every selected item
/// exactly once: a selected item that the items show is listed as visible,
/// any other selected item as hidden, and nothing is listed as visible or
/// hidden without being selected, nor as hidden while the items show it.
pub proof fn lemma_projection_partitions_selection(
    selection: Selection,
    items: Seq<CollectionProjectedItem>,
    view: SelectionProjection,
)
    requires
        selection.describes_projection(items, view),
    ensures
        forall|id: ItemId|
            #[trigger] selection.selected_ids().contains(id@) ==> (if projects(items, id) {
                view.visible_selected@.contains(id)
            } else {
                view.hidden_selected@.contains(id)
            }),
        forall|id: ItemId| #[trigger]
            view.visible_selected@.contains(id) ==> selection.selected_ids().contains(id@)
                && projects(items, id),
        forall|id: ItemId| #[trigger]
            view.hidden_selected@.contains(id) ==> selection.selected_ids().contains(id@)
                && !projects(items, id),
{
    let selected = selection.selected_ids();
    let in_selection = |id: ItemId| selected.contains(id@);
    let hidden_pred = |id: ItemId| !projects(items, id);
    let ids = projected_ids(items);
    assert forall|id: ItemId| #[trigger] selected.contains(id@) implies (if projects(items, id) {
        view.visible_selected@.contains(id)
    } else {
        view.hidden_selected@.contains(id)
    }) by {
        if projects(items, id) {
            let j = choose|j: int| 0 <= j < items.len() && (#[trigger] items[j]).id == id;
            assert(ids[j] == id);
            ids.lemma_filter_contains(in_selection, j);
        } else {
            let i = choose|i: int| 0 <= i < view.selected@.len() && (#[trigger] view.selected@[i])@
                == id@;
            assert(view.selected@[i] == id);
            view.selected@.lemma_filter_contains(hidden_pred, i);
        }
    }
    assert forall|id: ItemId| #[trigger]
        view.visible_selected@.contains(id) implies selected.contains(id@) && projects(
        items,
        id,
    ) by {
        let k = choose|k: int| 0 <= k < view.visible_selected@.len() && view.visible_selected@[k]
            == id;
        ids.lemma_filter_pred(in_selection, k);
        ids.lemma_filter_contains_rev(in_selection, id);
        let j = choose|j: int| 0 <= j < ids.len() && ids[j] == id;
        assert(items[j].id == id);
    }
    assert forall|id: ItemId| #[trigger]
        view.hidden_selected@.contains(id) implies selected.contains(id@) && !projects(
        items,
        id,
    ) by {
        let k = choose|k: int| 0 <= k < view.hidden_selected@.len() && view.hidden_selected@[k]
            == id;
        view.selected@.lemma_filter_pred(hidden_pred, k);
        view.selected@.lemma_filter_contains_rev(hidden_pred, id);
        let i = choose|i: int| 0 <= i < view.selected@.len() && view.selected@[i] == id;
        assert(selected.contains(view.selected@[i]@));
    }
}

/// After a selection keeps only the items it can see, seeing it through
/// those same items hides nothing.
pub proof fn lemma_retained_selection_hides_nothing(
    before: Selection,
    after: Selection,
    visible_items: Seq<ItemId>,
    view: SelectionProjection,
)
    requires
        after.selected_ids() == before.selected_ids().filter(|x: u64| shows(visible_items, x)),
        after.describes_projection(identity_projection(visible_items), view),
    ensures
        view.hidden_selected@.len() == 0,
{
    lemma_projection_partitions_selection(after, identity_projection(visible_items), view);
    if view.hidden_selected@.len() > 0 {
        let hidden = view.hidden_selected@[0];
        assert(view.hidden_selected@.contains(hidden));
        assert(after.selected_ids().contains(hidden@));
        assert(shows(visible_items, hidden@));
        let i = choose|i: int| 0 <= i < visible_items.len() && (#[trigger] visible_items[i])@
            == hidden@;
        assert(identity_projection(visible_items)[i].id == hidden);
        assert(projects(identity_projection(visible_items), hidden));
    }
}

/// Keeping the visible items is idempotent: once a selection keeps only the
/// items it can see, keeping them again leaves its selected set as it is.
pub proof fn lemma_retain_visible_is_idempotent(
    before: Set<u64>,
    visible_items: Seq<ItemId>,
)
    ensures
        before.filter(|x: u64| shows(visible_items, x)).filter(|x: u64| shows(visible_items, x))
            == before.filter(|x: u64| shows(visible_items, x)),
{
    assert(before.filter(|x: u64| shows(visible_items, x)).filter(|x: u64| shows(visible_items, x))
        =~= before.filter(|x: u64| shows(visible_items, x)));
}

proof fn lemma_first_position_exists(items: Seq<CollectionProjectedItem>, id: ItemId)
    requires
        !lacks_id(items, id),
    ensures
        exists|p: int| is_first_position(items, id, p),
    decreases items.len(),
{
    let prefix = items.drop_last();
    let j = choose|j: int| 0 <= j < items.len() && items[j].id == id;
    if lacks_id(prefix, id) {
        if j < items.len() - 1 {
            assert(prefix[j] == items[j]);
        }
        assert forall|k: int| 0 <= k < items.len() - 1 implies items[k].id != id by {
            assert(prefix[k] == items[k]);
        }
        assert(is_first_position(items, id, items.len() - 1));
    } else {
        lemma_first_position_exists(prefix, id);
        let p = choose|p: int| is_first_position(prefix, id, p);
        assert forall|k: int| 0 <= k < p implies items[k].id != id by {
            assert(prefix[k] == items[k]);
        }
        assert(prefix[p] == items[p]);
        assert(is_first_position(items, id, p));
    }
}

/// A cursor follows its active item: whenever the items hold it, the cursor
/// resolves to a position of that very item, whatever slot it remembered.
pub proof fn lemma_cursor_follows_identity(
    items: Seq<CollectionProjectedItem>,
    id: ItemId,
    last: Option<usize>,
)
    requires
        !lacks_id(items, id),
    ensures
        resolved_position(items, Some(id), last) matches Some(p) && 0 <= p < items.len()
            && items[p].id == id,
{
    lemma_first_position_exists(items, id);
}

/// Cursor movement never wraps and never leaves the items: forward moves
/// from the last item stay on it, backward moves from the first item stay on
/// it, and every move lands on an item.
pub proof fn lemma_navigation_never_wraps(len: int, at: int, rows: usize)
    requires
        len > 0,
        0 <= at < len,
    ensures
        moved_position(len, Some(len - 1), CollectionCursorMove::Next) == len - 1,
        moved_position(len, Some(len - 1), CollectionCursorMove::PageNext { rows }) == len - 1,
        moved_position(len, Some(0), CollectionCursorMove::Previous) == 0,
        moved_position(len, Some(0), CollectionCursorMove::PagePrevious { rows }) == 0,
        forall|movement: CollectionCursorMove|
            0 <= #[trigger] moved_position(len, Some(at), movement) < len,
        forall|movement: CollectionCursorMove| 0 <= #[trigger] moved_position(len, None, movement) < len,
{
}

/// A single step moves exactly one item and a page step exactly `rows`
/// items while the move stays among the items; a step forward undone by a
/// step back returns to the same item; First and Last reach the ends; with
/// no current item, forward moves start at the first item and backward moves
/// at the last.
pub proof fn lemma_steps_move_by_their_size(len: int, at: int, rows: usize)
    requires
        0 <= at < len,
    ensures
        at >= 1 ==> moved_position(len, Some(at), CollectionCursorMove::Previous) == at - 1,
        at + 1 < len ==> moved_position(len, Some(at), CollectionCursorMove::Next) == at + 1,
        at >= rows ==> moved_position(len, Some(at), CollectionCursorMove::PagePrevious { rows })
            == at - rows,
        at + rows < len ==> moved_position(len, Some(at), CollectionCursorMove::PageNext { rows })
            == at + rows,
        at + 1 < len ==> moved_position(
            len,
            Some(moved_position(len, Some(at), CollectionCursorMove::Next)),
            CollectionCursorMove::Previous,
        ) == at,
        moved_position(len, Some(at), CollectionCursorMove::First) == 0,
        moved_position(len, Some(at), CollectionCursorMove::Last) == len - 1,
        moved_position(len, None, CollectionCursorMove::Next) == 0,
        moved_position(len, None, CollectionCursorMove::PageNext { rows }) == 0,
        moved_position(len, None, CollectionCursorMove::Previous) == len - 1,
        moved_position(len, None, CollectionCursorMove::PagePrevious { rows }) == len - 1,
{
}

/// Every projected item's source index points into `source_ids`, at the
/// item's own ID.
pub open spec fn tracks_source_ids(
    items: Seq<CollectionProjectedItem>,
    source_ids: Seq<ItemId>,
) -> bool {
    forall|i: int|
        0 <= i < items.len() ==> (#[trigger] items[i]).source_index < source_ids.len()
            && source_ids[items[i].source_index as int] == items[i].id
}

/// The projection of source IDs onto themselves points each item at its own
/// source position.
pub proof fn lemma_identity_projection_tracks_source_ids(source_ids: Seq<ItemId>)
    requires
        source_ids.len() <= usize::MAX,
    ensures
        tracks_source_ids(identity_projection(source_ids), source_ids),
{
    let items = identity_projection(source_ids);
    assert forall|i: int| 0 <= i < items.len() implies (#[trigger] items[i]).source_index
        < source_ids.len() && source_ids[items[i].source_index as int] == items[i].id by {
        assert(items[i].source_index == i);
    }
}

/// Filtering keeps source indices pointing at the source IDs: the items that
/// a filter keeps still point at their own IDs in the source.
pub proof fn lemma_kept_items_track_source_ids(
    items: Seq<CollectionProjectedItem>,
    keep: Seq<bool>,
    source_ids: Seq<ItemId>,
)
    requires
        tracks_source_ids(items, source_ids),
    ensures
        tracks_source_ids(kept_items(items, keep), source_ids),
    decreases items.len(),
{
    if items.len() > 0 && keep.len() > 0 {
        let rest = items.drop_last();
        assert forall|i: int| 0 <= i < rest.len() implies (#[trigger] rest[i]).source_index
            < source_ids.len() && source_ids[rest[i].source_index as int] == rest[i].id by {
            assert(rest[i] == items[i]);
        }
        lemma_kept_items_track_source_ids(rest, keep.drop_last(), source_ids);
        let kept_rest = kept_items(rest, keep.drop_last());
        if keep.last() {
            let kept = kept_rest.push(items.last());
            assert forall|i: int| 0 <= i < kept.len() implies (#[trigger] kept[i]).source_index
                < source_ids.len() && source_ids[kept[i].source_index as int] == kept[i].id by {
                if i < kept_rest.len() {
                    assert(kept[i] == kept_rest[i]);
                } else {
                    assert(kept[i] == items[items.len() - 1]);
                }
            }
        }
    }
}

/// Reordering keeps source indices pointing at the source IDs: a
/// rearrangement of items that point at their own IDs, such as a sorted
/// copy, points at them too.
pub proof fn lemma_rearrangement_tracks_source_ids(
    items: Seq<CollectionProjectedItem>,
    rearranged: Seq<CollectionProjectedItem>,
    positions: Seq<int>,
    source_ids: Seq<ItemId>,
)
    requires
        tracks_source_ids(items, source_ids),
        is_rearrangement(items, rearranged, positions),
    ensures
        tracks_source_ids(rearranged, source_ids),
{
    assert forall|k: int| 0 <= k < rearranged.len() implies (#[trigger] rearranged[k]).source_index
        < source_ids.len() && source_ids[rearranged[k].source_index as int] == rearranged[k].id by {
        assert(0 <= positions[k] < items.len());
        assert(rearranged[k] == items[positions[k]]);
    }
}

} // verus!
