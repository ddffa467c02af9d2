use std::cmp::Ordering;
use std::ops::Range;

use vstd::prelude::*;

use super::laws::{
    lemma_identity_projection_tracks_source_ids, lemma_kept_items_track_source_ids,
    lemma_rearrangement_tracks_source_ids, tracks_source_ids,
};
use super::sorting::{is_stable_sort_of, stable_insertion_sort};

verus! {

/// Stable collection item identity.
#[derive(Debug, Clone, Copy, PartialEq, Eq, Hash, PartialOrd, Ord, Structural)]
pub struct ItemId(u64);

impl View for ItemId {
    type V = u64;

    closed spec fn view(&self) -> u64 {
        self.0
    }
}

/// Two item IDs with the same raw bits are the same ID.
pub broadcast proof fn lemma_item_id_view_injective(a: ItemId, b: ItemId)
    ensures
        #[trigger] a@ == #[trigger] b@ <==> a == b,
{
}

impl ItemId {
    /// Creates an item ID from raw bits.
    pub fn from_raw(raw: u64) -> (id: Self)
        ensures
            id@ == raw,
    {
        ItemId(raw)
    }

    /// Returns raw ID bits.
    pub fn raw(self) -> (raw: u64)
        ensures
            raw == self@,
    {
        self.0
    }
}

/// One source item resolved into a projected collection order.
#[derive(Debug, Clone, Copy, PartialEq, Eq, Structural)]
pub struct CollectionProjectedItem {
    /// Stable item identity.
    pub id: ItemId,
    /// Index of the item in the application-owned source collection.
    pub source_index: usize,
}

impl CollectionProjectedItem {
    /// Creates a projected item entry.
    pub fn new(id: ItemId, source_index: usize) -> (item: Self)
        ensures
            item.id == id,
            item.source_index == source_index,
    {
        CollectionProjectedItem { id, source_index }
    }
}

/// The identity projection of source IDs: item `i` is `source_ids[i]` at source index `i`.
pub open spec fn identity_projection(source_ids: Seq<ItemId>) -> Seq<CollectionProjectedItem> {
    Seq::new(
        source_ids.len(),
        |i: int| CollectionProjectedItem { id: source_ids[i], source_index: i as usize },
    )
}

/// The IDs of projected items, in order.
pub open spec fn projected_ids(items: Seq<CollectionProjectedItem>) -> Seq<ItemId> {
    items.map_values(|item: CollectionProjectedItem| item.id)
}

/// The source indices of projected items, in order.
pub open spec fn projected_source_indices(items: Seq<CollectionProjectedItem>) -> Seq<usize> {
    items.map_values(|item: CollectionProjectedItem| item.source_index)
}

/// The projected items whose positions lie in `start..end`, both clamped to the item count;
/// a reversed clamped range is empty.
pub open spec fn clamped_range(
    items: Seq<CollectionProjectedItem>,
    start: usize,
    end: usize,
) -> Seq<CollectionProjectedItem> {
    let lo = if start <= items.len() { start as int } else { items.len() as int };
    let hi = if end <= items.len() { end as int } else { items.len() as int };
    if lo <= hi {
        items.subrange(lo, hi)
    } else {
        Seq::empty()
    }
}

/// `position` is the first position of a projected item with the given ID.
pub open spec fn is_first_position(
    items: Seq<CollectionProjectedItem>,
    id: ItemId,
    position: int,
) -> bool {
    &&& 0 <= position < items.len()
    &&& items[position].id == id
    &&& forall|j: int| 0 <= j < position ==> items[j].id != id
}

/// No projected item has the given ID.
pub open spec fn lacks_id(items: Seq<CollectionProjectedItem>, id: ItemId) -> bool {
    forall|j: int| 0 <= j < items.len() ==> items[j].id != id
}

/// The items of `items` kept by the matching entries of `keep`, in order.
pub open spec fn kept_items<A>(items: Seq<A>, keep: Seq<bool>) -> Seq<A>
    decreases items.len(),
{
    if items.len() == 0 || keep.len() == 0 {
        Seq::empty()
    } else {
        let rest = kept_items(items.drop_last(), keep.drop_last());
        if keep.last() {
            rest.push(items.last())
        } else {
            rest
        }
    }
}

/// Data-only filtered and sorted projection of a source collection.
///
/// Projection stores stable item IDs and source indices only; applications
/// retain ownership of the source data and decide filtering and sorting keys.
#[derive(Debug, Clone, PartialEq, Eq)]
pub struct CollectionProjection {
    items: Vec<CollectionProjectedItem>,
}

impl View for CollectionProjection {
    type V = Seq<CollectionProjectedItem>;

    closed spec fn view(&self) -> Seq<CollectionProjectedItem> {
        self.items@
    }
}

impl CollectionProjection {
    /// Creates an empty projection.
    pub fn empty() -> (projection: Self)
        ensures
            projection@ == Seq::<CollectionProjectedItem>::empty(),
    {
        CollectionProjection { items: Vec::new() }
    }

    /// Creates an identity projection from source item IDs.
    pub fn from_source_ids(source_ids: &[ItemId]) -> (projection: Self)
        ensures
            projection@ == identity_projection(source_ids@),
            tracks_source_ids(projection@, source_ids@),
    {
        let mut items: Vec<CollectionProjectedItem> = Vec::new();
        let n = source_ids.len();
        for i in 0..n
            invariant
                n == source_ids@.len(),
                items@ == identity_projection(source_ids@.take(i as int)),
        {
            items.push(CollectionProjectedItem::new(source_ids[i], i));
            assert(identity_projection(source_ids@.take(i + 1)) =~= identity_projection(
                source_ids@.take(i as int),
            ).push(CollectionProjectedItem { id: source_ids@[i as int], source_index: i }));
        }
        assert(source_ids@.take(n as int) =~= source_ids@);
        proof {
            lemma_identity_projection_tracks_source_ids(source_ids@);
        }
        CollectionProjection { items }
    }

    /// Creates a projection from pre-resolved projected items.
    pub fn from_items(items: Vec<CollectionProjectedItem>) -> (projection: Self)
        ensures
            projection@ == items@,
    {
        CollectionProjection { items }
    }

    /// Returns projected items in visible order.
    pub fn items(&self) -> (items: &[CollectionProjectedItem])
        ensures
            items@ == self@,
    {
        self.items.as_slice()
    }

    /// Returns the projected item count.
    pub fn len(&self) -> (len: usize)
        ensures
            len == self@.len(),
    {
        self.items.len()
    }

    /// Returns true when no items are visible through this projection.
    pub fn is_empty(&self) -> (empty: bool)
        ensures
            empty == (self@.len() == 0),
    {
        self.items.len() == 0
    }

    /// Returns projected IDs in visible order.
    pub fn visible_ids(&self) -> (ids: Vec<ItemId>)
        ensures
            ids@ == projected_ids(self@),
    {
        let mut ids: Vec<ItemId> = Vec::new();
        let n = self.items.len();
        for i in 0..n
            invariant
                n == self@.len(),
                ids@ == projected_ids(self@.take(i as int)),
        {
            ids.push(self.items[i].id);
            assert(projected_ids(self@.take(i + 1)) =~= projected_ids(self@.take(i as int)).push(
                self@[i as int].id,
            ));
        }
        assert(self@.take(n as int) =~= self@);
        ids
    }

    /// Returns source indices in visible order.
    pub fn source_indices(&self) -> (indices: Vec<usize>)
        ensures
            indices@ == projected_source_indices(self@),
    {
        let mut indices: Vec<usize> = Vec::new();
        let n = self.items.len();
        for i in 0..n
            invariant
                n == self@.len(),
                indices@ == projected_source_indices(self@.take(i as int)),
        {
            indices.push(self.items[i].source_index);
            assert(projected_source_indices(self@.take(i + 1)) =~= projected_source_indices(
                self@.take(i as int),
            ).push(self@[i as int].source_index));
        }
        assert(self@.take(n as int) =~= self@);
        indices
    }

    /// Returns projected IDs within a virtualized projected range.
    pub fn ids_in_range(&self, range: Range<usize>) -> (ids: Vec<ItemId>)
        ensures
            ids@ == projected_ids(clamped_range(self@, range.start, range.end)),
    {
        let n = self.items.len();
        let start = if range.start < n {
            range.start
        } else {
            n
        };
        let end = if range.end < n {
            range.end
        } else {
            n
        };
        let mut ids: Vec<ItemId> = Vec::new();
        if start <= end {
            let ghost window = self@.subrange(start as int, end as int);
            for i in start..end
                invariant
                    n == self@.len(),
                    start <= end <= n,
                    window == self@.subrange(start as int, end as int),
                    ids@ == projected_ids(window.take(i - start)),
            {
                ids.push(self.items[i].id);
                assert(projected_ids(window.take(i + 1 - start)) =~= projected_ids(
                    window.take(i - start),
                ).push(self@[i as int].id));
            }
            assert(window.take(end - start) =~= window);
        }
        ids
    }

    /// Returns a projected item by projected index.
    pub fn get(&self, index: usize) -> (item: Option<CollectionProjectedItem>)
        ensures
            item == (if index < self@.len() {
                Some(self@[index as int])
            } else {
                None::<CollectionProjectedItem>
            }),
    {
        if index < self.items.len() {
            Some(self.items[index])
        } else {
            None
        }
    }

    /// Returns the first source index for an item ID.
    pub fn source_index(&self, id: ItemId) -> (index: Option<usize>)
        ensures
            index is None <==> lacks_id(self@, id),
            index matches Some(s) ==> exists|p: int|
                is_first_position(self@, id, p) && s == #[trigger] self@[p].source_index,
    {
        match self.projected_index(id) {
            Some(p) => Some(self.items[p].source_index),
            None => None,
        }
    }

    /// Returns the first projected index for an item ID.
    pub fn projected_index(&self, id: ItemId) -> (index: Option<usize>)
        ensures
            index is None <==> lacks_id(self@, id),
            index matches Some(p) ==> is_first_position(self@, id, p as int),
    {
        let n = self.items.len();
        for i in 0..n
            invariant
                n == self@.len(),
                forall|j: int| 0 <= j < i ==> self@[j].id != id,
        {
            if self.items[i].id == id {
                return Some(i);
            }
        }
        None
    }

    /// Returns a filtered copy of this projection.
    ///
    /// The predicate is asked once per item, in projected order; the copy keeps
    /// exactly the items for which it answered `true`, in the same order.
    pub fn filtered_by(&self, keep_item: impl Fn(CollectionProjectedItem) -> bool) -> (filtered:
        Self)
        requires
            forall|item: CollectionProjectedItem| keep_item.requires((item,)),
        ensures
            exists|keep: Seq<bool>|
                {
                    &&& keep.len() == self@.len()
                    &&& forall|i: int|
                        0 <= i < self@.len() ==> keep_item.ensures((self@[i],), #[trigger] keep[i])
                    &&& filtered@ == kept_items(self@, keep)
                },
            forall|source_ids: Seq<ItemId>|
                #[trigger] tracks_source_ids(self@, source_ids) ==> tracks_source_ids(
                    filtered@,
                    source_ids,
                ),
    {
        let mut items: Vec<CollectionProjectedItem> = Vec::new();
        let ghost mut keep: Seq<bool> = Seq::empty();
        let n = self.items.len();
        for i in 0..n
            invariant
                n == self@.len(),
                forall|item: CollectionProjectedItem| keep_item.requires((item,)),
                keep.len() == i,
                forall|k: int| 0 <= k < i ==> keep_item.ensures((self@[k],), #[trigger] keep[k]),
                items@ == kept_items(self@.take(i as int), keep),
        {
            let item = self.items[i];
            let kept = keep_item(item);
            if kept {
                items.push(item);
            }
            proof {
                let prefix = self@.take(i + 1);
                assert(prefix.drop_last() =~= self@.take(i as int));
                assert(keep.push(kept).drop_last() =~= keep);
                keep = keep.push(kept);
            }
        }
        assert(self@.take(n as int) =~= self@);
        proof {
            assert forall|source_ids: Seq<ItemId>| #[trigger]
                tracks_source_ids(self@, source_ids) implies tracks_source_ids(
                items@,
                source_ids,
            ) by {
                lemma_kept_items_track_source_ids(self@, keep, source_ids);
            }
        }
        CollectionProjection { items }
    }

    /// Returns a sorted copy of this projection.
    ///
    /// Sorting is stable. Equal comparisons keep the incoming projection order.
    /// The copy always holds the same items; for any total preorder that the
    /// comparison answers as (`answers_as`), the copy is sorted by it and ties
    /// keep their order.
    pub fn sorted_by(
        &self,
        compare: impl Fn(&CollectionProjectedItem, &CollectionProjectedItem) -> Ordering,
    ) -> (sorted: Self)
        requires
            forall|a: CollectionProjectedItem, b: CollectionProjectedItem|
                compare.requires((&a, &b)),
        ensures
            sorted@.len() == self@.len(),
            sorted@.to_multiset() == self@.to_multiset(),
            exists|positions: Seq<int>| is_stable_sort_of(compare, self@, sorted@, positions),
            forall|source_ids: Seq<ItemId>|
                #[trigger] tracks_source_ids(self@, source_ids) ==> tracks_source_ids(
                    sorted@,
                    source_ids,
                ),
    {
        let items = stable_insertion_sort(&self.items, compare);
        let sorted = CollectionProjection { items };
        proof {
            let positions = choose|positions: Seq<int>|
                is_stable_sort_of(compare, self@, items@, positions);
            assert(is_stable_sort_of(compare, self@, sorted@, positions));
            assert forall|source_ids: Seq<ItemId>| #[trigger]
                tracks_source_ids(self@, source_ids) implies tracks_source_ids(
                sorted@,
                source_ids,
            ) by {
                lemma_rearrangement_tracks_source_ids(self@, sorted@, positions, source_ids);
            }
        }
        sorted
    }
}

} // verus!
