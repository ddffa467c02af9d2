use std::cmp::Ordering;

use vstd::prelude::*;
use vstd::utf8::encode_utf8;

use super::identity::{CollectionProjectedItem, CollectionProjection, ItemId, kept_items};
use super::sorting::{index_value, is_rearrangement};
use super::table::SortDirection;
use super::text_order::{
    answers_order, bytes_before, compare_text, compare_texts, lemma_bytes_order, lemma_texts_order, text_bytes,
    texts_before,
};

verus! {

broadcast use vstd::seq_lib::group_to_multiset_ensures;

/// Asset field an asset browser sorts by.
#[derive(Debug, Clone, Copy, PartialEq, Eq, Structural)]
pub enum AssetBrowserSortKey {
    /// Asset name.
    Name,
    /// Asset kind.
    Kind,
    /// Asset tags, compared as a list.
    Tags,
}

/// Asset browser sort request.
#[derive(Debug, Clone, Copy, PartialEq, Eq, Structural)]
pub struct AssetBrowserSort {
    /// Field to sort by.
    pub key: AssetBrowserSortKey,
    /// Direction.
    pub direction: SortDirection,
}

impl AssetBrowserSort {
    /// Creates a sort request.
    pub fn new(key: AssetBrowserSortKey, direction: SortDirection) -> (sort: Self)
        ensures
            sort.key == key,
            sort.direction == direction,
    {
        AssetBrowserSort { key, direction }
    }
}

/// Application-owned asset metadata shown by an asset browser.
#[derive(Debug, Clone, PartialEq, Eq)]
pub struct AssetBrowserItem {
    /// Stable item identity.
    pub id: ItemId,
    /// Asset name.
    pub name: String,
    /// Asset kind.
    pub kind: String,
    /// Asset tags.
    pub tags: Vec<String>,
}

impl AssetBrowserItem {
    /// Creates an untagged asset.
    pub fn new(id: ItemId, name: &str, kind: &str) -> (item: Self)
        ensures
            item.id == id,
            item.name@ == name@,
            item.kind@ == kind@,
            item.tags@.len() == 0,
    {
        AssetBrowserItem { id, name: name.to_owned(), kind: kind.to_owned(), tags: Vec::new() }
    }

    /// Returns this asset with its tags replaced by `tags`, in order.
    pub fn with_tags(self, tags: &[&str]) -> (item: Self)
        ensures
            item.id == self.id,
            item.name == self.name,
            item.kind == self.kind,
            item.tags@.len() == tags@.len(),
            forall|i: int| 0 <= i < tags@.len() ==> (#[trigger] item.tags@[i])@ == tags@[i]@,
    {
        let mut owned: Vec<String> = Vec::new();
        let n = tags.len();
        for i in 0..n
            invariant
                n == tags@.len(),
                owned@.len() == i,
                forall|k: int| 0 <= k < i ==> (#[trigger] owned@[k])@ == tags@[k]@,
        {
            owned.push(tags[i].to_owned());
        }
        AssetBrowserItem { tags: owned, ..self }
    }
}

/// The sort key of an asset: its name or kind as a one-element list, or
/// its tags, each as UTF-8 bytes.
pub open spec fn asset_key(item: AssetBrowserItem, key: AssetBrowserSortKey) -> Seq<Seq<u8>> {
    match key {
        AssetBrowserSortKey::Name => seq![encode_utf8(item.name@)],
        AssetBrowserSortKey::Kind => seq![encode_utf8(item.kind@)],
        AssetBrowserSortKey::Tags => text_bytes(item.tags@),
    }
}

/// The sort key of the asset at `index`, or the empty key when there is none.
pub open spec fn source_key(
    items: Seq<AssetBrowserItem>,
    key: AssetBrowserSortKey,
    index: usize,
) -> Seq<Seq<u8>> {
    if index < items.len() {
        asset_key(items[index as int], key)
    } else {
        Seq::empty()
    }
}

/// Under `sort`, the projected item `a` sorts after `b`.
pub open spec fn asset_after(
    items: Seq<AssetBrowserItem>,
    sort: AssetBrowserSort,
    a: CollectionProjectedItem,
    b: CollectionProjectedItem,
) -> bool {
    let ka = source_key(items, sort.key, a.source_index);
    let kb = source_key(items, sort.key, b.source_index);
    match sort.direction {
        SortDirection::Ascending => texts_before(kb, ka),
        SortDirection::Descending => texts_before(ka, kb),
    }
}

/// `output` is sorted under `sort` and equal keys keep their input order.
pub open spec fn sorted_assets(
    items: Seq<AssetBrowserItem>,
    sort: AssetBrowserSort,
    output: Seq<CollectionProjectedItem>,
    positions: Seq<int>,
) -> bool {
    &&& forall|p: int, q: int|
        0 <= p < q < output.len() ==> !asset_after(items, sort, #[trigger] output[p], #[trigger] output[q])
    &&& forall|p: int, q: int|
        0 <= p < q < output.len() && !asset_after(items, sort, #[trigger] output[q], #[trigger] output[p])
            ==> positions[p] < positions[q]
}

/// Projected items for every asset, in source order.
pub open spec fn asset_identity(items: Seq<AssetBrowserItem>) -> Seq<CollectionProjectedItem> {
    Seq::new(
        items.len(),
        |i: int| CollectionProjectedItem { id: items[i].id, source_index: i as usize },
    )
}

/// Sorting assets is a strict weak order: "after" is asymmetric and "not
/// after" is transitive.
pub proof fn lemma_asset_order(
    items: Seq<AssetBrowserItem>,
    sort: AssetBrowserSort,
    a: CollectionProjectedItem,
    b: CollectionProjectedItem,
    c: CollectionProjectedItem,
)
    ensures
        asset_after(items, sort, a, b) ==> !asset_after(items, sort, b, a),
        !asset_after(items, sort, a, b) && !asset_after(items, sort, b, c) ==> !asset_after(
            items,
            sort,
            a,
            c,
        ),
{
    let ka = source_key(items, sort.key, a.source_index);
    let kb = source_key(items, sort.key, b.source_index);
    let kc = source_key(items, sort.key, c.source_index);
    lemma_texts_order(ka, kb, kc);
    lemma_texts_order(kb, kc, ka);
    lemma_texts_order(kc, ka, kb);
    lemma_texts_order(kc, kb, ka);
    lemma_texts_order(kb, ka, kc);
    lemma_texts_order(ka, kc, kb);
}

proof fn lemma_single_text_order(x: Seq<u8>, y: Seq<u8>)
    ensures
        texts_before(seq![x], seq![y]) == bytes_before(x, y),
{
    lemma_bytes_order(x, y, x);
    let a = seq![x];
    let b = seq![y];
    assert(a[0] == x && b[0] == y && a.len() == 1 && b.len() == 1);
    assert(a.drop_first() =~= Seq::<Seq<u8>>::empty());
    assert(b.drop_first() =~= Seq::<Seq<u8>>::empty());
    assert(!texts_before(Seq::<Seq<u8>>::empty(), Seq::<Seq<u8>>::empty()));
}

/// Compares two source indices by their assets' sort keys.
fn compare_sources(
    items: &Vec<AssetBrowserItem>,
    key: AssetBrowserSortKey,
    a: usize,
    b: usize,
) -> (order: Ordering)
    ensures
        answers_order(
            order,
            texts_before(source_key(items@, key, a), source_key(items@, key, b)),
            texts_before(source_key(items@, key, b), source_key(items@, key, a)),
        ),
{
    let n = items.len();
    if a < n && b < n {
        let x = &items[a];
        let y = &items[b];
        match key {
            AssetBrowserSortKey::Name => {
                proof {
                    lemma_single_text_order(encode_utf8(x.name@), encode_utf8(y.name@));
                    lemma_single_text_order(encode_utf8(y.name@), encode_utf8(x.name@));
                }
                compare_text(x.name.as_str(), y.name.as_str())
            },
            AssetBrowserSortKey::Kind => {
                proof {
                    lemma_single_text_order(encode_utf8(x.kind@), encode_utf8(y.kind@));
                    lemma_single_text_order(encode_utf8(y.kind@), encode_utf8(x.kind@));
                }
                compare_text(x.kind.as_str(), y.kind.as_str())
            },
            AssetBrowserSortKey::Tags => compare_texts(x.tags.as_slice(), y.tags.as_slice()),
        }
    } else if a < n {
        let present = match key {
            AssetBrowserSortKey::Tags => items[a].tags.len() > 0,
            _ => true,
        };
        if present {
            Ordering::Greater
        } else {
            Ordering::Equal
        }
    } else if b < n {
        let present = match key {
            AssetBrowserSortKey::Tags => items[b].tags.len() > 0,
            _ => true,
        };
        if present {
            Ordering::Less
        } else {
            Ordering::Equal
        }
    } else {
        Ordering::Equal
    }
}

/// Compares projected items under `sort`: `Greater` when `a` sorts after `b`,
/// `Less` when `b` sorts after `a`.
fn compare_projected(
    items: &Vec<AssetBrowserItem>,
    sort: AssetBrowserSort,
    a: CollectionProjectedItem,
    b: CollectionProjectedItem,
) -> (order: Ordering)
    ensures
        answers_order(
            order,
            asset_after(items@, sort, b, a),
            asset_after(items@, sort, a, b),
        ),
{
    let order = compare_sources(items, sort.key, a.source_index, b.source_index);
    match sort.direction {
        SortDirection::Ascending => order,
        SortDirection::Descending => match order {
            Ordering::Less => Ordering::Greater,
            Ordering::Greater => Ordering::Less,
            Ordering::Equal => Ordering::Equal,
        },
    }
}

/// Stable insertion sort of projected items under `sort`.
fn sort_projected(
    input: &Vec<CollectionProjectedItem>,
    items: &Vec<AssetBrowserItem>,
    sort: AssetBrowserSort,
) -> (output: Vec<CollectionProjectedItem>)
    ensures
        output@.to_multiset() == input@.to_multiset(),
        exists|positions: Seq<int>|
            is_rearrangement(input@, output@, positions) && sorted_assets(
                items@,
                sort,
                output@,
                positions,
            ),
{
    let mut output: Vec<CollectionProjectedItem> = Vec::new();
    let ghost mut positions: Seq<int> = Seq::empty();
    let ghost assets = items@;
    let n = input.len();
    for i in 0..n
        invariant
            n == input@.len(),
            assets == items@,
            output@.len() == i,
            output@.to_multiset() == input@.take(index_value(i)).to_multiset(),
            is_rearrangement(input@, output@, positions),
            forall|k: int| 0 <= k < output@.len() ==> #[trigger] positions[k] < i,
            sorted_assets(assets, sort, output@, positions),
    {
        let x = input[i];
        let mut j = output.len();
        while j > 0
            invariant
                assets == items@,
                j <= output@.len(),
                forall|k: int|
                    j <= k < output@.len() ==> asset_after(assets, sort, #[trigger] output@[k], x),
            ensures
                j <= output@.len(),
                forall|k: int|
                    j <= k < output@.len() ==> asset_after(assets, sort, #[trigger] output@[k], x),
                j > 0 ==> !asset_after(assets, sort, output@[j - 1], x),
            decreases j,
        {
            match compare_projected(items, sort, output[j - 1], x) {
                Ordering::Greater => {
                    j = j - 1;
                },
                _ => {
                    break;
                },
            }
        }
        let ghost old_output = output@;
        let ghost old_positions = positions;
        output.insert(j, x);
        proof {
            positions = old_positions.insert(index_value(j), index_value(i));
            assert(input@.take(i + 1) =~= input@.take(index_value(i)).push(x));
            assert(output@ =~= old_output.insert(index_value(j), x));
            assert forall|k: int| 0 <= k < output@.len() implies 0 <= #[trigger] positions[k]
                < input@.len() && output@[k] == input@[positions[k]] && positions[k] < i + 1 by {
                if k > j {
                    assert(positions[k] == old_positions[k - 1]);
                }
            }
            assert forall|p: int, q: int|
                0 <= p < q < output@.len() implies #[trigger] positions[p]
                != #[trigger] positions[q] by {
                if p < j && q > j {
                    assert(positions[q] == old_positions[q - 1]);
                } else if p > j {
                    assert(positions[p] == old_positions[p - 1]);
                    assert(positions[q] == old_positions[q - 1]);
                } else if q < j {
                } else if p == j {
                    assert(positions[q] == old_positions[q - 1]);
                    assert(old_positions[q - 1] < i);
                } else {
                    assert(old_positions[p] < i);
                }
            }
            assert forall|p: int, q: int|
                0 <= p < q < output@.len() implies !asset_after(
                assets,
                sort,
                #[trigger] output@[p],
                #[trigger] output@[q],
            ) by {
                if q < j {
                    assert(output@[p] == old_output[p] && output@[q] == old_output[q]);
                } else if p > j {
                    assert(output@[p] == old_output[p - 1] && output@[q] == old_output[q - 1]);
                } else if p == j {
                    lemma_asset_order(assets, sort, old_output[q - 1], x, x);
                } else if q == j {
                    if p < j - 1 {
                        assert(!asset_after(assets, sort, old_output[p], old_output[j - 1]));
                    }
                    lemma_asset_order(assets, sort, old_output[p], old_output[j - 1], x);
                } else {
                    assert(output@[p] == old_output[p] && output@[q] == old_output[q - 1]);
                }
            }
            assert forall|p: int, q: int|
                0 <= p < q < output@.len() && !asset_after(
                    assets,
                    sort,
                    #[trigger] output@[q],
                    #[trigger] output@[p],
                ) implies positions[p] < positions[q] by {
                if q < j {
                    assert(output@[p] == old_output[p] && output@[q] == old_output[q]);
                } else if p > j {
                    assert(output@[p] == old_output[p - 1] && output@[q] == old_output[q - 1]);
                    assert(positions[p] == old_positions[p - 1]);
                    assert(positions[q] == old_positions[q - 1]);
                } else if p == j {
                    assert(asset_after(assets, sort, old_output[q - 1], x));
                } else if q == j {
                    assert(old_positions[p] < i);
                } else {
                    assert(output@[p] == old_output[p] && output@[q] == old_output[q - 1]);
                    assert(positions[q] == old_positions[q - 1]);
                }
            }
        }
    }
    assert(input@.take(index_value(n)) =~= input@);
    output
}

/// Application-owned assets in source order.
#[derive(Debug, Clone, PartialEq, Eq)]
pub struct AssetBrowserModel {
    items: Vec<AssetBrowserItem>,
}

impl View for AssetBrowserModel {
    type V = Seq<AssetBrowserItem>;

    closed spec fn view(&self) -> Seq<AssetBrowserItem> {
        self.items@
    }
}

impl AssetBrowserModel {
    /// Creates an asset browser model from assets in source order.
    pub fn new(items: Vec<AssetBrowserItem>) -> (model: Self)
        ensures
            model@ == items@,
    {
        AssetBrowserModel { items }
    }

    /// Projects the assets `keep_item` accepts, in source order or sorted.
    ///
    /// The predicate is asked once per asset, in source order. Sorting is
    /// stable, by the requested key and direction, comparing names, kinds and
    /// each tag by their UTF-8 bytes and tag lists element by element.
    pub fn projected(
        &self,
        keep_item: impl Fn(&AssetBrowserItem) -> bool,
        sort: Option<AssetBrowserSort>,
    ) -> (projection: CollectionProjection)
        requires
            forall|item: &AssetBrowserItem| keep_item.requires((item,)),
        ensures
            exists|keep: Seq<bool>|
                #![trigger kept_items(asset_identity(self@), keep)]
                {
                    let kept = kept_items(asset_identity(self@), keep);
                    &&& keep.len() == self@.len()
                    &&& forall|i: int|
                        0 <= i < keep.len() ==> keep_item.ensures((&self@[i],), #[trigger] keep[i])
                    &&& match sort {
                        None => projection@ == kept,
                        Some(order) => exists|positions: Seq<int>|
                            is_rearrangement(kept, projection@, positions) && sorted_assets(
                                self@,
                                order,
                                projection@,
                                positions,
                            ),
                    }
                },
    {
        let n = self.items.len();
        let mut keep: Vec<bool> = Vec::new();
        let mut kept: Vec<CollectionProjectedItem> = Vec::new();
        for i in 0..n
            invariant
                n == self@.len(),
                keep@.len() == i,
                forall|item: &AssetBrowserItem| keep_item.requires((item,)),
                forall|j: int| 0 <= j < i ==> keep_item.ensures((&self@[j],), #[trigger] keep@[j]),
                kept@ == kept_items(asset_identity(self@).take(index_value(i)), keep@),
        {
            let asset = &self.items[i];
            let accepted = keep_item(asset);
            let ghost before = keep@;
            keep.push(accepted);
            proof {
                let prefix = asset_identity(self@).take(i + 1);
                assert(prefix.drop_last() =~= asset_identity(self@).take(index_value(i)));
                assert(keep@.drop_last() =~= before);
            }
            if accepted {
                kept.push(CollectionProjectedItem::new(asset.id, i));
            }
        }
        proof {
            assert(asset_identity(self@).take(index_value(n)) =~= asset_identity(self@));
        }
        let ghost kept_view = kept@;
        let projection = match sort {
            None => CollectionProjection::from_items(kept),
            Some(order) => CollectionProjection::from_items(sort_projected(&kept, &self.items, order)),
        };
        assert(kept_items(asset_identity(self@), keep@) == kept_view);
        projection
    }
}

} // verus!
