use std::collections::BTreeSet;

use vstd::prelude::*;
use vstd::std_specs::btree::spec_btree_keys_iter;
use vstd::std_specs::iter::IteratorSpec;

use super::identity::ItemId;
use super::selection::lists_in_order;
use crate::raw_ids::lemma_keys_in_order;

verus! {

/// One item of a tree, linked to its parent by identity.
#[derive(Debug, Clone, Copy, PartialEq, Eq, Structural)]
pub struct TreeItem {
    /// Stable item identity.
    pub id: ItemId,
    /// Parent item, or `None` for a root item.
    pub parent: Option<ItemId>,
    /// Whether the item can show children when expanded.
    pub has_children: bool,
}

/// Rows shown for the items from `start` on whose parent is `parent`, in
/// item order, each followed by its own shown children when it has
/// children, is expanded and `depth_left` allows one more level.
pub open spec fn shown_rows(
    items: Seq<TreeItem>,
    expanded: Set<u64>,
    parent: Option<ItemId>,
    depth_left: nat,
    start: int,
) -> Seq<ItemId>
    decreases depth_left, items.len() - start,
{
    if start < 0 || start >= items.len() {
        Seq::empty()
    } else {
        let rest = shown_rows(items, expanded, parent, depth_left, start + 1);
        let item = items[start];
        if item.parent == parent {
            let children = if depth_left > 0 && item.has_children && expanded.contains(item.id@) {
                shown_rows(items, expanded, Some(item.id), (depth_left - 1) as nat, 0)
            } else {
                Seq::empty()
            };
            seq![item.id] + children + rest
        } else {
            rest
        }
    }
}

/// Flattened visible rows of a tree: root items in order, each followed by
/// its visible descendants, at most as many levels deep as there are items.
pub open spec fn visible_rows(items: Seq<TreeItem>, expanded: Set<u64>) -> Seq<ItemId> {
    shown_rows(items, expanded, None, items.len(), 0)
}

/// Tree items in source order.
#[derive(Debug, Clone, PartialEq, Eq)]
pub struct TreeModel {
    items: Vec<TreeItem>,
}

impl View for TreeModel {
    type V = Seq<TreeItem>;

    closed spec fn view(&self) -> Seq<TreeItem> {
        self.items@
    }
}

/// Expanded tree items, kept by identity.
#[derive(Debug, Clone, PartialEq, Eq)]
pub struct TreeExpansion {
    expanded: BTreeSet<u64>,
}

impl View for TreeExpansion {
    type V = Set<u64>;

    closed spec fn view(&self) -> Set<u64> {
        self.expanded@
    }
}

impl Default for TreeExpansion {
    /// Nothing expanded.
    fn default() -> (expansion: Self)
        ensures
            expansion@ == Set::<u64>::empty(),
    {
        TreeExpansion::new()
    }
}

impl TreeExpansion {
    /// Creates an expansion with nothing expanded.
    pub fn new() -> (expansion: Self)
        ensures
            expansion@ == Set::<u64>::empty(),
    {
        TreeExpansion { expanded: BTreeSet::new() }
    }

    /// Expands an item.
    pub fn expand(&mut self, id: ItemId)
        ensures
            final(self)@ == old(self)@.insert(id@),
    {
        self.expanded.insert(id.raw());
    }

    /// Returns true when an item is expanded.
    pub fn is_expanded(&self, id: ItemId) -> (expanded: bool)
        ensures
            expanded == self@.contains(id@),
    {
        self.expanded.contains(&id.raw())
    }

    /// Returns expanded items in ascending ID order.
    pub fn expanded(&self) -> (items: Vec<ItemId>)
        ensures
            lists_in_order(items@, self@),
    {
        let mut items: Vec<ItemId> = Vec::new();
        let ghost keys = spec_btree_keys_iter(&self.expanded).remaining();
        for raw in it: self.expanded.iter()
            invariant
                it.seq() == keys,
                keys == spec_btree_keys_iter(&self.expanded).remaining(),
                items@.len() == it.index(),
                forall|k: int| 0 <= k < it.index() ==> (#[trigger] items@[k])@ == *keys[k],
        {
            items.push(ItemId::from_raw(*raw));
        }
        proof {
            lemma_keys_in_order(&self.expanded);
            assert(items@.len() == keys.len());
            assert forall|x: u64| #[trigger] self.expanded@.contains(x) implies exists|i: int|
                0 <= i < items@.len() && (#[trigger] items@[i])@ == x by {
                let i = choose|i: int| 0 <= i < keys.len() && *keys[i] == x;
                assert(items@[i]@ == x);
            }
        }
        items
    }
}

pub(crate) fn same_parent(a: Option<ItemId>, b: Option<ItemId>) -> (same: bool)
    ensures
        same == (a == b),
{
    match (a, b) {
        (Some(x), Some(y)) => x == y,
        (None, None) => true,
        _ => false,
    }
}

impl TreeModel {
    /// Creates a tree model from items in source order.
    pub fn new(items: Vec<TreeItem>) -> (model: Self)
        ensures
            model@ == items@,
    {
        TreeModel { items }
    }

    /// Appends the shown rows under `parent` to `rows`.
    fn push_shown(
        &self,
        expansion: &TreeExpansion,
        parent: Option<ItemId>,
        depth_left: usize,
        rows: &mut Vec<ItemId>,
    )
        ensures
            final(rows)@ == old(rows)@ + shown_rows(self@, expansion@, parent, depth_left as nat, 0),
        decreases depth_left,
    {
        let n = self.items.len();
        let ghost start_rows = rows@;
        let ghost all = shown_rows(self@, expansion@, parent, depth_left as nat, 0);
        let mut i: usize = 0;
        while i < n
            invariant
                n == self@.len(),
                i <= n,
                all == shown_rows(self@, expansion@, parent, depth_left as nat, 0),
                start_rows + all == rows@ + shown_rows(
                    self@,
                    expansion@,
                    parent,
                    depth_left as nat,
                    i as int,
                ),
            decreases n - i,
        {
            let item = self.items[i];
            let ghost rest = shown_rows(self@, expansion@, parent, depth_left as nat, i + 1);
            let ghost before = rows@;
            if same_parent(item.parent, parent) {
                rows.push(item.id);
                let ghost after_item = rows@;
                let deeper = depth_left > 0 && item.has_children && expansion.is_expanded(item.id);
                if deeper {
                    self.push_shown(expansion, Some(item.id), depth_left - 1, rows);
                }
                proof {
                    let children = if deeper {
                        shown_rows(self@, expansion@, Some(item.id), (depth_left - 1) as nat, 0)
                    } else {
                        Seq::empty()
                    };
                    assert(rows@ == before + seq![item.id] + children);
                    assert(shown_rows(self@, expansion@, parent, depth_left as nat, i as int) == seq![
                        item.id,
                    ] + children + rest);
                    assert(before + shown_rows(self@, expansion@, parent, depth_left as nat, i as int)
                        =~= rows@ + rest);
                }
            } else {
                assert(shown_rows(self@, expansion@, parent, depth_left as nat, i as int) == rest);
            }
            i = i + 1;
        }
        proof {
            assert(shown_rows(self@, expansion@, parent, depth_left as nat, n as int) =~= Seq::<
                ItemId,
            >::empty());
            assert(rows@ =~= start_rows + all);
        }
    }

    /// Returns the flattened visible item IDs for an expansion state: root
    /// items in order, each followed by the visible descendants of expanded
    /// items that have children.
    pub fn visible_item_ids(&self, expansion: &TreeExpansion) -> (ids: Vec<ItemId>)
        ensures
            ids@ == visible_rows(self@, expansion@),
    {
        let mut ids: Vec<ItemId> = Vec::new();
        self.push_shown(expansion, None, self.items.len(), &mut ids);
        assert(ids@ =~= visible_rows(self@, expansion@));
        ids
    }
}

} // verus!
