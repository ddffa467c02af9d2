use vstd::prelude::*;

use super::identity::ItemId;
use super::tree::{TreeExpansion, same_parent};

verus! {

/// One labelled item of an outliner, linked to its parent by identity.
#[derive(Debug, Clone, PartialEq, Eq)]
pub struct OutlinerItem {
    /// Stable item identity.
    pub id: ItemId,
    /// Visible label.
    pub label: String,
    /// Parent item, or `None` for a root item.
    pub parent: Option<ItemId>,
    /// Whether the item can show children when expanded.
    pub has_children: bool,
}

impl OutlinerItem {
    /// Creates a root item without children.
    pub fn new(id: ItemId, label: &str) -> (item: Self)
        ensures
            item.id == id,
            item.label@ == label@,
            item.parent is None,
            !item.has_children,
    {
        OutlinerItem { id, label: label.to_owned(), parent: None, has_children: false }
    }

    /// Returns this item placed under `parent`.
    pub fn with_parent(self, parent: ItemId) -> (item: Self)
        ensures
            item == (OutlinerItem { parent: Some(parent), ..self }),
    {
        OutlinerItem { parent: Some(parent), ..self }
    }

    /// Returns this item with the given child capability.
    pub fn with_has_children(self, has_children: bool) -> (item: Self)
        ensures
            item == (OutlinerItem { has_children, ..self }),
    {
        OutlinerItem { has_children, ..self }
    }
}

/// One visible outliner row.
#[derive(Debug, Clone, PartialEq, Eq)]
pub struct OutlinerRow {
    /// Stable item identity.
    pub id: ItemId,
    /// Nesting depth, zero for root items.
    pub depth: usize,
    /// Visible label.
    pub label: String,
}

/// Some item from `start` on whose parent is `parent` is kept, or has a kept
/// descendant within `depth_left` further levels.
pub open spec fn kept_under(
    items: Seq<OutlinerItem>,
    keep: Seq<bool>,
    parent: Option<ItemId>,
    depth_left: nat,
    start: int,
) -> bool
    decreases depth_left, items.len() - start,
{
    if start < 0 || start >= items.len() {
        false
    } else {
        let item = items[start];
        (item.parent == parent && (keep[start] || (depth_left > 0 && kept_under(
            items,
            keep,
            Some(item.id),
            (depth_left - 1) as nat,
            0,
        )))) || kept_under(items, keep, parent, depth_left, start + 1)
    }
}

/// The item at `index`, a child of `parent`, is shown: it is kept itself or
/// gives context to a kept descendant.
pub open spec fn shows_item(
    items: Seq<OutlinerItem>,
    keep: Seq<bool>,
    parent: Option<ItemId>,
    depth_left: nat,
    index: int,
) -> bool {
    &&& items[index].parent == parent
    &&& (keep[index] || (depth_left > 0 && kept_under(
        items,
        keep,
        Some(items[index].id),
        (depth_left - 1) as nat,
        0,
    )))
}

/// Rows `(id, depth, label)` shown for the items from `start` on whose parent
/// is `parent`, in item order: each item that is kept or has a kept
/// descendant, followed by its own shown children when it has children, is
/// expanded and `depth_left` allows one more level.
pub open spec fn outliner_rows(
    items: Seq<OutlinerItem>,
    expanded: Set<u64>,
    keep: Seq<bool>,
    parent: Option<ItemId>,
    depth: nat,
    depth_left: nat,
    start: int,
) -> Seq<(ItemId, nat, Seq<char>)>
    decreases depth_left, items.len() - start,
{
    if start < 0 || start >= items.len() {
        Seq::empty()
    } else {
        let rest = outliner_rows(items, expanded, keep, parent, depth, depth_left, start + 1);
        let item = items[start];
        if shows_item(items, keep, parent, depth_left, start) {
            let children = if depth_left > 0 && item.has_children && expanded.contains(item.id@) {
                outliner_rows(
                    items,
                    expanded,
                    keep,
                    Some(item.id),
                    depth + 1,
                    (depth_left - 1) as nat,
                    0,
                )
            } else {
                Seq::empty()
            };
            seq![(item.id, depth, item.label@)] + children + rest
        } else {
            rest
        }
    }
}

/// The rows of an outliner whose items are kept per `keep`, from the roots,
/// at most as many levels deep as there are items.
pub open spec fn filtered_outliner_rows(
    items: Seq<OutlinerItem>,
    expanded: Set<u64>,
    keep: Seq<bool>,
) -> Seq<(ItemId, nat, Seq<char>)> {
    outliner_rows(items, expanded, keep, None, 0, items.len(), 0)
}

/// `rows` present the row descriptions `shown` one for one.
pub open spec fn presents_rows(rows: Seq<OutlinerRow>, shown: Seq<(ItemId, nat, Seq<char>)>) -> bool {
    &&& rows.len() == shown.len()
    &&& forall|i: int|
        0 <= i < rows.len() ==> {
            &&& (#[trigger] rows[i]).id == shown[i].0
            &&& rows[i].depth == shown[i].1
            &&& rows[i].label@ == shown[i].2
        }
}

/// Outliner items in source order.
#[derive(Debug, Clone, PartialEq, Eq)]
pub struct OutlinerModel {
    items: Vec<OutlinerItem>,
}

impl View for OutlinerModel {
    type V = Seq<OutlinerItem>;

    closed spec fn view(&self) -> Seq<OutlinerItem> {
        self.items@
    }
}

impl OutlinerModel {
    /// Creates an outliner model from items in source order.
    pub fn new(items: Vec<OutlinerItem>) -> (model: Self)
        ensures
            model@ == items@,
    {
        OutlinerModel { items }
    }

    fn any_kept_under(&self, keep: &Vec<bool>, parent: Option<ItemId>, depth_left: usize) -> (found:
        bool)
        requires
            keep@.len() == self@.len(),
        ensures
            found == kept_under(self@, keep@, parent, depth_left as nat, 0),
        decreases depth_left,
    {
        let n = self.items.len();
        let mut i: usize = 0;
        while i < n
            invariant
                n == self@.len(),
                keep@.len() == n,
                i <= n,
                kept_under(self@, keep@, parent, depth_left as nat, 0) == kept_under(
                    self@,
                    keep@,
                    parent,
                    depth_left as nat,
                    i as int,
                ),
            decreases n - i,
        {
            let item = &self.items[i];
            if same_parent(item.parent, parent) {
                if keep[i] {
                    return true;
                }
                if depth_left > 0 && self.any_kept_under(keep, Some(item.id), depth_left - 1) {
                    return true;
                }
            }
            i = i + 1;
        }
        false
    }

    fn push_rows(
        &self,
        expansion: &TreeExpansion,
        keep: &Vec<bool>,
        parent: Option<ItemId>,
        depth: usize,
        depth_left: usize,
        rows: &mut Vec<OutlinerRow>,
        Ghost(shown): Ghost<Seq<(ItemId, nat, Seq<char>)>>,
    )
        requires
            keep@.len() == self@.len(),
            depth + depth_left <= self@.len(),
            presents_rows(old(rows)@, shown),
        ensures
            presents_rows(
                final(rows)@,
                shown + outliner_rows(
                    self@,
                    expansion@,
                    keep@,
                    parent,
                    depth as nat,
                    depth_left as nat,
                    0,
                ),
            ),
        decreases depth_left,
    {
        let n = self.items.len();
        let ghost all = outliner_rows(
            self@,
            expansion@,
            keep@,
            parent,
            depth as nat,
            depth_left as nat,
            0,
        );
        let ghost mut done: Seq<(ItemId, nat, Seq<char>)> = Seq::empty();
        let mut i: usize = 0;
        while i < n
            invariant
                n == self@.len(),
                keep@.len() == n,
                i <= n,
                depth + depth_left <= n,
                all == outliner_rows(
                    self@,
                    expansion@,
                    keep@,
                    parent,
                    depth as nat,
                    depth_left as nat,
                    0,
                ),
                all == done + outliner_rows(
                    self@,
                    expansion@,
                    keep@,
                    parent,
                    depth as nat,
                    depth_left as nat,
                    i as int,
                ),
                presents_rows(rows@, shown + done),
            decreases n - i,
        {
            let item = &self.items[i];
            let ghost rest = outliner_rows(
                self@,
                expansion@,
                keep@,
                parent,
                depth as nat,
                depth_left as nat,
                i + 1,
            );
            let shown_here = same_parent(item.parent, parent) && (keep[i] || (depth_left > 0
                && self.any_kept_under(keep, Some(item.id), depth_left - 1)));
            if shown_here {
                let ghost entry = (item.id, depth as nat, item.label@);
                let ghost before = shown + done;
                rows.push(OutlinerRow { id: item.id, depth, label: item.label.clone() });
                proof {
                    assert(presents_rows(rows@, before.push(entry)));
                }
                let deeper = depth_left > 0 && item.has_children && expansion.is_expanded(item.id);
                let ghost children = if deeper {
                    outliner_rows(
                        self@,
                        expansion@,
                        keep@,
                        Some(item.id),
                        (depth + 1) as nat,
                        (depth_left - 1) as nat,
                        0,
                    )
                } else {
                    Seq::empty()
                };
                if deeper {
                    self.push_rows(
                        expansion,
                        keep,
                        Some(item.id),
                        depth + 1,
                        depth_left - 1,
                        rows,
                        Ghost(before.push(entry)),
                    );
                }
                proof {
                    assert(before.push(entry) + children =~= shown + (done + seq![entry]
                        + children));
                    assert(outliner_rows(
                        self@,
                        expansion@,
                        keep@,
                        parent,
                        depth as nat,
                        depth_left as nat,
                        i as int,
                    ) == seq![entry] + children + rest);
                    assert(done + outliner_rows(
                        self@,
                        expansion@,
                        keep@,
                        parent,
                        depth as nat,
                        depth_left as nat,
                        i as int,
                    ) =~= (done + seq![entry] + children) + rest);
                    done = done + seq![entry] + children;
                }
            } else {
                assert(outliner_rows(
                    self@,
                    expansion@,
                    keep@,
                    parent,
                    depth as nat,
                    depth_left as nat,
                    i as int,
                ) == rest);
            }
            i = i + 1;
        }
        proof {
            assert(outliner_rows(
                self@,
                expansion@,
                keep@,
                parent,
                depth as nat,
                depth_left as nat,
                n as int,
            ) =~= Seq::<(ItemId, nat, Seq<char>)>::empty());
            assert(done =~= all);
        }
    }

    fn rows_for(&self, expansion: &TreeExpansion, keep: &Vec<bool>) -> (rows: Vec<OutlinerRow>)
        requires
            keep@.len() == self@.len(),
        ensures
            presents_rows(rows@, filtered_outliner_rows(self@, expansion@, keep@)),
    {
        let mut rows: Vec<OutlinerRow> = Vec::new();
        self.push_rows(expansion, keep, None, 0, self.items.len(), &mut rows, Ghost(Seq::empty()));
        assert(Seq::<(ItemId, nat, Seq<char>)>::empty() + filtered_outliner_rows(
            self@,
            expansion@,
            keep@,
        ) =~= filtered_outliner_rows(self@, expansion@, keep@));
        rows
    }

    /// Returns the visible rows for an expansion state: root items in order,
    /// each followed by the visible descendants of expanded items that have
    /// children, with their nesting depth.
    pub fn visible_rows(&self, expansion: &TreeExpansion) -> (rows: Vec<OutlinerRow>)
        ensures
            presents_rows(
                rows@,
                filtered_outliner_rows(self@, expansion@, Seq::new(self@.len(), |i: int| true)),
            ),
    {
        let n = self.items.len();
        let mut keep: Vec<bool> = Vec::new();
        for i in 0..n
            invariant
                n == self@.len(),
                keep@ == Seq::new(i as nat, |j: int| true),
        {
            keep.push(true);
            assert(keep@ =~= Seq::new((i + 1) as nat, |j: int| true));
        }
        self.rows_for(expansion, &keep)
    }

    /// Returns the visible rows restricted to the items `keep_item` accepts
    /// and their ancestors, which stay as context for matching descendants.
    ///
    /// The predicate is asked once per item, in source order; expansion
    /// still decides which children are shown.
    pub fn filtered_visible_rows(
        &self,
        expansion: &TreeExpansion,
        keep_item: impl Fn(&OutlinerItem) -> bool,
    ) -> (rows: Vec<OutlinerRow>)
        requires
            forall|item: &OutlinerItem| keep_item.requires((item,)),
        ensures
            exists|keep: Seq<bool>|
                {
                    &&& keep.len() == self@.len()
                    &&& forall|i: int|
                        0 <= i < keep.len() ==> keep_item.ensures((&self@[i],), #[trigger] keep[i])
                    &&& presents_rows(rows@, filtered_outliner_rows(self@, expansion@, keep))
                },
    {
        let n = self.items.len();
        let mut keep: Vec<bool> = Vec::new();
        for i in 0..n
            invariant
                n == self@.len(),
                keep@.len() == i,
                forall|item: &OutlinerItem| keep_item.requires((item,)),
                forall|j: int| 0 <= j < i ==> keep_item.ensures((&self@[j],), #[trigger] keep@[j]),
        {
            let kept = keep_item(&self.items[i]);
            keep.push(kept);
        }
        let rows = self.rows_for(expansion, &keep);
        assert(keep@.len() == self@.len());
        rows
    }
}

} // verus!
