use vstd::prelude::*;

use super::identity::{
    CollectionProjectedItem, CollectionProjection, ItemId, is_first_position, lacks_id,
};

verus! {

/// Keyboard-style movement of a collection cursor through projected order.
#[derive(Debug, Clone, Copy, PartialEq, Eq, Structural)]
pub enum CollectionCursorMove {
    /// One item forward.
    Next,
    /// One item back.
    Previous,
    /// The first item.
    First,
    /// The last item.
    Last,
    /// A caller-supplied number of rows forward.
    PageNext {
        /// Rows to move.
        rows: usize,
    },
    /// A caller-supplied number of rows back.
    PagePrevious {
        /// Rows to move.
        rows: usize,
    },
}

/// Item a cursor lands on, with its projected position.
#[derive(Debug, Clone, Copy, PartialEq, Eq, Structural)]
pub struct CollectionCursorTarget {
    /// Stable item identity.
    pub id: ItemId,
    /// Position of the item in projected order.
    pub projected_index: usize,
}

/// Stable keyboard cursor over a projected collection.
///
/// The cursor remembers the active item by identity and the projected
/// position where it last stood, so it can follow its item through reorders
/// and fall back to the same slot when the item disappears.
#[derive(Debug, Clone, Copy, PartialEq, Eq, Structural)]
pub struct CollectionCursor {
    active: Option<ItemId>,
    last_projected_index: Option<usize>,
}

/// The first projected position of `id`, when `items` hold it.
pub open spec fn first_position_of(items: Seq<CollectionProjectedItem>, id: ItemId) -> int {
    choose|p: int| is_first_position(items, id, p)
}

/// Where a cursor stands in `items`: at its active item when the items hold
/// it, else at its remembered slot clamped to the last item; nowhere when
/// the items are empty or the cursor has no remembered slot.
pub open spec fn resolved_position(
    items: Seq<CollectionProjectedItem>,
    active: Option<ItemId>,
    last: Option<usize>,
) -> Option<int> {
    if items.len() == 0 {
        None
    } else if active is Some && !lacks_id(items, active->0) {
        Some(first_position_of(items, active->0))
    } else {
        match last {
            Some(slot) => Some(
                if slot < items.len() {
                    slot as int
                } else {
                    items.len() - 1
                },
            ),
            None => None,
        }
    }
}

/// Position a movement reaches among `len > 0` items, never wrapping: from
/// nowhere, forward movements start at the first item and backward ones at
/// the last; from a position, movements clamp to the first and last items.
pub open spec fn moved_position(len: int, current: Option<int>, movement: CollectionCursorMove) -> int {
    match current {
        None => match movement {
            CollectionCursorMove::Next => 0,
            CollectionCursorMove::First => 0,
            CollectionCursorMove::PageNext { .. } => 0,
            _ => len - 1,
        },
        Some(at) => match movement {
            CollectionCursorMove::Next => if at + 1 < len {
                at + 1
            } else {
                len - 1
            },
            CollectionCursorMove::Previous => if at >= 1 {
                at - 1
            } else {
                0
            },
            CollectionCursorMove::First => 0,
            CollectionCursorMove::Last => len - 1,
            CollectionCursorMove::PageNext { rows } => if at + rows < len {
                at + rows
            } else {
                len - 1
            },
            CollectionCursorMove::PagePrevious { rows } => if at >= rows {
                at - rows
            } else {
                0
            },
        },
    }
}

/// The target at projected position `position`.
pub open spec fn target_at(items: Seq<CollectionProjectedItem>, position: int) -> CollectionCursorTarget {
    CollectionCursorTarget { id: items[position].id, projected_index: position as usize }
}

proof fn lemma_first_position_unique(items: Seq<CollectionProjectedItem>, id: ItemId, p: int)
    requires
        is_first_position(items, id, p),
    ensures
        first_position_of(items, id) == p,
{
    let q = first_position_of(items, id);
    assert(is_first_position(items, id, q));
    if q < p {
        assert(items[q].id == id);
    } else if p < q {
        assert(items[p].id == id);
    }
}

impl Default for CollectionCursor {
    /// A cursor with no active item.
    fn default() -> (cursor: Self)
        ensures
            cursor.active_item() is None,
            cursor.last_slot() is None,
    {
        CollectionCursor::new()
    }
}

impl CollectionCursor {
    /// The active item.
    pub closed spec fn active_item(&self) -> Option<ItemId> {
        self.active
    }

    /// The projected position where the cursor last stood.
    pub closed spec fn last_slot(&self) -> Option<usize> {
        self.last_projected_index
    }

    /// Creates a cursor with no active item.
    pub fn new() -> (cursor: Self)
        ensures
            cursor.active_item() is None,
            cursor.last_slot() is None,
    {
        CollectionCursor { active: None, last_projected_index: None }
    }

    /// Returns the active item.
    pub fn active(&self) -> (active: Option<ItemId>)
        ensures
            active == self.active_item(),
    {
        self.active
    }

    /// Returns the projected position where the cursor last stood.
    pub fn last_projected_index(&self) -> (index: Option<usize>)
        ensures
            index == self.last_slot(),
    {
        self.last_projected_index
    }

    /// Forgets the active item and its position.
    pub fn clear(&mut self)
        ensures
            final(self).active_item() is None,
            final(self).last_slot() is None,
    {
        self.active = None;
        self.last_projected_index = None;
    }

    fn stand_at(&mut self, items: &CollectionProjection, position: usize) -> (target:
        CollectionCursorTarget)
        requires
            position < items@.len(),
        ensures
            target == target_at(items@, position as int),
            final(self).active_item() == Some(target.id),
            final(self).last_slot() == Some(position),
    {
        let id = items.items()[position].id;
        self.active = Some(id);
        self.last_projected_index = Some(position);
        CollectionCursorTarget { id, projected_index: position }
    }

    fn resolve(&self, items: &CollectionProjection) -> (position: Option<usize>)
        ensures
            position matches Some(p) ==> resolved_position(items@, self.active_item(), self.last_slot())
                == Some(p as int),
            position is None ==> resolved_position(items@, self.active_item(), self.last_slot())
                is None,
            position matches Some(p) ==> p < items@.len(),
    {
        let len = items.len();
        if len == 0 {
            return None;
        }
        if let Some(id) = self.active {
            if let Some(p) = items.projected_index(id) {
                proof {
                    lemma_first_position_unique(items@, id, p as int);
                }
                return Some(p);
            }
        }
        match self.last_projected_index {
            Some(slot) => Some(
                if slot < len {
                    slot
                } else {
                    len - 1
                },
            ),
            None => None,
        }
    }

    /// Makes `id` the active item when `items` hold it, standing at its first
    /// projected position; otherwise changes nothing and returns `None`.
    pub fn activate(&mut self, items: &CollectionProjection, id: ItemId) -> (target: Option<
        CollectionCursorTarget,
    >)
        ensures
            lacks_id(items@, id) ==> target is None && *final(self) == *old(self),
            !lacks_id(items@, id) ==> {
                let p = first_position_of(items@, id);
                &&& target == Some(target_at(items@, p))
                &&& final(self).active_item() == Some(id)
                &&& final(self).last_slot() == Some(p as usize)
            },
    {
        match items.projected_index(id) {
            Some(p) => {
                proof {
                    lemma_first_position_unique(items@, id, p as int);
                }
                Some(self.stand_at(items, p))
            },
            None => None,
        }
    }

    /// Follows the active item into `items`: to its new position when the
    /// items still hold it, else to its remembered slot clamped to the last
    /// item. Empty items clear the cursor.
    pub fn reconcile(&mut self, items: &CollectionProjection) -> (target: Option<
        CollectionCursorTarget,
    >)
        ensures
            items@.len() == 0 ==> target is None && final(self).active_item() is None
                && final(self).last_slot() is None,
            items@.len() > 0 ==> match resolved_position(
                items@,
                old(self).active_item(),
                old(self).last_slot(),
            ) {
                Some(p) => {
                    &&& target == Some(target_at(items@, p))
                    &&& final(self).active_item() == Some(items@[p].id)
                    &&& final(self).last_slot() == Some(p as usize)
                },
                None => target is None && *final(self) == *old(self),
            },
    {
        if items.is_empty() {
            self.clear();
            return None;
        }
        match self.resolve(items) {
            Some(p) => Some(self.stand_at(items, p)),
            None => None,
        }
    }

    /// Moves the cursor through `items` without wrapping and returns where it
    /// lands. Empty items clear the cursor.
    pub fn navigate(&mut self, items: &CollectionProjection, movement: CollectionCursorMove) -> (target:
        Option<CollectionCursorTarget>)
        ensures
            items@.len() == 0 ==> target is None && final(self).active_item() is None
                && final(self).last_slot() is None,
            items@.len() > 0 ==> {
                let p = moved_position(
                    items@.len() as int,
                    resolved_position(items@, old(self).active_item(), old(self).last_slot()),
                    movement,
                );
                &&& 0 <= p < items@.len()
                &&& target == Some(target_at(items@, p))
                &&& final(self).active_item() == Some(items@[p].id)
                &&& final(self).last_slot() == Some(p as usize)
            },
    {
        let len = items.len();
        if len == 0 {
            self.clear();
            return None;
        }
        let last = len - 1;
        let position = match self.resolve(items) {
            None => match movement {
                CollectionCursorMove::Next => 0,
                CollectionCursorMove::First => 0,
                CollectionCursorMove::PageNext { .. } => 0,
                _ => last,
            },
            Some(at) => match movement {
                CollectionCursorMove::Next => if at < last {
                    at + 1
                } else {
                    last
                },
                CollectionCursorMove::Previous => if at >= 1 {
                    at - 1
                } else {
                    0
                },
                CollectionCursorMove::First => 0,
                CollectionCursorMove::Last => last,
                CollectionCursorMove::PageNext { rows } => if rows < len - at {
                    at + rows
                } else {
                    last
                },
                CollectionCursorMove::PagePrevious { rows } => if at >= rows {
                    at - rows
                } else {
                    0
                },
            },
        };
        Some(self.stand_at(items, position))
    }
}

} // verus!
