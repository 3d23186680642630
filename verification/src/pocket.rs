//! Item pockets: ordered tables of (item id, quantity) slots, one table per
//! pocket kind, at fixed offsets of the save buffer.  The slot invariant —
//! a quantity of zero exactly when the item is the "nothing" sentinel, and
//! quantities capped at 99 — is enforced on every write.

use vstd::prelude::*;

verus! {

/// The item id of an empty slot.
pub const NOTHING: u16 = 0;

/// The largest quantity a slot can hold.
pub const MAX_QUANTITY: u16 = 99;

/// The five pocket kinds of the bag.
#[derive(Clone, Copy, Debug, PartialEq, Eq, Structural)]
pub enum Pocket {
    Items,
    Pokeballs,
    Berries,
    Tms,
    Key,
}

/// One pocket slot: an item id and how many of it are held.
#[derive(Clone, Copy, Debug, PartialEq, Eq, Structural)]
pub struct ItemSlot {
    /// Item id; `NOTHING` marks an empty slot.
    pub item: u16,
    /// Count held, in `0..=MAX_QUANTITY` once written back.
    pub quantity: u16,
}

/// The slot invariant the buffer maintains: a zero quantity exactly marks
/// the empty item, and quantities stay within the cap.
pub open spec fn slot_invariant(s: ItemSlot) -> bool {
    &&& (s.quantity == 0 <==> s.item == 0)
    &&& s.quantity <= 99
}

/// The normalization applied to every slot on write: an empty item or a
/// zero quantity empties the slot entirely, and quantities are capped.
pub open spec fn normalize_spec(s: ItemSlot) -> ItemSlot {
    if s.item == 0 || s.quantity == 0 {
        ItemSlot { item: 0, quantity: 0 }
    } else if s.quantity > 99 {
        ItemSlot { item: s.item, quantity: 99 }
    } else {
        s
    }
}

/// Normalizing establishes the slot invariant, whatever state the caller
/// passed; a slot that already satisfies it is left unchanged.
pub proof fn lemma_normalize_establishes_invariant(s: ItemSlot)
    ensures
        slot_invariant(normalize_spec(s)),
        slot_invariant(s) ==> normalize_spec(s) == s,
{
}

/// Normalizes one slot, as `save_pocket` does for every slot it writes.
pub fn normalize_slot(s: ItemSlot) -> (r: ItemSlot)
    ensures
        r == normalize_spec(s),
{
    if s.item == NOTHING || s.quantity == 0 {
        ItemSlot { item: NOTHING, quantity: 0 }
    } else if s.quantity > MAX_QUANTITY {
        ItemSlot { item: s.item, quantity: MAX_QUANTITY }
    } else {
        s
    }
}

/// The number of slots of each pocket kind.
pub open spec fn pocket_capacity_spec(p: Pocket) -> int {
    match p {
        Pocket::Items => 30,
        Pocket::Pokeballs => 16,
        Pocket::Berries => 46,
        Pocket::Tms => 64,
        Pocket::Key => 30,
    }
}

impl Pocket {
    /// The number of slots this pocket kind has.
    pub fn capacity(&self) -> (n: usize)
        ensures
            n == pocket_capacity_spec(*self),
    {
        match self {
            Pocket::Items => 30,
            Pocket::Pokeballs => 16,
            Pocket::Berries => 46,
            Pocket::Tms => 64,
            Pocket::Key => 30,
        }
    }
}

/// The result of picking a new item for a slot: choosing the empty item
/// clears the count, and giving an item to a slot that held none of it
/// starts the count at one.
pub open spec fn item_changed_spec(s: ItemSlot, item: u16) -> ItemSlot {
    if item == 0 {
        ItemSlot { item: 0, quantity: 0 }
    } else if s.quantity == 0 {
        ItemSlot { item, quantity: 1 }
    } else {
        ItemSlot { item, quantity: s.quantity }
    }
}

/// The result of typing a new quantity for a slot: large counts are capped
/// at 99, and a count of zero empties the slot.
pub open spec fn quantity_changed_spec(s: ItemSlot, n: u16) -> ItemSlot {
    if n >= 99 {
        ItemSlot { item: s.item, quantity: 99 }
    } else if n == 0 {
        ItemSlot { item: 0, quantity: 0 }
    } else {
        ItemSlot { item: s.item, quantity: n }
    }
}

/// Replaces the item of slot `i`, keeping the count unless the slot was
/// empty or the new item is the empty one.
pub fn set_slot_item(slots: &mut Vec<ItemSlot>, i: usize, item: u16)
    requires
        i < old(slots)@.len(),
    ensures
        final(slots)@ == old(slots)@.update(i as int, item_changed_spec(old(slots)@[i as int], item)),
{
    let s = slots[i];
    let new_slot = if item == NOTHING {
        ItemSlot { item: NOTHING, quantity: 0 }
    } else if s.quantity == 0 {
        ItemSlot { item, quantity: 1 }
    } else {
        ItemSlot { item, quantity: s.quantity }
    };
    slots.set(i, new_slot);
}

/// Replaces the quantity of slot `i` with `n`, capped at 99; a zero count
/// empties the slot.
pub fn set_slot_quantity(slots: &mut Vec<ItemSlot>, i: usize, n: u16)
    requires
        i < old(slots)@.len(),
    ensures
        final(slots)@ == old(slots)@.update(
            i as int,
            quantity_changed_spec(old(slots)@[i as int], n),
        ),
{
    let s = slots[i];
    let new_slot = if n >= MAX_QUANTITY {
        ItemSlot { item: s.item, quantity: MAX_QUANTITY }
    } else if n == 0 {
        ItemSlot { item: NOTHING, quantity: 0 }
    } else {
        ItemSlot { item: s.item, quantity: n }
    };
    slots.set(i, new_slot);
}

} // verus!
