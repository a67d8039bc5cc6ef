//! Player inventories and the validity of inventory transactions.
use vstd::prelude::*;

verus! {

/// A single slot of an inventory.
#[derive(Debug, Clone, Copy, PartialEq, Eq, Structural)]
pub struct InventorySlot {}

impl InventorySlot {
    /// Creates an inventory slot that is empty.
    pub fn empty() -> (slot: InventorySlot)
        ensures
            slot == (InventorySlot {}),
    {
        InventorySlot {}
    }
}

impl Default for InventorySlot {
    fn default() -> (slot: InventorySlot)
        ensures
            slot == (InventorySlot {}),
    {
        InventorySlot::empty()
    }
}

/// The network ID of an inventory window.
#[derive(Debug, Clone, Copy, PartialEq, Eq, Structural)]
pub struct WindowId(pub i32);

/// An inventory of generic size `S`. This generic makes it possible to create
/// inventories of different sizes without having to reimplement them.
pub struct Inventory<const S: usize> {
    id: WindowId,
    slots: Vec<InventorySlot>,
}

impl<const S: usize> Inventory<S> {
    /// The slots of the inventory.
    pub closed spec fn spec_slots(&self) -> Seq<InventorySlot> {
        self.slots@
    }

    /// The window of the inventory.
    pub closed spec fn spec_id(&self) -> WindowId {
        self.id
    }

    /// The inventory holds exactly `S` slots.
    #[verifier::type_invariant]
    spec fn inv(&self) -> bool {
        self.slots@.len() == S
    }

    /// Creates an empty inventory.
    pub fn empty(id: WindowId) -> (inv: Inventory<S>)
        ensures
            inv.spec_slots().len() == S,
            inv.spec_id() == id,
            forall|i: int| 0 <= i < S ==> #[trigger] inv.spec_slots()[i] == InventorySlot::empty_spec(),
    {
        let mut slots: Vec<InventorySlot> = Vec::new();
        let mut i: usize = 0;
        while i < S
            invariant
                i <= S,
                slots@.len() == i,
                forall|j: int| 0 <= j < i ==> #[trigger] slots@[j] == InventorySlot::empty_spec(),
            decreases S - i,
        {
            slots.push(InventorySlot::empty());
            i = i + 1;
        }
        Inventory { id, slots }
    }

    /// The window of the inventory.
    pub fn id(&self) -> (id: WindowId)
        ensures
            id == self.spec_id(),
    {
        self.id
    }

    /// Returns the requested slot in this inventory; the slot index must be in range.
    ///
    /// Use [`try_get`](Self::try_get) for a variant that checks the index.
    pub fn get(&self, slot: usize) -> (s: &InventorySlot)
        requires
            slot < S,
        ensures
            *s == self.spec_slots()[slot as int],
    {
        proof {
            use_type_invariant(self);
        }
        &self.slots[slot]
    }

    /// Returns the requested slot in this inventory, returning `None` if the slot index is out of range.
    pub fn try_get(&self, slot: usize) -> (s: Option<&InventorySlot>)
        ensures
            slot < S ==> s == Some(&self.spec_slots()[slot as int]),
            slot >= S ==> s is None,
    {
        proof {
            use_type_invariant(self);
        }
        if slot < S {
            Some(&self.slots[slot])
        } else {
            None
        }
    }
}

impl InventorySlot {
    /// The empty slot.
    pub open spec fn empty_spec() -> InventorySlot {
        InventorySlot {}
    }
}

/// Verifies that inventory transactions are legitimate and do not duplicate items
#[derive(Debug, Clone, Copy, PartialEq, Eq, Structural)]
pub enum TransactionValidity {
    Valid,
}

} // verus!
