//! Inventories, and the window a player sees through while clicking.

use vstd::prelude::*;

use crate::inventory::item::{ItemStack, StackModel};

verus! {

/// Number of slots of the player's main inventory (hotbar included). These
/// are the player's slots that stay reachable while a container is open.
pub const MAIN_SIZE: u16 = 36;

/// Index, in the player's own inventory, of the first main slot.
pub const MAIN_START: u16 = 9;

/// A fixed number of slots, each holding an item stack.
pub struct Inventory {
    slots: Vec<ItemStack>,
}

impl View for Inventory {
    type V = Seq<StackModel>;

    closed spec fn view(&self) -> Seq<StackModel> {
        Seq::new(self.slots@.len(), |i: int| self.slots@[i]@)
    }
}

impl Inventory {
    #[verifier::type_invariant]
    spec fn slots_are_countable(&self) -> bool {
        self.slots@.len() <= u16::MAX
    }

    /// An inventory of `slot_count` slots, all empty.
    pub fn new(slot_count: u16) -> (inventory: Inventory)
        ensures
            inventory@.len() == slot_count,
            forall|i: int| 0 <= i < slot_count ==> inventory@[i] == StackModel::empty(),
    {
        let mut slots: Vec<ItemStack> = Vec::new();
        let mut i: u16 = 0;
        while i < slot_count
            invariant
                i <= slot_count,
                slots@.len() == i,
                forall|j: int| 0 <= j < i ==> (#[trigger] slots@[j])@ == StackModel::empty(),
            decreases slot_count - i,
        {
            slots.push(ItemStack::empty());
            i += 1;
        }
        Inventory { slots }
    }

    pub fn slot_count(&self) -> (n: u16)
        ensures
            n == self@.len(),
    {
        proof {
            use_type_invariant(self);
        }
        self.slots.len() as u16
    }

    /// The stack in slot `idx`.
    pub fn slot(&self, idx: u16) -> (stack: &ItemStack)
        requires
            idx < self@.len(),
        ensures
            stack@ == self@[idx as int],
    {
        &self.slots[idx as usize]
    }

    /// Puts `stack` into slot `idx` and hands back what the slot held.
    pub fn replace_slot(&mut self, idx: u16, stack: ItemStack) -> (previous: ItemStack)
        requires
            idx < old(self)@.len(),
        ensures
            final(self)@ == old(self)@.update(idx as int, stack@),
            previous@ == old(self)@[idx as int],
    {
        proof {
            use_type_invariant(&*self);
        }
        let mut incoming = stack;
        std::mem::swap(&mut self.slots[idx as usize], &mut incoming);
        assert(self@ =~= old(self)@.update(idx as int, stack@));
        incoming
    }

    /// Puts `stack` into slot `idx`.
    pub fn set_slot(&mut self, idx: u16, stack: ItemStack)
        requires
            idx < old(self)@.len(),
        ensures
            final(self)@ == old(self)@.update(idx as int, stack@),
    {
        let _ = self.replace_slot(idx, stack);
    }
}

/// The stack that floats under the player's pointer.
pub struct CursorItem(pub ItemStack);

impl View for CursorItem {
    type V = StackModel;

    open spec fn view(&self) -> StackModel {
        self.0@
    }
}

/// What an [`InventoryWindow`] stands for in contracts: the slots of the
/// player's inventory and, where a container is open, those of the container.
pub struct WindowModel {
    pub player: Seq<StackModel>,
    pub open: Option<Seq<StackModel>>,
}

impl WindowModel {
    /// The highest slot index that a click may name.
    pub open spec fn max_slot(self) -> int {
        match self.open {
            Some(container) => MAIN_SIZE + container.len(),
            None => self.player.len() as int,
        }
    }

    /// Whether window index `idx` falls into the open container.
    pub open spec fn in_container(self, idx: int) -> bool {
        self.open matches Some(container) && 0 <= idx < container.len()
    }

    /// The slot of the player's inventory that window index `idx` names,
    /// where it does not fall into the open container: with a container
    /// open, the window goes on with the player's main slots.
    pub open spec fn player_index(self, idx: int) -> int {
        match self.open {
            Some(container) => MAIN_START + (idx - container.len()),
            None => idx,
        }
    }

    /// Whether window index `idx` names a slot that exists.
    pub open spec fn has_slot(self, idx: int) -> bool {
        self.in_container(idx) || (0 <= idx && 0 <= self.player_index(idx) < self.player.len())
    }

    /// The stack at window index `idx`. An index that names no slot reads
    /// as the empty stack.
    pub open spec fn slot(self, idx: int) -> StackModel {
        if self.in_container(idx) {
            self.open->0[idx]
        } else if self.has_slot(idx) {
            self.player[self.player_index(idx)]
        } else {
            StackModel::empty()
        }
    }
}

/// A read-only view over the player's inventory and the container the
/// player has open, if any, addressed by one flat slot index.
pub struct InventoryWindow<'a> {
    pub player_inventory: &'a Inventory,
    pub open_inventory: Option<&'a Inventory>,
}

impl<'a> View for InventoryWindow<'a> {
    type V = WindowModel;

    open spec fn view(&self) -> WindowModel {
        WindowModel {
            player: self.player_inventory@,
            open: match self.open_inventory {
                Some(container) => Some(container@),
                None => None,
            },
        }
    }
}

impl<'a> InventoryWindow<'a> {
    pub fn new(player_inventory: &'a Inventory, open_inventory: Option<&'a Inventory>) -> (window:
        InventoryWindow<'a>)
        ensures
            window.player_inventory == player_inventory,
            window.open_inventory == open_inventory,
    {
        InventoryWindow { player_inventory, open_inventory }
    }

    /// The highest slot index that a click may name.
    pub fn max_slot(&self) -> (n: u32)
        ensures
            n == self@.max_slot(),
    {
        match self.open_inventory {
            Some(container) => MAIN_SIZE as u32 + container.slot_count() as u32,
            None => self.player_inventory.slot_count() as u32,
        }
    }

    /// Whether window index `idx` names a slot that exists.
    pub fn has_slot(&self, idx: u16) -> (b: bool)
        ensures
            b == self@.has_slot(idx as int),
    {
        match self.open_inventory {
            Some(container) => {
                let in_container: u16 = container.slot_count();
                let in_player: u32 = self.player_inventory.slot_count() as u32;
                idx < in_container || (MAIN_START as u32) + ((idx - in_container) as u32)
                    < in_player
            },
            None => idx < self.player_inventory.slot_count(),
        }
    }

    /// The stack at window index `idx`.
    pub fn slot(&self, idx: u16) -> (stack: &'a ItemStack)
        requires
            self@.has_slot(idx as int),
        ensures
            stack@ == self@.slot(idx as int),
    {
        match self.open_inventory {
            Some(container) => {
                let in_container: u16 = container.slot_count();
                let in_player: u16 = self.player_inventory.slot_count();
                if idx < in_container {
                    container.slot(idx)
                } else {
                    assert(MAIN_START + (idx - in_container) < in_player);
                    self.player_inventory.slot(MAIN_START + (idx - in_container))
                }
            },
            None => self.player_inventory.slot(idx),
        }
    }

    /// The stack at window index `idx`, or `vacant` where the index names
    /// no slot.
    pub fn slot_or<'b>(&self, idx: u16, vacant: &'b ItemStack) -> (stack: &'b ItemStack)
        where 'a: 'b
        requires
            vacant@ == StackModel::empty(),
        ensures
            stack@ == self@.slot(idx as int),
    {
        if self.has_slot(idx) {
            self.slot(idx)
        } else {
            vacant
        }
    }
}

} // verus!
