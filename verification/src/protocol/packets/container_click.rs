//! The packet a client sends when it clicks in an inventory window.

use vstd::prelude::*;

use crate::inventory::item::{ItemStack, StackModel};
use crate::protocol::var_int::VarInt;

verus! {

/// The kinds of click a client can make in an inventory window.
#[derive(Clone, Copy, Debug, PartialEq, Eq, Hash, Structural)]
pub enum ClickMode {
    Click,
    ShiftClick,
    Hotbar,
    CreativeMiddleClick,
    DropKey,
    Drag,
    DoubleClick,
}

/// What a [`SlotChange`] stands for in contracts.
pub struct ChangeModel {
    pub idx: int,
    pub stack: StackModel,
}

/// The new content that a click proposes for one slot of the window.
#[derive(Debug)]
pub struct SlotChange {
    pub idx: u16,
    pub stack: ItemStack,
}

impl View for SlotChange {
    type V = ChangeModel;

    open spec fn view(&self) -> ChangeModel {
        ChangeModel { idx: self.idx as int, stack: self.stack@ }
    }
}

impl Clone for SlotChange {
    fn clone(&self) -> (copy: SlotChange)
        ensures
            copy@ == self@,
    {
        SlotChange { idx: self.idx, stack: self.stack.clone() }
    }
}

impl PartialEq for SlotChange {
    fn eq(&self, other: &SlotChange) -> (equal: bool) {
        self.idx == other.idx && self.stack == other.stack
    }
}

impl vstd::std_specs::cmp::PartialEqSpecImpl for SlotChange {
    open spec fn obeys_eq_spec() -> bool {
        true
    }

    open spec fn eq_spec(&self, other: &SlotChange) -> bool {
        self@ == other@
    }
}

impl Eq for SlotChange {

}

/// What a [`ContainerClickC2s`] stands for in contracts.
pub struct ClickModel {
    pub window_id: int,
    pub mode: ClickMode,
    pub button: int,
    pub slot_idx: int,
    pub changes: Seq<ChangeModel>,
    pub carried: StackModel,
}

/// The slot index a client sends when it clicks outside the window with
/// nothing to drop.
pub const SLOT_OUTSIDE: i16 = -1;

/// The slot index a client sends when it clicks outside the window to drop
/// what the cursor holds.
pub const SLOT_DROP: i16 = -999;

/// A click in an inventory window, as decoded from the wire.
///
/// The stacks in it carry kind and count only.
#[derive(Debug)]
pub struct ContainerClickC2s {
    /// Zero for the player's own inventory, otherwise the id of the open
    /// container.
    pub window_id: VarInt,
    pub state_id: VarInt,
    /// The slot clicked, or one of [`SLOT_OUTSIDE`] and [`SLOT_DROP`].
    pub slot_idx: i16,
    pub button: i8,
    pub mode: ClickMode,
    /// The new content of every slot that the click changes.
    pub slot_changes: Vec<SlotChange>,
    /// What the cursor holds after the click.
    pub carried_item: ItemStack,
}

/// The proposed slot changes of a click, as contracts see them.
pub open spec fn changes_model(changes: Seq<SlotChange>) -> Seq<ChangeModel> {
    Seq::new(changes.len(), |i: int| changes[i]@)
}

impl View for ContainerClickC2s {
    type V = ClickModel;

    open spec fn view(&self) -> ClickModel {
        ClickModel {
            window_id: self.window_id.0 as int,
            mode: self.mode,
            button: self.button as int,
            slot_idx: self.slot_idx as int,
            changes: changes_model(self.slot_changes@),
            carried: self.carried_item@,
        }
    }
}

} // verus!
