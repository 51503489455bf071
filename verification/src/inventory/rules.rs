//! The rules that a container click has to meet, as contracts state them.
//!
//! Everything here is specification: [`verdict`] says, for every click,
//! window and cursor, whether the click is accepted and with what result, or
//! why it is turned down. The checks in [`validate`](super::validate) are
//! proved to compute it.

use vstd::prelude::*;

use crate::inventory::error::{
    InvariantError,
    ReconstructionError,
    StructuralError,
    ValidationError,
};
use crate::inventory::item::{ItemKind, StackModel};
use crate::inventory::window::WindowModel;
use crate::protocol::packets::container_click::{ChangeModel, ClickMode, ClickModel};

verus! {

/// What an accepted click results in: the stack on the cursor and the
/// content of every slot the click changes, components included.
pub struct Resolution {
    pub cursor: StackModel,
    pub changes: Seq<ChangeModel>,
}

// ---------------------------------------------------------------------------
// Shape
// ---------------------------------------------------------------------------
/// Slot indices that a click may name run from zero to the window's
/// [`max_slot`](WindowModel::max_slot), both included.
pub open spec fn in_window(window: WindowModel, idx: int) -> bool {
    0 <= idx <= window.max_slot()
}

/// A slot change is well-formed when it names a slot of the window and
/// proposes a stack whose count is in bounds.
pub open spec fn change_in_bounds(window: WindowModel, change: ChangeModel) -> bool {
    in_window(window, change.idx) && change.stack.count_in_bounds()
}

/// The buttons that each click mode knows.
pub open spec fn button_allowed(mode: ClickMode, button: int) -> bool {
    match mode {
        ClickMode::Click | ClickMode::ShiftClick | ClickMode::DropKey => button == 0 || button
            == 1,
        ClickMode::Hotbar => 0 <= button <= 8 || button == 40,
        ClickMode::CreativeMiddleClick => button == 2,
        ClickMode::Drag => 0 <= button <= 2 || 4 <= button <= 6 || 8 <= button <= 10,
        ClickMode::DoubleClick => button == 0,
    }
}

/// The click modes that leave nothing on the cursor.
pub open spec fn wants_empty_cursor(mode: ClickMode) -> bool {
    mode == ClickMode::ShiftClick || mode == ClickMode::Hotbar || mode == ClickMode::DropKey
}

/// The slot indices that each click mode accepts: a slot of the window and,
/// for some modes, -999 (dropping outside the window) or -1 (a click outside
/// the window that drops nothing).
pub open spec fn slot_index_allowed(mode: ClickMode, slot_idx: int, window: WindowModel) -> bool {
    match mode {
        ClickMode::Click => in_window(window, slot_idx) || slot_idx == -999 || slot_idx == -1,
        ClickMode::ShiftClick | ClickMode::CreativeMiddleClick => in_window(window, slot_idx),
        ClickMode::DropKey | ClickMode::Drag => in_window(window, slot_idx) || slot_idx == -999,
        ClickMode::Hotbar | ClickMode::DoubleClick => true,
    }
}

/// The first rule of shape that the click breaks, if it breaks any. These
/// rules are checked before anything else.
pub open spec fn structural_fault(click: ClickModel, window: WindowModel) -> Option<
    StructuralError,
> {
    if (click.window_id == 0) != (window.open is None) {
        Some(StructuralError::WindowMismatch)
    } else if exists|i: int|
        0 <= i < click.changes.len() && !change_in_bounds(window, #[trigger] click.changes[i]) {
        Some(StructuralError::SlotChange)
    } else if !click.carried.count_in_bounds() {
        Some(StructuralError::CarriedCount)
    } else if !button_allowed(click.mode, click.button) {
        Some(StructuralError::Button)
    } else if wants_empty_cursor(click.mode) && !click.carried.is_empty() {
        Some(StructuralError::CarriedNotEmpty)
    } else if !slot_index_allowed(click.mode, click.slot_idx, window) {
        Some(StructuralError::SlotIndex)
    } else {
        None
    }
}

// ---------------------------------------------------------------------------
// Conservation
// ---------------------------------------------------------------------------
/// By how many items a slot grows when `new` takes the place of `old`.
pub open spec fn slot_delta(old: StackModel, new: StackModel) -> int {
    new.held() - old.held()
}

/// The sum of [`slot_delta`] over the first `upto` slot changes.
pub open spec fn changes_delta(changes: Seq<ChangeModel>, window: WindowModel, upto: int) -> int
    decreases upto,
{
    if upto <= 0 {
        0
    } else {
        changes_delta(changes, window, upto - 1) + slot_delta(
            window.slot(changes[upto - 1].idx),
            changes[upto - 1].stack,
        )
    }
}

/// By how many items the window and the cursor together grow if the click
/// is applied: positive when items appear, negative when items leave.
pub open spec fn net_item_delta(click: ClickModel, window: WindowModel, cursor: StackModel) -> int {
    changes_delta(click.changes, window, click.changes.len() as int) + slot_delta(
        cursor,
        click.carried,
    )
}

/// `delta`, or the nearest 32-bit integer where it does not fit.
pub open spec fn saturated(delta: int) -> i32 {
    if delta < i32::MIN {
        i32::MIN
    } else if delta > i32::MAX {
        i32::MAX
    } else {
        delta as i32
    }
}

/// The conservation error that is due unless the click changes the number
/// of items by exactly `expected`.
pub open spec fn balance_fault(
    click: ClickModel,
    window: WindowModel,
    cursor: StackModel,
    expected: int,
) -> Option<ValidationError> {
    let delta = net_item_delta(click, window, cursor);
    if delta == expected {
        None
    } else {
        Some(ValidationError::Conservation { expected: expected as i32, actual: saturated(delta) })
    }
}

// ---------------------------------------------------------------------------
// The rules of each mode
// ---------------------------------------------------------------------------
/// Whether a click with `button` on a slot holding `old`, with `cursor` on
/// the cursor, exchanges the two: with the main button, when both hold
/// different kinds, when a stack is picked up with an empty cursor, or when
/// the cursor's stack is put down on an empty slot and is no larger than
/// its kind allows.
pub open spec fn swap_expected(button: int, old: StackModel, cursor: StackModel) -> bool {
    button == 0 && if !old.is_empty() {
        cursor.is_empty() || old.item != cursor.item
    } else {
        !cursor.is_empty() && cursor.count <= cursor.item.max_stack
    }
}

/// The click proposes, in kind and count, the old slot content for the
/// cursor and the old cursor content for the slot.
pub open spec fn is_swap(click: ClickModel, old: StackModel, cursor: StackModel) -> bool {
    click.carried.looks_like(old) && click.changes[0].stack.looks_like(cursor)
}

/// The number of items that a click outside the window must remove: one
/// with the secondary button, all that the cursor holds with the main one.
pub open spec fn thrown_by_click(button: int, cursor: StackModel) -> int {
    if button == 1 {
        1
    } else {
        cursor.held()
    }
}

/// The first rule that a plain click breaks. Outside the window it may
/// change no slot and must keep the number of items, or throw away what
/// its button says; on a slot it changes that slot at most, and either
/// exchanges slot and cursor, where a swap is expected, or keeps the number
/// of items.
pub open spec fn click_fault(click: ClickModel, window: WindowModel, cursor: StackModel) -> Option<
    ValidationError,
> {
    if click.slot_idx == -1 {
        if click.changes.len() != 0 {
            Some(ValidationError::Structure(StructuralError::ChangeCount))
        } else {
            balance_fault(click, window, cursor, 0)
        }
    } else if click.slot_idx == -999 {
        if click.changes.len() != 0 {
            Some(ValidationError::Structure(StructuralError::ChangeCount))
        } else {
            balance_fault(click, window, cursor, -thrown_by_click(click.button, cursor))
        }
    } else if click.changes.len() == 0 {
        balance_fault(click, window, cursor, 0)
    } else if click.changes.len() != 1 {
        Some(ValidationError::Structure(StructuralError::ChangeCount))
    } else {
        let old = window.slot(click.changes[0].idx);
        if swap_expected(click.button, old, cursor) {
            if is_swap(click, old, cursor) {
                None
            } else {
                Some(ValidationError::Invariant(InvariantError::SwapMismatch))
            }
        } else {
            balance_fault(click, window, cursor, 0)
        }
    }
}

/// The first slot change at or after position `from` that proposes a
/// stack that is not empty.
pub open spec fn first_filled(changes: Seq<ChangeModel>, from: int) -> Option<ChangeModel>
    decreases changes.len() - from,
{
    if from < 0 || from >= changes.len() {
        None
    } else if !changes[from].stack.is_empty() {
        Some(changes[from])
    } else {
        first_filled(changes, from + 1)
    }
}

/// Every slot change that proposes a stack proposes one of `kind`.
pub open spec fn all_filled_are(changes: Seq<ChangeModel>, kind: ItemKind) -> bool {
    forall|i: int|
        0 <= i < changes.len() ==> (#[trigger] changes[i]).stack.is_empty() || changes[i].stack.item
            == kind
}

/// The first rule that a shift-click breaks. It changes no slot, or two or
/// three; it keeps the number of items; it fills at least one slot, and
/// all that it fills with is of the kind in the clicked slot.
pub open spec fn shift_click_fault(
    click: ClickModel,
    window: WindowModel,
    cursor: StackModel,
) -> Option<ValidationError> {
    if click.changes.len() == 0 {
        balance_fault(click, window, cursor, 0)
    } else if !(2 <= click.changes.len() <= 3) {
        Some(ValidationError::Structure(StructuralError::ChangeCount))
    } else if balance_fault(click, window, cursor, 0) is Some {
        balance_fault(click, window, cursor, 0)
    } else {
        match first_filled(click.changes, 0) {
            None => Some(ValidationError::Invariant(InvariantError::NothingMoved)),
            Some(moved) => {
                if window.slot(click.slot_idx).item != moved.stack.item {
                    Some(ValidationError::Invariant(InvariantError::SourceKindMismatch))
                } else if !all_filled_are(click.changes, moved.stack.item) {
                    Some(ValidationError::Invariant(InvariantError::MixedKinds))
                } else {
                    None
                }
            },
        }
    }
}

/// `new` is, in kind and count, one of the two old stacks.
pub open spec fn is_either(new: StackModel, first: StackModel, second: StackModel) -> bool {
    new.looks_like(first) || new.looks_like(second)
}

/// The first rule that a hotbar swap breaks. It changes no slot, or
/// exactly two; it keeps the number of items; and each of the two new
/// stacks is one of the two old.
pub open spec fn hotbar_fault(click: ClickModel, window: WindowModel, cursor: StackModel) -> Option<
    ValidationError,
> {
    if click.changes.len() == 0 {
        balance_fault(click, window, cursor, 0)
    } else if click.changes.len() != 2 {
        Some(ValidationError::Structure(StructuralError::ChangeCount))
    } else if balance_fault(click, window, cursor, 0) is Some {
        balance_fault(click, window, cursor, 0)
    } else {
        let first = window.slot(click.changes[0].idx);
        let second = window.slot(click.changes[1].idx);
        if is_either(click.changes[0].stack, first, second) && is_either(
            click.changes[1].stack,
            first,
            second,
        ) {
            None
        } else {
            Some(ValidationError::Invariant(InvariantError::SwapMismatch))
        }
    }
}

/// A drop may shrink or empty the stack in the slot; it may not leave a
/// stack of another kind, nor fill a slot that was empty.
pub open spec fn transmutes(old: StackModel, new: StackModel) -> bool {
    !new.is_empty() && (old.is_empty() || old.item != new.item)
}

/// The number of items that the drop key must remove from the slot: one
/// with button 0, the whole stack with button 1.
pub open spec fn thrown_by_key(button: int, old: StackModel) -> int {
    if button == 0 {
        1
    } else {
        old.held()
    }
}

/// The first rule that a drop with the drop key breaks. It changes no
/// slot, or the clicked slot alone; it leaves the kind in the slot alone;
/// and it removes what its button says.
pub open spec fn drop_key_fault(
    click: ClickModel,
    window: WindowModel,
    cursor: StackModel,
) -> Option<ValidationError> {
    if click.changes.len() == 0 {
        balance_fault(click, window, cursor, 0)
    } else if click.changes.len() != 1 {
        Some(ValidationError::Structure(StructuralError::ChangeCount))
    } else if click.slot_idx != click.changes[0].idx {
        Some(ValidationError::Structure(StructuralError::SlotMismatch))
    } else {
        let old = window.slot(click.slot_idx);
        if transmutes(old, click.changes[0].stack) {
            Some(ValidationError::Invariant(InvariantError::Transmutation))
        } else {
            balance_fault(click, window, cursor, -thrown_by_key(click.button, old))
        }
    }
}

/// The buttons that end a drag; all others report its progress.
pub open spec fn ends_drag(button: int) -> bool {
    button == 2 || button == 6 || button == 10
}

/// The first rule that a drag breaks. The click that ends it keeps the
/// number of items; one that reports progress changes no slot and leaves
/// on the cursor what was there.
pub open spec fn drag_fault(click: ClickModel, window: WindowModel, cursor: StackModel) -> Option<
    ValidationError,
> {
    if ends_drag(click.button) {
        balance_fault(click, window, cursor, 0)
    } else if click.changes.len() == 0 && click.carried.looks_like(cursor) {
        None
    } else {
        Some(ValidationError::Invariant(InvariantError::DragState))
    }
}

/// The first rule of its mode that a well-shaped click breaks, if it
/// breaks any.
pub open spec fn mode_fault(click: ClickModel, window: WindowModel, cursor: StackModel) -> Option<
    ValidationError,
> {
    match click.mode {
        ClickMode::Click => click_fault(click, window, cursor),
        ClickMode::ShiftClick => shift_click_fault(click, window, cursor),
        ClickMode::Hotbar => hotbar_fault(click, window, cursor),
        ClickMode::CreativeMiddleClick => None,
        ClickMode::DropKey => drop_key_fault(click, window, cursor),
        ClickMode::Drag => drag_fault(click, window, cursor),
        ClickMode::DoubleClick => balance_fault(click, window, cursor, 0),
    }
}

// ---------------------------------------------------------------------------
// Recovering the components
// ---------------------------------------------------------------------------
/// The current content of the first slot, among those that the slot
/// changes at or after position `from` name, that holds `kind`. Changes to
/// the slot `except` are passed over.
pub open spec fn find_in_changed_slots(
    changes: Seq<ChangeModel>,
    window: WindowModel,
    kind: ItemKind,
    except: Option<int>,
    from: int,
) -> Option<StackModel>
    decreases changes.len() - from,
{
    if from < 0 || from >= changes.len() {
        None
    } else if Some(changes[from].idx) != except && window.slot(changes[from].idx).holds(kind) {
        Some(window.slot(changes[from].idx))
    } else {
        find_in_changed_slots(changes, window, kind, except, from + 1)
    }
}

/// The stack that the `i`-th slot change takes its components from: the
/// first that holds the proposed kind among the clicked slot (for a
/// shift-click), the changed slot itself, the cursor, and the other
/// changed slots in the order of the changes.
pub open spec fn origin_of_change(
    click: ClickModel,
    window: WindowModel,
    cursor: StackModel,
    i: int,
) -> Option<StackModel> {
    let kind = click.changes[i].stack.item;
    let clicked = window.slot(click.slot_idx);
    let own = window.slot(click.changes[i].idx);
    if click.mode == ClickMode::ShiftClick && clicked.holds(kind) {
        Some(clicked)
    } else if own.holds(kind) {
        Some(own)
    } else if cursor.holds(kind) {
        Some(cursor)
    } else {
        find_in_changed_slots(click.changes, window, kind, Some(click.changes[i].idx), 0)
    }
}

/// The `i`-th slot change with its components recovered: the empty stack
/// where the change empties the slot, otherwise the origin with the
/// proposed count. `None` where there is no origin.
pub open spec fn resolved_change(
    click: ClickModel,
    window: WindowModel,
    cursor: StackModel,
    i: int,
) -> Option<ChangeModel> {
    let proposed = click.changes[i];
    if proposed.stack.is_empty() {
        Some(ChangeModel { idx: proposed.idx, stack: StackModel::empty() })
    } else {
        match origin_of_change(click, window, cursor, i) {
            Some(origin) => Some(
                ChangeModel { idx: proposed.idx, stack: origin.with_count(proposed.stack.count) },
            ),
            None => None,
        }
    }
}

/// The stack that the new cursor content takes its components from: the
/// current cursor content, or else the first changed slot that holds the
/// proposed kind.
pub open spec fn origin_of_carried(
    click: ClickModel,
    window: WindowModel,
    cursor: StackModel,
) -> Option<StackModel> {
    if cursor.holds(click.carried.item) {
        Some(cursor)
    } else {
        find_in_changed_slots(click.changes, window, click.carried.item, None, 0)
    }
}

/// The new cursor content with its components recovered, or `None` where
/// there is no origin.
pub open spec fn resolved_carried(
    click: ClickModel,
    window: WindowModel,
    cursor: StackModel,
) -> Option<StackModel> {
    if click.carried.is_empty() {
        Some(StackModel::empty())
    } else {
        match origin_of_carried(click, window, cursor) {
            Some(origin) => Some(origin.with_count(click.carried.count)),
            None => None,
        }
    }
}

/// All slot changes with their components recovered.
pub open spec fn resolved_changes(
    click: ClickModel,
    window: WindowModel,
    cursor: StackModel,
) -> Seq<ChangeModel> {
    Seq::new(
        click.changes.len(),
        |i: int| resolved_change(click, window, cursor, i).unwrap(),
    )
}

/// The first failure to recover components, if there is one. The slot
/// changes come before the cursor.
pub open spec fn reconstruction_fault(
    click: ClickModel,
    window: WindowModel,
    cursor: StackModel,
) -> Option<ReconstructionError> {
    if exists|i: int|
        0 <= i < click.changes.len() && (#[trigger] resolved_change(
            click,
            window,
            cursor,
            i,
        )) is None {
        Some(ReconstructionError::SlotChange)
    } else if resolved_carried(click, window, cursor) is None {
        Some(ReconstructionError::CarriedItem)
    } else {
        None
    }
}

// ---------------------------------------------------------------------------
// The verdict
// ---------------------------------------------------------------------------
/// Whether `click` is a legal manipulation of `window` with `cursor` on the
/// cursor, and what it results in.
///
/// The checks run in a fixed order and the first that fails decides the
/// error: shape, then the rules of the click mode (conservation of items
/// among them), then the recovery of components.
pub open spec fn verdict(click: ClickModel, window: WindowModel, cursor: StackModel) -> Result<
    Resolution,
    ValidationError,
> {
    match structural_fault(click, window) {
        Some(fault) => Err(ValidationError::Structure(fault)),
        None => match mode_fault(click, window, cursor) {
            Some(fault) => Err(fault),
            None => match reconstruction_fault(click, window, cursor) {
                Some(fault) => Err(ValidationError::Reconstruction(fault)),
                None => Ok(
                    Resolution {
                        cursor: resolved_carried(click, window, cursor).unwrap(),
                        changes: resolved_changes(click, window, cursor),
                    },
                ),
            },
        },
    }
}

} // verus!
