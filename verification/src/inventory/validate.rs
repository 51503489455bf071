//! Validation of container clicks.
//!
//! A client that clicks in an inventory window tells the server what it
//! believes the click changes: the new content of some slots and of the
//! cursor, each by kind and count. [`validate_click_slot_packet`] decides
//! whether that is a legal manipulation of what the server knows the window
//! and the cursor to hold, and recovers the components of the proposed
//! stacks. It changes nothing: the caller applies the result.

use vstd::prelude::*;

use crate::inventory::error::{
    InvariantError,
    ReconstructionError,
    StructuralError,
    ValidationError,
};
use crate::inventory::item::{ItemKind, ItemStack, StackModel};
use crate::inventory::rules::{
    Resolution,
    all_filled_are,
    balance_fault,
    button_allowed,
    change_in_bounds,
    changes_delta,
    click_fault,
    drag_fault,
    drop_key_fault,
    find_in_changed_slots,
    first_filled,
    hotbar_fault,
    mode_fault,
    net_item_delta,
    origin_of_carried,
    origin_of_change,
    reconstruction_fault,
    resolved_carried,
    resolved_change,
    resolved_changes,
    saturated,
    shift_click_fault,
    slot_index_allowed,
    structural_fault,
    verdict,
};
use crate::inventory::window::{CursorItem, Inventory, InventoryWindow, WindowModel};
use crate::protocol::packets::container_click::{
    changes_model,
    ClickMode,
    ContainerClickC2s,
    SlotChange,
    SLOT_DROP,
    SLOT_OUTSIDE,
};

verus! {

/// What a check returns for the fault it found, or did not find.
pub open spec fn outcome<E>(fault: Option<E>) -> Result<(), E> {
    match fault {
        Some(e) => Err(e),
        None => Ok(()),
    }
}

fn is_in_window(idx: i32, max_slot: u32) -> (b: bool)
    ensures
        b == (0 <= idx <= max_slot),
{
    0 <= idx && (idx as u32) <= max_slot
}

fn is_button_allowed(mode: ClickMode, button: i8) -> (b: bool)
    ensures
        b == button_allowed(mode, button as int),
{
    match mode {
        ClickMode::Click | ClickMode::ShiftClick | ClickMode::DropKey => button == 0 || button
            == 1,
        ClickMode::Hotbar => (0 <= button && button <= 8) || button == 40,
        ClickMode::CreativeMiddleClick => button == 2,
        ClickMode::Drag => (0 <= button && button <= 2) || (4 <= button && button <= 6) || (8
            <= button && button <= 10),
        ClickMode::DoubleClick => button == 0,
    }
}

fn is_slot_index_allowed(mode: ClickMode, slot_idx: i16, window: &InventoryWindow) -> (b: bool)
    ensures
        b == slot_index_allowed(mode, slot_idx as int, window@),
{
    let inside: bool = is_in_window(slot_idx as i32, window.max_slot());
    match mode {
        ClickMode::Click => inside || slot_idx == SLOT_DROP || slot_idx == SLOT_OUTSIDE,
        ClickMode::ShiftClick | ClickMode::CreativeMiddleClick => inside,
        ClickMode::DropKey | ClickMode::Drag => inside || slot_idx == SLOT_DROP,
        ClickMode::Hotbar | ClickMode::DoubleClick => true,
    }
}

/// Checks the shape of a click: that it names the window that is open, that
/// its slot changes stay within the window, that its counts are in bounds,
/// and that button, slot index and cursor are what the click mode accepts.
pub fn check_structure(packet: &ContainerClickC2s, window: &InventoryWindow) -> (result: Result<
    (),
    StructuralError,
>)
    ensures
        result == outcome(structural_fault(packet@, window@)),
{
    if (packet.window_id.0 == 0) != window.open_inventory.is_none() {
        return Err(StructuralError::WindowMismatch);
    }
    let max_slot: u32 = window.max_slot();
    let n: usize = packet.slot_changes.len();
    let mut i: usize = 0;
    while i < n
        invariant
            i <= n,
            n == packet.slot_changes@.len(),
            max_slot == window@.max_slot(),
            (packet@.window_id == 0) == (window@.open is None),
            forall|j: int| 0 <= j < i ==> change_in_bounds(window@, #[trigger] packet@.changes[j]),
        decreases n - i,
    {
        let change: &SlotChange = &packet.slot_changes[i];
        if !(is_in_window(change.idx as i32, max_slot) && change.stack.count_in_bounds()) {
            assert(!change_in_bounds(window@, packet@.changes[i as int]));
            return Err(StructuralError::SlotChange);
        }
        i += 1;
    }
    if !packet.carried_item.count_in_bounds() {
        return Err(StructuralError::CarriedCount);
    }
    if !is_button_allowed(packet.mode, packet.button) {
        return Err(StructuralError::Button);
    }
    let leaves_cursor_empty: bool = match packet.mode {
        ClickMode::ShiftClick | ClickMode::Hotbar | ClickMode::DropKey => true,
        _ => false,
    };
    if leaves_cursor_empty && !packet.carried_item.is_empty() {
        return Err(StructuralError::CarriedNotEmpty);
    }
    if !is_slot_index_allowed(packet.mode, packet.slot_idx, window) {
        return Err(StructuralError::SlotIndex);
    }
    Ok(())
}

/// The total difference in item counts if the changes in this packet were
/// applied: positive when items are added to the window, negative when
/// items are removed from it. A total beyond the 32-bit integers comes back
/// as the nearest of them.
pub fn calculate_net_item_delta(
    packet: &ContainerClickC2s,
    window: &InventoryWindow,
    cursor_item: &CursorItem,
) -> (delta: i32)
    ensures
        delta == saturated(net_item_delta(packet@, window@, cursor_item@)),
{
    let vacant: ItemStack = ItemStack::empty();
    let n: usize = packet.slot_changes.len();
    let mut total: i128 = 0;
    let mut i: usize = 0;
    while i < n
        invariant
            i <= n,
            n == packet.slot_changes@.len(),
            vacant@ == StackModel::empty(),
            total == changes_delta(packet@.changes, window@, i as int),
            -255 * i <= total <= 255 * i,
        decreases n - i,
    {
        let change: &SlotChange = &packet.slot_changes[i];
        let old_slot: &ItemStack = window.slot_or(change.idx, &vacant);
        assert(packet@.changes[i as int] == change@);
        total = total + (change.stack.held() as i128 - old_slot.held() as i128);
        i += 1;
    }
    total = total + (packet.carried_item.held() as i128 - cursor_item.0.held() as i128);
    if total < i32::MIN as i128 {
        i32::MIN
    } else if total > i32::MAX as i128 {
        i32::MAX
    } else {
        total as i32
    }
}

/// Checks that the click changes the number of items by `expected` and by
/// nothing else.
pub fn check_balance(
    packet: &ContainerClickC2s,
    window: &InventoryWindow,
    cursor_item: &CursorItem,
    expected: i32,
) -> (result: Result<(), ValidationError>)
    requires
        i32::MIN < expected < i32::MAX,
    ensures
        result == outcome(balance_fault(packet@, window@, cursor_item@, expected as int)),
{
    let actual: i32 = calculate_net_item_delta(packet, window, cursor_item);
    if actual == expected {
        Ok(())
    } else {
        Err(ValidationError::Conservation { expected, actual })
    }
}

/// The stack at window index `idx`, which may be any number, or `vacant`
/// where the index names no slot.
fn slot_at<'a, 'b>(window: &InventoryWindow<'a>, idx: i16, vacant: &'b ItemStack) -> (stack:
    &'b ItemStack) where 'a: 'b
    requires
        vacant@ == StackModel::empty(),
    ensures
        stack@ == window@.slot(idx as int),
{
    if idx >= 0 {
        window.slot_or(idx as u16, vacant)
    } else {
        vacant
    }
}

/// Checks a plain click: outside the window it may throw items away and
/// change no slot; on a slot it changes at most that slot, and either
/// exchanges slot and cursor or moves items between them.
pub fn check_click(
    packet: &ContainerClickC2s,
    window: &InventoryWindow,
    cursor_item: &CursorItem,
) -> (result: Result<(), ValidationError>)
    ensures
        result == outcome(click_fault(packet@, window@, cursor_item@)),
{
    let changed: usize = packet.slot_changes.len();
    if packet.slot_idx == SLOT_OUTSIDE {
        if changed != 0 {
            return Err(ValidationError::Structure(StructuralError::ChangeCount));
        }
        check_balance(packet, window, cursor_item, 0)
    } else if packet.slot_idx == SLOT_DROP {
        if changed != 0 {
            return Err(ValidationError::Structure(StructuralError::ChangeCount));
        }
        let thrown: i32 = if packet.button == 1 {
            1
        } else {
            cursor_item.0.held()
        };
        check_balance(packet, window, cursor_item, -thrown)
    } else if changed == 0 {
        check_balance(packet, window, cursor_item, 0)
    } else if changed != 1 {
        Err(ValidationError::Structure(StructuralError::ChangeCount))
    } else {
        let vacant: ItemStack = ItemStack::empty();
        let change: &SlotChange = &packet.slot_changes[0];
        let old_slot: &ItemStack = window.slot_or(change.idx, &vacant);
        let cursor: &ItemStack = &cursor_item.0;
        assert(packet@.changes[0] == change@);
        let swap: bool = packet.button == 0 && if !old_slot.is_empty() {
            cursor.is_empty() || old_slot.item != cursor.item
        } else {
            !cursor.is_empty() && cursor.count <= cursor.max_stack()
        };
        if swap {
            if packet.carried_item.looks_like(old_slot) && change.stack.looks_like(cursor) {
                Ok(())
            } else {
                Err(ValidationError::Invariant(InvariantError::SwapMismatch))
            }
        } else {
            check_balance(packet, window, cursor_item, 0)
        }
    }
}

/// The kind of the first stack, at or after position `from`, that the
/// slot changes propose and that is not empty.
fn first_filled_kind(packet: &ContainerClickC2s, from: usize) -> (kind: Option<ItemKind>)
    ensures
        match kind {
            Some(kind) => first_filled(packet@.changes, from as int) is Some && first_filled(
                packet@.changes,
                from as int,
            )->0.stack.item == kind,
            None => first_filled(packet@.changes, from as int) is None,
        },
{
    let n: usize = packet.slot_changes.len();
    let mut i: usize = from;
    while i < n
        invariant
            n == packet.slot_changes@.len(),
            from <= i,
            first_filled(packet@.changes, from as int) == first_filled(packet@.changes, i as int),
        decreases n - i,
    {
        let change: &SlotChange = &packet.slot_changes[i];
        assert(packet@.changes[i as int] == change@);
        if !change.stack.is_empty() {
            return Some(change.stack.item);
        }
        i += 1;
    }
    None
}

/// Whether every stack that the slot changes propose is empty or of `kind`.
fn filled_are_all(packet: &ContainerClickC2s, kind: ItemKind) -> (b: bool)
    ensures
        b == all_filled_are(packet@.changes, kind),
{
    let n: usize = packet.slot_changes.len();
    let mut i: usize = 0;
    while i < n
        invariant
            i <= n,
            n == packet.slot_changes@.len(),
            forall|j: int|
                0 <= j < i ==> (#[trigger] packet@.changes[j]).stack.is_empty()
                    || packet@.changes[j].stack.item == kind,
        decreases n - i,
    {
        let change: &SlotChange = &packet.slot_changes[i];
        assert(packet@.changes[i as int] == change@);
        if !change.stack.is_empty() && change.stack.item != kind {
            return false;
        }
        i += 1;
    }
    true
}

/// Checks a shift-click: it changes no slot, or two or three; it keeps the
/// number of items; and all that it moves is of the kind in the clicked
/// slot.
pub fn check_shift_click(
    packet: &ContainerClickC2s,
    window: &InventoryWindow,
    cursor_item: &CursorItem,
) -> (result: Result<(), ValidationError>)
    ensures
        result == outcome(shift_click_fault(packet@, window@, cursor_item@)),
{
    let changed: usize = packet.slot_changes.len();
    if changed == 0 {
        return check_balance(packet, window, cursor_item, 0);
    }
    if !(2 <= changed && changed <= 3) {
        return Err(ValidationError::Structure(StructuralError::ChangeCount));
    }
    let balance: Result<(), ValidationError> = check_balance(packet, window, cursor_item, 0);
    if balance.is_err() {
        return balance;
    }
    match first_filled_kind(packet, 0) {
        None => Err(ValidationError::Invariant(InvariantError::NothingMoved)),
        Some(moved) => {
            let vacant: ItemStack = ItemStack::empty();
            let clicked: &ItemStack = slot_at(window, packet.slot_idx, &vacant);
            if clicked.item != moved {
                Err(ValidationError::Invariant(InvariantError::SourceKindMismatch))
            } else if !filled_are_all(packet, moved) {
                Err(ValidationError::Invariant(InvariantError::MixedKinds))
            } else {
                Ok(())
            }
        },
    }
}

/// Checks a hotbar swap: it changes no slot, or exactly two; it keeps the
/// number of items; and each of the two new stacks is one of the two old.
pub fn check_hotbar(
    packet: &ContainerClickC2s,
    window: &InventoryWindow,
    cursor_item: &CursorItem,
) -> (result: Result<(), ValidationError>)
    ensures
        result == outcome(hotbar_fault(packet@, window@, cursor_item@)),
{
    let changed: usize = packet.slot_changes.len();
    if changed == 0 {
        return check_balance(packet, window, cursor_item, 0);
    }
    if changed != 2 {
        return Err(ValidationError::Structure(StructuralError::ChangeCount));
    }
    let balance: Result<(), ValidationError> = check_balance(packet, window, cursor_item, 0);
    if balance.is_err() {
        return balance;
    }
    let vacant: ItemStack = ItemStack::empty();
    let one: &SlotChange = &packet.slot_changes[0];
    let other: &SlotChange = &packet.slot_changes[1];
    assert(packet@.changes[0] == one@);
    assert(packet@.changes[1] == other@);
    let first: &ItemStack = window.slot_or(one.idx, &vacant);
    let second: &ItemStack = window.slot_or(other.idx, &vacant);
    if (one.stack.looks_like(first) || one.stack.looks_like(second)) && (other.stack.looks_like(
        first,
    ) || other.stack.looks_like(second)) {
        Ok(())
    } else {
        Err(ValidationError::Invariant(InvariantError::SwapMismatch))
    }
}

/// Checks a drop with the drop key: it changes no slot, or the clicked slot
/// alone; it leaves the kind in the slot alone; and it removes one item or
/// the whole stack, as the button says.
pub fn check_drop_key(
    packet: &ContainerClickC2s,
    window: &InventoryWindow,
    cursor_item: &CursorItem,
) -> (result: Result<(), ValidationError>)
    ensures
        result == outcome(drop_key_fault(packet@, window@, cursor_item@)),
{
    let changed: usize = packet.slot_changes.len();
    if changed == 0 {
        return check_balance(packet, window, cursor_item, 0);
    }
    if changed != 1 {
        return Err(ValidationError::Structure(StructuralError::ChangeCount));
    }
    let change: &SlotChange = &packet.slot_changes[0];
    assert(packet@.changes[0] == change@);
    if packet.slot_idx as i32 != change.idx as i32 {
        return Err(ValidationError::Structure(StructuralError::SlotMismatch));
    }
    let vacant: ItemStack = ItemStack::empty();
    let old_slot: &ItemStack = window.slot_or(change.idx, &vacant);
    let new_slot: &ItemStack = &change.stack;
    if !new_slot.is_empty() && (old_slot.is_empty() || old_slot.item != new_slot.item) {
        return Err(ValidationError::Invariant(InvariantError::Transmutation));
    }
    let thrown: i32 = if packet.button == 0 {
        1
    } else {
        old_slot.held()
    };
    check_balance(packet, window, cursor_item, -thrown)
}

/// Checks a drag: the click that ends it keeps the number of items; one
/// that reports progress changes neither a slot nor the cursor.
pub fn check_drag(
    packet: &ContainerClickC2s,
    window: &InventoryWindow,
    cursor_item: &CursorItem,
) -> (result: Result<(), ValidationError>)
    ensures
        result == outcome(drag_fault(packet@, window@, cursor_item@)),
{
    if packet.button == 2 || packet.button == 6 || packet.button == 10 {
        check_balance(packet, window, cursor_item, 0)
    } else if packet.slot_changes.len() == 0 && packet.carried_item.looks_like(&cursor_item.0) {
        Ok(())
    } else {
        Err(ValidationError::Invariant(InvariantError::DragState))
    }
}

/// Checks a click of good shape against the rules of its mode.
pub fn check_mode(
    packet: &ContainerClickC2s,
    window: &InventoryWindow,
    cursor_item: &CursorItem,
) -> (result: Result<(), ValidationError>)
    ensures
        result == outcome(mode_fault(packet@, window@, cursor_item@)),
{
    match packet.mode {
        ClickMode::Click => check_click(packet, window, cursor_item),
        ClickMode::ShiftClick => check_shift_click(packet, window, cursor_item),
        ClickMode::Hotbar => check_hotbar(packet, window, cursor_item),
        ClickMode::CreativeMiddleClick => Ok(()),
        ClickMode::DropKey => check_drop_key(packet, window, cursor_item),
        ClickMode::Drag => check_drag(packet, window, cursor_item),
        ClickMode::DoubleClick => check_balance(packet, window, cursor_item, 0),
    }
}

/// The slot that a search among the changed slots passes over, as
/// contracts see it.
pub open spec fn except_model(except: Option<u16>) -> Option<int> {
    match except {
        Some(idx) => Some(idx as int),
        None => None,
    }
}

/// A copy of the current content of the first changed slot that holds
/// `kind`, passing over changes to the slot `except`.
fn find_in_changes(
    packet: &ContainerClickC2s,
    window: &InventoryWindow,
    kind: ItemKind,
    except: Option<u16>,
) -> (found: Option<ItemStack>)
    ensures
        match found {
            Some(stack) => find_in_changed_slots(
                packet@.changes,
                window@,
                kind,
                except_model(except),
                0,
            ) == Some(stack@),
            None => find_in_changed_slots(packet@.changes, window@, kind, except_model(except), 0)
                is None,
        },
{
    let vacant: ItemStack = ItemStack::empty();
    let n: usize = packet.slot_changes.len();
    let mut i: usize = 0;
    while i < n
        invariant
            i <= n,
            n == packet.slot_changes@.len(),
            vacant@ == StackModel::empty(),
            find_in_changed_slots(packet@.changes, window@, kind, except_model(except), 0)
                == find_in_changed_slots(
                packet@.changes,
                window@,
                kind,
                except_model(except),
                i as int,
            ),
        decreases n - i,
    {
        let change: &SlotChange = &packet.slot_changes[i];
        assert(packet@.changes[i as int] == change@);
        let passed_over: bool = match except {
            Some(idx) => idx == change.idx,
            None => false,
        };
        if !passed_over {
            let current: &ItemStack = window.slot_or(change.idx, &vacant);
            if current.holds(kind) {
                return Some(current.clone());
            }
        }
        i += 1;
    }
    None
}

/// A copy of the stack that the `i`-th slot change takes its components
/// from.
fn find_origin_of_change(
    packet: &ContainerClickC2s,
    window: &InventoryWindow,
    cursor_item: &CursorItem,
    i: usize,
) -> (origin: Option<ItemStack>)
    requires
        i < packet.slot_changes@.len(),
    ensures
        match origin {
            Some(stack) => origin_of_change(packet@, window@, cursor_item@, i as int) == Some(
                stack@,
            ),
            None => origin_of_change(packet@, window@, cursor_item@, i as int) is None,
        },
{
    let vacant: ItemStack = ItemStack::empty();
    let change: &SlotChange = &packet.slot_changes[i];
    assert(packet@.changes[i as int] == change@);
    let kind: ItemKind = change.stack.item;
    if packet.mode == ClickMode::ShiftClick {
        let clicked: &ItemStack = slot_at(window, packet.slot_idx, &vacant);
        if clicked.holds(kind) {
            return Some(clicked.clone());
        }
    }
    let own: &ItemStack = window.slot_or(change.idx, &vacant);
    if own.holds(kind) {
        Some(own.clone())
    } else if cursor_item.0.holds(kind) {
        Some(cursor_item.0.clone())
    } else {
        find_in_changes(packet, window, kind, Some(change.idx))
    }
}

/// The `i`-th slot change with its components recovered, or `None` where
/// its kind is found nowhere.
fn resolve_slot_change(
    packet: &ContainerClickC2s,
    window: &InventoryWindow,
    cursor_item: &CursorItem,
    i: usize,
) -> (resolved: Option<SlotChange>)
    requires
        i < packet.slot_changes@.len(),
    ensures
        match resolved {
            Some(change) => resolved_change(packet@, window@, cursor_item@, i as int) == Some(
                change@,
            ),
            None => resolved_change(packet@, window@, cursor_item@, i as int) is None,
        },
{
    let proposed: &SlotChange = &packet.slot_changes[i];
    assert(packet@.changes[i as int] == proposed@);
    if proposed.stack.is_empty() {
        Some(SlotChange { idx: proposed.idx, stack: ItemStack::empty() })
    } else {
        match find_origin_of_change(packet, window, cursor_item, i) {
            Some(origin) => Some(
                SlotChange { idx: proposed.idx, stack: origin.with_count(proposed.stack.count) },
            ),
            None => None,
        }
    }
}

/// The stack proposed for the cursor with its components recovered: those
/// of the current cursor content or else of the first changed slot that
/// holds the proposed kind. `None` where the kind is found nowhere.
pub fn resolve_carried(
    packet: &ContainerClickC2s,
    window: &InventoryWindow,
    cursor_item: &CursorItem,
) -> (resolved: Option<ItemStack>)
    ensures
        match resolved {
            Some(stack) => resolved_carried(packet@, window@, cursor_item@) == Some(stack@),
            None => resolved_carried(packet@, window@, cursor_item@) is None,
        },
{
    let proposed: &ItemStack = &packet.carried_item;
    if proposed.is_empty() {
        return Some(ItemStack::empty());
    }
    let origin: Option<ItemStack> = if cursor_item.0.holds(proposed.item) {
        Some(cursor_item.0.clone())
    } else {
        find_in_changes(packet, window, proposed.item, None)
    };
    match origin {
        Some(origin) => Some(origin.with_count(proposed.count)),
        None => None,
    }
}

/// The slot changes of the click with their components recovered, in the
/// order of the click. Fails as soon as the kind of one is found nowhere.
pub fn resolve_slot_changes(
    packet: &ContainerClickC2s,
    window: &InventoryWindow,
    cursor_item: &CursorItem,
) -> (resolved: Option<Vec<SlotChange>>)
    ensures
        match resolved {
            Some(changes) => {
                &&& changes_model(changes@) == resolved_changes(packet@, window@, cursor_item@)
                &&& forall|i: int|
                    0 <= i < packet@.changes.len() ==> (#[trigger] resolved_change(
                        packet@,
                        window@,
                        cursor_item@,
                        i,
                    )) is Some
            },
            None => exists|i: int|
                0 <= i < packet@.changes.len() && (#[trigger] resolved_change(
                    packet@,
                    window@,
                    cursor_item@,
                    i,
                )) is None,
        },
{
    let n: usize = packet.slot_changes.len();
    let mut changes: Vec<SlotChange> = Vec::with_capacity(n);
    let mut i: usize = 0;
    while i < n
        invariant
            i <= n,
            n == packet.slot_changes@.len(),
            changes@.len() == i,
            forall|j: int|
                0 <= j < i ==> (#[trigger] resolved_change(packet@, window@, cursor_item@, j))
                    == Some(changes@[j]@),
        decreases n - i,
    {
        match resolve_slot_change(packet, window, cursor_item, i) {
            Some(change) => {
                changes.push(change);
            },
            None => {
                assert(resolved_change(packet@, window@, cursor_item@, i as int) is None);
                return None;
            },
        }
        i += 1;
    }
    assert(changes_model(changes@) =~= resolved_changes(packet@, window@, cursor_item@));
    Some(changes)
}

/// The window that a player sees: the player's own inventory and, where
/// one is open, a container.
pub open spec fn window_model(player_inventory: &Inventory, open_inventory: Option<&Inventory>)
    -> WindowModel {
    WindowModel {
        player: player_inventory@,
        open: match open_inventory {
            Some(container) => Some(container@),
            None => None,
        },
    }
}

/// Decides whether a click in an inventory window is legal, and recovers
/// the stacks it results in.
///
/// `player_inventory`, `open_inventory` and `cursor_item` are what the
/// server knows the player to hold. An accepted click comes back as the
/// new content of the cursor and of every slot the click changes, each with
/// the components of the stack it stems from and the count that the click
/// proposes. A click that is turned down comes back as the first rule it
/// breaks. Nothing is changed either way.
pub fn validate_click_slot_packet(
    packet: &ContainerClickC2s,
    player_inventory: &Inventory,
    open_inventory: Option<&Inventory>,
    cursor_item: &CursorItem,
) -> (result: Result<(ItemStack, Vec<SlotChange>), ValidationError>)
    ensures
        match result {
            Ok((cursor, changes)) => verdict(
                packet@,
                window_model(player_inventory, open_inventory),
                cursor_item@,
            ) == Ok::<Resolution, ValidationError>(
                (Resolution { cursor: cursor@, changes: changes_model(changes@) }),
            ),
            Err(error) => verdict(
                packet@,
                window_model(player_inventory, open_inventory),
                cursor_item@,
            ) == Err::<Resolution, ValidationError>(error),
        },
{
    let window: InventoryWindow = InventoryWindow::new(player_inventory, open_inventory);
    assert(window@ == window_model(player_inventory, open_inventory));
    match check_structure(packet, &window) {
        Err(fault) => {
            return Err(ValidationError::Structure(fault));
        },
        Ok(()) => {},
    }
    match check_mode(packet, &window, cursor_item) {
        Err(fault) => {
            return Err(fault);
        },
        Ok(()) => {},
    }
    let changes: Vec<SlotChange> = match resolve_slot_changes(packet, &window, cursor_item) {
        Some(changes) => changes,
        None => {
            return Err(ValidationError::Reconstruction(ReconstructionError::SlotChange));
        },
    };
    match resolve_carried(packet, &window, cursor_item) {
        Some(cursor) => Ok((cursor, changes)),
        None => Err(ValidationError::Reconstruction(ReconstructionError::CarriedItem)),
    }
}

} // verus!
