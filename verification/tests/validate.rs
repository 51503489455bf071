use kanden::inventory::error::{
    InvariantError, ReconstructionError, StructuralError, ValidationError,
};
use kanden::inventory::item::{ItemKind, ItemStack};
use kanden::inventory::validate::{
    calculate_net_item_delta, check_structure, validate_click_slot_packet,
};
use kanden::inventory::window::{CursorItem, Inventory, InventoryWindow};
use kanden::protocol::packets::container_click::{ClickMode, ContainerClickC2s, SlotChange};
use kanden::protocol::var_int::VarInt;

fn stone() -> ItemKind {
    ItemKind::new(1, 64)
}

fn dirt() -> ItemKind {
    ItemKind::new(2, 64)
}

fn diamond() -> ItemKind {
    ItemKind::new(3, 64)
}

fn sword() -> ItemKind {
    ItemKind::new(4, 1)
}

/// A stack as the server holds it.
fn held(kind: ItemKind, count: i8, components: &[u8]) -> ItemStack {
    ItemStack::new(kind, count, components.to_vec())
}

/// A stack as the wire carries it: kind and count only.
fn wire(kind: ItemKind, count: i8) -> ItemStack {
    ItemStack::new(kind, count, Vec::new())
}

fn change(idx: u16, stack: ItemStack) -> SlotChange {
    SlotChange { idx, stack }
}

fn player_with(slots: &[(u16, ItemStack)]) -> Inventory {
    let mut inventory = Inventory::new(46);
    for (idx, stack) in slots {
        inventory.set_slot(*idx, stack.clone());
    }
    inventory
}

fn click(
    mode: ClickMode,
    button: i8,
    slot_idx: i16,
    slot_changes: Vec<SlotChange>,
    carried_item: ItemStack,
) -> ContainerClickC2s {
    ContainerClickC2s {
        window_id: VarInt(0),
        state_id: VarInt(0),
        slot_idx,
        button,
        mode,
        slot_changes,
        carried_item,
    }
}

fn empty_cursor() -> CursorItem {
    CursorItem(ItemStack::empty())
}

fn delta(packet: &ContainerClickC2s, player: &Inventory, cursor: &CursorItem) -> i32 {
    let window = InventoryWindow::new(player, None);
    calculate_net_item_delta(packet, &window, cursor)
}

#[test]
fn click_on_empty_slot_with_empty_cursor_is_accepted() {
    let player = Inventory::new(46);
    let cursor = empty_cursor();
    let packet = click(ClickMode::Click, 0, 10, vec![], ItemStack::empty());
    assert_eq!(delta(&packet, &player, &cursor), 0);
    let (new_cursor, changes) =
        validate_click_slot_packet(&packet, &player, None, &cursor).unwrap();
    assert_eq!(new_cursor, ItemStack::empty());
    assert!(changes.is_empty());
}

#[test]
fn drop_key_drops_one_item() {
    let player = player_with(&[(10, held(stone(), 5, &[7, 7]))]);
    let cursor = empty_cursor();
    let packet = click(
        ClickMode::DropKey,
        0,
        10,
        vec![change(10, wire(stone(), 4))],
        ItemStack::empty(),
    );
    assert_eq!(delta(&packet, &player, &cursor), -1);
    let (new_cursor, changes) =
        validate_click_slot_packet(&packet, &player, None, &cursor).unwrap();
    assert_eq!(new_cursor, ItemStack::empty());
    assert_eq!(changes, vec![change(10, held(stone(), 4, &[7, 7]))]);
}

#[test]
fn drop_key_drops_one_item_only() {
    let player = player_with(&[(10, held(stone(), 5, &[]))]);
    let cursor = empty_cursor();
    let packet = click(
        ClickMode::DropKey,
        0,
        10,
        vec![change(10, wire(stone(), 3))],
        ItemStack::empty(),
    );
    assert_eq!(
        validate_click_slot_packet(&packet, &player, None, &cursor),
        Err(ValidationError::Conservation { expected: -1, actual: -2 })
    );
}

#[test]
fn drop_key_drops_whole_stack() {
    let player = player_with(&[(10, held(stone(), 12, &[]))]);
    let cursor = empty_cursor();
    let packet = click(
        ClickMode::DropKey,
        1,
        10,
        vec![change(10, ItemStack::empty())],
        ItemStack::empty(),
    );
    assert_eq!(delta(&packet, &player, &cursor), -12);
    let (new_cursor, changes) =
        validate_click_slot_packet(&packet, &player, None, &cursor).unwrap();
    assert_eq!(new_cursor, ItemStack::empty());
    assert_eq!(changes, vec![change(10, ItemStack::empty())]);
}

#[test]
fn drop_key_whole_stack_rejects_any_other_amount() {
    let player = player_with(&[(10, held(stone(), 12, &[]))]);
    let cursor = empty_cursor();
    for left in 1..=12i8 {
        let packet = click(
            ClickMode::DropKey,
            1,
            10,
            vec![change(10, wire(stone(), left))],
            ItemStack::empty(),
        );
        assert_eq!(
            validate_click_slot_packet(&packet, &player, None, &cursor),
            Err(ValidationError::Conservation { expected: -12, actual: i32::from(left) - 12 })
        );
    }
}

#[test]
fn drop_key_must_change_the_clicked_slot() {
    let player = player_with(&[(10, held(stone(), 12, &[])), (11, held(stone(), 12, &[]))]);
    let cursor = empty_cursor();
    let packet = click(
        ClickMode::DropKey,
        0,
        10,
        vec![change(11, wire(stone(), 11))],
        ItemStack::empty(),
    );
    assert_eq!(
        validate_click_slot_packet(&packet, &player, None, &cursor),
        Err(ValidationError::Structure(StructuralError::SlotMismatch))
    );
}

#[test]
fn drop_key_may_not_change_the_kind() {
    let player = player_with(&[(10, held(stone(), 5, &[]))]);
    let cursor = empty_cursor();
    let packet = click(
        ClickMode::DropKey,
        0,
        10,
        vec![change(10, wire(diamond(), 4))],
        ItemStack::empty(),
    );
    assert_eq!(
        validate_click_slot_packet(&packet, &player, None, &cursor),
        Err(ValidationError::Invariant(InvariantError::Transmutation))
    );
    let player = Inventory::new(46);
    let packet = click(
        ClickMode::DropKey,
        0,
        10,
        vec![change(10, wire(diamond(), 4))],
        ItemStack::empty(),
    );
    assert_eq!(
        validate_click_slot_packet(&packet, &player, None, &cursor),
        Err(ValidationError::Invariant(InvariantError::Transmutation))
    );
}

#[test]
fn drop_key_changes_one_slot_at_most() {
    let player = player_with(&[(10, held(stone(), 5, &[]))]);
    let cursor = empty_cursor();
    let packet = click(
        ClickMode::DropKey,
        0,
        10,
        vec![change(10, wire(stone(), 4)), change(11, ItemStack::empty())],
        ItemStack::empty(),
    );
    assert_eq!(
        validate_click_slot_packet(&packet, &player, None, &cursor),
        Err(ValidationError::Structure(StructuralError::ChangeCount))
    );
}

#[test]
fn shift_click_moves_one_kind_into_other_slots() {
    let player = player_with(&[
        (10, held(stone(), 30, &[9])),
        (36, held(stone(), 50, &[1])),
        (37, held(stone(), 48, &[2])),
    ]);
    let cursor = empty_cursor();
    let packet = click(
        ClickMode::ShiftClick,
        0,
        10,
        vec![
            change(36, wire(stone(), 64)),
            change(37, wire(stone(), 64)),
            change(10, ItemStack::empty()),
        ],
        ItemStack::empty(),
    );
    assert_eq!(delta(&packet, &player, &cursor), 0);
    let (new_cursor, changes) =
        validate_click_slot_packet(&packet, &player, None, &cursor).unwrap();
    assert_eq!(new_cursor, ItemStack::empty());
    // Every moved stack stems from the clicked slot.
    assert_eq!(
        changes,
        vec![
            change(36, held(stone(), 64, &[9])),
            change(37, held(stone(), 64, &[9])),
            change(10, ItemStack::empty()),
        ]
    );
}

#[test]
fn shift_click_rejects_a_differing_kind() {
    let player = player_with(&[
        (10, held(stone(), 30, &[])),
        (36, held(stone(), 50, &[])),
        (37, held(stone(), 48, &[])),
    ]);
    let cursor = empty_cursor();
    let packet = click(
        ClickMode::ShiftClick,
        0,
        10,
        vec![
            change(36, wire(stone(), 64)),
            change(37, wire(dirt(), 64)),
            change(10, ItemStack::empty()),
        ],
        ItemStack::empty(),
    );
    assert_eq!(
        validate_click_slot_packet(&packet, &player, None, &cursor),
        Err(ValidationError::Invariant(InvariantError::MixedKinds))
    );
    let packet = click(
        ClickMode::ShiftClick,
        0,
        10,
        vec![
            change(36, wire(dirt(), 64)),
            change(37, wire(stone(), 64)),
            change(10, ItemStack::empty()),
        ],
        ItemStack::empty(),
    );
    assert_eq!(
        validate_click_slot_packet(&packet, &player, None, &cursor),
        Err(ValidationError::Invariant(InvariantError::SourceKindMismatch))
    );
}

#[test]
fn shift_click_counts_its_changes() {
    let player = player_with(&[(10, held(stone(), 30, &[]))]);
    let cursor = empty_cursor();
    let packet = click(
        ClickMode::ShiftClick,
        0,
        10,
        vec![change(10, wire(stone(), 30))],
        ItemStack::empty(),
    );
    assert_eq!(
        validate_click_slot_packet(&packet, &player, None, &cursor),
        Err(ValidationError::Structure(StructuralError::ChangeCount))
    );
    let packet = click(
        ClickMode::ShiftClick,
        0,
        10,
        vec![
            change(10, wire(stone(), 30)),
            change(11, ItemStack::empty()),
            change(12, ItemStack::empty()),
            change(13, ItemStack::empty()),
        ],
        ItemStack::empty(),
    );
    assert_eq!(
        validate_click_slot_packet(&packet, &player, None, &cursor),
        Err(ValidationError::Structure(StructuralError::ChangeCount))
    );
}

#[test]
fn shift_click_must_move_something() {
    let player = Inventory::new(46);
    let cursor = empty_cursor();
    let packet = click(
        ClickMode::ShiftClick,
        0,
        10,
        vec![change(10, ItemStack::empty()), change(11, ItemStack::empty())],
        ItemStack::empty(),
    );
    assert_eq!(
        validate_click_slot_packet(&packet, &player, None, &cursor),
        Err(ValidationError::Invariant(InvariantError::NothingMoved))
    );
}

#[test]
fn shift_click_keeps_the_number_of_items() {
    let player = player_with(&[(10, held(stone(), 30, &[]))]);
    let cursor = empty_cursor();
    let packet = click(
        ClickMode::ShiftClick,
        0,
        10,
        vec![change(36, wire(stone(), 30)), change(10, wire(stone(), 30))],
        ItemStack::empty(),
    );
    assert_eq!(
        validate_click_slot_packet(&packet, &player, None, &cursor),
        Err(ValidationError::Conservation { expected: 0, actual: 30 })
    );
}

#[test]
fn hotbar_swap_exchanges_two_slots() {
    let player =
        player_with(&[(36, held(stone(), 3, &[1, 1])), (10, held(dirt(), 5, &[2, 2]))]);
    let cursor = empty_cursor();
    let packet = click(
        ClickMode::Hotbar,
        0,
        10,
        vec![change(36, wire(dirt(), 5)), change(10, wire(stone(), 3))],
        ItemStack::empty(),
    );
    assert_eq!(delta(&packet, &player, &cursor), 0);
    let (new_cursor, changes) =
        validate_click_slot_packet(&packet, &player, None, &cursor).unwrap();
    assert_eq!(new_cursor, ItemStack::empty());
    assert_eq!(
        changes,
        vec![change(36, held(dirt(), 5, &[2, 2])), change(10, held(stone(), 3, &[1, 1]))]
    );
}

#[test]
fn hotbar_swap_that_swaps_nothing_is_accepted() {
    let player =
        player_with(&[(36, held(stone(), 3, &[1, 1])), (10, held(dirt(), 5, &[2, 2]))]);
    let cursor = empty_cursor();
    let packet = click(
        ClickMode::Hotbar,
        0,
        10,
        vec![change(36, wire(stone(), 3)), change(10, wire(dirt(), 5))],
        ItemStack::empty(),
    );
    let (_, changes) = validate_click_slot_packet(&packet, &player, None, &cursor).unwrap();
    assert_eq!(
        changes,
        vec![change(36, held(stone(), 3, &[1, 1])), change(10, held(dirt(), 5, &[2, 2]))]
    );
}

#[test]
fn hotbar_swap_rejects_a_third_kind() {
    let player = player_with(&[(36, held(stone(), 3, &[])), (10, held(dirt(), 5, &[]))]);
    let cursor = empty_cursor();
    let packet = click(
        ClickMode::Hotbar,
        0,
        10,
        vec![change(36, wire(diamond(), 5)), change(10, wire(stone(), 3))],
        ItemStack::empty(),
    );
    assert_eq!(
        validate_click_slot_packet(&packet, &player, None, &cursor),
        Err(ValidationError::Invariant(InvariantError::SwapMismatch))
    );
    let packet = click(
        ClickMode::Hotbar,
        0,
        10,
        vec![change(36, wire(dirt(), 5)), change(10, wire(diamond(), 3))],
        ItemStack::empty(),
    );
    assert_eq!(
        validate_click_slot_packet(&packet, &player, None, &cursor),
        Err(ValidationError::Invariant(InvariantError::SwapMismatch))
    );
}

#[test]
fn hotbar_swap_changes_two_slots() {
    let player = player_with(&[(36, held(stone(), 3, &[]))]);
    let cursor = empty_cursor();
    let packet = click(
        ClickMode::Hotbar,
        0,
        10,
        vec![change(36, wire(stone(), 3))],
        ItemStack::empty(),
    );
    assert_eq!(
        validate_click_slot_packet(&packet, &player, None, &cursor),
        Err(ValidationError::Structure(StructuralError::ChangeCount))
    );
}

#[test]
fn reconstruction_keeps_the_components_of_the_slot() {
    let enchanted = [0x10, 0x20, 0x30];
    let player = player_with(&[(10, held(sword(), 1, &enchanted))]);
    let cursor = empty_cursor();
    let packet = click(
        ClickMode::DoubleClick,
        0,
        10,
        vec![change(10, wire(sword(), 1))],
        ItemStack::empty(),
    );
    let (_, changes) = validate_click_slot_packet(&packet, &player, None, &cursor).unwrap();
    assert_eq!(changes.len(), 1);
    assert_eq!(changes[0].idx, 10);
    assert_eq!(changes[0].stack.item, sword());
    assert_eq!(changes[0].stack.count, 1);
    assert_eq!(changes[0].stack.components, enchanted.to_vec());
}

#[test]
fn reconstruction_takes_only_the_count_from_the_wire() {
    let player = player_with(&[(10, held(stone(), 20, &[5, 6]))]);
    let cursor = CursorItem(held(stone(), 4, &[8]));
    // Right-click with four on the cursor puts one down.
    let packet = click(
        ClickMode::Click,
        1,
        10,
        vec![change(10, ItemStack::new(stone(), 21, vec![0xEE]))],
        ItemStack::new(stone(), 3, vec![0xEE]),
    );
    let (new_cursor, changes) =
        validate_click_slot_packet(&packet, &player, None, &cursor).unwrap();
    assert_eq!(new_cursor, held(stone(), 3, &[8]));
    assert_eq!(changes, vec![change(10, held(stone(), 21, &[5, 6]))]);
}

#[test]
fn reconstruction_fails_for_a_kind_found_nowhere() {
    let player = player_with(&[(10, held(stone(), 1, &[]))]);
    let cursor = empty_cursor();
    let packet = click(
        ClickMode::DoubleClick,
        0,
        10,
        vec![change(10, wire(diamond(), 1))],
        ItemStack::empty(),
    );
    assert_eq!(
        validate_click_slot_packet(&packet, &player, None, &cursor),
        Err(ValidationError::Reconstruction(ReconstructionError::SlotChange))
    );
}

#[test]
fn reconstruction_fails_for_a_carried_kind_found_nowhere() {
    let player = player_with(&[(10, held(stone(), 1, &[]))]);
    let cursor = empty_cursor();
    let packet = click(
        ClickMode::DoubleClick,
        0,
        10,
        vec![change(10, ItemStack::empty())],
        wire(diamond(), 1),
    );
    assert_eq!(
        validate_click_slot_packet(&packet, &player, None, &cursor),
        Err(ValidationError::Reconstruction(ReconstructionError::CarriedItem))
    );
}

#[test]
fn reconstruction_finds_the_origin_in_the_cursor() {
    let player = Inventory::new(46);
    let cursor = CursorItem(held(sword(), 1, &[4, 2]));
    let packet = click(
        ClickMode::Click,
        0,
        10,
        vec![change(10, wire(sword(), 1))],
        ItemStack::empty(),
    );
    let (new_cursor, changes) =
        validate_click_slot_packet(&packet, &player, None, &cursor).unwrap();
    assert_eq!(new_cursor, ItemStack::empty());
    assert_eq!(changes, vec![change(10, held(sword(), 1, &[4, 2]))]);
}

#[test]
fn reconstruction_finds_the_origin_in_another_changed_slot() {
    let player = player_with(&[(10, held(stone(), 8, &[1])), (11, held(dirt(), 8, &[2]))]);
    let cursor = empty_cursor();
    let packet = click(
        ClickMode::DoubleClick,
        0,
        10,
        vec![change(10, wire(dirt(), 8)), change(11, wire(stone(), 8))],
        ItemStack::empty(),
    );
    let (_, changes) = validate_click_slot_packet(&packet, &player, None, &cursor).unwrap();
    assert_eq!(
        changes,
        vec![change(10, held(dirt(), 8, &[2])), change(11, held(stone(), 8, &[1]))]
    );
}

#[test]
fn reconstruction_of_cursor_takes_from_a_changed_slot() {
    let player = player_with(&[(10, held(sword(), 1, &[3, 3, 3]))]);
    let cursor = empty_cursor();
    let packet = click(
        ClickMode::Click,
        0,
        10,
        vec![change(10, ItemStack::empty())],
        wire(sword(), 1),
    );
    let (new_cursor, changes) =
        validate_click_slot_packet(&packet, &player, None, &cursor).unwrap();
    assert_eq!(new_cursor, held(sword(), 1, &[3, 3, 3]));
    assert_eq!(changes, vec![change(10, ItemStack::empty())]);
}

#[test]
fn click_swaps_slot_and_cursor() {
    let player = player_with(&[(10, held(stone(), 8, &[1]))]);
    let cursor = CursorItem(held(dirt(), 3, &[2]));
    let packet = click(
        ClickMode::Click,
        0,
        10,
        vec![change(10, wire(dirt(), 3))],
        wire(stone(), 8),
    );
    assert_eq!(delta(&packet, &player, &cursor), 0);
    let (new_cursor, changes) =
        validate_click_slot_packet(&packet, &player, None, &cursor).unwrap();
    assert_eq!(new_cursor, held(stone(), 8, &[1]));
    assert_eq!(changes, vec![change(10, held(dirt(), 3, &[2]))]);
}

#[test]
fn click_that_should_swap_must_swap() {
    let player = player_with(&[(10, held(stone(), 8, &[]))]);
    let cursor = CursorItem(held(dirt(), 3, &[]));
    let packet = click(
        ClickMode::Click,
        0,
        10,
        vec![change(10, wire(dirt(), 4))],
        wire(stone(), 7),
    );
    assert_eq!(
        validate_click_slot_packet(&packet, &player, None, &cursor),
        Err(ValidationError::Invariant(InvariantError::SwapMismatch))
    );
}

#[test]
fn click_merges_stacks_of_one_kind() {
    let player = player_with(&[(10, held(stone(), 60, &[1]))]);
    let cursor = CursorItem(held(stone(), 10, &[2]));
    let packet = click(
        ClickMode::Click,
        0,
        10,
        vec![change(10, wire(stone(), 64))],
        wire(stone(), 6),
    );
    assert_eq!(delta(&packet, &player, &cursor), 0);
    let (new_cursor, changes) =
        validate_click_slot_packet(&packet, &player, None, &cursor).unwrap();
    assert_eq!(new_cursor, held(stone(), 6, &[2]));
    assert_eq!(changes, vec![change(10, held(stone(), 64, &[1]))]);
    let packet = click(
        ClickMode::Click,
        0,
        10,
        vec![change(10, wire(stone(), 64))],
        wire(stone(), 7),
    );
    assert_eq!(
        validate_click_slot_packet(&packet, &player, None, &cursor),
        Err(ValidationError::Conservation { expected: 0, actual: 1 })
    );
}

#[test]
fn click_puts_down_an_oversized_stack_in_part() {
    // A stack larger than its kind allows does not swap with an empty slot.
    let player = Inventory::new(46);
    let cursor = CursorItem(held(sword(), 3, &[1]));
    let packet = click(
        ClickMode::Click,
        0,
        10,
        vec![change(10, wire(sword(), 1))],
        wire(sword(), 2),
    );
    let (new_cursor, changes) =
        validate_click_slot_packet(&packet, &player, None, &cursor).unwrap();
    assert_eq!(new_cursor, held(sword(), 2, &[1]));
    assert_eq!(changes, vec![change(10, held(sword(), 1, &[1]))]);
}

#[test]
fn click_changes_one_slot_at_most() {
    let player = player_with(&[(10, held(stone(), 8, &[]))]);
    let cursor = empty_cursor();
    let packet = click(
        ClickMode::Click,
        0,
        10,
        vec![change(10, ItemStack::empty()), change(11, wire(stone(), 8))],
        ItemStack::empty(),
    );
    assert_eq!(
        validate_click_slot_packet(&packet, &player, None, &cursor),
        Err(ValidationError::Structure(StructuralError::ChangeCount))
    );
}

#[test]
fn click_outside_drops_the_cursor() {
    let player = Inventory::new(46);
    let cursor = CursorItem(held(stone(), 9, &[1]));
    let packet = click(ClickMode::Click, 0, -999, vec![], ItemStack::empty());
    assert_eq!(delta(&packet, &player, &cursor), -9);
    let (new_cursor, changes) =
        validate_click_slot_packet(&packet, &player, None, &cursor).unwrap();
    assert_eq!(new_cursor, ItemStack::empty());
    assert!(changes.is_empty());
    // Keeping one back is not dropping the stack.
    let packet = click(ClickMode::Click, 0, -999, vec![], wire(stone(), 1));
    assert_eq!(
        validate_click_slot_packet(&packet, &player, None, &cursor),
        Err(ValidationError::Conservation { expected: -9, actual: -8 })
    );
}

#[test]
fn click_outside_drops_one_item() {
    let player = Inventory::new(46);
    let cursor = CursorItem(held(stone(), 9, &[1]));
    let packet = click(ClickMode::Click, 1, -999, vec![], wire(stone(), 8));
    let (new_cursor, changes) =
        validate_click_slot_packet(&packet, &player, None, &cursor).unwrap();
    assert_eq!(new_cursor, held(stone(), 8, &[1]));
    assert!(changes.is_empty());
    let packet = click(ClickMode::Click, 1, -999, vec![], wire(stone(), 7));
    assert_eq!(
        validate_click_slot_packet(&packet, &player, None, &cursor),
        Err(ValidationError::Conservation { expected: -1, actual: -2 })
    );
}

#[test]
fn click_outside_changes_no_slot() {
    let player = player_with(&[(10, held(stone(), 8, &[]))]);
    let cursor = empty_cursor();
    for slot_idx in [-1i16, -999] {
        let packet = click(
            ClickMode::Click,
            0,
            slot_idx,
            vec![change(10, ItemStack::empty())],
            ItemStack::empty(),
        );
        assert_eq!(
            validate_click_slot_packet(&packet, &player, None, &cursor),
            Err(ValidationError::Structure(StructuralError::ChangeCount))
        );
    }
    let packet = click(ClickMode::Click, 0, -1, vec![], wire(stone(), 1));
    assert_eq!(
        validate_click_slot_packet(&packet, &player, None, &cursor),
        Err(ValidationError::Conservation { expected: 0, actual: 1 })
    );
}

#[test]
fn drag_in_progress_changes_nothing() {
    let player = Inventory::new(46);
    let cursor = CursorItem(held(stone(), 9, &[1]));
    let packet = click(ClickMode::Drag, 0, -999, vec![], wire(stone(), 9));
    let (new_cursor, changes) =
        validate_click_slot_packet(&packet, &player, None, &cursor).unwrap();
    assert_eq!(new_cursor, held(stone(), 9, &[1]));
    assert!(changes.is_empty());
    let packet = click(ClickMode::Drag, 1, 10, vec![], wire(stone(), 8));
    assert_eq!(
        validate_click_slot_packet(&packet, &player, None, &cursor),
        Err(ValidationError::Invariant(InvariantError::DragState))
    );
    let packet = click(
        ClickMode::Drag,
        1,
        10,
        vec![change(10, wire(stone(), 1))],
        wire(stone(), 9),
    );
    assert_eq!(
        validate_click_slot_packet(&packet, &player, None, &cursor),
        Err(ValidationError::Invariant(InvariantError::DragState))
    );
}

#[test]
fn drag_end_spreads_the_cursor() {
    let player = Inventory::new(46);
    let cursor = CursorItem(held(stone(), 9, &[1]));
    let packet = click(
        ClickMode::Drag,
        2,
        -999,
        vec![
            change(10, wire(stone(), 3)),
            change(11, wire(stone(), 3)),
            change(12, wire(stone(), 3)),
        ],
        ItemStack::empty(),
    );
    assert_eq!(delta(&packet, &player, &cursor), 0);
    let (new_cursor, changes) =
        validate_click_slot_packet(&packet, &player, None, &cursor).unwrap();
    assert_eq!(new_cursor, ItemStack::empty());
    assert_eq!(
        changes,
        vec![
            change(10, held(stone(), 3, &[1])),
            change(11, held(stone(), 3, &[1])),
            change(12, held(stone(), 3, &[1])),
        ]
    );
    let packet = click(
        ClickMode::Drag,
        6,
        -999,
        vec![change(10, wire(stone(), 5)), change(11, wire(stone(), 5))],
        ItemStack::empty(),
    );
    assert_eq!(
        validate_click_slot_packet(&packet, &player, None, &cursor),
        Err(ValidationError::Conservation { expected: 0, actual: 1 })
    );
}

#[test]
fn double_click_gathers_into_the_cursor() {
    let player = player_with(&[(10, held(stone(), 8, &[1])), (11, held(stone(), 4, &[2]))]);
    let cursor = CursorItem(held(stone(), 2, &[3]));
    let packet = click(
        ClickMode::DoubleClick,
        0,
        12,
        vec![change(10, ItemStack::empty()), change(11, ItemStack::empty())],
        wire(stone(), 14),
    );
    assert_eq!(delta(&packet, &player, &cursor), 0);
    let (new_cursor, changes) =
        validate_click_slot_packet(&packet, &player, None, &cursor).unwrap();
    assert_eq!(new_cursor, held(stone(), 14, &[3]));
    assert_eq!(changes, vec![change(10, ItemStack::empty()), change(11, ItemStack::empty())]);
}

#[test]
fn creative_middle_click_may_make_items() {
    let player = player_with(&[(10, held(stone(), 8, &[1]))]);
    let cursor = empty_cursor();
    let packet = click(ClickMode::CreativeMiddleClick, 2, 10, vec![], wire(stone(), 64));
    assert_eq!(delta(&packet, &player, &cursor), 64);
    // The kind is found in no changed slot and not on the cursor.
    assert_eq!(
        validate_click_slot_packet(&packet, &player, None, &cursor),
        Err(ValidationError::Reconstruction(ReconstructionError::CarriedItem))
    );
    let cursor = CursorItem(held(stone(), 1, &[7]));
    let (new_cursor, _) = validate_click_slot_packet(&packet, &player, None, &cursor).unwrap();
    assert_eq!(new_cursor, held(stone(), 64, &[7]));
}

#[test]
fn window_id_must_match_the_open_container() {
    let player = Inventory::new(46);
    let chest = Inventory::new(27);
    let cursor = empty_cursor();
    let mut packet = click(ClickMode::Click, 0, 10, vec![], ItemStack::empty());
    assert_eq!(
        validate_click_slot_packet(&packet, &player, Some(&chest), &cursor),
        Err(ValidationError::Structure(StructuralError::WindowMismatch))
    );
    packet.window_id = VarInt(3);
    assert_eq!(
        validate_click_slot_packet(&packet, &player, None, &cursor),
        Err(ValidationError::Structure(StructuralError::WindowMismatch))
    );
    assert!(validate_click_slot_packet(&packet, &player, Some(&chest), &cursor).is_ok());
}

#[test]
fn slot_changes_stay_within_the_window() {
    let player = Inventory::new(46);
    let cursor = empty_cursor();
    let window = InventoryWindow::new(&player, None);
    assert_eq!(window.max_slot(), 46);
    let packet = click(
        ClickMode::DoubleClick,
        0,
        0,
        vec![change(47, ItemStack::empty())],
        ItemStack::empty(),
    );
    assert_eq!(check_structure(&packet, &window), Err(StructuralError::SlotChange));
    // The highest index is accepted; it names no slot and reads as empty.
    let packet = click(
        ClickMode::DoubleClick,
        0,
        0,
        vec![change(46, ItemStack::empty())],
        ItemStack::empty(),
    );
    assert_eq!(check_structure(&packet, &window), Ok(()));
    let (_, changes) = validate_click_slot_packet(&packet, &player, None, &cursor).unwrap();
    assert_eq!(changes, vec![change(46, ItemStack::empty())]);
}

#[test]
fn negative_counts_are_out_of_bounds() {
    let player = Inventory::new(46);
    let cursor = empty_cursor();
    let packet = click(
        ClickMode::DoubleClick,
        0,
        0,
        vec![change(10, wire(stone(), -1))],
        ItemStack::empty(),
    );
    assert_eq!(
        validate_click_slot_packet(&packet, &player, None, &cursor),
        Err(ValidationError::Structure(StructuralError::SlotChange))
    );
    let packet = click(ClickMode::DoubleClick, 0, 0, vec![], wire(stone(), -1));
    assert_eq!(
        validate_click_slot_packet(&packet, &player, None, &cursor),
        Err(ValidationError::Structure(StructuralError::CarriedCount))
    );
}

#[test]
fn oversized_counts_are_in_bounds() {
    let player = player_with(&[(10, held(sword(), 5, &[1]))]);
    let cursor = empty_cursor();
    let packet = click(
        ClickMode::DoubleClick,
        0,
        0,
        vec![change(10, wire(sword(), 5))],
        ItemStack::empty(),
    );
    assert!(validate_click_slot_packet(&packet, &player, None, &cursor).is_ok());
}

#[test]
fn buttons_are_checked_by_mode() {
    let player = Inventory::new(46);
    let cursor = empty_cursor();
    let cases: [(ClickMode, &[i8], &[i8]); 7] = [
        (ClickMode::Click, &[0, 1], &[-1, 2, 40]),
        (ClickMode::ShiftClick, &[0, 1], &[-1, 2]),
        (ClickMode::Hotbar, &[0, 1, 8, 40], &[-1, 9, 39, 41]),
        (ClickMode::CreativeMiddleClick, &[2], &[0, 1, 3]),
        (ClickMode::DropKey, &[0, 1], &[-1, 2]),
        (ClickMode::Drag, &[0, 1, 2, 4, 5, 6, 8, 9, 10], &[-1, 3, 7, 11]),
        (ClickMode::DoubleClick, &[0], &[-1, 1]),
    ];
    for (mode, good, bad) in cases {
        for button in good {
            let packet = click(mode, *button, 10, vec![], ItemStack::empty());
            assert!(
                validate_click_slot_packet(&packet, &player, None, &cursor).is_ok(),
                "{mode:?} {button}"
            );
        }
        for button in bad {
            let packet = click(mode, *button, 10, vec![], ItemStack::empty());
            assert_eq!(
                validate_click_slot_packet(&packet, &player, None, &cursor),
                Err(ValidationError::Structure(StructuralError::Button)),
                "{mode:?} {button}"
            );
        }
    }
}

#[test]
fn slot_indices_are_checked_by_mode() {
    let player = Inventory::new(46);
    let cursor = empty_cursor();
    let cases: [(ClickMode, i8, &[i16], &[i16]); 7] = [
        (ClickMode::Click, 0, &[0, 46, -1, -999], &[47, -2, -998]),
        (ClickMode::ShiftClick, 0, &[0, 46], &[47, -1, -999]),
        (ClickMode::Hotbar, 0, &[0, 47, -1, -999, -5], &[]),
        (ClickMode::CreativeMiddleClick, 2, &[0, 46], &[47, -1, -999]),
        (ClickMode::DropKey, 0, &[0, 46, -999], &[47, -1]),
        (ClickMode::Drag, 0, &[0, 46, -999], &[47, -1]),
        (ClickMode::DoubleClick, 0, &[0, 47, -1, -999], &[]),
    ];
    for (mode, button, good, bad) in cases {
        for slot_idx in good {
            let packet = click(mode, button, *slot_idx, vec![], ItemStack::empty());
            assert!(
                validate_click_slot_packet(&packet, &player, None, &cursor).is_ok(),
                "{mode:?} {slot_idx}"
            );
        }
        for slot_idx in bad {
            let packet = click(mode, button, *slot_idx, vec![], ItemStack::empty());
            assert_eq!(
                validate_click_slot_packet(&packet, &player, None, &cursor),
                Err(ValidationError::Structure(StructuralError::SlotIndex)),
                "{mode:?} {slot_idx}"
            );
        }
    }
}

#[test]
fn some_modes_leave_the_cursor_empty() {
    let player = Inventory::new(46);
    let cursor = CursorItem(held(stone(), 1, &[]));
    for (mode, button) in
        [(ClickMode::ShiftClick, 0i8), (ClickMode::Hotbar, 0), (ClickMode::DropKey, 0)]
    {
        let packet = click(mode, button, 10, vec![], wire(stone(), 1));
        assert_eq!(
            validate_click_slot_packet(&packet, &player, None, &cursor),
            Err(ValidationError::Structure(StructuralError::CarriedNotEmpty))
        );
    }
}

#[test]
fn open_container_comes_first_in_the_window() {
    let player = player_with(&[(9, held(stone(), 8, &[1])), (45, held(dirt(), 2, &[2]))]);
    let mut chest = Inventory::new(27);
    chest.set_slot(0, held(diamond(), 5, &[3]));
    let window = InventoryWindow::new(&player, Some(&chest));
    assert_eq!(window.max_slot(), 63);
    assert!(window.has_slot(0));
    assert_eq!(*window.slot(0), held(diamond(), 5, &[3]));
    // After the container come the player's main slots.
    assert_eq!(*window.slot(27), held(stone(), 8, &[1]));
    assert_eq!(*window.slot(63), held(dirt(), 2, &[2]));
    assert!(!window.has_slot(64));

    let cursor = empty_cursor();
    let mut packet = click(
        ClickMode::Hotbar,
        0,
        0,
        vec![change(0, wire(stone(), 8)), change(27, wire(diamond(), 5))],
        ItemStack::empty(),
    );
    packet.window_id = VarInt(1);
    let (_, changes) =
        validate_click_slot_packet(&packet, &player, Some(&chest), &cursor).unwrap();
    assert_eq!(
        changes,
        vec![change(0, held(stone(), 8, &[1])), change(27, held(diamond(), 5, &[3]))]
    );
}

#[test]
fn net_item_delta_sums_slots_and_cursor() {
    let player = player_with(&[(10, held(stone(), 8, &[])), (11, held(stone(), 4, &[]))]);
    let cursor = CursorItem(held(stone(), 2, &[]));
    let packet = click(
        ClickMode::DoubleClick,
        0,
        12,
        vec![change(10, wire(stone(), 1)), change(11, ItemStack::empty()), change(12, wire(dirt(), 7))],
        wire(stone(), 64),
    );
    // (1 - 8) + (0 - 4) + (7 - 0) + (64 - 2)
    assert_eq!(delta(&packet, &player, &cursor), 58);
}

#[test]
fn errors_carry_their_reason() {
    assert_eq!(
        ValidationError::Structure(StructuralError::Button).reason(),
        "invalid button"
    );
    assert_eq!(
        ValidationError::Conservation { expected: 0, actual: 1 }.reason(),
        "invalid item delta"
    );
    assert_eq!(
        ValidationError::Invariant(InvariantError::SwapMismatch).reason(),
        "swapped items must match"
    );
    assert_eq!(
        ValidationError::Reconstruction(ReconstructionError::CarriedItem).reason(),
        "could not unhash carried item"
    );
    assert!(ValidationError::Structure(StructuralError::Button).is_structural());
    assert!(ValidationError::Conservation { expected: 0, actual: 1 }.is_conservation());
    assert!(ValidationError::Invariant(InvariantError::DragState).is_invariant());
    assert!(ValidationError::Reconstruction(ReconstructionError::SlotChange).is_reconstruction());
}
