//! What follows from the rules: properties of every click that is accepted,
//! and of every click that is turned down.

use vstd::prelude::*;

use crate::inventory::error::{ReconstructionError, ValidationError};
use crate::inventory::item::{ItemKind, StackModel};
use crate::inventory::rules::{
    all_filled_are,
    changes_delta,
    find_in_changed_slots,
    first_filled,
    is_either,
    mode_fault,
    net_item_delta,
    origin_of_carried,
    origin_of_change,
    reconstruction_fault,
    resolved_carried,
    resolved_change,
    slot_delta,
    structural_fault,
    thrown_by_click,
    thrown_by_key,
    verdict,
};
use crate::inventory::window::WindowModel;
use crate::protocol::packets::container_click::{ChangeModel, ClickMode, ClickModel};

verus! {

/// A click that only rearranges what the player holds: every click but a
/// creative middle-click, a click that drops outside the window, and a
/// drop-key click that changes a slot.
pub open spec fn is_internal_move(click: ClickModel) -> bool {
    &&& click.mode != ClickMode::CreativeMiddleClick
    &&& !(click.mode == ClickMode::Click && click.slot_idx == -999)
    &&& !(click.mode == ClickMode::DropKey && click.changes.len() != 0)
}

/// A count is in bounds exactly when it is not negative: the upper bound
/// gives way to stacks that other mechanics built too large.
pub proof fn lemma_count_in_bounds(stack: StackModel)
    ensures
        stack.count_in_bounds() <==> stack.count >= 0,
{
}

/// A stack counts for as many items as its count says.
pub proof fn lemma_held_is_count(stack: StackModel)
    ensures
        stack.held() == stack.count,
{
}

/// The sum over no slot changes is zero, and each further change adds the
/// growth of its slot.
pub proof fn lemma_changes_delta_unfold(changes: Seq<ChangeModel>, window: WindowModel, upto: int)
    requires
        0 < upto,
    ensures
        changes_delta(changes, window, 0) == 0,
        changes_delta(changes, window, upto) == changes_delta(changes, window, upto - 1)
            + slot_delta(window.slot(changes[upto - 1].idx), changes[upto - 1].stack),
{
}

/// Conservation: an accepted click that only rearranges what the player
/// holds (a swap, a merge, a shift-click, a hotbar swap, a drag, a
/// double-click) leaves the number of items in window and cursor unchanged.
pub proof fn lemma_internal_moves_conserve(
    click: ClickModel,
    window: WindowModel,
    cursor: StackModel,
)
    requires
        verdict(click, window, cursor) is Ok,
        is_internal_move(click),
    ensures
        net_item_delta(click, window, cursor) == 0,
{
    assert(mode_fault(click, window, cursor) is None);
    if click.mode == ClickMode::Click && click.changes.len() == 1 && click.slot_idx != -1 {
        lemma_changes_delta_unfold(click.changes, window, 1);
    }
    if click.mode == ClickMode::Drag {
        assert(changes_delta(click.changes, window, 0) == 0);
    }
}

/// An accepted click outside the window that drops removes exactly what
/// its button says: one item, or all that the cursor holds.
pub proof fn lemma_click_drop_removes(click: ClickModel, window: WindowModel, cursor: StackModel)
    requires
        verdict(click, window, cursor) is Ok,
        click.mode == ClickMode::Click,
        click.slot_idx == -999,
    ensures
        click.changes.len() == 0,
        net_item_delta(click, window, cursor) == -thrown_by_click(click.button, cursor),
        click.button == 1 ==> net_item_delta(click, window, cursor) == -1,
        click.button == 0 ==> net_item_delta(click, window, cursor) == -cursor.held(),
{
    assert(mode_fault(click, window, cursor) is None);
    assert(structural_fault(click, window) is None);
}

/// An accepted drop-key click that changes a slot changes the clicked slot
/// alone, leaves the kind in it alone, and removes exactly what its button
/// says: one item, or the whole stack.
pub proof fn lemma_drop_key_removes(click: ClickModel, window: WindowModel, cursor: StackModel)
    requires
        verdict(click, window, cursor) is Ok,
        click.mode == ClickMode::DropKey,
        click.changes.len() != 0,
    ensures
        click.changes.len() == 1,
        click.changes[0].idx == click.slot_idx,
        click.carried.is_empty(),
        click.changes[0].stack.is_empty() || window.slot(click.slot_idx).holds(
            click.changes[0].stack.item,
        ),
        net_item_delta(click, window, cursor) == -thrown_by_key(
            click.button,
            window.slot(click.slot_idx),
        ),
        click.button == 0 ==> net_item_delta(click, window, cursor) == -1,
        click.button == 1 ==> net_item_delta(click, window, cursor) == -window.slot(
            click.slot_idx,
        ).held(),
{
    assert(mode_fault(click, window, cursor) is None);
    assert(structural_fault(click, window) is None);
    lemma_changes_delta_unfold(click.changes, window, 1);
}

/// A drop-key click that changes its slot by another amount than its
/// button says is never accepted.
pub proof fn lemma_drop_key_rejects_other_amounts(
    click: ClickModel,
    window: WindowModel,
    cursor: StackModel,
)
    requires
        click.mode == ClickMode::DropKey,
        click.changes.len() == 1,
        net_item_delta(click, window, cursor) != -thrown_by_key(
            click.button,
            window.slot(click.slot_idx),
        ),
    ensures
        verdict(click, window, cursor) is Err,
{
    if verdict(click, window, cursor) is Ok {
        lemma_drop_key_removes(click, window, cursor);
    }
}

/// Where the search for the first filled slot change finds one, it is the
/// earliest; where it finds none, every change proposes the empty stack.
pub proof fn lemma_first_filled(changes: Seq<ChangeModel>, from: int)
    requires
        0 <= from,
    ensures
        match first_filled(changes, from) {
            Some(found) => exists|i: int|
                {
                    &&& from <= i < changes.len()
                    &&& #[trigger] changes[i] == found
                    &&& !found.stack.is_empty()
                    &&& forall|j: int| from <= j < i ==> (#[trigger] changes[j]).stack.is_empty()
                },
            None => forall|j: int|
                from <= j < changes.len() ==> (#[trigger] changes[j]).stack.is_empty(),
        },
    decreases changes.len() - from,
{
    if from < changes.len() {
        if !changes[from].stack.is_empty() {
            assert(changes[from] == first_filled(changes, from)->0);
        } else {
            lemma_first_filled(changes, from + 1);
            match first_filled(changes, from + 1) {
                Some(found) => {
                    let i = choose|i: int|
                        {
                            &&& from + 1 <= i < changes.len()
                            &&& #[trigger] changes[i] == found
                            &&& !found.stack.is_empty()
                            &&& forall|j: int|
                                from + 1 <= j < i ==> (#[trigger] changes[j]).stack.is_empty()
                        };
                    assert(changes[i] == found);
                    assert forall|j: int| from <= j < i implies (
                    #[trigger] changes[j]).stack.is_empty() by {
                        if j > from {
                        }
                    }
                },
                None => {
                    assert forall|j: int| from <= j < changes.len() implies (
                    #[trigger] changes[j]).stack.is_empty() by {
                        if j > from {
                        }
                    }
                },
            }
        }
    }
}

/// An accepted shift-click that changes slots changes two or three, fills
/// at least one, and fills none with another kind than the clicked slot
/// has.
pub proof fn lemma_shift_click_moves_one_kind(
    click: ClickModel,
    window: WindowModel,
    cursor: StackModel,
)
    requires
        verdict(click, window, cursor) is Ok,
        click.mode == ClickMode::ShiftClick,
        click.changes.len() != 0,
    ensures
        2 <= click.changes.len() <= 3,
        exists|i: int| 0 <= i < click.changes.len() && !(#[trigger] click.changes[i]).stack.is_empty(),
        all_filled_are(click.changes, window.slot(click.slot_idx).item),
        net_item_delta(click, window, cursor) == 0,
{
    assert(mode_fault(click, window, cursor) is None);
    lemma_first_filled(click.changes, 0);
}

/// A shift-click that fills a slot with another kind than the clicked slot
/// has is never accepted.
pub proof fn lemma_shift_click_rejects_foreign_kind(
    click: ClickModel,
    window: WindowModel,
    cursor: StackModel,
    i: int,
)
    requires
        click.mode == ClickMode::ShiftClick,
        0 <= i < click.changes.len(),
        !click.changes[i].stack.is_empty(),
        click.changes[i].stack.item != window.slot(click.slot_idx).item,
    ensures
        verdict(click, window, cursor) is Err,
{
    if verdict(click, window, cursor) is Ok {
        lemma_shift_click_moves_one_kind(click, window, cursor);
    }
}

/// An accepted hotbar swap that changes slots changes exactly two, and
/// each of the two new stacks is, in kind and count, one of the two old.
pub proof fn lemma_hotbar_swaps(click: ClickModel, window: WindowModel, cursor: StackModel)
    requires
        verdict(click, window, cursor) is Ok,
        click.mode == ClickMode::Hotbar,
        click.changes.len() != 0,
    ensures
        click.changes.len() == 2,
        is_either(
            click.changes[0].stack,
            window.slot(click.changes[0].idx),
            window.slot(click.changes[1].idx),
        ),
        is_either(
            click.changes[1].stack,
            window.slot(click.changes[0].idx),
            window.slot(click.changes[1].idx),
        ),
        net_item_delta(click, window, cursor) == 0,
{
    assert(mode_fault(click, window, cursor) is None);
}

/// A hotbar swap that proposes for one of its two slots a stack that is
/// neither of the two old ones is never accepted.
pub proof fn lemma_hotbar_rejects_foreign_stack(
    click: ClickModel,
    window: WindowModel,
    cursor: StackModel,
    i: int,
)
    requires
        click.mode == ClickMode::Hotbar,
        click.changes.len() == 2,
        0 <= i < 2,
        !is_either(
            click.changes[i].stack,
            window.slot(click.changes[0].idx),
            window.slot(click.changes[1].idx),
        ),
    ensures
        verdict(click, window, cursor) is Err,
{
    if verdict(click, window, cursor) is Ok {
        lemma_hotbar_swaps(click, window, cursor);
    }
}

/// What the search among the changed slots finds is the current content of
/// the earliest changed slot that holds the kind and is not passed over;
/// it finds nothing only where there is no such slot.
pub proof fn lemma_find_in_changed_slots(
    changes: Seq<ChangeModel>,
    window: WindowModel,
    kind: ItemKind,
    except: Option<int>,
    from: int,
)
    requires
        0 <= from,
    ensures
        match find_in_changed_slots(changes, window, kind, except, from) {
            Some(found) => exists|i: int|
                {
                    &&& from <= i < changes.len()
                    &&& found == window.slot((#[trigger] changes[i]).idx)
                    &&& found.holds(kind)
                    &&& Some(changes[i].idx) != except
                    &&& forall|j: int|
                        from <= j < i ==> Some((#[trigger] changes[j]).idx) == except
                            || !window.slot(changes[j].idx).holds(kind)
                },
            None => forall|j: int|
                from <= j < changes.len() ==> Some((#[trigger] changes[j]).idx) == except
                    || !window.slot(changes[j].idx).holds(kind),
        },
    decreases changes.len() - from,
{
    if from < changes.len() {
        if Some(changes[from].idx) != except && window.slot(changes[from].idx).holds(kind) {
            assert(window.slot(changes[from].idx) == find_in_changed_slots(
                changes,
                window,
                kind,
                except,
                from,
            )->0);
        } else {
            lemma_find_in_changed_slots(changes, window, kind, except, from + 1);
            match find_in_changed_slots(changes, window, kind, except, from + 1) {
                Some(found) => {
                    let i = choose|i: int|
                        {
                            &&& from + 1 <= i < changes.len()
                            &&& found == window.slot((#[trigger] changes[i]).idx)
                            &&& found.holds(kind)
                            &&& Some(changes[i].idx) != except
                            &&& forall|j: int|
                                from + 1 <= j < i ==> Some((#[trigger] changes[j]).idx) == except
                                    || !window.slot(changes[j].idx).holds(kind)
                        };
                    assert(found == window.slot(changes[i].idx));
                    assert forall|j: int| from <= j < i implies Some(
                        (#[trigger] changes[j]).idx,
                    ) == except || !window.slot(changes[j].idx).holds(kind) by {
                        if j > from {
                        }
                    }
                },
                None => {
                    assert forall|j: int| from <= j < changes.len() implies Some(
                        (#[trigger] changes[j]).idx,
                    ) == except || !window.slot(changes[j].idx).holds(kind) by {
                        if j > from {
                        }
                    }
                },
            }
        }
    }
}

/// The origin of a slot change holds the kind that the change proposes.
pub proof fn lemma_origin_holds_kind(
    click: ClickModel,
    window: WindowModel,
    cursor: StackModel,
    i: int,
)
    requires
        0 <= i < click.changes.len(),
    ensures
        origin_of_change(click, window, cursor, i) matches Some(origin) ==> origin.holds(
            click.changes[i].stack.item,
        ),
        origin_of_carried(click, window, cursor) matches Some(origin) ==> origin.holds(
            click.carried.item,
        ),
{
    lemma_find_in_changed_slots(
        click.changes,
        window,
        click.changes[i].stack.item,
        Some(click.changes[i].idx),
        0,
    );
    lemma_find_in_changed_slots(click.changes, window, click.carried.item, None, 0);
}

/// Every slot change of an accepted click comes back for the same slot,
/// with the kind and count that the click proposes. A change that empties
/// its slot comes back as the empty stack; any other carries the
/// components of its origin, which holds the proposed kind.
pub proof fn lemma_resolution_keeps_kind_and_count(
    click: ClickModel,
    window: WindowModel,
    cursor: StackModel,
    i: int,
)
    requires
        verdict(click, window, cursor) is Ok,
        0 <= i < click.changes.len(),
    ensures
        verdict(click, window, cursor)->Ok_0.changes.len() == click.changes.len(),
        verdict(click, window, cursor)->Ok_0.changes[i].idx == click.changes[i].idx,
        verdict(click, window, cursor)->Ok_0.changes[i].stack.count == click.changes[i].stack.count,
        click.changes[i].stack.is_empty() ==> verdict(click, window, cursor)->Ok_0.changes[i].stack
            == StackModel::empty(),
        !click.changes[i].stack.is_empty() ==> {
            &&& origin_of_change(click, window, cursor, i) is Some
            &&& origin_of_change(click, window, cursor, i)->0.holds(click.changes[i].stack.item)
            &&& verdict(click, window, cursor)->Ok_0.changes[i].stack.item
                == click.changes[i].stack.item
            &&& verdict(click, window, cursor)->Ok_0.changes[i].stack.components
                == origin_of_change(click, window, cursor, i)->0.components
        },
{
    assert(reconstruction_fault(click, window, cursor) is None);
    assert(resolved_change(click, window, cursor, i) is Some);
    lemma_origin_holds_kind(click, window, cursor, i);
}

/// The cursor content of an accepted click has the kind and count that the
/// click proposes: the empty stack where the click leaves the cursor
/// empty, otherwise the components of its origin, which holds the proposed
/// kind.
pub proof fn lemma_resolution_of_cursor(click: ClickModel, window: WindowModel, cursor: StackModel)
    requires
        verdict(click, window, cursor) is Ok,
    ensures
        verdict(click, window, cursor)->Ok_0.cursor.count == click.carried.count,
        click.carried.is_empty() ==> verdict(click, window, cursor)->Ok_0.cursor
            == StackModel::empty(),
        !click.carried.is_empty() ==> {
            &&& origin_of_carried(click, window, cursor) is Some
            &&& origin_of_carried(click, window, cursor)->0.holds(click.carried.item)
            &&& verdict(click, window, cursor)->Ok_0.cursor.item == click.carried.item
            &&& verdict(click, window, cursor)->Ok_0.cursor.components == origin_of_carried(
                click,
                window,
                cursor,
            )->0.components
        },
{
    assert(reconstruction_fault(click, window, cursor) is None);
    lemma_find_in_changed_slots(click.changes, window, click.carried.item, None, 0);
}

/// A slot change that keeps the kind its slot already holds keeps the
/// slot's components too, and takes only its count from the click. (A
/// shift-click prefers the clicked slot where that holds the kind.)
pub proof fn lemma_resolution_keeps_components_in_place(
    click: ClickModel,
    window: WindowModel,
    cursor: StackModel,
    i: int,
)
    requires
        verdict(click, window, cursor) is Ok,
        0 <= i < click.changes.len(),
        !click.changes[i].stack.is_empty(),
        window.slot(click.changes[i].idx).holds(click.changes[i].stack.item),
        click.mode != ClickMode::ShiftClick || !window.slot(click.slot_idx).holds(
            click.changes[i].stack.item,
        ),
    ensures
        verdict(click, window, cursor)->Ok_0.changes[i].stack == window.slot(
            click.changes[i].idx,
        ).with_count(click.changes[i].stack.count),
{
    assert(reconstruction_fault(click, window, cursor) is None);
    assert(resolved_change(click, window, cursor, i) is Some);
}

/// A click that proposes, for some slot, a kind that neither the clicked
/// slot, nor that slot, nor the cursor, nor any changed slot holds is never
/// accepted; where it is of good shape and meets the rules of its mode, the
/// error is the one of reconstruction.
pub proof fn lemma_unknown_kind_is_rejected(
    click: ClickModel,
    window: WindowModel,
    cursor: StackModel,
    i: int,
)
    requires
        0 <= i < click.changes.len(),
        !click.changes[i].stack.is_empty(),
        !window.slot(click.slot_idx).holds(click.changes[i].stack.item),
        !cursor.holds(click.changes[i].stack.item),
        forall|j: int|
            0 <= j < click.changes.len() ==> !window.slot((#[trigger] click.changes[j]).idx).holds(
                click.changes[i].stack.item,
            ),
    ensures
        verdict(click, window, cursor) is Err,
        structural_fault(click, window) is None && mode_fault(click, window, cursor) is None
            ==> verdict(click, window, cursor) == Err::<
            crate::inventory::rules::Resolution,
            ValidationError,
        >(ValidationError::Reconstruction(ReconstructionError::SlotChange)),
{
    lemma_find_in_changed_slots(
        click.changes,
        window,
        click.changes[i].stack.item,
        Some(click.changes[i].idx),
        0,
    );
    assert(origin_of_change(click, window, cursor, i) is None);
    assert(resolved_change(click, window, cursor, i) is None);
}

/// A click that proposes for the cursor a kind that neither the cursor nor
/// any changed slot holds is never accepted.
pub proof fn lemma_unknown_carried_kind_is_rejected(
    click: ClickModel,
    window: WindowModel,
    cursor: StackModel,
)
    requires
        !click.carried.is_empty(),
        !cursor.holds(click.carried.item),
        forall|j: int|
            0 <= j < click.changes.len() ==> !window.slot((#[trigger] click.changes[j]).idx).holds(
                click.carried.item,
            ),
    ensures
        verdict(click, window, cursor) is Err,
        verdict(click, window, cursor)->Err_0 is Reconstruction || structural_fault(click, window)
            is Some || mode_fault(click, window, cursor) is Some,
{
    lemma_find_in_changed_slots(click.changes, window, click.carried.item, None, 0);
    assert(resolved_carried(click, window, cursor) is None);
}

/// A click that is turned down for its shape is turned down whatever the
/// cursor holds, and an error of shape from the first stage says so.
pub proof fn lemma_shape_comes_first(click: ClickModel, window: WindowModel, cursor: StackModel)
    ensures
        structural_fault(click, window) matches Some(fault) ==> verdict(click, window, cursor)
            == Err::<crate::inventory::rules::Resolution, ValidationError>(
            ValidationError::Structure(fault),
        ),
        verdict(click, window, cursor) is Ok ==> {
            &&& structural_fault(click, window) is None
            &&& mode_fault(click, window, cursor) is None
            &&& reconstruction_fault(click, window, cursor) is None
        },
{
}

} // verus!
