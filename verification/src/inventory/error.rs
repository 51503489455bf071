//! Why a container click was turned down.

use vstd::prelude::*;
use vstd::string::StringExecFns;

verus! {

/// The click is malformed: its shape alone rules it out, whatever the
/// inventory holds.
#[derive(Clone, Copy, Debug, PartialEq, Eq, Structural)]
pub enum StructuralError {
    /// The click names a container while none is open, or names none
    /// while one is open.
    WindowMismatch,
    /// A slot change names a slot beyond the window, or proposes a stack
    /// whose count is out of bounds.
    SlotChange,
    /// The count of the stack proposed for the cursor is out of bounds.
    CarriedCount,
    /// The button is not one that the click mode knows.
    Button,
    /// The click mode asks for an empty cursor after the click, and the
    /// click proposes a stack for it.
    CarriedNotEmpty,
    /// The slot index is not one that the click mode accepts.
    SlotIndex,
    /// The number of slot changes is not one that the click mode allows.
    ChangeCount,
    /// The one slot that a drop changes is not the slot that was clicked.
    SlotMismatch,
}

/// The click breaks a rule of its mode on how the stacks it touches relate.
#[derive(Clone, Copy, Debug, PartialEq, Eq, Structural)]
pub enum InvariantError {
    /// A swap was due, and the proposed stacks are not the old ones
    /// exchanged.
    SwapMismatch,
    /// A shift-click changes slots and fills none of them.
    NothingMoved,
    /// A shift-click moves another kind than the clicked slot holds.
    SourceKindMismatch,
    /// A shift-click fills slots with more than one kind.
    MixedKinds,
    /// A drop turns the stack in the slot into another kind.
    Transmutation,
    /// A drag in progress changes slots or the cursor.
    DragState,
}

/// No stack that the player has at hand can be the origin of a proposed
/// stack, so its components cannot be recovered.
#[derive(Clone, Copy, Debug, PartialEq, Eq, Structural)]
pub enum ReconstructionError {
    /// A slot change proposes a kind found nowhere.
    SlotChange,
    /// The stack proposed for the cursor is of a kind found nowhere.
    CarriedItem,
}

/// Why a container click was turned down.
#[derive(Clone, Copy, Debug, PartialEq, Eq, Structural)]
pub enum ValidationError {
    Structure(StructuralError),
    /// The click would change the number of items by `actual`, where its
    /// mode allows `expected` and nothing else.
    Conservation { expected: i32, actual: i32 },
    Invariant(InvariantError),
    Reconstruction(ReconstructionError),
}

impl StructuralError {
    pub open spec fn reason_spec(self) -> Seq<char> {
        match self {
            StructuralError::WindowMismatch => "window id and open inventory mismatch"@,
            StructuralError::SlotChange => "invalid slot ids or item counts"@,
            StructuralError::CarriedCount => "invalid carried item count"@,
            StructuralError::Button => "invalid button"@,
            StructuralError::CarriedNotEmpty => "carried item must be empty"@,
            StructuralError::SlotIndex => "invalid slot index"@,
            StructuralError::ChangeCount => "invalid number of slot modifications"@,
            StructuralError::SlotMismatch => "slot index does not match modified slot"@,
        }
    }

    /// The reason in words, for logs.
    pub fn reason(self) -> (text: &'static str)
        ensures
            text@ == self.reason_spec(),
    {
        match self {
            StructuralError::WindowMismatch => "window id and open inventory mismatch",
            StructuralError::SlotChange => "invalid slot ids or item counts",
            StructuralError::CarriedCount => "invalid carried item count",
            StructuralError::Button => "invalid button",
            StructuralError::CarriedNotEmpty => "carried item must be empty",
            StructuralError::SlotIndex => "invalid slot index",
            StructuralError::ChangeCount => "invalid number of slot modifications",
            StructuralError::SlotMismatch => "slot index does not match modified slot",
        }
    }
}

impl InvariantError {
    pub open spec fn reason_spec(self) -> Seq<char> {
        match self {
            InvariantError::SwapMismatch => "swapped items must match"@,
            InvariantError::NothingMoved => "shift click must move an item"@,
            InvariantError::SourceKindMismatch =>
                "shift click must move the same item kind as modified slots"@,
            InvariantError::MixedKinds => "shift click must move the same item kind"@,
            InvariantError::Transmutation => "transmuting items is not allowed"@,
            InvariantError::DragState => "invalid drag state"@,
        }
    }

    /// The reason in words, for logs.
    pub fn reason(self) -> (text: &'static str)
        ensures
            text@ == self.reason_spec(),
    {
        match self {
            InvariantError::SwapMismatch => "swapped items must match",
            InvariantError::NothingMoved => "shift click must move an item",
            InvariantError::SourceKindMismatch =>
                "shift click must move the same item kind as modified slots",
            InvariantError::MixedKinds => "shift click must move the same item kind",
            InvariantError::Transmutation => "transmuting items is not allowed",
            InvariantError::DragState => "invalid drag state",
        }
    }
}

impl ReconstructionError {
    pub open spec fn reason_spec(self) -> Seq<char> {
        match self {
            ReconstructionError::SlotChange => "could not find unhashed modified slot item"@,
            ReconstructionError::CarriedItem => "could not unhash carried item"@,
        }
    }

    /// The reason in words, for logs.
    pub fn reason(self) -> (text: &'static str)
        ensures
            text@ == self.reason_spec(),
    {
        match self {
            ReconstructionError::SlotChange => "could not find unhashed modified slot item",
            ReconstructionError::CarriedItem => "could not unhash carried item",
        }
    }
}

impl ValidationError {
    pub open spec fn reason_spec(self) -> Seq<char> {
        match self {
            ValidationError::Structure(e) => e.reason_spec(),
            ValidationError::Conservation { .. } => "invalid item delta"@,
            ValidationError::Invariant(e) => e.reason_spec(),
            ValidationError::Reconstruction(e) => e.reason_spec(),
        }
    }

    /// The reason in words, for logs.
    pub fn reason(&self) -> (text: String)
        ensures
            text@ == self.reason_spec(),
    {
        let text: &'static str = match self {
            ValidationError::Structure(e) => e.reason(),
            ValidationError::Conservation { .. } => "invalid item delta",
            ValidationError::Invariant(e) => e.reason(),
            ValidationError::Reconstruction(e) => e.reason(),
        };
        String::from_str(text)
    }

    pub fn is_structural(&self) -> (b: bool)
        ensures
            b == (*self is Structure),
    {
        match self {
            ValidationError::Structure(_) => true,
            _ => false,
        }
    }

    pub fn is_conservation(&self) -> (b: bool)
        ensures
            b == (*self is Conservation),
    {
        match self {
            ValidationError::Conservation { .. } => true,
            _ => false,
        }
    }

    pub fn is_invariant(&self) -> (b: bool)
        ensures
            b == (*self is Invariant),
    {
        match self {
            ValidationError::Invariant(_) => true,
            _ => false,
        }
    }

    pub fn is_reconstruction(&self) -> (b: bool)
        ensures
            b == (*self is Reconstruction),
    {
        match self {
            ValidationError::Reconstruction(_) => true,
            _ => false,
        }
    }
}

} // verus!
