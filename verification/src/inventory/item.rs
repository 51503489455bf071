//! Item kinds and item stacks.

use vstd::prelude::*;

verus! {

/// The identity of an item, together with the largest stack that ordinary
/// play builds of it.
#[derive(Clone, Copy, Debug, PartialEq, Eq, Hash, Structural)]
pub struct ItemKind {
    pub id: u16,
    pub max_stack: i8,
}

impl ItemKind {
    /// The kind that the empty stack carries.
    pub open spec fn air_spec() -> ItemKind {
        ItemKind { id: 0, max_stack: 64 }
    }

    #[verifier::when_used_as_spec(air_spec)]
    pub fn air() -> (kind: ItemKind)
        ensures
            kind == Self::air_spec(),
    {
        ItemKind { id: 0, max_stack: 64 }
    }

    pub fn new(id: u16, max_stack: i8) -> (kind: ItemKind)
        ensures
            kind == (ItemKind { id, max_stack }),
    {
        ItemKind { id, max_stack }
    }

    /// The largest stack that ordinary play builds of this kind.
    pub fn max_stack(self) -> (n: i8)
        ensures
            n == self.max_stack,
    {
        self.max_stack
    }
}

/// What an [`ItemStack`] stands for in contracts.
pub struct StackModel {
    pub item: ItemKind,
    pub count: int,
    pub components: Seq<u8>,
}

impl StackModel {
    /// The stack that holds nothing.
    pub open spec fn empty() -> StackModel {
        StackModel { item: ItemKind::air_spec(), count: 0, components: Seq::empty() }
    }

    /// A stack holds nothing when its count is zero; its kind is then
    /// irrelevant.
    pub open spec fn is_empty(self) -> bool {
        self.count == 0
    }

    /// The number of items the stack contributes to the total: its count,
    /// or zero when it is empty.
    pub open spec fn held(self) -> int {
        if self.is_empty() {
            0
        } else {
            self.count
        }
    }

    /// The stack holds at least one item of `kind`.
    pub open spec fn holds(self, kind: ItemKind) -> bool {
        !self.is_empty() && self.item == kind
    }

    /// The same stack with another count.
    pub open spec fn with_count(self, count: int) -> StackModel {
        StackModel { count, ..self }
    }

    /// Kind and count agree; the components are not compared.
    pub open spec fn looks_like(self, other: StackModel) -> bool {
        self.item == other.item && self.count == other.count
    }

    /// The highest count accepted for this stack: the kind's maximum, or
    /// the stack's own count where other mechanics built it larger.
    pub open spec fn count_limit(self) -> int {
        if self.item.max_stack >= self.count {
            self.item.max_stack as int
        } else {
            self.count
        }
    }

    /// An empty stack, or one whose count lies between one and
    /// [`count_limit`](Self::count_limit).
    pub open spec fn count_in_bounds(self) -> bool {
        self.is_empty() || 1 <= self.count <= self.count_limit()
    }
}

/// A number of items of one kind, with the component data attached to them.
///
/// On the wire a stack carries kind and count only; its components are then
/// stale or missing, and are recovered during validation.
#[derive(Debug)]
pub struct ItemStack {
    pub item: ItemKind,
    pub count: i8,
    pub components: Vec<u8>,
}

impl View for ItemStack {
    type V = StackModel;

    open spec fn view(&self) -> StackModel {
        StackModel { item: self.item, count: self.count as int, components: self.components@ }
    }
}

impl ItemStack {
    pub fn new(item: ItemKind, count: i8, components: Vec<u8>) -> (stack: ItemStack)
        ensures
            stack.item == item,
            stack.count == count,
            stack.components == components,
    {
        ItemStack { item, count, components }
    }

    /// The stack that holds nothing.
    pub fn empty() -> (stack: ItemStack)
        ensures
            stack@ == StackModel::empty(),
    {
        ItemStack { item: ItemKind::air(), count: 0, components: Vec::new() }
    }

    pub fn is_empty(&self) -> (b: bool)
        ensures
            b == self@.is_empty(),
    {
        self.count == 0
    }

    /// The same stack with another count.
    pub fn with_count(self, count: i8) -> (stack: ItemStack)
        ensures
            stack@ == self@.with_count(count as int),
    {
        ItemStack { item: self.item, count, components: self.components }
    }

    /// The largest stack that ordinary play builds of this stack's kind.
    pub fn max_stack(&self) -> (n: i8)
        ensures
            n == self.item.max_stack,
    {
        self.item.max_stack()
    }

    /// Kind and count agree; the components are not compared.
    pub fn looks_like(&self, other: &ItemStack) -> (b: bool)
        ensures
            b == self@.looks_like(other@),
    {
        self.item == other.item && self.count == other.count
    }

    /// The stack holds at least one item of `kind`.
    pub fn holds(&self, kind: ItemKind) -> (b: bool)
        ensures
            b == self@.holds(kind),
    {
        self.count != 0 && self.item == kind
    }

    /// The number of items the stack contributes to the total.
    pub fn held(&self) -> (n: i32)
        ensures
            n == self@.held(),
    {
        if self.count != 0 {
            self.count as i32
        } else {
            0
        }
    }

    pub fn count_in_bounds(&self) -> (b: bool)
        ensures
            b == self@.count_in_bounds(),
    {
        if self.count == 0 {
            true
        } else {
            let limit: i8 = if self.item.max_stack >= self.count {
                self.item.max_stack
            } else {
                self.count
            };
            1 <= self.count && self.count <= limit
        }
    }
}

impl Clone for ItemStack {
    fn clone(&self) -> (copy: ItemStack)
        ensures
            copy@ == self@,
    {
        ItemStack { item: self.item, count: self.count, components: self.components.clone() }
    }
}

impl PartialEq for ItemStack {
    fn eq(&self, other: &ItemStack) -> (equal: bool) {
        if !(self.item == other.item && self.count == other.count) {
            return false;
        }
        if self.components.len() != other.components.len() {
            return false;
        }
        let n: usize = self.components.len();
        let mut i: usize = 0;
        while i < n
            invariant
                i <= n,
                n == self.components@.len(),
                n == other.components@.len(),
                forall|j: int| 0 <= j < i ==> self.components@[j] == other.components@[j],
            decreases n - i,
        {
            if self.components[i] != other.components[i] {
                return false;
            }
            i += 1;
        }
        assert(self.components@ =~= other.components@);
        true
    }
}

impl vstd::std_specs::cmp::PartialEqSpecImpl for ItemStack {
    open spec fn obeys_eq_spec() -> bool {
        true
    }

    open spec fn eq_spec(&self, other: &ItemStack) -> bool {
        self@ == other@
    }
}

impl Eq for ItemStack {

}

} // verus!
