//! Flags that entities pack into one byte of tracked data.

use vstd::prelude::*;

verus! {

/// Whether the bit at `offset` is set in `bits`.
pub open spec fn bit_at(bits: i8, offset: u32) -> bool {
    (bits >> offset) & 1 == 1
}

/// `bits` with the bit at `offset` set or cleared, all other bits kept.
pub open spec fn with_bit(bits: i8, offset: u32, on: bool) -> i8 {
    (bits & !(1i8 << offset)) | ((if on {
        1i8
    } else {
        0i8
    }) << offset)
}

/// Gets the bit at `offset`.
pub fn get_bit(bits: i8, offset: u32) -> (on: bool)
    requires
        offset < 8,
    ensures
        on == bit_at(bits, offset),
{
    (bits >> offset) & 1 == 1
}

/// Sets the bit at `offset`.
pub fn set_bit(bits: i8, offset: u32, on: bool) -> (changed: i8)
    requires
        offset < 8,
    ensures
        changed == with_bit(bits, offset, on),
        bit_at(changed, offset) == on,
        forall|other: u32|
            other < 8 && other != offset ==> bit_at(changed, other) == bit_at(bits, other),
{
    let value: i8 = if on {
        1
    } else {
        0
    };
    let changed: i8 = (bits & !(1i8 << offset)) | (value << offset);
    proof {
        lemma_with_bit(bits, offset, on);
    }
    changed
}

/// Setting a flag makes it read as set, leaves every other flag as it
/// was, and changes nothing where the flag already had that value.
pub proof fn lemma_with_bit(bits: i8, offset: u32, on: bool)
    requires
        offset < 8,
    ensures
        bit_at(with_bit(bits, offset, on), offset) == on,
        forall|other: u32|
            other < 8 && other != offset ==> bit_at(with_bit(bits, offset, on), other) == bit_at(
                bits,
                other,
            ),
        bit_at(bits, offset) == on ==> with_bit(bits, offset, on) == bits,
{
    let v: i8 = if on {
        1i8
    } else {
        0i8
    };
    assert((((bits & !(1i8 << offset)) | (v << offset)) >> offset) & 1 == v) by (bit_vector)
        requires
            offset < 8,
            v == 0 || v == 1,
    ;
    assert forall|other: u32| other < 8 && other != offset implies bit_at(
        with_bit(bits, offset, on),
        other,
    ) == bit_at(bits, other) by {
        assert((((bits & !(1i8 << offset)) | (v << offset)) >> other) & 1 == (bits >> other) & 1)
            by (bit_vector)
            requires
                offset < 8,
                other < 8,
                other != offset,
                v == 0 || v == 1,
        ;
    }
    assert((bits >> offset) & 1 == 0 || (bits >> offset) & 1 == 1) by (bit_vector);
    assert(((bits >> offset) & 1 == v) ==> ((bits & !(1i8 << offset)) | (v << offset)) == bits)
        by (bit_vector)
        requires
            offset < 8,
            v == 0 || v == 1,
    ;
}

} // verus!
