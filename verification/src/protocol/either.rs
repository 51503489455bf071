//! A value of one of two types.

use vstd::prelude::*;
use vstd::std_specs::cmp::PartialEqSpec;

verus! {

/// A value of one of two types.
#[derive(Debug)]
pub enum Either<L, R> {
    Left(L),
    Right(R),
}

impl<L: PartialEq, R: PartialEq> PartialEq for Either<L, R> {
    fn eq(&self, other: &Either<L, R>) -> (equal: bool) {
        match (self, other) {
            (Either::Left(l0), Either::Left(r0)) => l0 == r0,
            (Either::Right(l0), Either::Right(r0)) => l0 == r0,
            _ => false,
        }
    }
}

impl<L: PartialEq, R: PartialEq> vstd::std_specs::cmp::PartialEqSpecImpl for Either<L, R> {
    open spec fn obeys_eq_spec() -> bool {
        L::obeys_eq_spec() && R::obeys_eq_spec()
    }

    open spec fn eq_spec(&self, other: &Either<L, R>) -> bool {
        match (self, other) {
            (Either::Left(l0), Either::Left(r0)) => l0.eq_spec(r0),
            (Either::Right(l0), Either::Right(r0)) => l0.eq_spec(r0),
            _ => false,
        }
    }
}

impl<L: Eq, R: Eq> Eq for Either<L, R> {

}

impl<L: Clone, R: Clone> Clone for Either<L, R> {
    fn clone(&self) -> (copy: Either<L, R>)
        ensures
            match (*self, copy) {
                (Either::Left(source), Either::Left(cloned)) => vstd::pervasive::cloned(
                    source,
                    cloned,
                ),
                (Either::Right(source), Either::Right(cloned)) => vstd::pervasive::cloned(
                    source,
                    cloned,
                ),
                _ => false,
            },
    {
        match self {
            Either::Left(value) => Either::Left(value.clone()),
            Either::Right(value) => Either::Right(value.clone()),
        }
    }
}

impl<L: Copy, R: Copy> Copy for Either<L, R> {

}

/// The side of an [`Either`] that comes next on the wire.
#[derive(Copy, Clone, PartialEq, Eq, Debug, Structural)]
pub enum Side {
    Left,
    Right,
}

/// What the wire says of the side of an [`Either`]: its first byte is the
/// tag, 1 for the left side and anything else for the right. `None` where
/// there is no byte to read.
pub open spec fn side_of(bytes: Seq<u8>) -> Option<Side> {
    if bytes.len() == 0 {
        None
    } else if bytes[0] == 1 {
        Some(Side::Left)
    } else {
        Some(Side::Right)
    }
}

impl<L, R> Either<L, R> {
    pub fn is_left(&self) -> (b: bool)
        ensures
            b == (*self is Left),
    {
        match self {
            Either::Left(_) => true,
            Either::Right(_) => false,
        }
    }

    pub fn is_right(&self) -> (b: bool)
        ensures
            b == (*self is Right),
    {
        match self {
            Either::Left(_) => false,
            Either::Right(_) => true,
        }
    }

    /// Reads the tag in front of an encoded value: the side that follows,
    /// and how many bytes the tag took. Fails where there is no byte to
    /// read.
    pub fn decode_side(r: &[u8]) -> (result: Option<(Side, usize)>)
        ensures
            match result {
                Some((side, taken)) => side_of(r@) == Some(side) && taken == 1,
                None => side_of(r@) is None,
            },
    {
        if r.len() == 0 {
            None
        } else if r[0] == 1 {
            Some((Side::Left, 1))
        } else {
            Some((Side::Right, 1))
        }
    }
}

} // verus!
