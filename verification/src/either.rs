//! A value of one of two types.
use vstd::prelude::*;

verus! {

/// One of two alternatives.
#[derive(Copy, Clone, Debug, PartialEq, PartialOrd, Eq, Ord, Hash)]
pub enum Either<L, R> {
    Left(L),
    Right(R),
}

} // verus!
