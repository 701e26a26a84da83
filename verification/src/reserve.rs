//! Fallible reservation: a count the container chose is exactly the number
//! that must come back as an error rather than an abort when the allocator
//! declines it.
use vstd::prelude::*;
use std::collections::{TryReserveError, VecDeque};

verus! {

/// `Vec::try_reserve_exact`: asks the allocator for room for exactly
/// `additional` more elements, reporting a refusal instead of aborting.
/// The contents are left as they were either way. Reserving room for no
/// more elements does nothing and succeeds, since the capacity is already
/// sufficient; otherwise whether the allocator agrees depends on the
/// machine, so nothing is claimed about which of the two answers comes
/// back.
#[verifier::external_body]
pub(crate) fn reserve_exact<T>(v: &mut Vec<T>, additional: usize) -> (r: Result<(), TryReserveError>)
    ensures
        final(v)@ == old(v)@,
        additional == 0 ==> r is Ok,
{
    v.try_reserve_exact(additional)
}

/// `VecDeque::try_reserve`: asks the allocator for room for at least
/// `additional` more elements, reporting a refusal instead of aborting.
/// The contents are left as they were either way. Reserving room for no
/// more elements does nothing and succeeds, since the capacity is already
/// sufficient; otherwise whether the allocator agrees depends on the
/// machine, so nothing is claimed about which of the two answers comes
/// back.
#[verifier::external_body]
pub(crate) fn reserve_queue<T>(q: &mut VecDeque<T>, additional: usize) -> (r: Result<(), TryReserveError>)
    ensures
        final(q)@ == old(q)@,
        additional == 0 ==> r is Ok,
{
    q.try_reserve(additional)
}

} // verus!
