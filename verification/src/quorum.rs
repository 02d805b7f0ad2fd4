use vstd::prelude::*;

verus! {

/// Number of votes an action needs before it is carried out, for a validator
/// set of `n` members: two thirds of the set, rounded down, plus one.
pub open spec fn quorum(n: nat) -> nat {
    2 * n / 3 + 1
}

/// For a non-empty validator set the quorum is at least one vote and at most
/// the whole set.
pub proof fn quorum_bounds(n: nat)
    requires
        n >= 1,
    ensures
        1 <= quorum(n) <= n,
{
}

/// Computes [`quorum`] for a set of `n` validators.
pub fn threshold(n: u32) -> (t: u32)
    ensures
        t == quorum(n as nat),
        n >= 1 ==> 1 <= t <= n,
{
    let wide: u64 = n as u64;
    let needed: u64 = 2 * wide / 3 + 1;
    needed as u32
}

} // verus!
