//! Request ids: the counter that numbers the packets of one connection.

use vstd::prelude::*;

verus! {

/// The first id of a connection, and the id that follows the largest one.
pub const FIRST_ID: i32 = 1;

/// The largest id: the greatest positive 32-bit value.
pub const LAST_ID: i32 = 0x7fff_ffff;

/// The id that a server sends back in place of the sent one to refuse a
/// password. The generator never produces it.
pub const AUTH_FAILURE_ID: i32 = -1;

/// The id issued after `id`: one more, and `FIRST_ID` again after `LAST_ID`.
pub open spec fn next_id(id: int) -> int {
    if id >= LAST_ID {
        FIRST_ID as int
    } else {
        id + 1
    }
}

/// The id issued `n` calls after `start` was.
pub open spec fn id_after(start: int, n: nat) -> int
    decreases n,
{
    if n == 0 {
        start
    } else {
        next_id(id_after(start, (n - 1) as nat))
    }
}

/// The counter of one connection. It holds the id that the next call of
/// `next` returns, always within `FIRST_ID ..= LAST_ID`.
pub struct RequestIdGenerator {
    upcoming: i32,
}

impl RequestIdGenerator {
    #[verifier::type_invariant]
    spec fn in_range(self) -> bool {
        FIRST_ID <= self.upcoming <= LAST_ID
    }

    /// The id that the next call of `next` returns.
    pub closed spec fn peek(self) -> int {
        self.upcoming as int
    }

    /// The counter of a fresh connection: its first id is `FIRST_ID`.
    pub fn new() -> (g: RequestIdGenerator)
        ensures
            g.peek() == FIRST_ID,
    {
        RequestIdGenerator { upcoming: FIRST_ID }
    }

    /// Hands out the upcoming id and moves on to the one after it.
    pub fn next(&mut self) -> (id: i32)
        ensures
            id == old(self).peek(),
            FIRST_ID <= id <= LAST_ID,
            final(self).peek() == next_id(id as int),
        no_unwind
    {
        proof {
            use_type_invariant(&*self);
        }
        let id = self.upcoming;
        self.upcoming = successor(id);
        id
    }
}

/// The id that follows `id`, for a caller that keeps the counter in a
/// place of its own (an atomic integer, say).
pub fn successor(id: i32) -> (next: i32)
    ensures
        next == next_id(id as int),
        FIRST_ID <= id ==> FIRST_ID <= next <= LAST_ID,
    no_unwind
{
    if id == LAST_ID {
        FIRST_ID
    } else {
        id + 1
    }
}

/// Ids stay within `FIRST_ID ..= LAST_ID`: never zero, never negative.
pub proof fn lemma_ids_stay_in_range(start: int, n: nat)
    requires
        FIRST_ID <= start <= LAST_ID,
    ensures
        FIRST_ID <= id_after(start, n) <= LAST_ID,
        id_after(start, n) != AUTH_FAILURE_ID,
    decreases n,
{
    if n > 0 {
        lemma_ids_stay_in_range(start, (n - 1) as nat);
    }
}

/// Until the counter wraps, the `n`-th id after `start` is `start + n`.
pub proof fn lemma_id_after_before_wrap(start: int, n: nat)
    requires
        FIRST_ID <= start,
        start + n <= LAST_ID,
    ensures
        id_after(start, n) == start + n,
    decreases n,
{
    if n > 0 {
        lemma_id_after_before_wrap(start, (n - 1) as nat);
    }
}

/// Successive ids strictly increase until the counter wraps: of two ids
/// issued before `LAST_ID` is passed, the later one is the greater.
pub proof fn lemma_ids_strictly_increase(start: int, i: nat, j: nat)
    requires
        FIRST_ID <= start,
        i < j,
        start + j <= LAST_ID,
    ensures
        id_after(start, i) < id_after(start, j),
{
    lemma_id_after_before_wrap(start, i);
    lemma_id_after_before_wrap(start, j);
}

/// The id issued right after `LAST_ID` is `FIRST_ID`: the counter wraps to
/// one, not to zero and not into the negative range.
pub proof fn lemma_id_wraps_to_first(start: int, n: nat)
    requires
        FIRST_ID <= start <= LAST_ID,
        id_after(start, n) == LAST_ID,
    ensures
        id_after(start, n + 1) == FIRST_ID,
        id_after(start, n + 1) == 1,
{
    assert(id_after(start, (n + 1) as nat) == next_id(id_after(start, n)));
}

} // verus!
