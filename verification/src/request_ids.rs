//! Request-id allocation and the per-connection request limit.
use vstd::prelude::*;

verus! {

/// The id handed out by the `n`-th call (counting from zero) of `next` on a
/// fresh generator: ids count up from 1 and wrap around at `u64::MAX`.
pub open spec fn nth_request_id(n: nat) -> u64 {
    ((1 + n) % 0x1_0000_0000_0000_0000) as u64
}

/// Generates unique request ids for a connection: a counter starting at 1.
pub struct RequestIdGenerator {
    next: u64,
}

impl View for RequestIdGenerator {
    type V = u64;

    /// The id the next call hands out.
    closed spec fn view(&self) -> u64 {
        self.next
    }
}

impl RequestIdGenerator {
    /// A generator whose first id is 1.
    pub fn new() -> (g: Self)
        ensures
            g@ == nth_request_id(0),
    {
        RequestIdGenerator { next: 1 }
    }

    /// Hands out the current id and advances the counter (wrapping at
    /// `u64::MAX`).
    pub fn next(&mut self) -> (id: u64)
        ensures
            id == old(self)@,
            final(self)@ == (old(self)@ as int + 1) % 0x1_0000_0000_0000_0000,
    {
        let id = self.next;
        self.next = self.next.wrapping_add(1);
        id
    }
}

impl Default for RequestIdGenerator {
    fn default() -> (g: Self)
        ensures
            g@ == nth_request_id(0),
    {
        Self::new()
    }
}

/// Ids come out in order: when a generator is about to hand out the `n`-th
/// id, the state `next` leaves behind is the one that hands out the
/// `n+1`-th; so the `n`-th call on a fresh generator returns
/// `nth_request_id(n)`.
pub proof fn law_next_advances(n: nat)
    ensures
        nth_request_id(n + 1) == (nth_request_id(n) as int + 1) % 0x1_0000_0000_0000_0000,
{
    let m: int = 0x1_0000_0000_0000_0000;
    let a: int = 1 + n as int;
    assert(nth_request_id(n) as int == a % m);
    vstd::arithmetic::div_mod::lemma_add_mod_noop(a, 1, m);
    assert(1int % m == 1);
    assert((a % m + 1) % m == (a + 1) % m);
}

/// Request ids are unique: among the first 2^64 ids a generator hands out,
/// no two are equal.
pub proof fn law_request_ids_distinct(i: nat, j: nat)
    requires
        i < j < 0x1_0000_0000_0000_0000,
    ensures
        nth_request_id(i) != nth_request_id(j),
{
    let m: int = 0x1_0000_0000_0000_0000;
    if j + 1 < m {
        assert(nth_request_id(i) as int == 1 + i);
        assert(nth_request_id(j) as int == 1 + j);
    } else {
        assert(j + 1 == m);
        assert(nth_request_id(j) as int == 0);
        assert(nth_request_id(i) as int == 1 + i);
    }
}

/// Ids count up from 1: the `k`-th of `n` successive calls of `next` on a
/// fresh generator returns `k` (the first call, `k` = 1, returns 1), wrapping
/// at `u64::MAX`. `states` are the generator's states around the calls and
/// `ids` the ids the calls returned (each call as `next` does it).
pub proof fn law_ids_count_up(states: Seq<u64>, ids: Seq<u64>)
    requires
        states.len() == ids.len() + 1,
        states[0] == nth_request_id(0),
        forall|i: int|
            0 <= i < ids.len() ==> #[trigger] ids[i] == states[i] && states[i + 1] as int == (
            states[i] as int + 1) % 0x1_0000_0000_0000_0000,
    ensures
        forall|i: int| 0 <= i < ids.len() ==> #[trigger] ids[i] == nth_request_id(i as nat),
        forall|i: int|
            0 <= i < ids.len() && ids.len() < 0x1_0000_0000_0000_0000 ==> #[trigger] ids[i] == i + 1,
    decreases ids.len(),
{
    if ids.len() > 0 {
        let n = ids.len() - 1;
        let s0 = states.subrange(0, n + 1);
        let q0 = ids.subrange(0, n);
        assert forall|i: int| 0 <= i < q0.len() implies #[trigger] q0[i] == s0[i] && s0[i
            + 1] as int == (s0[i] as int + 1) % 0x1_0000_0000_0000_0000 by {
            assert(q0[i] == ids[i]);
        }
        law_ids_count_up(s0, q0);
        assert(states[n] == nth_request_id(n as nat)) by {
            if n > 0 {
                assert(q0[n - 1] == ids[n - 1]);
                law_next_advances((n - 1) as nat);
            }
        }
        assert forall|i: int| 0 <= i < ids.len() implies #[trigger] ids[i] == nth_request_id(i as nat) by {
            if i < n {
                assert(ids[i] == q0[i]);
            }
        }
        assert forall|i: int| 0 <= i < ids.len() && ids.len() < 0x1_0000_0000_0000_0000 implies #[trigger] ids[i] == i + 1 by {
            assert(ids[i] == nth_request_id(i as nat));
        }
    }
}

/// The concurrency limit a connection enforces on outgoing requests:
/// `u32::MAX` means no limit.
pub fn request_slot_limit(max_concurrent_requests: u32) -> (l: Option<usize>)
    ensures
        l is None <==> max_concurrent_requests == u32::MAX,
        l matches Some(n) ==> n == max_concurrent_requests,
{
    if max_concurrent_requests == u32::MAX {
        None
    } else {
        Some(max_concurrent_requests as usize)
    }
}

} // verus!
