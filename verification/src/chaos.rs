//! The service and the workload of the chaos load test: the methods it
//! serves, what each one computes, the call counters, and the mix of calls
//! the overwhelm scenario makes.
use vstd::prelude::*;

use vstd::string::StringExecFns;

verus! {

/// Returns its argument at once.
pub const METHOD_INSTANT: u64 = 1;
/// Returns its argument after a short delay.
pub const METHOD_SLOW: u64 = 2;
/// Returns its argument after a long delay.
pub const METHOD_VERY_SLOW: u64 = 3;
/// Returns its byte buffer reversed.
pub const METHOD_BIG_DATA: u64 = 4;
/// Summarizes a structured request.
pub const METHOD_COMPLEX_STRUCT: u64 = 5;

/// How long a method works before answering, in milliseconds; `None` for a
/// method the service does not serve.
pub open spec fn delay_of(method: u64) -> Option<u64> {
    if method == METHOD_INSTANT {
        Some(0)
    } else if method == METHOD_SLOW {
        Some(100)
    } else if method == METHOD_VERY_SLOW {
        Some(500)
    } else if method == METHOD_BIG_DATA {
        Some(10)
    } else if method == METHOD_COMPLEX_STRUCT {
        Some(20)
    } else {
        None
    }
}

/// The call counters of the chaos service.
#[derive(Debug, Clone, Copy, PartialEq, Eq, Structural)]
pub struct ChaosService {
    pub calls_total: u32,
    pub calls_completed: u32,
    pub calls_cancelled: u32,
    pub calls_dropped: u32,
}

/// A counter after one more event (the counters wrap around).
pub open spec fn bumped(c: u32) -> u32 {
    ((c as int + 1) % 0x1_0000_0000) as u32
}

impl ChaosService {
    /// A service that has seen no call.
    pub fn new() -> (s: Self)
        ensures
            s == (ChaosService {
                calls_total: 0,
                calls_completed: 0,
                calls_cancelled: 0,
                calls_dropped: 0,
            }),
    {
        ChaosService { calls_total: 0, calls_completed: 0, calls_cancelled: 0, calls_dropped: 0 }
    }

    /// The counters: total, completed, cancelled, dropped.
    pub fn stats(&self) -> (r: (u32, u32, u32, u32))
        ensures
            r == (self.calls_total, self.calls_completed, self.calls_cancelled, self.calls_dropped),
    {
        (self.calls_total, self.calls_completed, self.calls_cancelled, self.calls_dropped)
    }

    /// The methods the service serves.
    pub fn method_ids(&self) -> (ids: Vec<u64>)
        ensures
            ids@ == seq![
                METHOD_INSTANT,
                METHOD_SLOW,
                METHOD_VERY_SLOW,
                METHOD_BIG_DATA,
                METHOD_COMPLEX_STRUCT,
            ],
    {
        vec![METHOD_INSTANT, METHOD_SLOW, METHOD_VERY_SLOW, METHOD_BIG_DATA, METHOD_COMPLEX_STRUCT]
    }

    /// A call was dispatched: the total grows by one; the delay the method
    /// works for comes back (`None`: unknown method, answered at once).
    pub fn dispatch(&mut self, method: u64) -> (delay: Option<u64>)
        ensures
            delay == delay_of(method),
            final(self).calls_total == bumped(old(self).calls_total),
            final(self).calls_completed == old(self).calls_completed,
            final(self).calls_cancelled == old(self).calls_cancelled,
            final(self).calls_dropped == old(self).calls_dropped,
    {
        self.calls_total = self.calls_total.wrapping_add(1);
        if method == METHOD_INSTANT {
            Some(0)
        } else if method == METHOD_SLOW {
            Some(100)
        } else if method == METHOD_VERY_SLOW {
            Some(500)
        } else if method == METHOD_BIG_DATA {
            Some(10)
        } else if method == METHOD_COMPLEX_STRUCT {
            Some(20)
        } else {
            None
        }
    }

    /// A handler finished its work.
    pub fn complete(&mut self)
        ensures
            *final(self) == (ChaosService {
                calls_completed: bumped(old(self).calls_completed),
                ..*old(self)
            }),
    {
        self.calls_completed = self.calls_completed.wrapping_add(1);
    }
}

/// The answer of the big-data method: the bytes in reverse order.
pub fn reversed_bytes(data: &Vec<u8>) -> (r: Vec<u8>)
    ensures
        r@ == data@.reverse(),
{
    let mut r: Vec<u8> = Vec::new();
    let mut i: usize = data.len();
    while i > 0
        invariant
            i <= data@.len(),
            r@ == data@.subrange(i as int, data@.len() as int).reverse(),
        decreases i,
    {
        i = i - 1;
        r.push(data[i]);
        assert(data@.subrange(i as int, data@.len() as int).reverse() =~= data@.subrange(
            i + 1,
            data@.len() as int,
        ).reverse().push(data@[i as int]));
    }
    assert(data@.subrange(0, data@.len() as int) =~= data@);
    r
}

/// The sum of the bytes.
pub open spec fn byte_sum(s: Seq<u8>) -> int
    decreases s.len(),
{
    if s.len() == 0 {
        0
    } else {
        byte_sum(s.drop_last()) + s.last()
    }
}

/// The checksum the complex-struct method reports: the sum of the request's
/// bytes. (The sum must fit in a `u64`.)
pub fn checksum(data: &Vec<u8>) -> (c: u64)
    requires
        byte_sum(data@) <= u64::MAX,
    ensures
        c == byte_sum(data@),
{
    let mut c: u64 = 0;
    let mut i: usize = 0;
    while i < data.len()
        invariant
            i <= data@.len(),
            byte_sum(data@) <= u64::MAX,
            c == byte_sum(data@.subrange(0, i as int)),
        decreases data.len() - i,
    {
        let ghost sub = data@.subrange(0, i + 1);
        assert(sub.drop_last() == data@.subrange(0, i as int));
        proof {
            lemma_prefix_sum_bounded(data@, i + 1);
        }
        c = c + data[i] as u64;
        i = i + 1;
    }
    assert(data@.subrange(0, data@.len() as int) == data@);
    c
}

/// The sum of a prefix is at most the sum of the whole.
proof fn lemma_prefix_sum_bounded(s: Seq<u8>, n: int)
    requires
        0 <= n <= s.len(),
    ensures
        byte_sum(s.subrange(0, n)) <= byte_sum(s),
    decreases s.len() - n,
{
    if n < s.len() {
        lemma_prefix_sum_bounded(s, n + 1);
        assert(s.subrange(0, n + 1).drop_last() == s.subrange(0, n));
    } else {
        assert(s.subrange(0, n) == s);
    }
}

/// The results the complex-struct method reports: each tag as
/// `processed:<tag>`, in order.
pub fn processed_tags(tags: &Vec<String>) -> (r: Vec<String>)
    ensures
        r@.len() == tags@.len(),
        forall|i: int| 0 <= i < tags@.len() ==> (#[trigger] r@[i])@ == "processed:"@ + tags@[i]@,
{
    let mut r: Vec<String> = Vec::new();
    let mut i: usize = 0;
    while i < tags.len()
        invariant
            i <= tags@.len(),
            r@.len() == i,
            forall|k: int| 0 <= k < i ==> (#[trigger] r@[k])@ == "processed:"@ + tags@[k]@,
        decreases tags.len() - i,
    {
        let mut s = "processed:".to_string();
        s.append(tags[i].as_str());
        r.push(s);
        i = i + 1;
    }
    r
}

/// The kind of call the overwhelm scenario makes as its `i`-th call.
#[derive(Debug, Clone, Copy, PartialEq, Eq, Structural)]
pub enum OverwhelmCall {
    /// A big-data call with a buffer of this many bytes.
    BigData(usize),
    /// A complex-struct call.
    ComplexStruct,
    /// A slow call.
    Slow,
}

/// The `i`-th call of the overwhelm scenario: two in five are big-data calls
/// (1 KiB to 100 KiB), two in five complex-struct calls, one in five a slow
/// call.
pub open spec fn overwhelm_call_spec(i: usize) -> OverwhelmCall {
    if i % 5 == 0 || i % 5 == 1 {
        OverwhelmCall::BigData((1024 + (i % 100) * 1024) as usize)
    } else if i % 5 == 2 || i % 5 == 3 {
        OverwhelmCall::ComplexStruct
    } else {
        OverwhelmCall::Slow
    }
}

/// The `i`-th call of the overwhelm scenario.
pub fn overwhelm_call(i: usize) -> (c: OverwhelmCall)
    ensures
        c == overwhelm_call_spec(i),
{
    let k = i % 5;
    if k == 0 || k == 1 {
        let size: usize = 1024 + (i % 100) * 1024;
        OverwhelmCall::BigData(size)
    } else if k == 2 || k == 3 {
        OverwhelmCall::ComplexStruct
    } else {
        OverwhelmCall::Slow
    }
}

/// The buffer of a big-data call: byte `k` is `k` modulo 256.
pub fn big_data_buffer(size: usize) -> (v: Vec<u8>)
    ensures
        v@.len() == size,
        forall|k: int| 0 <= k < size ==> #[trigger] v@[k] == (k % 256) as u8,
{
    let mut v: Vec<u8> = Vec::new();
    let mut k: usize = 0;
    while k < size
        invariant
            k <= size,
            v@.len() == k,
            forall|j: int| 0 <= j < k ==> #[trigger] v@[j] == (j % 256) as u8,
        decreases size - k,
    {
        v.push((k % 256) as u8);
        k = k + 1;
    }
    v
}

/// Which scenario the mixed run plays next, from the count of scenarios
/// played so far.
pub fn mixed_scenario(played: u64) -> (s: u64)
    ensures
        s == played % 6,
        s < 6,
{
    played % 6
}

/// The workload of one scenario of the mixed run.
#[derive(Debug, Clone, Copy, PartialEq, Eq, Structural)]
pub enum MixedPlan {
    /// Start a big-data call of `bytes` bytes, each `fill`, and drop the
    /// connection after `wait_ms` milliseconds.
    QuickDisconnect { bytes: usize, fill: u8, wait_ms: u64 },
    /// Start a complex-struct call and abort it after `wait_ms` milliseconds.
    CancelledComplex { wait_ms: u64 },
    /// Open and drop `count` connections in a row.
    RapidConnects { count: u32 },
    /// `calls` concurrent big-data calls (the `i`-th sends `burst_buffer(i)`),
    /// each given `timeout_ms` milliseconds.
    BigDataBurst { calls: u32, timeout_ms: u64 },
    /// `calls` concurrent complex-struct calls, each given `timeout_ms`.
    ComplexBurst { calls: u32, timeout_ms: u64 },
    /// `calls` concurrent instant calls (the `i`-th sends `i`), each given
    /// `timeout_ms`.
    InstantBurst { calls: u32, timeout_ms: u64 },
}

/// The workload of each scenario of the mixed run.
pub open spec fn mixed_plan_spec(scenario: u64) -> MixedPlan {
    if scenario == 0 {
        MixedPlan::QuickDisconnect { bytes: 51200, fill: 0xAA, wait_ms: 5 }
    } else if scenario == 1 {
        MixedPlan::CancelledComplex { wait_ms: 10 }
    } else if scenario == 2 {
        MixedPlan::RapidConnects { count: 5 }
    } else if scenario == 3 {
        MixedPlan::BigDataBurst { calls: 10, timeout_ms: 200 }
    } else if scenario == 4 {
        MixedPlan::ComplexBurst { calls: 5, timeout_ms: 200 }
    } else {
        MixedPlan::InstantBurst { calls: 20, timeout_ms: 100 }
    }
}

/// The workload of a scenario of the mixed run (scenarios past 4 are all
/// bursts of instant calls).
pub fn mixed_plan(scenario: u64) -> (p: MixedPlan)
    ensures
        p == mixed_plan_spec(scenario),
{
    if scenario == 0 {
        MixedPlan::QuickDisconnect { bytes: 51200, fill: 0xAA, wait_ms: 5 }
    } else if scenario == 1 {
        MixedPlan::CancelledComplex { wait_ms: 10 }
    } else if scenario == 2 {
        MixedPlan::RapidConnects { count: 5 }
    } else if scenario == 3 {
        MixedPlan::BigDataBurst { calls: 10, timeout_ms: 200 }
    } else if scenario == 4 {
        MixedPlan::ComplexBurst { calls: 5, timeout_ms: 200 }
    } else {
        MixedPlan::InstantBurst { calls: 20, timeout_ms: 100 }
    }
}

/// The buffer the `i`-th call of a big-data burst sends: `1024 + i * 1024`
/// bytes, each `i` modulo 256.
pub fn burst_buffer(i: usize) -> (v: Vec<u8>)
    requires
        1024 + i * 1024 <= usize::MAX,
    ensures
        v@.len() == 1024 + i * 1024,
        forall|k: int| 0 <= k < v@.len() ==> #[trigger] v@[k] == (i % 256) as u8,
{
    let size: usize = 1024 + i * 1024;
    let fill: u8 = (i % 256) as u8;
    let mut v: Vec<u8> = Vec::new();
    let mut k: usize = 0;
    while k < size
        invariant
            k <= size,
            v@.len() == k,
            fill == (i % 256) as u8,
            forall|j: int| 0 <= j < k ==> #[trigger] v@[j] == fill,
        decreases size - k,
    {
        v.push(fill);
        k = k + 1;
    }
    v
}

} // verus!
