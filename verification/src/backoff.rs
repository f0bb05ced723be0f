//! How long a till waits between sync attempts: exponential backoff with jitter.
//!
//! Outages in the target market take out whole neighbourhoods, so tills come back together. A
//! fleet retrying on identical schedules would hit the server in synchronised waves; the jitter
//! spreads them. Spans are counted in nanoseconds, the resolution of `std::time::Duration`, and
//! never exceed the longest span a `Duration` can hold.

use vstd::prelude::*;
use vstd::arithmetic::power2::pow2;

verus! {

pub const NANOS_PER_MILLI: u128 = 1_000_000;
pub const NANOS_PER_SEC: u128 = 1_000_000_000;

/// The longest span a `std::time::Duration` holds: `u64::MAX` seconds and 999,999,999 nanoseconds.
pub const MAX_SPAN_NANOS: u128 = 18_446_744_073_709_551_615_999_999_999;

/// Delay between successful rounds when there is nothing pending: thirty seconds.
pub const IDLE_NANOS: u128 = 30_000_000_000;

/// The schedule's state, as the contracts describe it.
pub struct BackoffState {
    pub base: u128,
    pub max: u128,
    pub attempt: u32,
    pub seed: u64,
}

/// Exponential backoff with jitter.
#[derive(Debug, Clone)]
pub struct Backoff {
    base: u128,
    max: u128,
    attempt: u32,
    /// Jitter is drawn from this, advanced by xorshift64: the till needs spread, not
    /// unpredictability.
    seed: u64,
}

impl View for Backoff {
    type V = BackoffState;

    closed spec fn view(&self) -> BackoffState {
        BackoffState { base: self.base, max: self.max, attempt: self.attempt, seed: self.seed }
    }
}

/// One round of xorshift64.
pub open spec fn xorshift(seed: u64) -> u64 {
    let a = seed ^ (seed << 13u64);
    let b = a ^ (a >> 7u64);
    b ^ (b << 17u64)
}

/// The doubling factor after `attempt` failures, pinned after thirty.
pub open spec fn growth(attempt: u32) -> nat {
    if attempt < 30 { pow2(attempt as nat) } else { pow2(30) }
}

/// The wait before jitter: the base doubled per failure, saturating at the longest span, capped.
pub open spec fn capped_wait(s: BackoffState) -> int {
    let raw = s.base * growth(s.attempt);
    let raw = if raw > MAX_SPAN_NANOS { MAX_SPAN_NANOS as int } else { raw as int };
    if raw < s.max { raw } else { s.max as int }
}

/// The jittered half of a wait: how much of `span` is drawn from `seed`, in whole milliseconds.
pub open spec fn jitter_nanos(seed: u64, span: int) -> int {
    if span == 0 {
        0
    } else {
        let millis = span / (NANOS_PER_MILLI as int);
        let millis = if millis > u64::MAX { u64::MAX as int } else { millis };
        let millis = if millis < 1 { 1 } else { millis };
        (xorshift(seed) as int % millis) * (NANOS_PER_MILLI as int)
    }
}

/// The delay the next failure earns.
pub open spec fn next_wait(s: BackoffState) -> int {
    let capped = capped_wait(s);
    let half = capped / 2;
    half + jitter_nanos(s.seed, capped - half)
}

/// The state after the next failure.
pub open spec fn after_failure(s: BackoffState) -> BackoffState {
    let capped = capped_wait(s);
    BackoffState {
        attempt: if s.attempt == u32::MAX { u32::MAX } else { (s.attempt + 1) as u32 },
        seed: if capped - capped / 2 == 0 { s.seed } else { xorshift(s.seed) },
        ..s
    }
}

impl Backoff {
    pub fn new(base: u128, max: u128, seed: u64) -> (r: Self)
        requires
            base <= MAX_SPAN_NANOS,
            max <= MAX_SPAN_NANOS,
        ensures
            r@ == (BackoffState { base, max, attempt: 0, seed }),
    {
        Backoff { base, max, attempt: 0, seed }
    }

    /// First retry in a second, capped at five minutes: a till backed off to an hour looks
    /// broken, and it holds the only copy of the sales it has not pushed.
    pub fn standard(seed: u64) -> (r: Self)
        ensures
            r@ == (BackoffState { base: NANOS_PER_SEC, max: 300_000_000_000u128, attempt: 0, seed }),
    {
        Self::new(NANOS_PER_SEC, 300_000_000_000, seed)
    }

    /// A round succeeded: back to normal pace.
    pub fn reset(&mut self)
        ensures
            final(self)@ == (BackoffState { attempt: 0, ..old(self)@ }),
    {
        self.attempt = 0;
    }

    pub fn attempts(&self) -> (r: u32)
        ensures
            r == self@.attempt,
    {
        self.attempt
    }

    /// How long to wait before the next attempt, doubling each failure, in nanoseconds.
    pub fn next_delay(&mut self) -> (r: u128)
        ensures
            r == next_wait(old(self)@),
            final(self)@ == after_failure(old(self)@),
            r <= capped_wait(old(self)@) <= old(self)@.max,
            r >= capped_wait(old(self)@) / 2,
    {
        let exponent: u64 = if self.attempt < 30 { self.attempt as u64 } else { 30 };
        proof {
            vstd::bits::lemma_u64_pow2_no_overflow(exponent as nat);
            vstd::bits::lemma_u64_shl_is_mul(1, exponent);
            if exponent < 30 {
                vstd::arithmetic::power2::lemma_pow2_strictly_increases(exponent as nat, 30);
            }
            assert(pow2(30) == 0x4000_0000) by {
                vstd::arithmetic::power2::lemma2_to64();
            }
        }
        let factor: u64 = 1u64 << exponent;
        assert(factor as nat == growth(self.attempt));
        assert(factor <= 0x4000_0000);
        // Saturating, like `Duration::saturating_mul`: past the longest span it pins there.
        let raw: u128 = match self.base.checked_mul(factor as u128) {
            Some(product) => if product > MAX_SPAN_NANOS { MAX_SPAN_NANOS } else { product },
            None => MAX_SPAN_NANOS,
        };
        let capped: u128 = if raw < self.max { raw } else { self.max };
        self.attempt = self.attempt.saturating_add(1);
        let half: u128 = capped / 2;
        let spread: u128 = capped - half;
        let jitter = self.jitter(spread);
        half + jitter
    }

    fn jitter(&mut self, span: u128) -> (r: u128)
        ensures
            r == jitter_nanos(old(self)@.seed, span as int),
            r < span || (r == 0 && span == 0),
            final(self)@ == (BackoffState {
                seed: if span == 0 { old(self)@.seed } else { xorshift(old(self)@.seed) },
                ..old(self)@
            }),
    {
        if span == 0 {
            return 0;
        }
        let mut seed = self.seed;
        seed = seed ^ (seed << 13u64);
        seed = seed ^ (seed >> 7u64);
        seed = seed ^ (seed << 17u64);
        self.seed = seed;
        let whole: u128 = span / NANOS_PER_MILLI;
        let clamped: u64 = if whole > u64::MAX as u128 { u64::MAX } else { whole as u64 };
        let millis: u64 = if clamped < 1 { 1 } else { clamped };
        let drawn: u64 = seed % millis;
        proof {
            assert(drawn < millis);
            assert(drawn as int * 1_000_000 < span) by (nonlinear_arith)
                requires
                    drawn < millis,
                    millis == 1 ==> drawn == 0,
                    span > 0,
                    millis > 1 ==> millis <= span / 1_000_000,
            ;
        }
        (drawn as u128) * NANOS_PER_MILLI
    }
}


proof fn lemma_growth_bounds(attempt: u32)
    ensures
        1 <= growth(attempt) <= pow2(30),
        attempt < u32::MAX ==> growth(attempt) <= growth((attempt + 1) as u32),
{
    vstd::arithmetic::power2::lemma_pow2_pos(attempt as nat);
    vstd::arithmetic::power2::lemma_pow2_pos(30);
    if attempt < 30 {
        vstd::arithmetic::power2::lemma_pow2_strictly_increases(attempt as nat, 30);
        vstd::arithmetic::power2::lemma_pow2_strictly_increases(attempt as nat, (attempt + 1) as nat);
    }
}

/// Between resets, waits only grow: each failure's capped wait is at least the previous one's.
pub proof fn law_waits_never_shrink_between_resets(s: BackoffState)
    requires
        s.attempt < u32::MAX,
    ensures
        capped_wait(after_failure(s)) >= capped_wait(s),
{
    lemma_growth_bounds(s.attempt);
    let g0 = growth(s.attempt);
    let g1 = growth((s.attempt + 1) as u32);
    assert(s.base * g0 <= s.base * g1) by (nonlinear_arith)
        requires g0 <= g1;
}

/// Once doubling has reached the cap, every wait is the cap, and the delay drawn never falls
/// below half of it: a long run of failures settles at the cap rather than wrapping to zero.
pub proof fn law_a_long_run_of_failures_settles_at_the_cap(s: BackoffState)
    requires
        s.max <= MAX_SPAN_NANOS,
        s.base * growth(s.attempt) >= s.max,
    ensures
        capped_wait(s) == s.max,
        s.max / 2 <= next_wait(s) <= s.max,
{
    let capped = capped_wait(s);
    let half = capped / 2;
    let span = capped - half;
    if span > 0 {
        let millis = span / (NANOS_PER_MILLI as int);
        let millis = if millis > u64::MAX { u64::MAX as int } else { millis };
        let millis = if millis < 1 { 1 } else { millis };
        let drawn = xorshift(s.seed) as int % millis;
        assert(drawn * (NANOS_PER_MILLI as int) < span) by (nonlinear_arith)
            requires
                0 <= drawn < millis,
                millis == 1 ==> drawn == 0,
                span > 0,
                millis > 1 ==> millis <= span / 1_000_000,
                NANOS_PER_MILLI == 1_000_000,
        ;
    }
}

/// After a success the schedule starts over: the next wait is the base again, capped.
pub proof fn law_success_returns_to_the_base_delay(s: BackoffState)
    requires
        s.base <= MAX_SPAN_NANOS,
        s.attempt == 0,
    ensures
        capped_wait(s) == if s.base < s.max { s.base as int } else { s.max as int },
{
    vstd::arithmetic::power2::lemma2_to64();
    assert(growth(0) == 1);
    assert(s.base * growth(s.attempt) == s.base);
}


/// What one call does to a schedule: `next_delay` after a failure (`true`), `reset` after a
/// success (`false`).
pub open spec fn after_call(s: BackoffState, failed: bool) -> BackoffState {
    if failed { after_failure(s) } else { BackoffState { attempt: 0, ..s } }
}

/// The state a history of calls leaves a schedule in.
pub open spec fn state_after(s: BackoffState, calls: Seq<bool>) -> BackoffState
    decreases calls.len(),
{
    if calls.len() == 0 {
        s
    } else {
        after_call(state_after(s, calls.drop_last()), calls.last())
    }
}

/// The delays a history of calls draws from a schedule, one per failure, in order: each is the
/// wait the state left by the calls before it earns.
pub open spec fn delays(s: BackoffState, calls: Seq<bool>) -> Seq<int>
    decreases calls.len(),
{
    if calls.len() == 0 {
        Seq::empty()
    } else if calls.last() {
        delays(s, calls.drop_last()).push(next_wait(state_after(s, calls.drop_last())))
    } else {
        delays(s, calls.drop_last())
    }
}

/// How many failures a history holds.
pub open spec fn failures(calls: Seq<bool>) -> nat
    decreases calls.len(),
{
    if calls.len() == 0 {
        0
    } else {
        failures(calls.drop_last()) + if calls.last() { 1nat } else { 0nat }
    }
}

proof fn lemma_reset_forgets_attempts(a: BackoffState, b: BackoffState, calls: Seq<bool>)
    requires
        a.base == b.base,
        a.max == b.max,
        a.seed == b.seed,
    ensures
        state_after(a, seq![false] + calls) == state_after(b, seq![false] + calls),
        delays(a, seq![false] + calls) == delays(b, seq![false] + calls),
    decreases calls.len(),
{
    let history = seq![false] + calls;
    if calls.len() == 0 {
        assert(history.drop_last() =~= Seq::<bool>::empty());
        assert(history.last() == false);
        assert(state_after(a, history.drop_last()) == a);
        assert(state_after(b, history.drop_last()) == b);
        assert(after_call(a, false) == after_call(b, false));
        assert(delays(a, history.drop_last()) == Seq::<int>::empty());
        assert(delays(b, history.drop_last()) == Seq::<int>::empty());
    } else {
        lemma_reset_forgets_attempts(a, b, calls.drop_last());
        assert(history.drop_last() =~= seq![false] + calls.drop_last());
        assert(history.last() == calls.last());
        let before = history.drop_last();
        assert(state_after(a, before) == state_after(b, before));
        assert(delays(a, before) == delays(b, before));
        assert(state_after(a, history) == after_call(state_after(a, before), history.last()));
        assert(state_after(b, history) == after_call(state_after(b, before), history.last()));
    }
}

proof fn lemma_one_delay_per_failure(s: BackoffState, calls: Seq<bool>)
    ensures
        delays(s, calls).len() == failures(calls),
    decreases calls.len(),
{
    if calls.len() > 0 {
        lemma_one_delay_per_failure(s, calls.drop_last());
    }
}

/// A schedule's delays are fixed by where it starts and the calls made on it: the same seed and
/// the same history of failures and successes replay the same delays, one per failure, each the
/// wait that the calls before it leave earned. A success forgets how many failures came before
/// it, so after one the delays depend on the seed the earlier failures left and nothing else.
pub proof fn law_the_same_seed_replays_the_same_schedule(a: BackoffState, b: BackoffState, calls: Seq<bool>)
    requires
        a.base == b.base,
        a.max == b.max,
        a.seed == b.seed,
    ensures
        a.attempt == b.attempt ==> delays(a, calls) == delays(b, calls),
        a.attempt == b.attempt ==> state_after(a, calls) == state_after(b, calls),
        delays(a, seq![false] + calls) == delays(b, seq![false] + calls),
        delays(a, calls).len() == failures(calls),
        calls.len() > 0 && calls.last() ==> delays(a, calls).last() == next_wait(state_after(a, calls.drop_last())),
{
    lemma_reset_forgets_attempts(a, b, calls);
    lemma_one_delay_per_failure(a, calls);
    if a.attempt == b.attempt {
        assert(a == b);
    }
}

} // verus!
