//! Millisecond clocks: the TCXO tick counter, the network stack's clock, and
//! the application's wait deadlines.
use vstd::prelude::*;

verus! {

/// The smoltcp clock value handed to the interface on every poll.
#[verifier::external_type_specification]
#[verifier::external_body]
pub struct ExNetworkInstant(smoltcp::time::Instant);

/// Number of distinct values of a `u64` counter.
pub open spec fn u64_modulus() -> int {
    0x1_0000_0000_0000_0000
}

/// Milliseconds elapsed since the TCXO counter started, given the raw tick
/// count and the TCXO frequency in hertz: ticks divided by ticks per
/// millisecond (the frequency divided by 1000, rounded down).
pub fn ticks_to_millis(raw_ticks: u64, tcxo_hz: u32) -> (ms: u64)
    requires
        tcxo_hz >= 1000,
    ensures
        ms == raw_ticks / ((tcxo_hz / 1000) as u64),
{
    let ticks_per_ms: u64 = (tcxo_hz / 1000) as u64;
    raw_ticks / ticks_per_ms
}

/// A monotonic millisecond count saturated at `i64::MAX`.
pub open spec fn saturated_millis(monotonic_ms: u64) -> i64 {
    if monotonic_ms <= i64::MAX {
        monotonic_ms as i64
    } else {
        i64::MAX
    }
}

/// The network clock's millisecond value for a monotonic millisecond count:
/// the count itself, saturated at `i64::MAX`.
pub fn network_millis(monotonic_ms: u64) -> (r: i64)
    ensures
        r as int == if monotonic_ms <= i64::MAX { monotonic_ms as int } else { i64::MAX as int },
        r == saturated_millis(monotonic_ms),
{
    if monotonic_ms <= 0x7fff_ffff_ffff_ffffu64 {
        monotonic_ms as i64
    } else {
        0x7fff_ffff_ffff_ffffi64
    }
}

/// The result of `smoltcp::time::Instant::from_millis(millis)`: the instant
/// `millis * 1000` microseconds after the clock's origin. The function reads
/// nothing but its argument.
pub uninterp spec fn instant_at_millis(millis: i64) -> smoltcp::time::Instant;

/// Law: the network clock's millisecond value is never negative and never
/// runs backwards while the monotonic count grows, saturation included.
pub proof fn lemma_network_millis_monotone(earlier_ms: u64, later_ms: u64)
    requires
        earlier_ms <= later_ms,
    ensures
        0 <= saturated_millis(earlier_ms) <= saturated_millis(later_ms),
{
}

/// Calls `smoltcp::time::Instant::from_millis`, which stores
/// `millis * 1000` microseconds; that product overflows outside the range
/// required here.
#[verifier::external_body]
fn instant_from_millis(millis: i64) -> (r: smoltcp::time::Instant)
    requires
        i64::MIN <= millis * 1000 <= i64::MAX,
    ensures
        r == instant_at_millis(millis),
{
    smoltcp::time::Instant::from_millis(millis)
}

/// The smoltcp instant for a monotonic millisecond count: the count,
/// saturated at `i64::MAX` milliseconds, made into an instant. Counts whose
/// microsecond value does not fit an `i64` are outside the clock's range.
pub fn network_now(monotonic_ms: u64) -> (r: smoltcp::time::Instant)
    requires
        monotonic_ms * 1000 <= i64::MAX,
    ensures
        r == instant_at_millis(saturated_millis(monotonic_ms)),
{
    let millis = network_millis(monotonic_ms);
    instant_from_millis(millis)
}

/// How long the application waits for one radio operation, in milliseconds.
#[derive(Clone, Copy, Debug, PartialEq, Eq, Structural)]
pub struct ApplicationWaitDeadline {
    millis: u64,
}

impl View for ApplicationWaitDeadline {
    type V = nat;

    closed spec fn view(&self) -> nat {
        self.millis as nat
    }
}

impl ApplicationWaitDeadline {
    /// A deadline of `secs` whole seconds.
    pub fn from_secs(secs: u64) -> (r: Self)
        requires
            secs * 1000 <= u64::MAX,
        ensures
            r@ == secs * 1000,
    {
        ApplicationWaitDeadline { millis: secs * 1000 }
    }

    /// A deadline of `millis` milliseconds.
    pub fn from_millis(millis: u64) -> (r: Self)
        ensures
            r@ == millis,
    {
        ApplicationWaitDeadline { millis }
    }

    /// The deadline in milliseconds.
    pub fn as_millis(&self) -> (ms: u64)
        ensures
            ms == self@,
    {
        self.millis
    }
}

/// Milliseconds between two readings of a wrapping `u64` millisecond
/// counter: `now - started`, taken modulo 2^64.
pub open spec fn elapsed_between(started_ms: u64, now_ms: u64) -> int {
    if now_ms >= started_ms {
        now_ms - started_ms
    } else {
        now_ms - started_ms + u64_modulus()
    }
}

/// Whether a wait that started at `started_ms` has used up `deadline_ms` by
/// `now_ms`.
pub open spec fn deadline_reached(started_ms: u64, now_ms: u64, deadline_ms: nat) -> bool {
    elapsed_between(started_ms, now_ms) >= deadline_ms
}

/// Whether the wait that started at `started_ms` has reached its deadline at
/// `now_ms`, measuring elapsed time with wrapping subtraction.
pub fn deadline_elapsed(started_ms: u64, now_ms: u64, deadline: ApplicationWaitDeadline) -> (r:
    bool)
    ensures
        r == deadline_reached(started_ms, now_ms, deadline@),
{
    now_ms.wrapping_sub(started_ms) >= deadline.as_millis()
}

/// Law: the elapsed-time measure survives a wrap of the millisecond counter.
/// For any start and any true elapsed time below 2^64, the counter value
/// reached after that time (taken modulo 2^64) yields exactly that elapsed
/// time, so the deadline is reached exactly when the true elapsed time is
/// at least the deadline.
pub proof fn lemma_deadline_survives_counter_wrap(started_ms: u64, elapsed: nat, deadline_ms: nat)
    requires
        elapsed < u64_modulus(),
    ensures
        ({
            let now_ms = ((started_ms + elapsed) % u64_modulus()) as u64;
            &&& elapsed_between(started_ms, now_ms) == elapsed
            &&& deadline_reached(started_ms, now_ms, deadline_ms) <==> elapsed >= deadline_ms
        }),
{
    let sum = started_ms + elapsed;
    if sum < u64_modulus() {
        assert(sum % u64_modulus() == sum);
    } else {
        assert(sum - u64_modulus() < u64_modulus());
        assert(sum % u64_modulus() == sum - u64_modulus());
    }
}

} // verus!
