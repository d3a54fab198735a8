//! Monotonic time source.
//!
//! A free-running hardware counter ticks at a frequency that is latched once
//! at boot. This module converts between counter ticks and [`Duration`]s and
//! plans busy-waits; reading the counter itself is left to the caller.

use vstd::prelude::*;

verus! {

/// Nanoseconds in one second.
pub const NANOSEC_PER_SEC: u64 = 1_000_000_000;

/// The nanoseconds that `ticks` counter ticks last at `frequency` ticks per
/// second, rounded down to a whole nanosecond.
pub open spec fn ticks_to_nanos(frequency: nat, ticks: nat) -> nat {
    (ticks * 1_000_000_000) / frequency
}

/// The counter ticks that elapse in `nanos` nanoseconds at `frequency` ticks
/// per second, rounded down to a whole tick.
pub open spec fn nanos_to_ticks(frequency: nat, nanos: nat) -> nat {
    (nanos * frequency) / 1_000_000_000
}

/// The nanoseconds that a single tick lasts, rounded down.
pub open spec fn resolution_nanos(frequency: nat) -> nat {
    ticks_to_nanos(frequency, 1)
}

/// The nanoseconds that the largest counter value stands for.
pub open spec fn max_duration_nanos(frequency: nat) -> nat {
    ticks_to_nanos(frequency, u64::MAX as nat)
}

/// The ticks that the counter has advanced from the reading `start` to the
/// reading `now`. Readings form a ring: a reading below the start is one
/// that has wrapped around past the largest reading.
pub open spec fn ticks_elapsed(start: u64, now: u64) -> nat {
    if now >= start {
        (now - start) as nat
    } else {
        (now + 0x1_0000_0000_0000_0000 - start) as nat
    }
}

/// Adding ticks to a reading and measuring from that reading gives the ticks
/// back, whether or not the sum wraps: a wait for `ticks` is over when the
/// counter reads `start + ticks`, and not at any reading between the two.
pub proof fn lemma_ticks_elapsed_at_target(start: u64, ticks: u64, now: u64)
    ensures
        ticks_elapsed(start, ((start + ticks) % 0x1_0000_0000_0000_0000) as u64) == ticks,
        ticks_elapsed(start, start) == 0,
        ticks_elapsed(start, now) < ticks ==> now != ((start + ticks)
            % 0x1_0000_0000_0000_0000) as u64,
{
}

/// Splits the rounded-down quotient `ticks * 10^9 / frequency` into whole
/// seconds and the sub-second remainder.
proof fn lemma_ticks_split(frequency: int, ticks: int)
    requires
        frequency > 0,
        ticks >= 0,
    ensures
        (ticks * 1_000_000_000) / frequency == (ticks / frequency) * 1_000_000_000 + ((ticks
            % frequency) * 1_000_000_000) / frequency,
        0 <= ((ticks % frequency) * 1_000_000_000) / frequency < 1_000_000_000,
{
    let q = ticks / frequency;
    let r = ticks % frequency;
    let n = (r * 1_000_000_000) / frequency;
    let m = (r * 1_000_000_000) % frequency;
    vstd::arithmetic::div_mod::lemma_fundamental_div_mod(ticks, frequency);
    vstd::arithmetic::div_mod::lemma_fundamental_div_mod(r * 1_000_000_000, frequency);
    assert(0 <= r < frequency);
    assert(0 <= m < frequency);
    assert(ticks * 1_000_000_000 == (q * 1_000_000_000 + n) * frequency + m) by (nonlinear_arith)
        requires
            ticks == frequency * q + r,
            r * 1_000_000_000 == frequency * n + m,
    ;
    vstd::arithmetic::div_mod::lemma_fundamental_div_mod_converse(
        ticks * 1_000_000_000,
        frequency,
        q * 1_000_000_000 + n,
        m,
    );
    assert(0 <= n < 1_000_000_000) by (nonlinear_arith)
        requires
            0 <= r < frequency,
            0 <= m < frequency,
            r * 1_000_000_000 == frequency * n + m,
    ;
}

/// More ticks never last less: the span of a counter value grows with the
/// value. So no counter value lasts longer than the largest one.
pub proof fn lemma_ticks_to_nanos_grows(frequency: nat, fewer: nat, more: nat)
    requires
        frequency > 0,
        fewer <= more,
    ensures
        ticks_to_nanos(frequency, fewer) <= ticks_to_nanos(frequency, more),
        more <= u64::MAX ==> ticks_to_nanos(frequency, more) <= max_duration_nanos(frequency),
{
    let second: int = 1_000_000_000;
    vstd::arithmetic::div_mod::lemma_div_is_ordered(
        fewer * second,
        more * second,
        frequency as int,
    );
    if more <= u64::MAX {
        vstd::arithmetic::div_mod::lemma_div_is_ordered(
            more * second,
            u64::MAX * second,
            frequency as int,
        );
    }
}

/// A span shorter than one tick rounds down to zero ticks.
pub proof fn lemma_below_resolution_is_zero_ticks(frequency: nat, nanos: nat)
    requires
        frequency > 0,
        nanos < resolution_nanos(frequency),
    ensures
        nanos_to_ticks(frequency, nanos) == 0,
{
    let f = frequency as int;
    let n = nanos as int;
    let second: int = 1_000_000_000;
    let res = second / f;
    vstd::arithmetic::div_mod::lemma_fundamental_div_mod(second, f);
    assert(0 <= n * f < second) by (nonlinear_arith)
        requires
            0 <= n < res,
            f > 0,
            second == f * res + second % f,
            0 <= second % f < f,
    ;
    vstd::arithmetic::div_mod::lemma_fundamental_div_mod_converse(n * f, 1_000_000_000, 0, n * f);
}

/// The ticks of a span fit the counter if the span is no longer than that of
/// the largest counter value.
proof fn lemma_ticks_fit_counter(frequency: nat, nanos: nat)
    requires
        frequency > 0,
        nanos <= max_duration_nanos(frequency),
    ensures
        nanos_to_ticks(frequency, nanos) <= u64::MAX,
{
    let f = frequency as int;
    let n = nanos as int;
    let top: int = u64::MAX * 1_000_000_000;
    let longest = top / f;
    vstd::arithmetic::div_mod::lemma_fundamental_div_mod(top, f);
    assert(n * f <= top) by (nonlinear_arith)
        requires
            0 <= n <= longest,
            f > 0,
            top == f * longest + top % f,
            0 <= top % f,
    ;
    vstd::arithmetic::div_mod::lemma_div_is_ordered(n * f, top, 1_000_000_000);
}

/// Round trip: turning a counter value into a span and the span back into
/// ticks always succeeds and never gives more than the value it started
/// from. It gives that value back exactly when the value lasts a whole number
/// of nanoseconds; otherwise the nanosecond lost in rounding costs less than
/// `frequency / 10^9 + 1` ticks.
pub proof fn lemma_round_trip(frequency: nat, ticks: nat)
    requires
        frequency > 0,
        ticks <= u64::MAX,
    ensures
        ticks_to_nanos(frequency, ticks) <= max_duration_nanos(frequency),
        nanos_to_ticks(frequency, ticks_to_nanos(frequency, ticks)) <= ticks,
        nanos_to_ticks(frequency, ticks_to_nanos(frequency, ticks)) == ticks <==> (ticks
            * 1_000_000_000) % frequency == 0,
        (ticks - nanos_to_ticks(frequency, ticks_to_nanos(frequency, ticks))) * 1_000_000_000
            < frequency + 1_000_000_000,
{
    let f = frequency as int;
    let t = ticks as int;
    let second: int = 1_000_000_000;
    let nanos = (t * second) / f;
    let lost = (t * second) % f;
    let back = (nanos * f) / second;
    let rest = (nanos * f) % second;
    lemma_ticks_to_nanos_grows(frequency, ticks, ticks);
    vstd::arithmetic::div_mod::lemma_fundamental_div_mod(t * second, f);
    vstd::arithmetic::div_mod::lemma_fundamental_div_mod(nanos * f, second);
    assert(0 <= lost < f);
    assert(0 <= rest < second);
    assert(nanos * f == t * second - lost) by (nonlinear_arith)
        requires
            t * second == f * nanos + lost,
    ;
    assert(back <= t && (back == t <==> lost == 0) && (t - back) * second < f + second)
        by (nonlinear_arith)
        requires
            t * second - lost == second * back + rest,
            0 <= lost < f,
            0 <= rest < second,
            second == 1_000_000_000,
    ;
}

/// The counter's frequency in ticks per second: a positive number that the
/// hardware latches at boot and that never changes afterwards.
#[derive(Clone, Copy, Debug)]
pub struct CounterFrequency {
    hz: u32,
}

impl CounterFrequency {
    #[verifier::type_invariant]
    spec fn positive(self) -> bool {
        self.hz > 0
    }

    /// The frequency in ticks per second.
    pub closed spec fn view(&self) -> nat {
        self.hz as nat
    }

    /// A frequency of `hz` ticks per second, or `None` for zero.
    pub fn new(hz: u32) -> (frequency: Option<Self>)
        ensures
            frequency is Some <==> hz > 0,
            frequency is Some ==> frequency->Some_0@ == hz,
    {
        if hz == 0 {
            None
        } else {
            Some(CounterFrequency { hz })
        }
    }

    /// The frequency in ticks per second; never zero.
    pub fn get(&self) -> (hz: u32)
        ensures
            hz > 0,
            hz == self@,
    {
        proof {
            use_type_invariant(self);
        }
        self.hz
    }
}

/// A span of time: whole seconds and the nanoseconds of the second begun,
/// whatever frequency a counter runs at.
#[derive(Clone, Copy, Debug, PartialEq, Eq, PartialOrd, Ord)]
pub struct Duration {
    secs: u64,
    nanos: u32,
}

impl Duration {
    #[verifier::type_invariant]
    spec fn normalized(self) -> bool {
        self.nanos < 1_000_000_000
    }

    /// The whole span in nanoseconds.
    pub closed spec fn view(&self) -> nat {
        (self.secs * 1_000_000_000 + self.nanos) as nat
    }

    /// The empty span.
    pub fn zero() -> (d: Self)
        ensures
            d@ == 0,
    {
        Duration { secs: 0, nanos: 0 }
    }

    /// A span of `secs` seconds and `nanos` nanoseconds. Nanoseconds beyond
    /// one second carry over into the seconds, which must not overflow.
    pub fn new(secs: u64, nanos: u32) -> (d: Self)
        requires
            secs + nanos / 1_000_000_000 <= u64::MAX,
        ensures
            d@ == secs * 1_000_000_000 + nanos,
    {
        let carry: u32 = nanos / 1_000_000_000;
        let rest: u32 = nanos % 1_000_000_000;
        Duration { secs: secs + carry as u64, nanos: rest }
    }

    /// A span of `secs` whole seconds.
    pub fn from_secs(secs: u64) -> (d: Self)
        ensures
            d@ == secs * 1_000_000_000,
    {
        Duration { secs, nanos: 0 }
    }

    /// A span of `micros` microseconds.
    pub fn from_micros(micros: u64) -> (d: Self)
        ensures
            d@ == micros * 1_000,
    {
        let secs: u64 = micros / 1_000_000;
        let rest: u64 = micros % 1_000_000;
        Duration { secs, nanos: (rest * 1_000) as u32 }
    }

    /// A span of `nanos` nanoseconds.
    pub fn from_nanos(nanos: u64) -> (d: Self)
        ensures
            d@ == nanos,
    {
        let secs: u64 = nanos / NANOSEC_PER_SEC;
        let rest: u64 = nanos % NANOSEC_PER_SEC;
        Duration { secs, nanos: rest as u32 }
    }

    /// The span that `counter_value` ticks last at `frequency`: the whole
    /// seconds are `ticks / frequency`, the nanoseconds of the second begun
    /// are `(ticks % frequency) * 10^9 / frequency`. A counter at zero gives
    /// the empty span without dividing.
    pub fn from(counter_value: GenericTimerCounterValue, frequency: CounterFrequency) -> (d: Self)
        ensures
            d@ == ticks_to_nanos(frequency@, counter_value.0 as nat),
            d@ / 1_000_000_000 == counter_value.0 as nat / frequency@,
            d@ % 1_000_000_000 == ((counter_value.0 as nat % frequency@) * 1_000_000_000)
                / frequency@,
            counter_value.0 == 0 ==> d@ == 0,
    {
        let hz: u64 = frequency.get() as u64;
        proof {
            lemma_ticks_split(hz as int, counter_value.0 as int);
        }
        if counter_value.0 == 0 {
            return Duration::zero();
        }
        let secs: u64 = counter_value.0 / hz;
        let sub_second_counter_value: u64 = counter_value.0 % hz;
        let nanos: u64 = (sub_second_counter_value * NANOSEC_PER_SEC) / hz;
        proof {
            vstd::arithmetic::div_mod::lemma_fundamental_div_mod_converse(
                secs * 1_000_000_000 + nanos,
                1_000_000_000,
                secs as int,
                nanos as int,
            );
        }
        Duration { secs, nanos: nanos as u32 }
    }

    /// The whole seconds of the span.
    pub fn as_secs(&self) -> (secs: u64)
        ensures
            secs == self@ / 1_000_000_000,
    {
        proof {
            use_type_invariant(self);
            vstd::arithmetic::div_mod::lemma_fundamental_div_mod_converse(
                self@ as int,
                1_000_000_000,
                self.secs as int,
                self.nanos as int,
            );
        }
        self.secs
    }

    /// The nanoseconds of the second begun: always below one second.
    pub fn subsec_nanos(&self) -> (nanos: u32)
        ensures
            nanos == self@ % 1_000_000_000,
    {
        proof {
            use_type_invariant(self);
            vstd::arithmetic::div_mod::lemma_fundamental_div_mod_converse(
                self@ as int,
                1_000_000_000,
                self.secs as int,
                self.nanos as int,
            );
        }
        self.nanos
    }

    /// The microseconds of the second begun, rounded down.
    pub fn subsec_micros(&self) -> (micros: u32)
        ensures
            micros == (self@ % 1_000_000_000) / 1_000,
    {
        let nanos: u32 = self.subsec_nanos();
        nanos / 1_000
    }

    /// The whole span in nanoseconds.
    pub fn as_nanos(&self) -> (nanos: u128)
        ensures
            nanos == self@,
            nanos <= u64::MAX * 1_000_000_000 + 999_999_999,
    {
        proof {
            use_type_invariant(self);
        }
        let whole: u128 = self.secs as u128 * 1_000_000_000;
        whole + self.nanos as u128
    }
}

/// A reading of the free-running counter, in ticks. The counter wraps, so
/// readings form a ring: adding never overflows, it wraps around.
#[derive(Clone, Copy, Debug, PartialEq, Eq, PartialOrd, Ord)]
pub struct GenericTimerCounterValue(pub u64);

impl GenericTimerCounterValue {
    /// The largest reading: all bits set.
    pub fn max_value() -> (max: Self)
        ensures
            max.0 == u64::MAX,
    {
        GenericTimerCounterValue(u64::MAX)
    }

    /// The ticks that elapse in `d` at `frequency`, rounded down to a whole
    /// tick: `nanoseconds * frequency / 10^9`. A span shorter than one tick
    /// gives zero ticks. A span longer than [`max_duration`] does not fit the
    /// counter and is refused with a message; it is never clamped.
    pub fn try_from(
        d: Duration,
        frequency: CounterFrequency,
    ) -> (ticks: Result<Self, &'static str>)
        ensures
            ticks is Ok <==> d@ <= max_duration_nanos(frequency@),
            ticks is Ok ==> ticks->Ok_0.0 == nanos_to_ticks(frequency@, d@),
            ticks is Err ==> ticks->Err_0@ == "Duration out of range"@,
            d@ < resolution_nanos(frequency@) ==> ticks == Ok::<Self, &'static str>(
                GenericTimerCounterValue(0),
            ),
    {
        let nanos: u128 = d.as_nanos();
        let hz: u128 = frequency.get() as u128;
        let shortest: u128 = resolution(frequency).as_nanos();
        let longest: u128 = max_duration(frequency).as_nanos();
        if nanos < shortest {
            proof {
                lemma_ticks_to_nanos_grows(hz as nat, 1, 1);
                lemma_below_resolution_is_zero_ticks(hz as nat, nanos as nat);
            }
            return Ok(GenericTimerCounterValue(0));
        }
        if nanos > longest {
            return Err("Duration out of range");
        }
        proof {
            lemma_ticks_fit_counter(hz as nat, nanos as nat);
        }
        assert(nanos * hz <= u128::MAX) by (nonlinear_arith)
            requires
                nanos <= u64::MAX * 1_000_000_000 + 999_999_999,
                hz <= u32::MAX,
        ;
        let counter_value: u128 = (nanos * hz) / 1_000_000_000;
        Ok(GenericTimerCounterValue(counter_value as u64))
    }
}

impl core::ops::Add for GenericTimerCounterValue {
    type Output = Self;

    /// The reading `rhs` ticks after `self`, wrapping around past the
    /// largest reading.
    fn add(self, rhs: Self) -> (sum: Self) {
        GenericTimerCounterValue(self.0.wrapping_add(rhs.0))
    }
}

/// What `+` means on readings: addition on the ring of 64-bit values. Any
/// two readings can be added.
impl vstd::std_specs::ops::AddSpecImpl for GenericTimerCounterValue {
    open spec fn obeys_add_spec() -> bool {
        true
    }

    open spec fn add_req(self, rhs: Self) -> bool {
        true
    }

    open spec fn add_spec(self, rhs: Self) -> Self {
        GenericTimerCounterValue(((self.0 + rhs.0) % 0x1_0000_0000_0000_0000) as u64)
    }
}

impl core::ops::Sub for GenericTimerCounterValue {
    type Output = Self;

    /// The ticks that the counter has advanced from the reading `rhs` to
    /// the reading `self`, around the ring.
    fn sub(self, rhs: Self) -> (elapsed: Self) {
        GenericTimerCounterValue(self.0.wrapping_sub(rhs.0))
    }
}

/// What `-` means on readings: the distance on the ring of 64-bit values,
/// from the right-hand reading to the left-hand one. Any two readings can be
/// subtracted.
impl vstd::std_specs::ops::SubSpecImpl for GenericTimerCounterValue {
    open spec fn obeys_sub_spec() -> bool {
        true
    }

    open spec fn sub_req(self, rhs: Self) -> bool {
        true
    }

    open spec fn sub_spec(self, rhs: Self) -> Self {
        GenericTimerCounterValue(ticks_elapsed(rhs.0, self.0) as u64)
    }
}

/// The span of a single counter tick at `frequency`, rounded down: a wait
/// shorter than this is a wait of zero ticks.
pub fn resolution(frequency: CounterFrequency) -> (d: Duration)
    ensures
        d@ == resolution_nanos(frequency@),
{
    Duration::from(GenericTimerCounterValue(1), frequency)
}

/// The longest span that the counter can express at `frequency`: that of the
/// largest counter value.
pub fn max_duration(frequency: CounterFrequency) -> (d: Duration)
    ensures
        d@ == max_duration_nanos(frequency@),
{
    Duration::from(GenericTimerCounterValue::max_value(), frequency)
}

/// The time since the counter started, given its reading `counter_value`.
pub fn uptime(
    counter_value: GenericTimerCounterValue,
    frequency: CounterFrequency,
) -> (d: Duration)
    ensures
        d@ == ticks_to_nanos(frequency@, counter_value.0 as nat),
{
    Duration::from(counter_value, frequency)
}

/// What a busy-wait has to do, decided before the first poll.
#[derive(Clone, Copy, Debug, PartialEq, Eq)]
pub enum SpinPlan {
    /// The span does not fit the counter: warn with this message and return
    /// without waiting.
    Skip(&'static str),
    /// Poll the counter until it has advanced by `ticks` from the reading
    /// `start`.
    Until {
        /// The reading at which the wait began.
        start: GenericTimerCounterValue,
        /// The ticks to wait for.
        ticks: GenericTimerCounterValue,
    },
}

impl SpinPlan {
    /// Whether the wait is over once the counter reads `counter_value`: at
    /// once for a skipped wait, else as soon as the counter has advanced
    /// from the start by at least the ticks to wait for. The advance is
    /// measured around the ring, so a counter that wraps during the wait
    /// ends it neither early nor late. A wait for zero ticks is over at
    /// every reading.
    pub fn is_done(&self, counter_value: GenericTimerCounterValue) -> (done: bool)
        ensures
            done == match *self {
                SpinPlan::Skip(_) => true,
                SpinPlan::Until { start, ticks } => ticks_elapsed(start.0, counter_value.0)
                    >= ticks.0,
            },
            self matches SpinPlan::Until { start, ticks } && ticks.0 == 0 ==> done,
    {
        match self {
            SpinPlan::Skip(_) => true,
            SpinPlan::Until { start, ticks } => {
                let elapsed = counter_value - *start;
                elapsed.0 >= ticks.0
            },
        }
    }
}

/// Plans a busy-wait of `duration` that begins at the reading
/// `curr_counter_value`: the wait lasts until the counter has advanced from
/// that reading by the ticks of the span. A span below one tick waits for
/// zero ticks. A span that the counter cannot express is skipped with a
/// message.
pub fn spin_for(
    duration: Duration,
    frequency: CounterFrequency,
    curr_counter_value: GenericTimerCounterValue,
) -> (plan: SpinPlan)
    ensures
        plan is Skip <==> duration@ > max_duration_nanos(frequency@),
        plan is Skip ==> plan->Skip_0@ == "Duration out of range"@,
        plan is Until ==> plan->start == curr_counter_value && plan->ticks.0 == nanos_to_ticks(
            frequency@,
            duration@,
        ),
        duration@ < resolution_nanos(frequency@) ==> plan == (SpinPlan::Until {
            start: curr_counter_value,
            ticks: GenericTimerCounterValue(0),
        }),
{
    match GenericTimerCounterValue::try_from(duration, frequency) {
        Err(msg) => SpinPlan::Skip(msg),
        Ok(counter_value_delta) => SpinPlan::Until {
            start: curr_counter_value,
            ticks: counter_value_delta,
        },
    }
}

} // verus!
