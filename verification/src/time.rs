//! The architectural counter-timer, modelled as a frequency and a count:
//! conversions between counter values and durations, and the busy wait the
//! boot sequence uses.

use vstd::prelude::*;

verus! {

pub const NANOS_PER_SEC: u64 = 1_000_000_000;

/// A span of time as whole seconds and leftover nanoseconds.
#[derive(Clone, Copy, Debug, PartialEq, Eq, Structural)]
pub struct Duration {
    pub secs: u64,
    pub nanos: u32,
}

impl Duration {
    pub open spec fn wf(self) -> bool {
        self.nanos < NANOS_PER_SEC
    }

    /// The whole span in nanoseconds.
    pub open spec fn total_nanos(self) -> int {
        self.secs * NANOS_PER_SEC + self.nanos
    }

    pub fn new(secs: u64, nanos: u32) -> (r: Self)
        requires
            nanos < NANOS_PER_SEC,
        ensures
            r.wf(),
            r.secs == secs,
            r.nanos == nanos,
    {
        Self { secs, nanos }
    }

    pub fn from_secs(secs: u64) -> (r: Self)
        ensures
            r.wf(),
            r.total_nanos() == secs * NANOS_PER_SEC,
    {
        Self { secs, nanos: 0 }
    }

    pub fn from_nanos(nanos: u64) -> (r: Self)
        ensures
            r.wf(),
            r.total_nanos() == nanos,
    {
        let r = Self { secs: nanos / NANOS_PER_SEC, nanos: (nanos % NANOS_PER_SEC) as u32 };
        proof {
            vstd::arithmetic::div_mod::lemma_fundamental_div_mod(
                nanos as int,
                NANOS_PER_SEC as int,
            );
        }
        r
    }

    /// Whether this span is shorter than `other`.
    pub fn lt(&self, other: &Duration) -> (r: bool)
        requires
            self.wf(),
            other.wf(),
        ensures
            r == (self.total_nanos() < other.total_nanos()),
    {
        self.secs < other.secs || (self.secs == other.secs && self.nanos < other.nanos)
    }
}

/// A raw value of the counter.
#[derive(Clone, Copy, Debug, PartialEq, Eq, Structural)]
pub struct TimerValue(pub u64);

/// The counter hardware: its fixed frequency and its running count. The
/// boot code reads the real registers into this model; `tick` stands for
/// time passing.
pub struct Timer {
    pub frq: u64,
    pub count: u64,
}

impl Timer {
    pub open spec fn wf(self) -> bool {
        self.frq > 0
    }

    pub fn new(frq: u64, count: u64) -> (r: Self)
        requires
            frq > 0,
        ensures
            r.wf(),
            r.frq == frq,
            r.count == count,
    {
        Self { frq, count }
    }
}

/// The duration a counter value spans at frequency `frq`: whole seconds,
/// and the remainder scaled to nanoseconds.
pub open spec fn spec_duration_of(count: u64, frq: u64) -> Duration {
    Duration {
        secs: (count / frq) as u64,
        nanos: ((((count % frq) * NANOS_PER_SEC) / (frq as int)) as u32),
    }
}

/// Convert a counter value to a duration.
pub fn duration_of(tv: TimerValue, frq: u64) -> (r: Duration)
    requires
        frq > 0,
    ensures
        r == spec_duration_of(tv.0, frq),
        r.wf(),
{
    let secs = tv.0 / frq;

    let rem = tv.0 % frq;
    let nanos_wide = ((rem as u128) * (NANOS_PER_SEC as u128)) / (frq as u128);
    proof {
        assert(rem < frq);
        assert((rem * NANOS_PER_SEC) / (frq as int) < NANOS_PER_SEC) by (nonlinear_arith)
            requires
                rem < frq,
                frq > 0,
                NANOS_PER_SEC > 0,
        ;
        assert((rem as u128) * (NANOS_PER_SEC as u128) == rem * NANOS_PER_SEC);
    }
    let nanos = nanos_wide as u32;

    Duration { secs, nanos }
}

/// The shortest span the counter can express: one tick.
pub fn resolution(timer: &Timer) -> (r: Duration)
    requires
        timer.wf(),
    ensures
        r == spec_duration_of(1, timer.frq),
        r.wf(),
{
    duration_of(TimerValue(1), timer.frq)
}

/// The longest span the counter can express.
pub fn max_duration(timer: &Timer) -> (r: Duration)
    requires
        timer.wf(),
    ensures
        r == spec_duration_of(u64::MAX, timer.frq),
        r.wf(),
{
    duration_of(TimerValue(0xFFFF_FFFF_FFFF_FFFF), timer.frq)
}

/// How long the counter has been running.
pub fn uptime(timer: &Timer) -> (r: Duration)
    requires
        timer.wf(),
    ensures
        r == spec_duration_of(timer.count, timer.frq),
        r.wf(),
{
    duration_of(TimerValue(timer.count), timer.frq)
}

/// The counter value a duration corresponds to at frequency `frq`,
/// truncated to the counter's width.
pub open spec fn spec_counts_of(d: Duration, frq: u64) -> u64 {
    (((frq * d.total_nanos()) / (NANOS_PER_SEC as int)) as u64)
}

/// Convert a duration to a counter value: spans shorter than one tick or
/// longer than the counter reaches are refused.
pub fn timer_value_of(d: Duration, frq: u64) -> (r: Result<TimerValue, &'static str>)
    requires
        frq > 0,
        d.wf(),
    ensures
        r == (if d.total_nanos() < spec_duration_of(1, frq).total_nanos() {
            Err::<TimerValue, &'static str>("Duration too short")
        } else if d.total_nanos() > spec_duration_of(u64::MAX, frq).total_nanos() {
            Err::<TimerValue, &'static str>("Duration too long")
        } else {
            Ok::<TimerValue, &'static str>(TimerValue(spec_counts_of(d, frq)))
        }),
{
    let short = duration_of(TimerValue(1), frq);
    if d.lt(&short) {
        return Err("Duration too short");
    }
    let long = duration_of(TimerValue(0xFFFF_FFFF_FFFF_FFFF), frq);
    if long.lt(&d) {
        return Err("Duration too long");
    }

    let total: u128 = (d.secs as u128) * (NANOS_PER_SEC as u128) + (d.nanos as u128);
    proof {
        lemma_counts_fit(d, frq, long);
    }
    let val_wide: u128 = ((frq as u128) * total) / (NANOS_PER_SEC as u128);
    proof {
        assert((frq as u128) * (total as u128) == frq * d.total_nanos());
    }
    let val = #[verifier::truncate] (val_wide as u64);

    Ok(TimerValue(val))
}

/// A duration no longer than the counter's span keeps the conversion's
/// intermediate product within bounds.
proof fn lemma_counts_fit(d: Duration, frq: u64, long: Duration)
    requires
        frq > 0,
        d.wf(),
        long == spec_duration_of(u64::MAX, frq),
        d.total_nanos() <= long.total_nanos(),
    ensures
        frq * d.total_nanos() <= u128::MAX,
{
    let f = frq as int;
    let m = u64::MAX as int;
    let n = NANOS_PER_SEC as int;
    let t = d.total_nanos();
    let x = (m % f) * n;
    assert(0 <= m % f < f) by (nonlinear_arith)
        requires
            f > 0,
    ;
    assert((m % f) * n / f < n) by (nonlinear_arith)
        requires
            0 <= m % f < f,
            n > 0,
    ;
    assert(0 <= m / f <= m) by (nonlinear_arith)
        requires
            f > 0,
            m > 0,
    ;
    // strip the casts inside spec_duration_of
    assert(long.total_nanos() == (m / f) * n + x / f);
    assert(f * ((m / f) * n + x / f) == f * (m / f) * n + f * (x / f)) by (nonlinear_arith);
    assert(f * (m / f) <= m) by (nonlinear_arith)
        requires
            f > 0,
            m >= 0,
    ;
    assert(f * (x / f) <= x) by (nonlinear_arith)
        requires
            f > 0,
            x >= 0,
    ;
    assert(f * (m / f) * n <= m * n) by (nonlinear_arith)
        requires
            f * (m / f) <= m,
            n > 0,
    ;
    assert((m % f) * n <= m * n) by (nonlinear_arith)
        requires
            0 <= m % f,
            m % f <= m,
            n > 0,
    ;
    assert(f * t <= f * long.total_nanos()) by (nonlinear_arith)
        requires
            t <= long.total_nanos(),
            f >= 0,
    ;
    assert(f * long.total_nanos() <= m * n + m * n);
    assert(m * n + m * n <= u128::MAX);
}

/// Busy-wait for a duration: advance the counter until it reaches the
/// target, one tick at a time. A span the counter cannot express does no
/// spinning; the reason is returned so the caller can log the warning the
/// boot sequence emits for it.
pub fn spin_for(timer: &mut Timer, duration: Duration) -> (r: Result<(), &'static str>)
    requires
        old(timer).wf(),
        duration.wf(),
    ensures
        final(timer).frq == old(timer).frq,
        final(timer).wf(),
        r == (if duration.total_nanos() < spec_duration_of(1, old(timer).frq).total_nanos() {
            Err::<(), &'static str>("Duration too short")
        } else if duration.total_nanos() > spec_duration_of(
            u64::MAX,
            old(timer).frq,
        ).total_nanos() {
            Err::<(), &'static str>("Duration too long")
        } else {
            Ok::<(), &'static str>(())
        }),
        final(timer).count == (if duration.total_nanos() < spec_duration_of(
            1,
            old(timer).frq,
        ).total_nanos() || duration.total_nanos() > spec_duration_of(
            u64::MAX,
            old(timer).frq,
        ).total_nanos() {
            old(timer).count
        } else {
            let target = vstd::wrapping::u64_specs::wrapping_add(
                old(timer).count,
                spec_counts_of(duration, old(timer).frq),
            );
            if old(timer).count <= target {
                target
            } else {
                old(timer).count
            }
        }),
{
    let count_delta = match timer_value_of(duration, timer.frq) {
        Ok(x) => x,
        Err(s) => {
            return Err(s);
        },
    };
    let target = timer.count.wrapping_add(count_delta.0);
    proof {
        assert(count_delta.0 == spec_counts_of(duration, old(timer).frq));
        assert(target == vstd::wrapping::u64_specs::wrapping_add(
            old(timer).count,
            spec_counts_of(duration, old(timer).frq),
        ));
    }
    while timer.count < target
        invariant
            old(timer).count <= target ==> old(timer).count <= timer.count <= target,
            old(timer).count > target ==> timer.count == old(timer).count,
            timer.frq == old(timer).frq,
            timer.frq > 0,
        decreases target - timer.count,
    {
        timer.count = timer.count + 1;
    }
    proof {
        assert(timer.count == if old(timer).count <= target {
            target
        } else {
            old(timer).count
        });
    }
    Ok(())
}

} // verus!
