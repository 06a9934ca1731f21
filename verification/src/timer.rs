//! The repeating countdown that paces ball spawns.

use bevy::time::{Timer, TimerMode};
use bevy::utils::Duration;
use vstd::prelude::*;
use crate::RED_BALL_SPAWN_TIME;

verus! {

/// Mathematical picture of a repeating countdown: its period and the time
/// gathered towards the next firing, both in nanoseconds.
pub struct TimerView {
    pub period: nat,
    pub elapsed: nat,
}

impl TimerView {
    /// A countdown has a positive period and has always gathered less than one
    /// period.
    pub open spec fn wf(self) -> bool {
        0 < self.period <= u64::MAX && self.elapsed < self.period
    }

    /// The countdown after `delta` more nanoseconds: whole periods drop out.
    pub open spec fn advanced(self, delta: nat) -> TimerView {
        TimerView { period: self.period, elapsed: (self.elapsed + delta) % self.period }
    }

    /// How many times the countdown fires while `delta` nanoseconds pass. The
    /// count is kept in 32 bits and wraps beyond them.
    pub open spec fn firings(self, delta: nat) -> nat {
        ((self.elapsed + delta) / self.period) % 0x1_0000_0000
    }
}

/// Lets the engine's timer do one tick: makes a repeating
/// `bevy::time::Timer` of the given period with `Timer::new`, puts the time
/// gathered so far into it with `Timer::set_elapsed`, calls `Timer::tick`, and
/// hands back `Timer::times_finished_this_tick` and `Timer::elapsed`.
///
/// Trusted: a repeating timer that is not paused adds the delta to the time
/// gathered, takes the quotient by its period, cast to `u32`, as the number of
/// firings, and keeps the remainder. A period of zero divides by nothing and
/// is left out.
#[verifier::external_body]
fn repeating_timer_tick(period_nanos: u64, elapsed_nanos: u64, delta_nanos: u64) -> (out: (
    u32,
    u64,
))
    requires
        period_nanos > 0,
    ensures
        out.0 == ((elapsed_nanos + delta_nanos) / (period_nanos as int)) % 0x1_0000_0000,
        out.1 == (elapsed_nanos + delta_nanos) % (period_nanos as int),
{
    let mut timer = Timer::new(Duration::from_nanos(period_nanos), TimerMode::Repeating);
    timer.set_elapsed(Duration::from_nanos(elapsed_nanos));
    timer.tick(Duration::from_nanos(delta_nanos));
    (timer.times_finished_this_tick(), timer.elapsed().as_nanos() as u64)
}

/// The spawn countdown.
#[derive(Debug)]
pub struct SpawnRedBallTimer {
    period_nanos: u64,
    elapsed_nanos: u64,
}

impl View for SpawnRedBallTimer {
    type V = TimerView;

    closed spec fn view(&self) -> TimerView {
        TimerView { period: self.period_nanos as nat, elapsed: self.elapsed_nanos as nat }
    }
}

impl SpawnRedBallTimer {
    #[verifier::type_invariant]
    spec fn inv(&self) -> bool {
        self@.wf()
    }

    /// A countdown of the given period with nothing gathered yet. A period of
    /// zero cannot repeat and is refused.
    pub fn new(period_nanos: u64) -> (timer: Option<SpawnRedBallTimer>)
        ensures
            timer is Some <==> period_nanos > 0,
            timer matches Some(t) ==> t@ == (TimerView { period: period_nanos as nat, elapsed: 0 }),
    {
        if period_nanos > 0 {
            Some(SpawnRedBallTimer { period_nanos, elapsed_nanos: 0 })
        } else {
            None
        }
    }

    /// Advances the countdown by `delta_nanos` and says how often it fired.
    pub fn tick(&mut self, delta_nanos: u64) -> (fired: u32)
        ensures
            final(self)@ == old(self)@.advanced(delta_nanos as nat),
            fired == old(self)@.firings(delta_nanos as nat),
            final(self)@.wf(),
    {
        proof {
            use_type_invariant(&*self);
        }
        let (fired, elapsed) = repeating_timer_tick(
            self.period_nanos,
            self.elapsed_nanos,
            delta_nanos,
        );
        self.elapsed_nanos = elapsed;
        fired
    }

    /// The period in nanoseconds.
    pub fn period_nanos(&self) -> (period: u64)
        ensures
            period == self@.period,
            self@.wf(),
    {
        proof {
            use_type_invariant(self);
        }
        self.period_nanos
    }

    /// The time gathered towards the next firing, in nanoseconds.
    pub fn elapsed_nanos(&self) -> (elapsed: u64)
        ensures
            elapsed == self@.elapsed,
    {
        self.elapsed_nanos
    }
}

impl Default for SpawnRedBallTimer {
    /// The default countdown fires once a second.
    fn default() -> (timer: SpawnRedBallTimer)
        ensures
            timer@ == (TimerView { period: RED_BALL_SPAWN_TIME as nat, elapsed: 0 }),
    {
        SpawnRedBallTimer { period_nanos: RED_BALL_SPAWN_TIME, elapsed_nanos: 0 }
    }
}

} // verus!
