//! The pacing of one tick.
//!
//! A tick counts the timers down once and then executes instructions until
//! a sixtieth of a second is used up. After each instruction the host reads
//! its clock and asks the [`Pacer`] what to do: how long to sleep so that
//! instructions come no faster than the speed asked for, and whether the
//! tick is over. The time slept counts as used.

use vstd::prelude::*;

verus! {

/// Nanoseconds in a second.
pub const NANOS_PER_SECOND: u64 = 1_000_000_000;

/// Timer cycles in a second.
pub const TIMER_FREQUENCY: u64 = 60;

/// Nanoseconds in a timer cycle: the length of a tick.
pub const TIMER_CYCLE: u64 = 16_666_666;

/// The progress of a tick as plain mathematical values, in nanoseconds.
pub struct PacerState {
    /// The least time between the starts of two instructions; 0 where the
    /// host cannot sleep.
    pub cpu_cycle: nat,
    /// Time used up since the tick began, time slept included.
    pub total_elapsed: nat,
}

/// What the host does after an instruction.
#[derive(PartialEq, Eq, Structural, Clone, Copy, Debug)]
pub struct Pace {
    /// Nanoseconds to sleep now; 0 for none.
    pub sleep: u64,
    /// Whether the tick is over.
    pub done: bool,
}

impl PacerState {
    /// How long the instruction that just ended took, if the clock reads
    /// `elapsed` since the tick began.
    pub open spec fn cpu_elapsed(self, elapsed: nat) -> int {
        elapsed - self.total_elapsed
    }

    /// How long to sleep after that instruction: the rest of its cycle.
    pub open spec fn sleep(self, elapsed: nat) -> int {
        if self.cpu_elapsed(elapsed) < self.cpu_cycle {
            self.cpu_cycle - self.cpu_elapsed(elapsed)
        } else {
            0
        }
    }

    /// The progress once the sleep is accounted for.
    pub open spec fn advanced(self, elapsed: nat) -> PacerState {
        PacerState { total_elapsed: (elapsed + self.sleep(elapsed)) as nat, ..self }
    }

    /// Whether the tick has used up its timer cycle.
    pub open spec fn finished(self) -> bool {
        self.total_elapsed >= TIMER_CYCLE
    }
}

/// The pacing of one tick.
pub struct Pacer {
    cpu_cycle: u64,
    total_elapsed: u128,
}

impl View for Pacer {
    type V = PacerState;

    closed spec fn view(&self) -> PacerState {
        PacerState { cpu_cycle: self.cpu_cycle as nat, total_elapsed: self.total_elapsed as nat }
    }
}

impl Pacer {
    /// The start of a tick at `speed` instructions per second.
    pub fn new(speed: u64) -> (pacer: Pacer)
        requires
            speed > 0,
        ensures
            pacer@ == (PacerState {
                cpu_cycle: (NANOS_PER_SECOND / speed) as nat,
                total_elapsed: 0,
            }),
    {
        Pacer { cpu_cycle: NANOS_PER_SECOND / speed, total_elapsed: 0 }
    }

    /// The start of a tick on a host that cannot sleep: instructions run
    /// back to back until the tick is over.
    pub fn unthrottled() -> (pacer: Pacer)
        ensures
            pacer@ == (PacerState { cpu_cycle: 0, total_elapsed: 0 }),
    {
        Pacer { cpu_cycle: 0, total_elapsed: 0 }
    }

    /// Tells whether `elapsed` can be the clock's reading now: the clock
    /// does not run backwards, and it runs while the host sleeps.
    pub fn admits(&self, elapsed: u64) -> (ok: bool)
        ensures
            ok == (elapsed >= self@.total_elapsed),
    {
        elapsed as u128 >= self.total_elapsed
    }

    /// Decides what follows an instruction, given that the clock reads
    /// `elapsed` nanoseconds since the tick began.
    pub fn after_instruction(&mut self, elapsed: u64) -> (pace: Pace)
        requires
            elapsed >= old(self)@.total_elapsed,
        ensures
            final(self)@ == old(self)@.advanced(elapsed as nat),
            pace.sleep == old(self)@.sleep(elapsed as nat),
            pace.done == final(self)@.finished(),
    {
        let cpu_elapsed: u64 = elapsed - self.total_elapsed as u64;
        let sleep: u64 = if cpu_elapsed < self.cpu_cycle {
            self.cpu_cycle - cpu_elapsed
        } else {
            0
        };
        self.total_elapsed = elapsed as u128 + sleep as u128;
        Pace { sleep, done: self.total_elapsed >= TIMER_CYCLE as u128 }
    }
}

/// A tick always ends: each instruction that takes any time at all, or is
/// followed by a sleep, brings the tick closer to its end by at least the
/// cycle of the speed asked for.
pub proof fn pacing_makes_progress(s: PacerState, elapsed: nat)
    requires
        elapsed >= s.total_elapsed,
    ensures
        s.advanced(elapsed).total_elapsed >= s.total_elapsed + s.cpu_cycle,
        s.advanced(elapsed).total_elapsed >= elapsed,
        s.advanced(elapsed).cpu_cycle == s.cpu_cycle,
{
}

/// A tick never sleeps longer than one cycle of the speed asked for, and
/// does not sleep at all after an instruction that took a cycle or more.
pub proof fn pacing_sleep_is_bounded(s: PacerState, elapsed: nat)
    requires
        elapsed >= s.total_elapsed,
    ensures
        0 <= s.sleep(elapsed) <= s.cpu_cycle,
        s.cpu_elapsed(elapsed) >= s.cpu_cycle ==> s.sleep(elapsed) == 0,
        s.cpu_elapsed(elapsed) + s.sleep(elapsed) >= s.cpu_cycle,
{
}

} // verus!
