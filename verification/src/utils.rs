//! Interfaces of the driving loop, and the loop itself.
//!
//! The loop is generic over [`Update`], the interface a simulation
//! offers for advancing itself one fixed-size step at a time, and over
//! [`ProgressSink`], the interface of an external progress reporter.
//!
//! Time is carried as a 64-bit code chosen by the implementor; the code
//! must be strictly increasing in simulated time under the unsigned
//! order.  The IEEE-754 bit pattern of a nonnegative finite `f64` is
//! such a code, since on nonnegative floats the bit-pattern order agrees
//! with the numeric order.  The loop compares codes and never interprets
//! them.

use vstd::prelude::*;

verus! {

/// A simulation that advances by one fixed-size time step at a time.
pub trait Update {
    /// Number of steps taken so far.  The default leaves the count
    /// abstract; an implementor may refine it.
    open spec fn step_count(&self) -> nat {
        arbitrary()
    }

    /// The current simulated time, as a strictly increasing code.  The
    /// default leaves the code abstract; an implementor may refine it.
    open spec fn time_code(&self) -> u64 {
        arbitrary()
    }

    /// Advances the solution by one step: applies the update operator,
    /// forces the boundary values, counts the step, and moves time
    /// forward by the fixed step size.  The precondition is a machine
    /// limit: a strictly larger code must exist.  In the intended
    /// encoding the bound is a NaN bit pattern that no simulated time
    /// reaches.
    fn update(&mut self)
        requires
            old(self).time_code() < u64::MAX,
        ensures
            final(self).step_count() == old(self).step_count() + 1,
            final(self).time_code() > old(self).time_code(),
    ;

    /// The current time code.
    fn get_time(&self) -> (t: u64)
        ensures
            t == self.time_code(),
    ;
}

/// Renders a read-only snapshot of a simulation, on demand.
pub trait Plot {
    fn plot(&self);
}

/// Reports the fixed step size of a simulation, as a scalar code.
pub trait GetDeltaT {
    fn get_dt(&self) -> u64;
}

/// Receives the time code once per completed step of the driving loop.
pub trait ProgressSink {
    fn report(&mut self, time: u64);
}

/// Drives the simulation until its time code exceeds `max_time`.
///
/// The exit condition is evaluated after each step, so at least one step
/// is always taken — when the time already exceeds `max_time`, exactly
/// one — and the final time may overshoot `max_time` by up to one step.
/// Each completed step is reported to the progress sink.  The
/// preconditions are machine limits on the codes; in the intended
/// encoding the bound is a NaN bit pattern that neither a simulated time
/// nor a time bound reaches.
pub fn iterate_to_max_time<S: Update, P: ProgressSink>(sim: &mut S, sink: &mut P, max_time: u64)
    requires
        old(sim).time_code() < u64::MAX,
        max_time < u64::MAX,
    ensures
        final(sim).step_count() > old(sim).step_count(),
        final(sim).time_code() > max_time,
        final(sim).time_code() > old(sim).time_code(),
        old(sim).time_code() > max_time ==> final(sim).step_count() == old(sim).step_count() + 1,
{
    let ghost steps0 = sim.step_count();
    let ghost time0 = sim.time_code();
    loop
        invariant_except_break
            sim.time_code() < u64::MAX,
            sim.step_count() == steps0 || sim.time_code() <= max_time,
        invariant
            max_time < u64::MAX,
            sim.step_count() >= steps0,
            sim.time_code() >= time0,
        ensures
            sim.step_count() > steps0,
            sim.time_code() > max_time,
            sim.time_code() > time0,
            time0 > max_time ==> sim.step_count() == steps0 + 1,
        decreases u64::MAX - sim.time_code(),
    {
        sim.update();
        let t = sim.get_time();
        sink.report(t);
        if t > max_time {
            break;
        }
    }
}

} // verus!
