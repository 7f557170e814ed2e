//! Bounded-retry graceful shutdown: while the managed process still reports
//! running, the stop command is re-sent a limited number of times, and then
//! the supervisor gives up rather than hang, accepting that the process may
//! remain orphaned.

use vstd::prelude::*;

verus! {

/// What the shutdown driver does at one wake-up.
#[derive(Clone, Copy, Debug, PartialEq, Eq, Structural)]
pub enum ShutdownStep {
    /// Send the stop command once more and wait one interval.
    SendStopAndWait,
    /// Retries are exhausted: return without waiting further.
    GiveUp,
    /// The process is no longer running; shutdown is complete.
    Done,
}

/// Drives one graceful shutdown. The first stop command goes out before the
/// retry loop; the driver then decides, at each wake-up, from whether the
/// process still reports running, whether to re-send, give up or finish.
pub struct ShutdownDriver {
    retries_used: u32,
    max_retries: u32,
}

/// How many additional stop commands a run of the driver sends, given the
/// running-state observations it will make, one per wake-up.
pub open spec fn stop_sends(used: u32, max: u32, obs: Seq<bool>) -> nat
    decreases obs.len(),
{
    if obs.len() == 0 {
        0
    } else if !obs[0] {
        0
    } else if used >= max {
        0
    } else {
        1 + stop_sends((used + 1) as u32, max, obs.skip(1))
    }
}

/// However the managed process behaves — never exiting included — a driver
/// with `max - used` retries left sends at most that many additional stop
/// commands before returning.
pub proof fn lemma_shutdown_bounded(used: u32, max: u32, obs: Seq<bool>)
    requires
        used <= max,
    ensures
        stop_sends(used, max, obs) <= max - used,
    decreases obs.len(),
{
    if obs.len() > 0 && obs[0] && used < max {
        lemma_shutdown_bounded((used + 1) as u32, max, obs.skip(1));
    }
}

impl ShutdownDriver {
    /// Retries already spent.
    pub closed spec fn spec_used(&self) -> u32 {
        self.retries_used
    }

    /// The retry budget.
    pub closed spec fn spec_max(&self) -> u32 {
        self.max_retries
    }

    /// A fresh driver with its whole retry budget.
    pub fn new(max_retries: u32) -> (d: Self)
        ensures
            d.spec_used() == 0,
            d.spec_max() == max_retries,
    {
        ShutdownDriver { retries_used: 0, max_retries }
    }

    /// One wake-up of the retry loop: a process no longer running ends the
    /// shutdown; an exhausted budget gives up; otherwise one more stop
    /// command is due and one retry is spent.
    pub fn step(&mut self, still_running: bool) -> (r: ShutdownStep)
        ensures
            final(self).spec_max() == old(self).spec_max(),
            !still_running ==> r == ShutdownStep::Done && final(self).spec_used() == old(
                self,
            ).spec_used(),
            still_running && old(self).spec_used() >= old(self).spec_max() ==> r
                == ShutdownStep::GiveUp && final(self).spec_used() == old(self).spec_used(),
            still_running && old(self).spec_used() < old(self).spec_max() ==> r
                == ShutdownStep::SendStopAndWait && final(self).spec_used() == old(self).spec_used()
                + 1,
    {
        if !still_running {
            ShutdownStep::Done
        } else if self.retries_used >= self.max_retries {
            ShutdownStep::GiveUp
        } else {
            self.retries_used = self.retries_used + 1;
            ShutdownStep::SendStopAndWait
        }
    }
}

} // verus!
