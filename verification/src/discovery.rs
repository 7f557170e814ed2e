//! Pid discovery: when the directly spawned process is only a launcher, the
//! real worker is found by polling the process tree for a descendant with a
//! known name, on a fixed interval and with a bounded number of polls.

use crate::process_tree::ProcessInfo;
use vstd::prelude::*;

verus! {

/// The pid of the first process at or past `i` whose name is `target`.
pub open spec fn first_match_from(s: Seq<ProcessInfo>, target: Seq<char>, i: int) -> Option<u32>
    decreases s.len() - i,
{
    if i < 0 || i >= s.len() {
        None
    } else if s[i].name@ == target {
        Some(s[i].pid)
    } else {
        first_match_from(s, target, i + 1)
    }
}

/// The pid of the first process of `s` whose name is `target`, if any.
pub open spec fn first_match(s: Seq<ProcessInfo>, target: Seq<char>) -> Option<u32> {
    first_match_from(s, target, 0)
}

/// The pid of the first process of `procs` whose name equals `target`.
pub fn find_by_name(procs: &Vec<ProcessInfo>, target: &String) -> (r: Option<u32>)
    ensures
        r == first_match(procs@, target@),
{
    let mut i: usize = 0;
    while i < procs.len()
        invariant
            i <= procs@.len(),
            first_match(procs@, target@) == first_match_from(procs@, target@, i as int),
        decreases procs@.len() - i,
    {
        if procs[i].name == *target {
            return Some(procs[i].pid);
        }
        i = i + 1;
    }
    None
}

/// What the discovery loop does at one wake-up.
#[derive(Clone, Copy, Debug, PartialEq, Eq, Structural)]
pub enum DiscoveryStep {
    /// The real worker was found; track this pid from now on.
    Found(u32),
    /// Nothing yet; sleep one interval and scan again.
    PollAgain,
    /// The poll budget is spent. Reported but not fatal: supervision goes on
    /// against the originally spawned pid, so resource sampling may then
    /// reflect the wrong process.
    TimedOut,
}

/// Drives one pid discovery, spending one poll from a fixed budget per scan.
pub struct DiscoveryDriver {
    polls_left: u32,
}

impl DiscoveryDriver {
    /// Polls still allowed.
    pub closed spec fn spec_polls_left(&self) -> u32 {
        self.polls_left
    }

    /// A fresh driver allowing `max_polls` scans, the timeout divided by the
    /// poll interval.
    pub fn new(max_polls: u32) -> (d: Self)
        ensures
            d.spec_polls_left() == max_polls,
    {
        DiscoveryDriver { polls_left: max_polls }
    }

    /// One wake-up of the discovery loop: with the budget spent it times
    /// out; otherwise one poll is spent on the scan handed in — absent when
    /// the scanner failed — and the first descendant named `target` ends the
    /// search.
    pub fn step(&mut self, scan: Option<&Vec<ProcessInfo>>, target: &String) -> (r: DiscoveryStep)
        ensures
            final(self).spec_polls_left() == (if old(self).spec_polls_left() == 0 {
                0u32
            } else {
                (old(self).spec_polls_left() - 1) as u32
            }),
            r == (if old(self).spec_polls_left() == 0 {
                DiscoveryStep::TimedOut
            } else {
                match scan {
                    Some(procs) => match first_match(procs@, target@) {
                        Some(pid) => DiscoveryStep::Found(pid),
                        None => DiscoveryStep::PollAgain,
                    },
                    None => DiscoveryStep::PollAgain,
                }
            }),
    {
        if self.polls_left == 0 {
            return DiscoveryStep::TimedOut;
        }
        self.polls_left = self.polls_left - 1;
        match scan {
            Some(procs) => match find_by_name(procs, target) {
                Some(pid) => DiscoveryStep::Found(pid),
                None => DiscoveryStep::PollAgain,
            },
            None => DiscoveryStep::PollAgain,
        }
    }
}

} // verus!
