//! The counter action: a button clicked down to zero.

use vstd::prelude::*;
use crate::action::StatefulAction;
use crate::error::Error;
use crate::queue::SignalQueue;
use crate::signal::SyncSignal;
use crate::util::{dec_str, u64_to_string};

verus! {

/// The starting count when the task gives none.
pub fn from() -> (r: u32)
    ensures
        r == 3,
{
    3
}

#[derive(Debug, PartialEq, Eq, Structural)]
pub struct Counter {
    pub from: u32,
}

impl From<u32> for Counter {
    fn from(i: u32) -> (r: Self)
        ensures
            r.from == i,
    {
        Self { from: i }
    }
}

impl vstd::std_specs::convert::FromSpecImpl<u32> for Counter {
    open spec fn obeys_from_spec() -> bool {
        true
    }

    open spec fn from_spec(i: u32) -> Self {
        Counter { from: i }
    }
}

impl Counter {
    /// A counter needs no preloaded resources.
    pub fn resources(&self) -> (r: Vec<String>)
        ensures
            r@.len() == 0,
    {
        Vec::new()
    }

    /// Instantiates the runtime state: already done when starting at zero.
    pub fn stateful(&self) -> (r: Result<StatefulAction, Error>)
        ensures
            r == Ok::<StatefulAction, Error>(
                StatefulAction::Counter(
                    StatefulCounter { done: self.from == 0, count: self.from },
                ),
            ),
    {
        Ok(StatefulAction::Counter(StatefulCounter { done: self.from == 0, count: self.from }))
    }
}

#[derive(Debug, PartialEq, Eq, Structural)]
pub struct StatefulCounter {
    pub done: bool,
    pub count: u32,
}

/// The label shown on the counter's button for a given remaining count.
pub open spec fn label_spec(count: u32) -> Seq<char> {
    "Click me "@ + dec_str(count as nat) + " more times"@
}

impl StatefulCounter {
    /// One render pass of the counter: shows the remaining count and, on a
    /// click, counts down; at zero the action is done and asks the tree to
    /// re-evaluate.
    pub fn show(&mut self, clicked: bool, sync_q: &mut SignalQueue<SyncSignal>) -> (r: Result<
        String,
        Error,
    >)
        ensures
            r matches Ok(label) && label@ == label_spec(old(self).count),
            !clicked ==> *final(self) == *old(self) && final(sync_q)@ == old(sync_q)@,
            clicked && old(self).count > 1 ==> *final(self) == (StatefulCounter {
                count: (old(self).count - 1) as u32,
                ..*old(self)
            }) && final(sync_q)@ == old(sync_q)@,
            clicked && old(self).count <= 1 ==> *final(self) == (StatefulCounter {
                done: true,
                count: 0,
            }) && final(sync_q)@ == old(sync_q)@.push(SyncSignal::UpdateGraph),
            final(sync_q).is_closed() == old(sync_q).is_closed(),
    {
        let mut label = String::from_str("Click me ");
        label.append(u64_to_string(self.count as u64).as_str());
        label.append(" more times");
        if clicked {
            self.count = if self.count > 0 {
                self.count - 1
            } else {
                0
            };
            if self.count == 0 {
                self.done = true;
                sync_q.push(SyncSignal::UpdateGraph);
            }
        }
        Ok(label)
    }

    /// Stops the counter outright.
    pub fn stop(&mut self) -> (r: Result<(), Error>)
        ensures
            r is Ok,
            *final(self) == (StatefulCounter { done: true, ..*old(self) }),
    {
        self.done = true;
        Ok(())
    }

    pub fn debug(&self) -> (r: Vec<(String, String)>)
        ensures
            r@.len() == 2,
            r@[0].0@ == "done"@,
            self.done ==> r@[0].1@ == "true"@,
            !self.done ==> r@[0].1@ == "false"@,
            r@[1].0@ == "count"@,
            r@[1].1@ == dec_str(self.count as nat),
    {
        let mut r: Vec<(String, String)> = Vec::new();
        r.push((String::from_str("done"), crate::util::bool_to_string(self.done)));
        r.push((String::from_str("count"), u64_to_string(self.count as u64)));
        r
    }
}

} // verus!
