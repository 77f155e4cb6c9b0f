//! The key-logging action: captures every key press into a log group.

use vstd::prelude::*;
use crate::action::StatefulAction;
use crate::error::Error;
use crate::queue::SignalQueue;
use crate::signal::{
    payloads, AsyncSignal, Key, KeySet, LogEntry, LogEntryV, LogValue, LogValueV, LoggerSignal,
    LoggerSignalV,
};

verus! {

/// The log group key presses go to when the task gives none.
pub fn group() -> (r: String)
    ensures
        r@ == "keypress"@,
{
    String::from_str("keypress")
}

#[derive(Debug, PartialEq)]
pub struct KeyLogger {
    pub group: String,
}

impl KeyLogger {
    pub fn new(group: String) -> (r: KeyLogger)
        ensures
            r.group == group,
    {
        KeyLogger { group }
    }

    /// Instantiates the runtime state.
    ///
    /// Fails exactly when the group name is empty.
    pub fn stateful(&self) -> (r: Result<StatefulAction, Error>)
        ensures
            self.group@.len() == 0 ==> (r matches Err(e) && e is InvalidNameError),
            self.group@.len() > 0 ==> (r matches Ok(s) && (s matches StatefulAction::KeyLogger(
                k,
            ) && (!k.done && k.group@ == self.group@))),
    {
        if self.group.as_str().unicode_len() == 0 {
            return Err(
                Error::InvalidNameError(
                    String::from_str("KeyLogger `group` cannot be an empty string"),
                ),
            );
        }
        Ok(StatefulAction::KeyLogger(StatefulKeyLogger { done: false, group: self.group.clone() }))
    }
}

#[derive(Debug, PartialEq)]
pub struct StatefulKeyLogger {
    pub done: bool,
    pub group: String,
}

/// The log entry recording one set of pressed keys: their names, in the
/// set's stored order, under the field `key`.
pub open spec fn key_entry(keys: KeySet) -> LogEntryV {
    LogEntryV {
        name: "key"@,
        value: LogValueV::TextList(keys.seq().map_values(|k: Key| k.name_spec())),
    }
}

impl StatefulKeyLogger {
    /// Logs the start of the capture into the group.
    pub fn start(&mut self, async_q: &mut SignalQueue<AsyncSignal>) -> (r: Result<(), Error>)
        ensures
            r is Ok,
            *final(self) == *old(self),
            payloads(final(async_q)@) == payloads(old(async_q)@).push(
                LoggerSignalV::Append(
                    old(self).group@,
                    LogEntryV { name: "event"@, value: LogValueV::Text("start"@) },
                ),
            ),
            final(async_q).is_closed() == old(async_q).is_closed(),
    {
        async_q.push_log(
            LoggerSignal::Append(
                self.group.clone(),
                LogEntry::new(String::from_str("event"), LogValue::Text(String::from_str("start"))),
            ),
        );
        Ok(())
    }

    /// Logs the names of the keys pressed in one tick into the group.
    pub fn update(&mut self, keys: &KeySet, async_q: &mut SignalQueue<AsyncSignal>) -> (r: Result<
        (),
        Error,
    >)
        ensures
            r is Ok,
            *final(self) == *old(self),
            payloads(final(async_q)@) == payloads(old(async_q)@).push(
                LoggerSignalV::Append(old(self).group@, key_entry(*keys)),
            ),
            final(async_q).is_closed() == old(async_q).is_closed(),
    {
        let names = keys.names();
        proof {
            assert(names@.map_values(|s: String| s@) =~= keys.seq().map_values(
                |k: Key| k.name_spec(),
            ));
        }
        async_q.push_log(
            LoggerSignal::Append(
                self.group.clone(),
                LogEntry::new(String::from_str("key"), LogValue::TextList(names)),
            ),
        );
        Ok(())
    }

    /// Logs the end of the capture and marks the action done.
    pub fn stop(&mut self, async_q: &mut SignalQueue<AsyncSignal>) -> (r: Result<(), Error>)
        ensures
            r is Ok,
            *final(self) == (StatefulKeyLogger { done: true, ..*old(self) }),
            payloads(final(async_q)@) == payloads(old(async_q)@).push(
                LoggerSignalV::Append(
                    old(self).group@,
                    LogEntryV { name: "event"@, value: LogValueV::Text("stop"@) },
                ),
            ),
            final(async_q).is_closed() == old(async_q).is_closed(),
    {
        async_q.push_log(
            LoggerSignal::Append(
                self.group.clone(),
                LogEntry::new(String::from_str("event"), LogValue::Text(String::from_str("stop"))),
            ),
        );
        self.done = true;
        Ok(())
    }

    pub fn debug(&self) -> (r: Vec<(String, String)>)
        ensures
            r@.len() == 2,
            r@[0].0@ == "done"@,
            self.done ==> r@[0].1@ == "true"@,
            !self.done ==> r@[0].1@ == "false"@,
            r@[1].0@ == "group"@,
            r@[1].1@ == self.group@,
    {
        let mut r: Vec<(String, String)> = Vec::new();
        r.push((String::from_str("done"), crate::util::bool_to_string(self.done)));
        r.push((String::from_str("group"), self.group.clone()));
        r
    }
}

} // verus!
