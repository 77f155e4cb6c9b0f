//! The persistence-sink adapter: structured log records, accumulated in
//! arrival order and tagged with the producer-side timestamp.
//!
//! Writing the records out is the surrounding program's job; the adapter
//! itself never re-enters application logic.

use vstd::prelude::*;
use crate::error::Error;
use crate::signal::{LogEntry, LogEntryV, LoggerSignal, LoggerSignalV};

verus! {

/// One flushed record: a timestamp, a group name, and the entries that
/// share them.
#[derive(Debug, PartialEq)]
pub struct LogRecord {
    pub time: i64,
    pub group: String,
    pub entries: Vec<LogEntry>,
}

/// The abstract value of a `LogRecord`.
pub struct LogRecordV {
    pub time: int,
    pub group: Seq<char>,
    pub entries: Seq<LogEntryV>,
}

impl View for LogRecord {
    type V = LogRecordV;

    open spec fn view(&self) -> LogRecordV {
        LogRecordV {
            time: self.time as int,
            group: self.group@,
            entries: self.entries@.map_values(|e: LogEntry| e@),
        }
    }
}

/// The record one logging request becomes at a given receipt time.
pub open spec fn record_of(time: int, sig: LoggerSignalV) -> LogRecordV {
    match sig {
        LoggerSignalV::Append(group, entry) => LogRecordV { time, group, entries: seq![entry] },
        LoggerSignalV::Extend(group, entries) => LogRecordV { time, group, entries },
    }
}

/// The sink adapter. Records accumulate here verbatim, in arrival order.
pub struct Logger {
    records: Vec<LogRecord>,
}

impl Logger {
    pub closed spec fn records(&self) -> Seq<LogRecordV> {
        self.records@.map_values(|r: LogRecord| r@)
    }

    pub fn new() -> (r: Logger)
        ensures
            r.records() == Seq::<LogRecordV>::empty(),
    {
        let r = Logger { records: Vec::new() };
        proof {
            assert(r.records() =~= Seq::<LogRecordV>::empty());
        }
        r
    }

    /// Accepts one logging request, tagged with the receipt timestamp its
    /// producer supplied.
    pub fn update(&mut self, time: i64, sig: LoggerSignal) -> (r: Result<(), Error>)
        ensures
            r is Ok,
            final(self).records() == old(self).records().push(record_of(time as int, sig@)),
    {
        let record = match sig {
            LoggerSignal::Append(group, entry) => {
                let mut entries: Vec<LogEntry> = Vec::new();
                entries.push(entry);
                LogRecord { time, group, entries }
            },
            LoggerSignal::Extend(group, entries) => LogRecord { time, group, entries },
        };
        proof {
            assert(record@.entries =~= record_of(time as int, sig@).entries);
        }
        self.records.push(record);
        proof {
            assert(self.records() =~= old(self).records().push(record_of(time as int, sig@)));
        }
        Ok(())
    }

    /// Closes the sink. The records stay available for the surrounding
    /// program to write out; the adapter itself has nothing left to fail
    /// on.
    pub fn finish(&mut self) -> (r: Result<(), Error>)
        ensures
            r is Ok,
            final(self).records() == old(self).records(),
    {
        Ok(())
    }

    /// Hands the accumulated records out for persistence.
    pub fn take(self) -> (r: Vec<LogRecord>)
        ensures
            r@.map_values(|x: LogRecord| x@) == self.records(),
    {
        self.records
    }
}

} // verus!
