//! The resolved configuration values the core reads.

use vstd::prelude::*;
use crate::resource::audio::{TimePrecision, UseTrigger};

verus! {

/// The configuration slice the orchestration core consumes: the base
/// playback volume (in per-mille of full scale) and the resolved audio
/// settings. Parsing and merging of configuration files happen outside.
#[derive(Debug, Clone, Copy, PartialEq)]
pub struct Config {
    volume: u32,
    use_trigger: UseTrigger,
    time_precision: TimePrecision,
}

impl Config {
    pub closed spec fn volume_spec(&self) -> u32 {
        self.volume
    }

    pub open spec fn wf(&self) -> bool {
        self.volume_spec() <= 1000
    }

    pub closed spec fn use_trigger_spec(&self) -> UseTrigger {
        self.use_trigger
    }

    pub closed spec fn time_precision_spec(&self) -> TimePrecision {
        self.time_precision
    }

    pub fn new(volume: u32, use_trigger: UseTrigger, time_precision: TimePrecision) -> (r: Config)
        requires
            volume <= 1000,
        ensures
            r.volume_spec() == volume,
            r.use_trigger_spec() == use_trigger,
            r.time_precision_spec() == time_precision,
            r.wf(),
    {
        Config { volume, use_trigger, time_precision }
    }

    /// An action's volume override resolved against the configured base:
    /// the override wins where present.
    pub open spec fn resolved_volume(&self, v: Option<u32>) -> u32 {
        match v {
            Some(x) => x,
            None => self.volume_spec(),
        }
    }

    /// Resolves an action's volume override against the configured base:
    /// the override wins where present.
    pub fn volume(&self, v: Option<u32>) -> (r: u32)
        ensures
            r == self.resolved_volume(v),
    {
        match v {
            Some(x) => x,
            None => self.volume,
        }
    }

    pub fn use_trigger(&self) -> (r: UseTrigger)
        ensures
            r == self.use_trigger_spec(),
    {
        self.use_trigger
    }

    pub fn time_precision(&self) -> (r: TimePrecision)
        ensures
            r == self.time_precision_spec(),
    {
        self.time_precision
    }
}

impl Default for Config {
    /// Full volume, audio settings left to inherit.
    fn default() -> (r: Config)
        ensures
            r.volume_spec() == 1000,
            r.use_trigger_spec() == UseTrigger::Inherit,
            r.time_precision_spec() == TimePrecision::Inherit,
            r.wf(),
    {
        Config {
            volume: 1000,
            use_trigger: UseTrigger::Inherit,
            time_precision: TimePrecision::Inherit,
        }
    }
}

} // verus!
