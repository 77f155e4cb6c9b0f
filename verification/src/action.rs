//! The closed action vocabulary and its uniform lifecycle contract.
//!
//! Every schedulable unit is one variant of `Action` (its static
//! description) and `StatefulAction` (its runtime instance), so the Sync
//! Processor can match exhaustively and adding a kind is a compile-time
//! event.

pub mod counter;
pub mod key_logger;
pub mod nil;
pub mod stream;

use vstd::prelude::*;
use crate::action::counter::{Counter, StatefulCounter};
use crate::action::key_logger::{KeyLogger, StatefulKeyLogger};
use crate::action::nil::{Nil, StatefulNil};
use crate::action::stream::{DoneState, StatefulStream, Stream, StreamWorker};
use crate::config::Config;
use crate::error::Error;
use crate::queue::SignalQueue;
use crate::resource::ResourceMap;
use crate::scheduler::State;
use crate::signal::{payloads, AsyncSignal, KeySet, LogEntryV, LogValueV, LoggerSignalV, SyncSignal};

verus! {

/// The capability set of a runtime action: whether it draws, whether it
/// can end on its own, whether it animates between inputs, and whether it
/// captures key presses.
#[derive(Debug, Clone, Copy, PartialEq, Eq, Structural)]
pub struct Props {
    pub visual: bool,
    pub finite: bool,
    pub animated: bool,
    pub cap_keys: bool,
}

impl Props {
    /// No capabilities: invisible, endless, still, deaf to keys.
    pub fn none() -> (r: Props)
        ensures
            r == (Props { visual: false, finite: false, animated: false, cap_keys: false }),
    {
        Props { visual: false, finite: false, animated: false, cap_keys: false }
    }

    pub fn visual(&self) -> (r: bool)
        ensures
            r == self.visual,
    {
        self.visual
    }

    pub fn finite(&self) -> (r: bool)
        ensures
            r == self.finite,
    {
        self.finite
    }

    pub fn animated(&self) -> (r: bool)
        ensures
            r == self.animated,
    {
        self.animated
    }

    pub fn cap_keys(&self) -> (r: bool)
        ensures
            r == self.cap_keys,
    {
        self.cap_keys
    }
}

/// An update event forwarded into the tree by the Sync Processor.
#[derive(Debug, PartialEq)]
pub enum ActionSignal {
    KeyPress(i64, KeySet),
}

/// The latest decoded frame, as the render step reads it from the shared
/// frame slot: a texture handle and its pixel size.
#[derive(Debug, Clone, Copy, PartialEq, Eq, Structural)]
pub struct FrameRef {
    pub texture: u64,
    pub width: u32,
    pub height: u32,
}

/// What the render surface feeds into one render pass.
#[derive(Debug, PartialEq)]
pub struct ShowInput {
    pub clicked: bool,
    pub frame: Option<FrameRef>,
}

/// What one render pass asks the surface to draw.
#[derive(Debug, PartialEq)]
pub enum RenderOut {
    Nothing,
    Label(String),
    Image(Option<FrameRef>, Option<u16>),
}

/// The static description of one schedulable unit.
#[derive(Debug, PartialEq)]
pub enum Action {
    Nil(Nil),
    KeyLogger(KeyLogger),
    Counter(Counter),
    Stream(Stream),
}

impl Action {
    /// The resource keys the action needs preloaded.
    pub fn resources(&self, config: &Config) -> (r: Vec<String>)
        ensures
            match self {
                Action::Stream(s) => r@.len() == 1 && r@[0]@ == s.src@ + "#stream"@,
                _ => r@.len() == 0,
            },
    {
        match self {
            Action::Nil(_) => Vec::new(),
            Action::KeyLogger(_) => Vec::new(),
            Action::Counter(c) => c.resources(),
            Action::Stream(s) => s.resources(),
        }
    }

    /// Whether the static description is valid: only a streaming action
    /// has anything to check.
    pub open spec fn init_ok(&self) -> bool {
        match self {
            Action::Stream(s) => s.init_ok(),
            _ => true,
        }
    }

    /// Validates the static description before any resource is touched.
    pub fn init(&self) -> (r: Result<(), Error>)
        ensures
            r is Ok <==> self.init_ok(),
            !self.init_ok() ==> (r matches Err(e) && e is TaskDefinitionError),
    {
        match self {
            Action::Stream(s) => s.init(),
            _ => Ok(()),
        }
    }

    /// Instantiates the runtime state; a streaming action also yields the
    /// worker that its decode thread will run.
    ///
    /// Construction-time failures come only from the variants that
    /// validate or bind resources.
    pub fn stateful(&self, res: &ResourceMap, config: &Config) -> (r: Result<
        (StatefulAction, Option<StreamWorker>),
        Error,
    >)
        ensures
            match self {
                Action::Nil(_) => r matches Ok((a, w)) && a == StatefulAction::Nil(
                    StatefulNil { done: false },
                ) && w is None,
                Action::KeyLogger(k) => {
                    &&& k.group@.len() == 0 ==> (r matches Err(e) && e is InvalidNameError)
                    &&& k.group@.len() > 0 ==> (r matches Ok((a, w)) && (
                    a matches StatefulAction::KeyLogger(s) && (!s.done && s.group@ == k.group@
                        && w is None)))
                },
                Action::Counter(c) => r matches Ok((a, w)) && a == StatefulAction::Counter(
                    StatefulCounter { done: c.from == 0, count: c.from },
                ) && w is None,
                Action::Stream(s) => match r {
                    Ok((a, w)) => w matches Some(wk)
                        && crate::action::stream::stateful_post(*s, *res, *config, Ok((a, wk))),
                    Err(e) => crate::action::stream::stateful_post(*s, *res, *config, Err(e)),
                },
            },
    {
        match self {
            Action::Nil(n) => match n.stateful() {
                Ok(a) => Ok((a, None)),
                Err(e) => Err(e),
            },
            Action::KeyLogger(k) => match k.stateful() {
                Ok(a) => Ok((a, None)),
                Err(e) => Err(e),
            },
            Action::Counter(c) => match c.stateful() {
                Ok(a) => Ok((a, None)),
                Err(e) => Err(e),
            },
            Action::Stream(s) => match s.stateful(res, config) {
                Ok((a, w)) => Ok((a, Some(w))),
                Err(e) => Err(e),
            },
        }
    }
}

/// The runtime instance of one schedulable unit.
#[derive(Debug, PartialEq)]
pub enum StatefulAction {
    Nil(StatefulNil),
    KeyLogger(StatefulKeyLogger),
    Counter(StatefulCounter),
    Stream(StatefulStream),
}

impl StatefulAction {
    /// The capability set of each kind: a key logger captures keys, a
    /// counter draws, a stream draws and animates while it has video and
    /// is finite unless it loops, and the empty action can do nothing.
    pub open spec fn props_spec(&self) -> Props {
        match self {
            StatefulAction::Nil(_) => Props {
                visual: false,
                finite: false,
                animated: false,
                cap_keys: false,
            },
            StatefulAction::KeyLogger(_) => Props {
                visual: false,
                finite: false,
                animated: false,
                cap_keys: true,
            },
            StatefulAction::Counter(_) => Props {
                visual: true,
                finite: false,
                animated: false,
                cap_keys: false,
            },
            StatefulAction::Stream(s) => Props {
                visual: s.framerate_num > 0,
                finite: !s.looping,
                animated: s.framerate_num > 0,
                cap_keys: false,
            },
        }
    }

    pub fn props(&self) -> (r: Props)
        ensures
            r == self.props_spec(),
    {
        match self {
            StatefulAction::Nil(_) => Props::none(),
            StatefulAction::KeyLogger(_) => Props {
                visual: false,
                finite: false,
                animated: false,
                cap_keys: true,
            },
            StatefulAction::Counter(_) => Props {
                visual: true,
                finite: false,
                animated: false,
                cap_keys: false,
            },
            StatefulAction::Stream(s) => s.props(),
        }
    }

    /// Whether the action is over; a stream surfaces its decode failure
    /// here.
    pub open spec fn is_over_spec(&self) -> Result<bool, Error> {
        match self {
            StatefulAction::Nil(n) => Ok(n.done),
            StatefulAction::KeyLogger(k) => Ok(k.done),
            StatefulAction::Counter(c) => Ok(c.done),
            StatefulAction::Stream(s) => match s.done {
                DoneState::Running => Ok(false),
                DoneState::Finished => Ok(true),
                DoneState::Failed(e) => Err(e),
            },
        }
    }

    pub fn is_over(&self) -> (r: Result<bool, Error>)
        ensures
            r == self.is_over_spec(),
    {
        match self {
            StatefulAction::Nil(n) => Ok(n.done),
            StatefulAction::KeyLogger(k) => Ok(k.done),
            StatefulAction::Counter(c) => Ok(c.done),
            StatefulAction::Stream(s) => s.is_over(),
        }
    }

    /// Starts the action. A key logger logs the start of its capture; a
    /// stream hands its one-shot start trigger out, which can happen once.
    pub fn start(&mut self, state: &State, async_q: &mut SignalQueue<AsyncSignal>) -> (r: Result<
        (),
        Error,
    >)
        ensures
            final(async_q).is_closed() == old(async_q).is_closed(),
            match *old(self) {
                StatefulAction::KeyLogger(k) => r is Ok && *final(self) == *old(self) && payloads(
                    final(async_q)@,
                ) == payloads(old(async_q)@).push(
                    LoggerSignalV::Append(
                        k.group@,
                        LogEntryV { name: "event"@, value: LogValueV::Text("start"@) },
                    ),
                ),
                StatefulAction::Stream(s) => final(async_q)@ == old(async_q)@ && {
                    &&& s.link_taken ==> (r matches Err(e) && e is InternalError && *final(self)
                        == *old(self))
                    &&& !s.link_taken ==> r is Ok && *final(self) == StatefulAction::Stream(
                        StatefulStream { link_taken: true, ..s },
                    )
                },
                _ => r is Ok && *final(self) == *old(self) && final(async_q)@ == old(async_q)@,
            },
    {
        match self {
            StatefulAction::Nil(_) => Ok(()),
            StatefulAction::KeyLogger(k) => k.start(async_q),
            StatefulAction::Counter(_) => Ok(()),
            StatefulAction::Stream(s) => s.start(),
        }
    }

    /// Forwards one update event. Only a key-capturing action reacts: the
    /// key logger records the pressed keys.
    pub fn update(
        &mut self,
        signal: &ActionSignal,
        state: &State,
        async_q: &mut SignalQueue<AsyncSignal>,
    ) -> (r: Result<(), Error>)
        ensures
            r is Ok,
            final(async_q).is_closed() == old(async_q).is_closed(),
            match *old(self) {
                StatefulAction::KeyLogger(k) => *final(self) == *old(self) && (signal matches
                ActionSignal::KeyPress(t, keys) ==> payloads(final(async_q)@) == payloads(
                    old(async_q)@,
                ).push(LoggerSignalV::Append(k.group@, crate::action::key_logger::key_entry(*keys)))),
                _ => *final(self) == *old(self) && final(async_q)@ == old(async_q)@,
            },
    {
        match self {
            StatefulAction::KeyLogger(k) => match signal {
                ActionSignal::KeyPress(_, keys) => k.update(keys, async_q),
            },
            _ => Ok(()),
        }
    }

    /// One render pass: what to draw, and the state change an interaction
    /// causes. A counter counts a click down and asks for a graph update
    /// at zero; a stream shows the latest decoded frame.
    pub fn show(
        &mut self,
        input: &ShowInput,
        state: &State,
        sync_q: &mut SignalQueue<SyncSignal>,
    ) -> (r: Result<RenderOut, Error>)
        ensures
            final(sync_q).is_closed() == old(sync_q).is_closed(),
            match *old(self) {
                StatefulAction::Counter(c) => {
                    &&& r matches Ok(out) && (out matches RenderOut::Label(l) && l@
                        == crate::action::counter::label_spec(c.count))
                    &&& !input.clicked ==> *final(self) == *old(self) && final(sync_q)@ == old(
                        sync_q,
                    )@
                    &&& input.clicked && c.count > 1 ==> *final(self) == StatefulAction::Counter(
                        StatefulCounter { count: (c.count - 1) as u32, ..c },
                    ) && final(sync_q)@ == old(sync_q)@
                    &&& input.clicked && c.count <= 1 ==> *final(self) == StatefulAction::Counter(
                        StatefulCounter { done: true, count: 0 },
                    ) && final(sync_q)@ == old(sync_q)@.push(SyncSignal::UpdateGraph)
                },
                StatefulAction::Stream(s) => r == Ok::<RenderOut, Error>(
                    RenderOut::Image(input.frame, s.width),
                ) && *final(self) == *old(self) && final(sync_q)@ == old(sync_q)@,
                _ => r == Ok::<RenderOut, Error>(RenderOut::Nothing) && *final(self) == *old(self)
                    && final(sync_q)@ == old(sync_q)@,
            },
    {
        match self {
            StatefulAction::Nil(_) => Ok(RenderOut::Nothing),
            StatefulAction::KeyLogger(_) => Ok(RenderOut::Nothing),
            StatefulAction::Counter(c) => match c.show(input.clicked, sync_q) {
                Ok(label) => Ok(RenderOut::Label(label)),
                Err(e) => Err(e),
            },
            StatefulAction::Stream(s) => Ok(RenderOut::Image(input.frame, s.width)),
        }
    }

    /// Stops the action: it is over afterwards. A key logger logs the end
    /// of its capture.
    pub fn stop(&mut self, state: &State, async_q: &mut SignalQueue<AsyncSignal>) -> (r: Result<
        (),
        Error,
    >)
        ensures
            r is Ok,
            final(async_q).is_closed() == old(async_q).is_closed(),
            final(self).is_over_spec() == Ok::<bool, Error>(true),
            match *old(self) {
                StatefulAction::KeyLogger(k) => payloads(final(async_q)@) == payloads(
                    old(async_q)@,
                ).push(
                    LoggerSignalV::Append(
                        k.group@,
                        LogEntryV { name: "event"@, value: LogValueV::Text("stop"@) },
                    ),
                ),
                _ => final(async_q)@ == old(async_q)@,
            },
    {
        match self {
            StatefulAction::Nil(n) => {
                n.done = true;
                Ok(())
            },
            StatefulAction::KeyLogger(k) => k.stop(async_q),
            StatefulAction::Counter(c) => c.stop(),
            StatefulAction::Stream(s) => s.stop(),
        }
    }

    /// A human-readable dump of the state, for diagnostics.
    pub fn debug(&self) -> (r: Vec<(String, String)>)
        ensures
            r@.len() >= 1,
    {
        match self {
            StatefulAction::Nil(n) => {
                let mut r: Vec<(String, String)> = Vec::new();
                r.push((String::from_str("done"), crate::util::bool_to_string(n.done)));
                r
            },
            StatefulAction::KeyLogger(k) => k.debug(),
            StatefulAction::Counter(c) => c.debug(),
            StatefulAction::Stream(s) => s.debug(),
        }
    }
}

} // verus!
