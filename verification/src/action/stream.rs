//! The streaming-media action and its decode-thread protocol.
//!
//! A decode thread owns the media handle; it is started over a one-shot
//! trigger and acknowledges its exit over a one-shot channel. The thread
//! plumbing lives outside the library; every decision of the decode loop —
//! when to pause, when to restart, when to record the outcome into the
//! shared `done` cell and exit — is the verified step function below.

use vstd::prelude::*;
use crate::action::{Props, StatefulAction};
use crate::config::Config;
use crate::error::Error;
use crate::resource::{ResourceMap, ResourceValue};
use crate::util::{bool_to_string, dec_str, u64_to_string};

verus! {

/// The outcome cell shared between a stream's decode thread and its owning
/// action: still running, ended (also forced by `stop`), or failed.
#[derive(Debug, PartialEq)]
pub enum DoneState {
    Running,
    Finished,
    Failed(Error),
}

impl Clone for DoneState {
    fn clone(&self) -> (r: Self)
        ensures
            r == *self,
    {
        match self {
            DoneState::Running => DoneState::Running,
            DoneState::Finished => DoneState::Finished,
            DoneState::Failed(e) => DoneState::Failed(e.clone()),
        }
    }
}

/// What the decode loop does after one step.
#[derive(Debug, PartialEq, Eq, Structural)]
pub enum DecodeStep {
    /// Keep looping: sleep one frame period and step again.
    Continue,
    /// The stop channel was dropped: the stream paused, the thread exits.
    Stop,
    /// The outcome has been recorded into `done`: the thread exits.
    Exit,
}

/// The streaming action as described by the task.
#[derive(Debug, PartialEq)]
pub struct Stream {
    pub src: String,
    pub width: Option<u16>,
    pub volume: Option<u32>,
    pub looping: bool,
}

impl Stream {
    /// The resource key of the media: the source path marked as a stream.
    pub fn src(&self) -> (r: String)
        ensures
            r@ == self.src@ + "#stream"@,
    {
        let mut r = self.src.clone();
        r.append("#stream");
        r
    }

    /// The resources the action needs preloaded.
    pub fn resources(&self) -> (r: Vec<String>)
        ensures
            r@.len() == 1,
            r@[0]@ == self.src@ + "#stream"@,
    {
        let mut v: Vec<String> = Vec::new();
        v.push(self.src());
        v
    }

    /// Whether the static description is valid: a volume is given in
    /// per-mille of full scale and cannot exceed it.
    pub open spec fn init_ok(&self) -> bool {
        match self.volume {
            Some(v) => v <= 1000,
            None => true,
        }
    }

    /// Validates the static description.
    pub fn init(&self) -> (r: Result<(), Error>)
        ensures
            r is Ok <==> self.init_ok(),
            !self.init_ok() ==> (r matches Err(e) && e is TaskDefinitionError),
    {
        match self.volume {
            Some(v) if v > 1000 => Err(
                Error::TaskDefinitionError(
                    String::from_str(
                        "Stream volume should be a value between 0 and 1000 per-mille",
                    ),
                ),
            ),
            _ => Ok(()),
        }
    }

    /// Binds the action to its preloaded stream resource and prepares the
    /// runtime state together with the decode worker.
    ///
    /// Fails exactly when the key resolves to a non-stream resource (or
    /// none), or when a width is given for a stream without video. What a
    /// success yields is pinned down by `stateful_post`.
    pub fn stateful(&self, res: &ResourceMap, config: &Config) -> (r: Result<
        (StatefulAction, StreamWorker),
        Error,
    >)
        ensures
            stateful_post(*self, *res, *config, r),
    {
        let key = self.src();
        let value = match res.fetch(&key) {
            Ok(v) => v,
            Err(e) => {
                return Err(e);
            },
        };
        let stream = match value {
            ResourceValue::Stream(s) => s,
            _ => {
                return Err(
                    Error::InvalidResourceError(
                        String::from_str("Stream action supplied non-stream resource"),
                    ),
                );
            },
        };
        let volume = config.volume(self.volume);
        let instance = stream.cloned(volume);
        if !instance.has_video() && self.width.is_some() {
            return Err(
                Error::TaskDefinitionError(
                    String::from_str("Video-less stream should not be supplied a width"),
                ),
            );
        }
        // a handle probed at end of stream yields an action that is over
        // from the start
        let done = if instance.eos() {
            DoneState::Finished
        } else {
            DoneState::Running
        };
        let framerate = instance.framerate();
        let state = StatefulStream {
            done: done.clone(),
            framerate_num: framerate.0,
            framerate_den: framerate.1,
            width: self.width,
            looping: self.looping,
            link_taken: false,
        };
        let worker = StreamWorker { stream: instance, looping: self.looping, done };
        Ok((StatefulAction::Stream(state), worker))
    }
}

/// The outcome cell a freshly bound stream starts with: over already when
/// the handle was probed at end of stream, running otherwise.
pub open spec fn initial_done(eos: bool) -> DoneState {
    if eos {
        DoneState::Finished
    } else {
        DoneState::Running
    }
}

/// Exactly what binding a streaming action yields, case by case: a missing
/// or non-stream resource is refused as an invalid resource; a width on a
/// videoless stream is refused as a task-definition error; otherwise the
/// runtime state carries the stream's framerate and the action's width and
/// looping flag with the start trigger unspent, and the worker holds a
/// playback instance of the same media with the resolved volume.
pub open spec fn stateful_post(
    action: Stream,
    res: ResourceMap,
    config: Config,
    r: Result<(StatefulAction, StreamWorker), Error>,
) -> bool {
    match res.lookup_spec(action.src@ + "#stream"@) {
        Some(ResourceValue::Stream(st)) => {
            if !(st.frame_width > 0 || st.frame_height > 0) && action.width is Some {
                r matches Err(e) && e is TaskDefinitionError
            } else {
                r matches Ok(out) && (out.0 == StatefulAction::Stream(
                    StatefulStream {
                        done: initial_done(st.is_eos),
                        framerate_num: st.framerate_num,
                        framerate_den: st.framerate_den,
                        width: action.width,
                        looping: action.looping,
                        link_taken: false,
                    },
                ) && out.1.looping == action.looping && out.1.done == initial_done(st.is_eos)
                    && out.1.stream.path@ == st.path@ && out.1.stream.frame_width
                    == st.frame_width && out.1.stream.frame_height == st.frame_height
                    && out.1.stream.framerate_num == st.framerate_num
                    && out.1.stream.framerate_den == st.framerate_den && out.1.stream.audio_chan
                    == st.audio_chan && out.1.stream.audio_rate == st.audio_rate
                    && out.1.stream.duration_ms == st.duration_ms && out.1.stream.is_eos
                    == st.is_eos && out.1.stream.paused == st.paused && out.1.stream.volume
                    == config.resolved_volume(action.volume) && !out.1.stream.muted)
            }
        },
        Some(_) => r matches Err(e) && e is InvalidResourceError,
        None => r matches Err(e) && e is InvalidResourceError,
    }
}

/// The runtime state of a streaming action, as the UI side owns it.
#[derive(Debug, PartialEq)]
pub struct StatefulStream {
    pub done: DoneState,
    pub framerate_num: u32,
    pub framerate_den: u32,
    pub width: Option<u16>,
    pub looping: bool,
    pub link_taken: bool,
}

impl StatefulStream {
    /// The capability set: a stream with video is visual and animated; one
    /// that does not loop is finite.
    pub fn props(&self) -> (r: Props)
        ensures
            r.visual == (self.framerate_num > 0),
            r.animated == (self.framerate_num > 0),
            r.finite == !self.looping,
            !r.cap_keys,
    {
        let video = self.framerate_num > 0;
        Props { visual: video, animated: video, finite: !self.looping, cap_keys: false }
    }

    /// Hands the start trigger out. The caller fires the one-shot channel
    /// and spawns the supervisor; this can happen once.
    ///
    /// Fails exactly when the link was already taken.
    pub fn start(&mut self) -> (r: Result<(), Error>)
        ensures
            old(self).link_taken ==> (r matches Err(e) && e is InternalError && *final(self)
                == *old(self)),
            !old(self).link_taken ==> r is Ok && *final(self) == (StatefulStream {
                link_taken: true,
                ..*old(self)
            }),
    {
        if self.link_taken {
            return Err(
                Error::InternalError(
                    String::from_str("Link to streaming thread could not be acquired"),
                ),
            );
        }
        self.link_taken = true;
        Ok(())
    }

    /// Whether the action is over: the decode outcome, surfaced.
    pub fn is_over(&self) -> (r: Result<bool, Error>)
        ensures
            self.done is Running ==> r == Ok::<bool, Error>(false),
            self.done is Finished ==> r == Ok::<bool, Error>(true),
            self.done matches DoneState::Failed(e) ==> r == Err::<bool, Error>(e),
    {
        match &self.done {
            DoneState::Running => Ok(false),
            DoneState::Finished => Ok(true),
            DoneState::Failed(e) => Err(e.clone()),
        }
    }

    /// Mirrors the shared `done` cell into the action, as the UI side sees
    /// it at the start of a lifecycle call.
    pub fn sync_done(&mut self, done: DoneState)
        ensures
            *final(self) == (StatefulStream { done, ..*old(self) }),
    {
        self.done = done;
    }

    /// Forces the stream over; the decode loop observes this through the
    /// shared cell and exits on its next step.
    pub fn stop(&mut self) -> (r: Result<(), Error>)
        ensures
            r is Ok,
            *final(self) == (StatefulStream { done: DoneState::Finished, ..*old(self) }),
    {
        self.done = DoneState::Finished;
        Ok(())
    }

    pub fn debug(&self) -> (r: Vec<(String, String)>)
        ensures
            r@.len() == 3,
            r@[0].0@ == "done"@,
            r@[1].0@ == "framerate"@,
            r@[1].1@ == dec_str(self.framerate_num as nat) + "/"@ + dec_str(
                self.framerate_den as nat,
            ),
            r@[2].0@ == "looping"@,
            self.looping ==> r@[2].1@ == "true"@,
            !self.looping ==> r@[2].1@ == "false"@,
    {
        let mut r: Vec<(String, String)> = Vec::new();
        let done = match &self.done {
            DoneState::Running => String::from_str("running"),
            DoneState::Finished => String::from_str("finished"),
            DoneState::Failed(_) => String::from_str("failed"),
        };
        r.push((String::from_str("done"), done));
        let mut rate = u64_to_string(self.framerate_num as u64);
        rate.append("/");
        rate.append(u64_to_string(self.framerate_den as u64).as_str());
        r.push((String::from_str("framerate"), rate));
        r.push((String::from_str("looping"), bool_to_string(self.looping)));
        r
    }
}

/// Maps the supervisor's join of the decode thread into the outcome cell:
/// a clean join means the stream is over; an error is forwarded; a join
/// failure (`None`) is an internal fault.
pub fn join_outcome(joined: Option<Result<(), Error>>) -> (r: DoneState)
    ensures
        joined matches Some(Ok(u)) ==> r == DoneState::Finished,
        joined matches Some(Err(e)) ==> r == DoneState::Failed(e),
        joined is None ==> (r matches DoneState::Failed(e) && e is InternalError),
{
    match joined {
        Some(Ok(())) => DoneState::Finished,
        Some(Err(e)) => DoneState::Failed(e),
        None => DoneState::Failed(
            Error::InternalError(
                String::from_str("Failed to graciously close stream decoder thread"),
            ),
        ),
    }
}

/// The decode-thread side of one stream: the media handle model, whether
/// playback loops, and the thread's view of the shared outcome cell.
#[derive(Debug, PartialEq)]
pub struct StreamWorker {
    pub stream: crate::resource::stream::Stream,
    pub looping: bool,
    pub done: DoneState,
}

/// The kind of a `DoneState`, without the carried error.
#[derive(PartialEq, Eq, Structural)]
pub enum DoneKind {
    Running,
    Finished,
    Failed,
}

pub open spec fn done_kind(d: DoneState) -> DoneKind {
    match d {
        DoneState::Running => DoneKind::Running,
        DoneState::Finished => DoneKind::Finished,
        DoneState::Failed(_) => DoneKind::Failed,
    }
}

/// The abstract state of a decode worker: the two handle flags, whether
/// playback loops, and the kind of the outcome cell.
pub struct WorkerM {
    pub eos: bool,
    pub paused: bool,
    pub looping: bool,
    pub done: DoneKind,
}

impl StreamWorker {
    pub open spec fn model(&self) -> WorkerM {
        WorkerM {
            eos: self.stream.is_eos,
            paused: self.stream.paused,
            looping: self.looping,
            done: done_kind(self.done),
        }
    }
}

/// What one decode step does to the abstract worker state, as a function
/// of the step's observations: whether the stop channel was found dropped,
/// and whether the bus showed an error or an end-of-stream message.
///
/// The outcome cell is written at most here: end of stream without looping
/// records `Finished` and exits; end of stream with looping restarts the
/// handle and records nothing; a bus error records `Failed` and the loop
/// keeps polling; a cell already `Finished` (a stop request) exits.
pub open spec fn decode_step_m(m: WorkerM, stop_disconnected: bool, saw_error: bool, saw_eos: bool)
    -> (WorkerM, DecodeStep) {
    if stop_disconnected {
        (WorkerM { paused: true, ..m }, DecodeStep::Stop)
    } else if m.eos {
        // the handle had already ended: record and exit, after the bus
        // round still applied its own transition
        if saw_error {
            (WorkerM { done: DoneKind::Finished, ..m }, DecodeStep::Exit)
        } else if saw_eos && m.looping {
            (
                WorkerM { eos: false, paused: false, done: DoneKind::Finished, ..m },
                DecodeStep::Exit,
            )
        } else if saw_eos {
            (WorkerM { eos: true, paused: true, done: DoneKind::Finished, ..m }, DecodeStep::Exit)
        } else {
            (WorkerM { done: DoneKind::Finished, ..m }, DecodeStep::Exit)
        }
    } else if saw_error {
        (WorkerM { done: DoneKind::Failed, ..m }, DecodeStep::Continue)
    } else if saw_eos && m.looping {
        (
            WorkerM { eos: false, paused: false, ..m },
            if m.done == DoneKind::Finished {
                DecodeStep::Exit
            } else {
                DecodeStep::Continue
            },
        )
    } else if saw_eos {
        (WorkerM { eos: true, paused: true, done: DoneKind::Finished, ..m }, DecodeStep::Exit)
    } else {
        (
            m,
            if m.done == DoneKind::Finished {
                DecodeStep::Exit
            } else {
                DecodeStep::Continue
            },
        )
    }
}

impl StreamWorker {
    /// One step of the decode loop, after the frame-period sleep: checks
    /// the stop channel, advances the bus, and decides whether to record
    /// an outcome and exit.
    pub fn decode_step(&mut self, stop_disconnected: bool, saw_error: bool, saw_eos: bool) -> (r:
        DecodeStep)
        ensures
            final(self).model() == decode_step_m(
                old(self).model(),
                stop_disconnected,
                saw_error,
                saw_eos,
            ).0,
            r == decode_step_m(old(self).model(), stop_disconnected, saw_error, saw_eos).1,
            final(self).looping == old(self).looping,
            final(self).stream.path@ == old(self).stream.path@,
            !(final(self).done is Failed) || old(self).done is Failed
                || (final(self).done matches DoneState::Failed(e) && e is MediaError),
            !stop_disconnected && !(old(self).stream.is_eos) && saw_error
                ==> (final(self).done matches DoneState::Failed(e) && e is MediaError),
    {
        if stop_disconnected {
            self.stream.pause();
            return DecodeStep::Stop;
        }
        let eos_before = self.stream.eos();
        let bus = self.stream.process_bus(saw_error, saw_eos, self.looping);
        match (eos_before, bus) {
            (true, _) => {
                self.done = DoneState::Finished;
            },
            (false, Ok(true)) => {
                self.done = DoneState::Finished;
            },
            (false, Err(e)) => {
                self.done = DoneState::Failed(e);
            },
            _ => {},
        }
        if matches!(self.done, DoneState::Finished) {
            DecodeStep::Exit
        } else {
            DecodeStep::Continue
        }
    }
}

/// The whole decode loop over a finite script of observations, at the
/// abstract level: steps are taken until one is not `Continue`; the result
/// is the final state and the number of steps taken.
pub open spec fn decode_run_m(m: WorkerM, script: Seq<(bool, bool, bool)>) -> (WorkerM, nat)
    decreases script.len(),
{
    if script.len() == 0 {
        (m, 0)
    } else {
        let (m2, step) = decode_step_m(m, script[0].0, script[0].1, script[0].2);
        if step == DecodeStep::Continue {
            let (mf, k) = decode_run_m(m2, script.drop_first());
            (mf, k + 1)
        } else {
            (m2, 1)
        }
    }
}

/// Reaching end of stream without looping records the outcome exactly
/// once and spawns no further decode iterations: on a first observation of
/// end-of-stream (no stop, no error) a non-looping running worker ends the
/// whole run after that single step, with the cell at `Finished`; a
/// looping worker instead restarts the handle and leaves the cell
/// untouched, and the run goes on.
pub proof fn lemma_end_of_stream(m: WorkerM, script: Seq<(bool, bool, bool)>)
    requires
        m.done == DoneKind::Running,
        !m.eos,
        script.len() > 0,
        script[0] == (false, false, true),
    ensures
        !m.looping ==> decode_run_m(m, script) == (
            WorkerM { eos: true, paused: true, done: DoneKind::Finished, ..m },
            1nat,
        ),
        m.looping ==> decode_step_m(m, false, false, true) == (
            (WorkerM { eos: false, paused: false, ..m }),
            DecodeStep::Continue,
        ),
{
}

/// A stop request is observed: once the outcome cell reads `Finished` (as
/// `stop` forces it), any decode step without a fresh bus error exits the
/// loop, so the decode thread terminates and can be joined.
pub proof fn lemma_stop_exits(m: WorkerM, stop_disconnected: bool, saw_error: bool, saw_eos: bool)
    requires
        m.done == DoneKind::Finished,
        !saw_error,
    ensures
        decode_step_m(m, stop_disconnected, saw_error, saw_eos).1 != DecodeStep::Continue,
{
}

} // verus!
