//! The per-tick orchestrator: interrupt gesture, edge-triggered keys, and
//! the render delegation.

use vstd::prelude::*;
use crate::action::{RenderOut, ShowInput, StatefulAction};
use crate::config::Config;
use crate::error::Error;
use crate::queue::SignalQueue;
use crate::signal::{
    payloads, sync_views, AsyncSignal, Key, KeySet, LogEntry, LogEntryV, LogValue, LogValueV,
    LoggerSignal, LoggerSignalV, ServerSignal, SyncSignal, SyncSignalV,
};

verus! {

/// The auxiliary run-state map kept beside the action tree: a small
/// integer key bound to an opaque logged value, used for inter-action data
/// exchange. A later binding for a key replaces the earlier one.
#[derive(Debug, PartialEq)]
pub struct State {
    entries: Vec<(u16, crate::signal::LogValue)>,
}

pub open spec fn state_map_of(s: Seq<(u16, crate::signal::LogValue)>) -> Map<
    u16,
    crate::signal::LogValueV,
>
    decreases s.len(),
{
    if s.len() == 0 {
        Map::empty()
    } else {
        state_map_of(s.drop_last()).insert(s.last().0, s.last().1@)
    }
}

impl View for State {
    type V = Map<u16, crate::signal::LogValueV>;

    closed spec fn view(&self) -> Map<u16, crate::signal::LogValueV> {
        state_map_of(self.entries@)
    }
}

proof fn lemma_state_absent(s: Seq<(u16, crate::signal::LogValue)>, key: u16)
    requires
        forall|j: int| 0 <= j < s.len() ==> (#[trigger] s[j]).0 != key,
    ensures
        !state_map_of(s).contains_key(key),
    decreases s.len(),
{
    if s.len() > 0 {
        lemma_state_absent(s.drop_last(), key);
    }
}

impl State {
    pub fn new() -> (r: State)
        ensures
            r@ == Map::<u16, crate::signal::LogValueV>::empty(),
    {
        State { entries: Vec::new() }
    }

    /// Binds a value to a key, replacing an earlier binding.
    pub fn insert(&mut self, key: u16, value: crate::signal::LogValue)
        ensures
            final(self)@ == old(self)@.insert(key, value@),
    {
        self.entries.push((key, value));
        proof {
            assert(self.entries@.drop_last() =~= old(self).entries@);
        }
    }

    /// Looks a key up; the latest binding wins.
    pub fn get(&self, key: u16) -> (r: Option<&crate::signal::LogValue>)
        ensures
            match r {
                Some(v) => self@.contains_key(key) && v@ == self@[key],
                None => !self@.contains_key(key),
            },
    {
        let n = self.entries.len();
        let mut i: usize = n;
        proof {
            assert(self.entries@.take(n as int) =~= self.entries@);
        }
        while i > 0
            invariant
                n == self.entries@.len(),
                0 <= i <= n,
                forall|j: int| i <= j < n ==> (#[trigger] self.entries@[j]).0 != key,
                state_map_of(self.entries@).contains_key(key) == state_map_of(
                    self.entries@.take(i as int),
                ).contains_key(key),
                state_map_of(self.entries@).contains_key(key) ==> state_map_of(self.entries@)[key]
                    == state_map_of(self.entries@.take(i as int))[key],
            decreases i,
        {
            proof {
                assert(self.entries@.take(i as int).drop_last() =~= self.entries@.take(i - 1));
                assert(self.entries@.take(i as int).last() == self.entries@[i - 1]);
            }
            if self.entries[i - 1].0 == key {
                return Some(&self.entries[i - 1].1);
            }
            i -= 1;
        }
        proof {
            assert(self.entries@.take(0) =~= Seq::<(u16, crate::signal::LogValue)>::empty());
            lemma_state_absent(self.entries@.take(0), key);
        }
        None
    }
}

impl Default for State {
    fn default() -> (r: State)
        ensures
            r@ == Map::<u16, crate::signal::LogValueV>::empty(),
    {
        State::new()
    }
}

/// The run-metadata batch pushed when a block starts.
pub open spec fn mainevent_log(info: Seq<u8>, config_bytes: Seq<u8>) -> LoggerSignalV {
    LoggerSignalV::Extend(
        "mainevent"@,
        seq![
            LogEntryV { name: "info"@, value: LogValueV::Bytes(info) },
            LogEntryV { name: "config"@, value: LogValueV::Bytes(config_bytes) },
        ],
    )
}

/// The entry recording a user-requested interrupt.
pub open spec fn interrupt_log() -> LoggerSignalV {
    LoggerSignalV::Append(
        "mainevent"@,
        LogEntryV { name: "interrupt"@, value: LogValueV::Text("user request"@) },
    )
}

/// The entry recording an orderly teardown.
pub open spec fn finish_ok_log() -> LoggerSignalV {
    LoggerSignalV::Append(
        "mainevent"@,
        LogEntryV { name: "finish"@, value: LogValueV::Text("ok"@) },
    )
}

/// The double-press interrupt gesture, as a function of the remembered
/// press and the current one: a second press within 300 ms raises the
/// interrupt and clears the memory; otherwise the current press is
/// remembered.
pub open spec fn esc_m(last: Option<int>, now: int) -> (Option<int>, bool) {
    match last {
        Some(t) => if 0 <= now - t < 300 {
            (None, true)
        } else {
            (Some(now), false)
        },
        None => (Some(now), false),
    }
}

/// Edge-triggering: the keys that fire this tick are those down now that
/// were not down on the previous tick.
pub open spec fn pressed_m(prev: Set<Key>, down: Set<Key>) -> Set<Key> {
    down.difference(prev)
}

/// Two presses of the interrupt key within 300 ms trigger exactly one
/// interrupt, and the gesture memory is cleared, so a third press starts
/// over instead of triggering again; two presses 300 ms or more apart
/// trigger none.
pub proof fn lemma_interrupt_gesture(t1: int, t2: int)
    requires
        t1 <= t2,
    ensures
        !esc_m(None, t1).1,
        t2 - t1 < 300 ==> esc_m(esc_m(None, t1).0, t2).1 && esc_m(esc_m(None, t1).0, t2).0
            is None,
        t2 - t1 >= 300 ==> !esc_m(esc_m(None, t1).0, t2).1 && esc_m(esc_m(None, t1).0, t2).0
            == Some(t2),
        forall|t3: int| !esc_m(None, t3).1,
{
}

/// A key held across consecutive ticks fires exactly once: it can fire on
/// the tick where it goes down, and on every later tick where it is still
/// held nothing fires at all.
pub proof fn lemma_key_edge_triggered(prev: Set<Key>, down: Set<Key>, k: Key)
    requires
        down.contains(k),
    ensures
        pressed_m(prev, down).contains(k) <==> !prev.contains(k),
        pressed_m(down, down) == Set::<Key>::empty(),
        !pressed_m(down, down).contains(k),
{
    assert(pressed_m(down, down) =~= Set::<Key>::empty());
}

/// What a tick decides beyond its queue traffic.
#[derive(Debug, PartialEq)]
pub enum TickOutcome {
    /// The interrupt gesture fired; the server was notified and the
    /// surface should repaint.
    Interrupted,
    /// The tree is visual; the surface draws what the render pass chose.
    Rendered(RenderOut),
    /// The tree is not visual; the surface hides the pointer cursor.
    Hidden,
}

/// The externally visible orchestrator: remembers the interrupt gesture
/// and the previous tick's keys, and drives one render pass per UI tick.
pub struct Scheduler {
    config: Config,
    last_esc: Option<i64>,
    prev_keys: KeySet,
}

impl Scheduler {
    pub closed spec fn config_spec(&self) -> Config {
        self.config
    }

    pub closed spec fn last_esc_spec(&self) -> Option<int> {
        match self.last_esc {
            Some(t) => Some(t as int),
            None => None,
        }
    }

    pub closed spec fn prev_keys_spec(&self) -> Set<Key> {
        self.prev_keys@
    }

    pub closed spec fn wf(&self) -> bool {
        self.prev_keys.wf()
    }

    /// Builds the scheduler and performs the startup sequence: the run
    /// metadata and resolved configuration go to the log, and one graph
    /// re-evaluation is queued so an already-complete tree terminates at
    /// once.
    pub fn new(
        config: Config,
        info: Vec<u8>,
        config_bytes: Vec<u8>,
        sync_q: &mut SignalQueue<SyncSignal>,
        async_q: &mut SignalQueue<AsyncSignal>,
    ) -> (r: Scheduler)
        ensures
            r.config_spec() == config,
            r.last_esc_spec() is None,
            r.prev_keys_spec() == Set::<Key>::empty(),
            r.wf(),
            payloads(final(async_q)@) == payloads(old(async_q)@).push(
                mainevent_log(info@, config_bytes@),
            ),
            final(sync_q)@ == old(sync_q)@.push(SyncSignal::UpdateGraph),
            final(sync_q).is_closed() == old(sync_q).is_closed(),
            final(async_q).is_closed() == old(async_q).is_closed(),
    {
        let mut entries: Vec<LogEntry> = Vec::new();
        entries.push(LogEntry::new(String::from_str("info"), LogValue::Bytes(info)));
        entries.push(LogEntry::new(String::from_str("config"), LogValue::Bytes(config_bytes)));
        let sig = LoggerSignal::Extend(String::from_str("mainevent"), entries);
        proof {
            assert(sig@->Extend_1 =~= mainevent_log(info@, config_bytes@)->Extend_1);
        }
        async_q.push_log(sig);
        sync_q.push(SyncSignal::UpdateGraph);
        Scheduler { config, last_esc: None, prev_keys: KeySet::new() }
    }

    pub fn config(&self) -> (r: &Config)
        ensures
            *r == self.config_spec(),
    {
        &self.config
    }

    /// Logs the interrupt and notifies the server that the block was cut
    /// short; the caller then repaints.
    pub fn request_interrupt(
        &mut self,
        async_q: &mut SignalQueue<AsyncSignal>,
        server_q: &mut SignalQueue<ServerSignal>,
    )
        ensures
            *final(self) == *old(self),
            payloads(final(async_q)@) == payloads(old(async_q)@).push(interrupt_log()),
            final(server_q)@ == old(server_q)@.push(ServerSignal::BlockInterrupted),
            final(async_q).is_closed() == old(async_q).is_closed(),
            final(server_q).is_closed() == old(server_q).is_closed(),
    {
        async_q.push_log(
            LoggerSignal::Append(
                String::from_str("mainevent"),
                LogEntry::new(
                    String::from_str("interrupt"),
                    LogValue::Text(String::from_str("user request")),
                ),
            ),
        );
        server_q.push(ServerSignal::BlockInterrupted);
    }

    /// One UI tick: detect the double-press interrupt gesture, deliver the
    /// newly pressed keys, and run or skip the render pass by the tree's
    /// visual capability.
    pub fn show(
        &mut self,
        now: i64,
        keys_down: KeySet,
        input: &ShowInput,
        tree: &mut StatefulAction,
        state: &State,
        sync_q: &mut SignalQueue<SyncSignal>,
        async_q: &mut SignalQueue<AsyncSignal>,
        server_q: &mut SignalQueue<ServerSignal>,
    ) -> (r: Result<TickOutcome, Error>)
        requires
            keys_down.wf(),
            old(self).wf(),
        ensures
            final(self).wf(),
            final(self).config_spec() == old(self).config_spec(),
            final(self).prev_keys_spec() == keys_down@,
            final(sync_q).is_closed() == old(sync_q).is_closed(),
            final(async_q).is_closed() == old(async_q).is_closed(),
            final(server_q).is_closed() == old(server_q).is_closed(),
            ({
                let pressed = pressed_m(old(self).prev_keys_spec(), keys_down@);
                let esc = esc_m(old(self).last_esc_spec(), now as int);
                let fired = pressed.contains(Key::Escape) && esc.1;
                &&& fired ==> r == Ok::<TickOutcome, Error>(TickOutcome::Interrupted) && final(self).last_esc_spec() is None && payloads(final(async_q)@) == payloads(old(async_q)@).push(interrupt_log()) && final(server_q)@ == old(server_q)@.push(
                    ServerSignal::BlockInterrupted,
                ) && final(sync_q)@ == old(sync_q)@ && *final(tree) == *old(tree)
                &&& !fired ==> final(self).last_esc_spec() == (
                    if pressed.contains(Key::Escape) {
                        esc.0
                    } else {
                        old(self).last_esc_spec()
                    }) && final(server_q)@ == old(server_q)@ && ({
                    let keyed = if pressed == Set::<Key>::empty() {
                        sync_views(old(sync_q)@)
                    } else {
                        sync_views(old(sync_q)@).push(SyncSignalV::KeyPress(now as int, pressed))
                    };
                    match *old(tree) {
                        StatefulAction::Counter(c) => {
                            &&& r matches Ok(o) && (o matches TickOutcome::Rendered(ro) && (
                            ro matches RenderOut::Label(l) && l@
                                == crate::action::counter::label_spec(c.count)))
                            &&& payloads(final(async_q)@) == payloads(old(async_q)@)
                            &&& !input.clicked ==> *final(tree) == *old(tree) && sync_views(final(sync_q)@) == keyed
                            &&& input.clicked && c.count > 1 ==> *final(tree)
                                == StatefulAction::Counter(
                                crate::action::counter::StatefulCounter {
                                    count: (c.count - 1) as u32,
                                    ..c
                                },
                            ) && sync_views(final(sync_q)@) == keyed
                            &&& input.clicked && c.count <= 1 ==> *final(tree)
                                == StatefulAction::Counter(
                                crate::action::counter::StatefulCounter { done: true, count: 0 },
                            ) && sync_views(final(sync_q)@) == keyed.push(SyncSignalV::UpdateGraph)
                        },
                        StatefulAction::Stream(s) => {
                            &&& s.framerate_num > 0 ==> r == Ok::<TickOutcome, Error>(
                                TickOutcome::Rendered(RenderOut::Image(input.frame, s.width)),
                            )
                            &&& s.framerate_num == 0 ==> r == Ok::<TickOutcome, Error>(
                                TickOutcome::Hidden,
                            )
                            &&& *final(tree) == *old(tree)
                            &&& sync_views(final(sync_q)@) == keyed
                            &&& payloads(final(async_q)@) == payloads(old(async_q)@)
                        },
                        _ => {
                            &&& r == Ok::<TickOutcome, Error>(TickOutcome::Hidden)
                            &&& *final(tree) == *old(tree)
                            &&& sync_views(final(sync_q)@) == keyed
                            &&& payloads(final(async_q)@) == payloads(old(async_q)@)
                        },
                    }
                })
            }),
    {
        let pressed = keys_down.minus(&self.prev_keys);
        self.prev_keys = keys_down;
        if pressed.contains(Key::Escape) {
            match self.last_esc {
                Some(t) => {
                    let d: i128 = (now as i128) - (t as i128);
                    if 0 <= d && d < 300 {
                        self.last_esc = None;
                        self.request_interrupt(async_q, server_q);
                        return Ok(TickOutcome::Interrupted);
                    }
                    self.last_esc = Some(now);
                },
                None => {
                    self.last_esc = Some(now);
                },
            }
        }
        let ghost pre_sync = sync_q@;
        if !pressed.is_empty() {
            sync_q.push(SyncSignal::KeyPress(now, pressed));
        }
        proof {
            assert(sync_views(sync_q@) =~= (if pressed_m(
                old(self).prev_keys_spec(),
                keys_down@,
            ) == Set::<Key>::empty() {
                sync_views(old(sync_q)@)
            } else {
                sync_views(old(sync_q)@).push(
                    SyncSignalV::KeyPress(
                        now as int,
                        pressed_m(old(self).prev_keys_spec(), keys_down@),
                    ),
                )
            }));
        }
        if tree.props().visual() {
            let ghost mid_sync = sync_q@;
            match tree.show(input, state, sync_q) {
                Ok(out) => {
                    proof {
                        if sync_q@ == mid_sync {
                            assert(sync_views(sync_q@) =~= sync_views(mid_sync));
                        } else {
                            assert(sync_q@ == mid_sync.push(SyncSignal::UpdateGraph));
                            assert(sync_views(sync_q@) =~= sync_views(mid_sync).push(
                                SyncSignalV::UpdateGraph,
                            ));
                        }
                    }
                    Ok(TickOutcome::Rendered(out))
                },
                Err(e) => {
                    // unreachable with the current action kinds, kept for
                    // the day a render pass can fail: the crash is logged
                    // and the error returned, without stopping the ticks
                    async_q.push_log(
                        LoggerSignal::Append(
                            String::from_str("mainevent"),
                            LogEntry::new(
                                String::from_str("crash"),
                                LogValue::Text(e.message()),
                            ),
                        ),
                    );
                    Err(e)
                },
            }
        } else {
            Ok(TickOutcome::Hidden)
        }
    }

    /// The teardown sequence, in order: the orderly-finish entry to the
    /// log, then the terminal signal to the sync queue, then the terminal
    /// signal to the async queue — so whatever the Sync Processor still
    /// logs while shutting down is drained before the async loop stops.
    pub fn shutdown(
        &mut self,
        sync_q: &mut SignalQueue<SyncSignal>,
        async_q: &mut SignalQueue<AsyncSignal>,
    )
        ensures
            *final(self) == *old(self),
            final(sync_q)@ == old(sync_q)@.push(SyncSignal::Finish),
            payloads(final(async_q)@) == payloads(old(async_q)@).push(finish_ok_log()),
            final(async_q)@.len() == old(async_q)@.len() + 2,
            final(async_q)@.last() == AsyncSignal::Finish,
            final(sync_q).is_closed() == old(sync_q).is_closed(),
            final(async_q).is_closed() == old(async_q).is_closed(),
    {
        async_q.push_log(
            LoggerSignal::Append(
                String::from_str("mainevent"),
                LogEntry::new(String::from_str("finish"), LogValue::Text(String::from_str("ok"))),
            ),
        );
        sync_q.push(SyncSignal::Finish);
        let ghost mid = async_q@;
        async_q.push(AsyncSignal::Finish);
        proof {
            crate::signal::lemma_payloads_push_finish(mid);
        }
    }
}

} // verus!
