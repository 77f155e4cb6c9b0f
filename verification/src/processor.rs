//! The two long-lived processor loops.
//!
//! Each drains one queue until its terminal signal. The surrounding
//! program gives each loop its own thread and blocks in `pop`; the loop
//! bodies themselves — what every signal does to the tree, the sink and
//! the server channel — are the verified functions here.

use vstd::prelude::*;
use crate::action::{ActionSignal, StatefulAction};
use crate::error::Error;
use crate::logger::{record_of, LogRecordV, Logger};
use crate::queue::{first_terminal, SignalQueue};
use crate::signal::{
    payloads, AsyncSignal, KeySet, LogEntry, LogEntryV, LogValue, LogValueV, LoggerSignal,
    LoggerSignalV, ServerSignal, SyncSignal, Terminal,
};

verus! {

/// The audit entry recording that a run began.
pub open spec fn start_log() -> LoggerSignalV {
    LoggerSignalV::Append(
        "mainevent"@,
        LogEntryV { name: "start"@, value: LogValueV::Text("Success"@) },
    )
}

/// The entry recording that the block completed on its own.
pub open spec fn finish_log() -> LoggerSignalV {
    LoggerSignalV::Append(
        "mainevent"@,
        LogEntryV { name: "finish"@, value: LogValueV::Text("Success"@) },
    )
}

/// The records the Async Processor forwards from a queue's contents: one
/// per logging signal, in order, stopping at the first terminal signal.
pub open spec fn records_upto(s: Seq<AsyncSignal>, k: int) -> Seq<LogRecordV>
    decreases k,
{
    if k <= 0 {
        Seq::empty()
    } else {
        records_upto(s, k - 1) + match s[k - 1] {
            AsyncSignal::Logger(t, sig) => seq![record_of(t as int, sig@)],
            AsyncSignal::Finish => Seq::<LogRecordV>::empty(),
        }
    }
}

/// The Async Processor: drains the async queue into the persistence sink
/// until the terminal signal, then reports completion. It never re-enters
/// application logic.
pub struct AsyncProcessor {
    logger: Logger,
}

impl AsyncProcessor {
    pub closed spec fn records(&self) -> Seq<LogRecordV> {
        self.logger.records()
    }

    pub fn new() -> (r: AsyncProcessor)
        ensures
            r.records() == Seq::<LogRecordV>::empty(),
    {
        AsyncProcessor { logger: Logger::new() }
    }

    /// Hands the sink out for persistence once the loop is over.
    pub fn into_logger(self) -> (r: Logger)
        ensures
            r.records() == self.records(),
    {
        self.logger
    }

    /// The processor loop: every logging signal before the terminal one is
    /// forwarded verbatim to the sink, tagged with its producer-side
    /// timestamp; on the terminal signal the sink is closed and the
    /// outcome reported to the server as async completion.
    pub fn run(
        &mut self,
        async_q: &mut SignalQueue<AsyncSignal>,
        server_q: &mut SignalQueue<ServerSignal>,
    )
        requires
            !old(async_q).is_closed(),
        ensures
            final(self).records() == old(self).records() + records_upto(
                old(async_q)@,
                first_terminal(old(async_q)@),
            ),
            final(server_q)@ == old(server_q)@.push(ServerSignal::AsyncComplete(Ok(()))),
            final(server_q).is_closed() == old(server_q).is_closed(),
            first_terminal(old(async_q)@) < old(async_q)@.len() ==> final(async_q)@ == old(async_q)@.skip(first_terminal(old(async_q)@) + 1) && final(async_q).is_closed(),
            first_terminal(old(async_q)@) == old(async_q)@.len() ==> final(async_q)@.len() == 0
                && !final(async_q).is_closed(),
    {
        let ghost q0 = async_q@;
        let ghost recs0 = self.records();
        let ghost mut idx: int = 0;
        loop
            invariant_except_break
                !async_q.is_closed(),
                async_q@ == q0.skip(idx),
            invariant
                0 <= idx <= q0.len(),
                forall|j: int| 0 <= j < idx ==> !(#[trigger] q0[j]).is_terminal(),
                self.records() == recs0 + records_upto(q0, idx),
                server_q@ == old(server_q)@,
                server_q.is_closed() == old(server_q).is_closed(),
            ensures
                self.records() == recs0 + records_upto(q0, idx),
                server_q@ == old(server_q)@,
                server_q.is_closed() == old(server_q).is_closed(),
                forall|j: int| 0 <= j < idx ==> !(#[trigger] q0[j]).is_terminal(),
                0 <= idx <= q0.len(),
                idx < q0.len() ==> q0[idx].is_terminal() && async_q@ == q0.skip(idx + 1)
                    && async_q.is_closed(),
                idx == q0.len() ==> async_q@.len() == 0 && !async_q.is_closed(),
            decreases q0.len() - idx,
        {
            let popped = async_q.pop();
            match popped {
                None => {
                    proof {
                        assert(q0.skip(idx).len() == 0);
                    }
                    break;
                },
                Some(AsyncSignal::Logger(t, sig)) => {
                    proof {
                        assert(q0.skip(idx)[0] == q0[idx]);
                        assert(q0.skip(idx).drop_first() =~= q0.skip(idx + 1));
                    }
                    let _res = self.logger.update(t, sig);
                    proof {
                        idx = idx + 1;
                    }
                },
                Some(AsyncSignal::Finish) => {
                    proof {
                        assert(q0.skip(idx)[0] == q0[idx]);
                        assert(q0.skip(idx).drop_first() =~= q0.skip(idx + 1));
                        assert(records_upto(q0, idx + 1) =~= records_upto(q0, idx));
                    }
                    break;
                },
            }
        }
        proof {
            crate::queue::lemma_first_terminal_at(q0, idx);
        }
        let _flushed = self.logger.finish();
        server_q.push(ServerSignal::AsyncComplete(Ok(())));
    }
}

/// What one signal does to the Sync Processor's state, and the log and
/// server traffic it causes: `UpdateGraph` reports completion once (or a
/// crash, when the tree surfaces an error); a key press is forwarded to
/// the tree when it captures keys; the terminal signal causes nothing
/// (the loop stops on it instead).
pub open spec fn sync_step(tree: StatefulAction, reported: bool, sig: SyncSignal) -> (
    StatefulAction,
    bool,
    Seq<LoggerSignalV>,
    Seq<ServerSignal>,
) {
    match sig {
        SyncSignal::UpdateGraph => match tree.is_over_spec() {
            Ok(over) => if over && !reported {
                (tree, true, seq![finish_log()], seq![ServerSignal::BlockFinished])
            } else {
                (tree, reported, Seq::empty(), Seq::empty())
            },
            Err(e) => (tree, reported, Seq::empty(), seq![ServerSignal::BlockCrashed(e)]),
        },
        SyncSignal::KeyPress(t, keys) => match tree {
            StatefulAction::KeyLogger(k) => (
                tree,
                reported,
                seq![
                    LoggerSignalV::Append(
                        k.group@,
                        crate::action::key_logger::key_entry(keys),
                    )
                ],
                Seq::empty(),
            ),
            _ => (tree, reported, Seq::empty(), Seq::empty()),
        },
        SyncSignal::Finish => (tree, reported, Seq::empty(), Seq::empty()),
    }
}

/// The fold of the first `k` signals through `sync_step`, accumulating the
/// log and server traffic.
pub open spec fn sync_run_upto(
    tree: StatefulAction,
    reported: bool,
    s: Seq<SyncSignal>,
    k: int,
) -> (StatefulAction, bool, Seq<LoggerSignalV>, Seq<ServerSignal>)
    decreases k,
{
    if k <= 0 {
        (tree, reported, Seq::empty(), Seq::empty())
    } else {
        let prev = sync_run_upto(tree, reported, s, k - 1);
        let step = sync_step(prev.0, prev.1, s[k - 1]);
        (step.0, step.1, prev.2 + step.2, prev.3 + step.3)
    }
}

/// The Sync Processor: owns the action tree and its auxiliary run-state
/// map, applies each sync signal to the tree, and reports block completion
/// and crashes to the server.
pub struct SyncProcessor {
    pub tree: StatefulAction,
    pub state: crate::scheduler::State,
    pub reported: bool,
}

impl SyncProcessor {
    pub fn new(tree: StatefulAction) -> (r: SyncProcessor)
        ensures
            r.tree == tree,
            r.state@ == Map::<u16, crate::signal::LogValueV>::empty(),
            !r.reported,
    {
        SyncProcessor { tree, state: crate::scheduler::State::new(), reported: false }
    }

    /// Emits the audit entry that a run began, before any signal is
    /// processed.
    pub fn init(&mut self, async_q: &mut SignalQueue<AsyncSignal>)
        ensures
            *final(self) == *old(self),
            payloads(final(async_q)@) == payloads(old(async_q)@).push(start_log()),
            final(async_q)@.len() == old(async_q)@.len() + 1,
            final(async_q).is_closed() == old(async_q).is_closed(),
    {
        async_q.push_log(
            LoggerSignal::Append(
                String::from_str("mainevent"),
                LogEntry::new(
                    String::from_str("start"),
                    LogValue::Text(String::from_str("Success")),
                ),
            ),
        );
    }

    /// Re-evaluates tree completion: the first time the root reports
    /// itself over, the completion is logged and the server notified,
    /// exactly once; an error from the tree is returned instead.
    pub fn update_graph(
        &mut self,
        async_q: &mut SignalQueue<AsyncSignal>,
        server_q: &mut SignalQueue<ServerSignal>,
    ) -> (r: Result<(), Error>)
        ensures
            final(self).tree == old(self).tree,
            final(self).state == old(self).state,
            final(async_q).is_closed() == old(async_q).is_closed(),
            final(server_q).is_closed() == old(server_q).is_closed(),
            match old(self).tree.is_over_spec() {
                Ok(over) => r is Ok && if over && !old(self).reported {
                    final(self).reported && payloads(final(async_q)@) == payloads(old(async_q)@).push(finish_log()) && final(server_q)@ == old(server_q)@.push(
                        ServerSignal::BlockFinished,
                    )
                } else {
                    *final(self) == *old(self) && final(async_q)@ == old(async_q)@ && final(server_q)@ == old(server_q)@
                },
                Err(e) => r == Err::<(), Error>(e) && *final(self) == *old(self) && final(async_q)@ == old(async_q)@ && final(server_q)@ == old(server_q)@,
            },
    {
        let over = match self.tree.is_over() {
            Ok(b) => b,
            Err(e) => {
                return Err(e);
            },
        };
        if over && !self.reported {
            async_q.push_log(
                LoggerSignal::Append(
                    String::from_str("mainevent"),
                    LogEntry::new(
                        String::from_str("finish"),
                        LogValue::Text(String::from_str("Success")),
                    ),
                ),
            );
            server_q.push(ServerSignal::BlockFinished);
            self.reported = true;
        }
        Ok(())
    }

    /// Forwards one key-press event to the tree, if it captures keys.
    pub fn update_keypress(
        &mut self,
        time: i64,
        keys: KeySet,
        async_q: &mut SignalQueue<AsyncSignal>,
    ) -> (r: Result<(), Error>)
        ensures
            r is Ok,
            final(self).tree == old(self).tree,
            final(self).state == old(self).state,
            final(self).reported == old(self).reported,
            final(async_q).is_closed() == old(async_q).is_closed(),
            match old(self).tree {
                StatefulAction::KeyLogger(k) => payloads(final(async_q)@) == payloads(old(async_q)@).push(
                    LoggerSignalV::Append(
                        k.group@,
                        crate::action::key_logger::key_entry(keys),
                    ),
                ),
                _ => final(async_q)@ == old(async_q)@,
            },
    {
        if self.tree.props().cap_keys() {
            let signal = ActionSignal::KeyPress(time, keys);
            let _res = self.tree.update(&signal, &self.state, async_q);
        }
        Ok(())
    }

    /// The processor loop: drains the sync queue until the terminal
    /// signal, applying each signal to the tree. An error while processing
    /// one signal is reported as a block crash and the loop goes on; on
    /// exit the server receives the sync completion.
    pub fn run(
        &mut self,
        sync_q: &mut SignalQueue<SyncSignal>,
        async_q: &mut SignalQueue<AsyncSignal>,
        server_q: &mut SignalQueue<ServerSignal>,
    )
        requires
            !old(sync_q).is_closed(),
        ensures
            ({
                let fold = sync_run_upto(
                    old(self).tree,
                    old(self).reported,
                    old(sync_q)@,
                    first_terminal(old(sync_q)@),
                );
                &&& final(self).tree == fold.0
                &&& final(self).reported == fold.1
                &&& final(self).state == old(self).state
                &&& payloads(final(async_q)@) == payloads(old(async_q)@).push(start_log())
                    + fold.2
                &&& final(server_q)@ == old(server_q)@ + fold.3 + seq![
                    ServerSignal::SyncComplete(Ok(())),
                ]
            }),
            final(async_q).is_closed() == old(async_q).is_closed(),
            final(server_q).is_closed() == old(server_q).is_closed(),
            first_terminal(old(sync_q)@) < old(sync_q)@.len() ==> final(sync_q)@ == old(sync_q)@.skip(first_terminal(old(sync_q)@) + 1) && final(sync_q).is_closed(),
            first_terminal(old(sync_q)@) == old(sync_q)@.len() ==> final(sync_q)@.len() == 0
                && !final(sync_q).is_closed(),
    {
        self.init(async_q);
        let ghost q0 = sync_q@;
        let ghost tree0 = self.tree;
        let ghost rep0 = self.reported;
        let ghost pay0 = payloads(async_q@);
        let ghost srv0 = server_q@;
        let ghost mut idx: int = 0;
        loop
            invariant_except_break
                !sync_q.is_closed(),
                sync_q@ == q0.skip(idx),
            invariant
                0 <= idx <= q0.len(),
                forall|j: int| 0 <= j < idx ==> !(#[trigger] q0[j]).is_terminal(),
                self.tree == sync_run_upto(tree0, rep0, q0, idx).0,
                self.state == old(self).state,
                self.reported == sync_run_upto(tree0, rep0, q0, idx).1,
                payloads(async_q@) == pay0 + sync_run_upto(tree0, rep0, q0, idx).2,
                server_q@ == srv0 + sync_run_upto(tree0, rep0, q0, idx).3,
                async_q.is_closed() == old(async_q).is_closed(),
                server_q.is_closed() == old(server_q).is_closed(),
            ensures
                0 <= idx <= q0.len(),
                forall|j: int| 0 <= j < idx ==> !(#[trigger] q0[j]).is_terminal(),
                self.tree == sync_run_upto(tree0, rep0, q0, idx).0,
                self.state == old(self).state,
                self.reported == sync_run_upto(tree0, rep0, q0, idx).1,
                payloads(async_q@) == pay0 + sync_run_upto(tree0, rep0, q0, idx).2,
                server_q@ == srv0 + sync_run_upto(tree0, rep0, q0, idx).3,
                async_q.is_closed() == old(async_q).is_closed(),
                server_q.is_closed() == old(server_q).is_closed(),
                idx < q0.len() ==> q0[idx].is_terminal() && sync_q@ == q0.skip(idx + 1)
                    && sync_q.is_closed(),
                idx == q0.len() ==> sync_q@.len() == 0 && !sync_q.is_closed(),
            decreases q0.len() - idx,
        {
            let popped = sync_q.pop();
            proof {
                if q0.skip(idx).len() > 0 {
                    assert(q0.skip(idx)[0] == q0[idx]);
                    assert(q0.skip(idx).drop_first() =~= q0.skip(idx + 1));
                }
            }
            let outcome = match popped {
                None => {
                    break;
                },
                Some(SyncSignal::UpdateGraph) => self.update_graph(async_q, server_q),
                Some(SyncSignal::KeyPress(t, keys)) => self.update_keypress(t, keys, async_q),
                Some(SyncSignal::Finish) => {
                    break;
                },
            };
            proof {
                idx = idx + 1;
            }
            match outcome {
                Ok(()) => {},
                Err(e) => {
                    server_q.push(ServerSignal::BlockCrashed(e));
                },
            }
            proof {
                assert(payloads(async_q@) =~= pay0 + sync_run_upto(tree0, rep0, q0, idx).2);
                assert(server_q@ =~= srv0 + sync_run_upto(tree0, rep0, q0, idx).3);
            }
        }
        proof {
            crate::queue::lemma_first_terminal_at(q0, idx);
        }
        server_q.push(ServerSignal::SyncComplete(Ok(())));
        proof {
            assert(server_q@ =~= srv0 + sync_run_upto(tree0, rep0, q0, idx).3 + seq![
                ServerSignal::SyncComplete(Ok(())),
            ]);
        }
    }
}

/// The number of block-completion notifications in a stretch of server
/// traffic.
pub open spec fn finished_count(s: Seq<ServerSignal>) -> nat
    decreases s.len(),
{
    if s.len() == 0 {
        0
    } else {
        (if s[0] is BlockFinished {
            1nat
        } else {
            0nat
        }) + finished_count(s.drop_first())
    }
}

pub proof fn lemma_finished_count_concat(a: Seq<ServerSignal>, b: Seq<ServerSignal>)
    ensures
        finished_count(a + b) == finished_count(a) + finished_count(b),
    decreases a.len(),
{
    if a.len() == 0 {
        assert(a + b =~= b);
    } else {
        assert((a + b).drop_first() =~= a.drop_first() + b);
        lemma_finished_count_concat(a.drop_first(), b);
    }
}

proof fn lemma_fc_singleton(x: ServerSignal)
    ensures
        finished_count(seq![x]) == if x is BlockFinished {
            1int
        } else {
            0int
        },
{
    assert(seq![x].drop_first() =~= Seq::<ServerSignal>::empty());
    assert(finished_count(Seq::<ServerSignal>::empty()) == 0);
}

proof fn lemma_step_counts(t: StatefulAction, rep: bool, sig: SyncSignal)
    ensures
        rep ==> sync_step(t, rep, sig).1,
        rep ==> finished_count(sync_step(t, rep, sig).3) == 0,
        finished_count(sync_step(t, rep, sig).3) <= 1,
        sync_step(t, rep, sig).1 || finished_count(sync_step(t, rep, sig).3) == 0,
        !rep && sync_step(t, rep, sig).1 ==> finished_count(sync_step(t, rep, sig).3) == 1,
{
    let st = sync_step(t, rep, sig);
    match sig {
        SyncSignal::UpdateGraph => {
            match t.is_over_spec() {
                Ok(over) => {
                    if over && !rep {
                        assert(st.3 =~= seq![ServerSignal::BlockFinished]);
                        lemma_fc_singleton(ServerSignal::BlockFinished);
                    } else {
                        assert(finished_count(st.3) == 0);
                    }
                },
                Err(e) => {
                    assert(st.3 =~= seq![ServerSignal::BlockCrashed(e)]);
                    lemma_fc_singleton(ServerSignal::BlockCrashed(e));
                },
            }
        },
        SyncSignal::KeyPress(time, keys) => {
            assert(finished_count(st.3) == 0);
        },
        SyncSignal::Finish => {
            assert(finished_count(st.3) == 0);
        },
    }
}

proof fn lemma_once_reported_suffix(tree: StatefulAction, reported: bool, s: Seq<SyncSignal>, k: int)
    requires
        0 <= k,
    ensures
        finished_count(sync_run_upto(tree, reported, s, k).3) <= 1,
        reported ==> sync_run_upto(tree, reported, s, k).1 && finished_count(
            sync_run_upto(tree, reported, s, k).3,
        ) == 0,
        sync_run_upto(tree, reported, s, k).1 || finished_count(
            sync_run_upto(tree, reported, s, k).3,
        ) == 0,
        !reported && sync_run_upto(tree, reported, s, k).1 ==> finished_count(
            sync_run_upto(tree, reported, s, k).3,
        ) == 1,
    decreases k,
{
    if k <= 0 {
        assert(finished_count(Seq::<ServerSignal>::empty()) == 0);
    } else {
        lemma_once_reported_suffix(tree, reported, s, k - 1);
        let prev = sync_run_upto(tree, reported, s, k - 1);
        let step = sync_step(prev.0, prev.1, s[k - 1]);
        lemma_finished_count_concat(prev.3, step.3);
        lemma_step_counts(prev.0, prev.1, s[k - 1]);
    }
}

/// A trivially complete tree finishes exactly once: when the tree reports
/// itself over from the start, the initial graph re-evaluation produces
/// one block-completion notification, and however many further signals the
/// processor drains afterwards, no duplicate notification is ever
/// produced.
pub proof fn lemma_block_finished_once(tree: StatefulAction, s: Seq<SyncSignal>, k: int)
    requires
        tree.is_over_spec() == Ok::<bool, Error>(true),
        1 <= k,
        s.len() >= 1,
        s[0] == SyncSignal::UpdateGraph,
    ensures
        finished_count(sync_run_upto(tree, false, s, k).3) == 1,
        finished_count(sync_run_upto(tree, false, s, 1).3) == 1,
    decreases k,
{
    let one = sync_run_upto(tree, false, s, 1);
    assert(sync_run_upto(tree, false, s, 0).0 == tree);
    assert(one.3 =~= seq![ServerSignal::BlockFinished]);
    lemma_fc_singleton(ServerSignal::BlockFinished);
    assert(finished_count(one.3) == 1);
    if k > 1 {
        lemma_block_finished_once(tree, s, k - 1);
        let prev = sync_run_upto(tree, false, s, k - 1);
        let step = sync_step(prev.0, prev.1, s[k - 1]);
        lemma_finished_count_concat(prev.3, step.3);
        lemma_once_reported_suffix(tree, false, s, k - 1);
        assert(prev.1);
        lemma_step_counts(prev.0, prev.1, s[k - 1]);
    }
}

} // verus!
