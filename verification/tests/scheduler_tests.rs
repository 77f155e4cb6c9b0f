use cog_task::action::nil::StatefulNil;
use cog_task::action::{ShowInput, StatefulAction};
use cog_task::config::Config;
use cog_task::queue::SignalQueue;
use cog_task::scheduler::{Scheduler, State, TickOutcome};
use cog_task::signal::{AsyncSignal, Key, KeySet, LogValue, LoggerSignal, ServerSignal, SyncSignal};

fn fresh() -> (
    Scheduler,
    SignalQueue<SyncSignal>,
    SignalQueue<AsyncSignal>,
    SignalQueue<ServerSignal>,
) {
    let mut sync_q = SignalQueue::new();
    let mut async_q = SignalQueue::new();
    let server_q = SignalQueue::new();
    let scheduler = Scheduler::new(
        Config::default(),
        vec![1u8, 2u8],
        vec![3u8],
        &mut sync_q,
        &mut async_q,
    );
    (scheduler, sync_q, async_q, server_q)
}

fn no_input() -> ShowInput {
    ShowInput { clicked: false, frame: None }
}

fn esc() -> KeySet {
    KeySet::from_vec(vec![Key::Escape])
}

#[test]
fn startup_pushes_metadata_then_update_graph() {
    let (_s, mut sync_q, mut async_q, _server_q) = fresh();
    assert_eq!(sync_q.pop(), Some(SyncSignal::UpdateGraph));
    assert_eq!(sync_q.pop(), None);
    match async_q.pop() {
        Some(AsyncSignal::Logger(_, LoggerSignal::Extend(group, entries))) => {
            assert_eq!(group, String::from("mainevent"));
            assert_eq!(entries.len(), 2);
            assert_eq!(entries[0].name, String::from("info"));
            assert_eq!(entries[0].value, LogValue::Bytes(vec![1u8, 2u8]));
            assert_eq!(entries[1].name, String::from("config"));
            assert_eq!(entries[1].value, LogValue::Bytes(vec![3u8]));
        }
        other => panic!("unexpected signal: {:?}", other),
    }
}

#[test]
fn double_escape_within_300_ms_interrupts_once() {
    let (mut s, mut sync_q, mut async_q, mut server_q) = fresh();
    let mut tree = StatefulAction::Nil(StatefulNil::new());
    let r1 = s
        .show(1000, esc(), &no_input(), &mut tree, &State::new(), &mut sync_q, &mut async_q, &mut server_q)
        .unwrap();
    assert_eq!(r1, TickOutcome::Hidden);
    // release the key so the second press is an edge again
    let _ = s
        .show(1100, KeySet::new(), &no_input(), &mut tree, &State::new(), &mut sync_q, &mut async_q, &mut server_q)
        .unwrap();
    let r2 = s
        .show(1200, esc(), &no_input(), &mut tree, &State::new(), &mut sync_q, &mut async_q, &mut server_q)
        .unwrap();
    assert_eq!(r2, TickOutcome::Interrupted);
    // exactly one interrupt notification was produced
    let mut interrupts = 0;
    while let Some(sig) = server_q.pop() {
        if sig == ServerSignal::BlockInterrupted {
            interrupts += 1;
        }
    }
    assert_eq!(interrupts, 1);
    // a third press shortly after starts a fresh gesture: no interrupt
    let _ = s
        .show(1250, KeySet::new(), &no_input(), &mut tree, &State::new(), &mut sync_q, &mut async_q, &mut server_q)
        .unwrap();
    let r3 = s
        .show(1300, esc(), &no_input(), &mut tree, &State::new(), &mut sync_q, &mut async_q, &mut server_q)
        .unwrap();
    assert_eq!(r3, TickOutcome::Hidden);
    assert_eq!(server_q.pop(), None);
}

#[test]
fn two_escapes_400_ms_apart_interrupt_nothing() {
    let (mut s, mut sync_q, mut async_q, mut server_q) = fresh();
    let mut tree = StatefulAction::Nil(StatefulNil::new());
    let r1 = s
        .show(1000, esc(), &no_input(), &mut tree, &State::new(), &mut sync_q, &mut async_q, &mut server_q)
        .unwrap();
    let _ = s
        .show(1200, KeySet::new(), &no_input(), &mut tree, &State::new(), &mut sync_q, &mut async_q, &mut server_q)
        .unwrap();
    let r2 = s
        .show(1400, esc(), &no_input(), &mut tree, &State::new(), &mut sync_q, &mut async_q, &mut server_q)
        .unwrap();
    assert_eq!(r1, TickOutcome::Hidden);
    assert_eq!(r2, TickOutcome::Hidden);
    assert_eq!(server_q.pop(), None);
}

#[test]
fn held_key_fires_exactly_once_over_three_ticks() {
    let (mut s, mut sync_q, mut async_q, mut server_q) = fresh();
    let mut tree = StatefulAction::Nil(StatefulNil::new());
    // drain the startup signal
    assert_eq!(sync_q.pop(), Some(SyncSignal::UpdateGraph));
    let held = || KeySet::from_vec(vec![Key::A]);
    for now in [1000i64, 1016, 1033] {
        let _ = s
            .show(now, held(), &no_input(), &mut tree, &State::new(), &mut sync_q, &mut async_q, &mut server_q)
            .unwrap();
    }
    // exactly one KeyPress came out of the three ticks
    assert_eq!(
        sync_q.pop(),
        Some(SyncSignal::KeyPress(1000, KeySet::from_vec(vec![Key::A])))
    );
    assert_eq!(sync_q.pop(), None);
}

#[test]
fn shutdown_orders_finish_log_then_terminals() {
    let (mut s, mut sync_q, mut async_q, _server_q) = fresh();
    // drain startup traffic first
    let _ = sync_q.pop();
    let _ = async_q.pop();
    s.shutdown(&mut sync_q, &mut async_q);
    assert_eq!(sync_q.pop(), Some(SyncSignal::Finish));
    match async_q.pop() {
        Some(AsyncSignal::Logger(_, LoggerSignal::Append(group, entry))) => {
            assert_eq!(group, String::from("mainevent"));
            assert_eq!(entry.name, String::from("finish"));
            assert_eq!(entry.value, LogValue::Text(String::from("ok")));
        }
        other => panic!("unexpected signal: {:?}", other),
    }
    assert_eq!(async_q.pop(), Some(AsyncSignal::Finish));
}

#[test]
fn counter_render_pass_counts_clicks_down() {
    let (mut s, mut sync_q, mut async_q, mut server_q) = fresh();
    let _ = sync_q.pop();
    let mut tree = StatefulAction::Counter(cog_task::action::counter::StatefulCounter {
        done: false,
        count: 2,
    });
    let clicked = ShowInput { clicked: true, frame: None };
    let r1 = s
        .show(1, KeySet::new(), &clicked, &mut tree, &State::new(), &mut sync_q, &mut async_q, &mut server_q)
        .unwrap();
    match r1 {
        TickOutcome::Rendered(cog_task::action::RenderOut::Label(l)) => {
            assert_eq!(l, String::from("Click me 2 more times"));
        }
        other => panic!("unexpected outcome: {:?}", other),
    }
    assert_eq!(sync_q.pop(), None);
    let _ = s
        .show(2, KeySet::new(), &clicked, &mut tree, &State::new(), &mut sync_q, &mut async_q, &mut server_q)
        .unwrap();
    // the second click reached zero: done, and a graph update was queued
    assert_eq!(sync_q.pop(), Some(SyncSignal::UpdateGraph));
    assert_eq!(
        tree,
        StatefulAction::Counter(cog_task::action::counter::StatefulCounter {
            done: true,
            count: 0,
        })
    );
}
