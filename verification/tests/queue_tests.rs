use cog_task::queue::SignalQueue;
use cog_task::signal::{AsyncSignal, KeySet, LoggerSignal, SyncSignal};

#[test]
fn fifo_order_is_push_order() {
    let mut q: SignalQueue<SyncSignal> = SignalQueue::new();
    q.push(SyncSignal::UpdateGraph);
    q.push(SyncSignal::KeyPress(5, KeySet::new()));
    q.push(SyncSignal::UpdateGraph);
    assert_eq!(q.pop(), Some(SyncSignal::UpdateGraph));
    assert_eq!(q.pop(), Some(SyncSignal::KeyPress(5, KeySet::new())));
    assert_eq!(q.pop(), Some(SyncSignal::UpdateGraph));
    assert_eq!(q.pop(), None);
}

#[test]
fn pop_after_finish_yields_nothing() {
    let mut q: SignalQueue<SyncSignal> = SignalQueue::new();
    q.push(SyncSignal::Finish);
    q.push(SyncSignal::UpdateGraph);
    assert_eq!(q.pop(), Some(SyncSignal::Finish));
    // the queue is closed: the later push is never delivered
    assert_eq!(q.pop(), None);
    assert_eq!(q.pop(), None);
}

#[test]
fn empty_open_queue_yields_nothing_but_stays_open() {
    let mut q: SignalQueue<SyncSignal> = SignalQueue::new();
    assert_eq!(q.pop(), None);
    q.push(SyncSignal::UpdateGraph);
    assert_eq!(q.pop(), Some(SyncSignal::UpdateGraph));
}

#[test]
fn push_log_wraps_payload_with_timestamp() {
    let mut q: SignalQueue<AsyncSignal> = SignalQueue::new();
    q.push_log(LoggerSignal::Append(
        String::from("g"),
        cog_task::signal::LogEntry::new(
            String::from("k"),
            cog_task::signal::LogValue::Int(7),
        ),
    ));
    assert_eq!(q.len(), 1);
    match q.pop() {
        Some(AsyncSignal::Logger(_, LoggerSignal::Append(group, entry))) => {
            assert_eq!(group, String::from("g"));
            assert_eq!(entry.name, String::from("k"));
            assert_eq!(entry.value, cog_task::signal::LogValue::Int(7));
        }
        other => panic!("unexpected signal: {:?}", other),
    }
}

#[test]
fn async_finish_is_terminal() {
    let mut q: SignalQueue<AsyncSignal> = SignalQueue::new();
    q.push(AsyncSignal::Finish);
    assert_eq!(q.pop(), Some(AsyncSignal::Finish));
    assert_eq!(q.pop(), None);
}
