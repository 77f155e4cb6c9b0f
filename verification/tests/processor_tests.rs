use cog_task::action::counter::StatefulCounter;
use cog_task::action::nil::StatefulNil;
use cog_task::action::StatefulAction;
use cog_task::error::Error;
use cog_task::logger::Logger;
use cog_task::processor::{AsyncProcessor, SyncProcessor};
use cog_task::queue::SignalQueue;
use cog_task::resource::{ResourceMap, ResourceValue};
use cog_task::signal::{
    AsyncSignal, KeySet, LogEntry, LogValue, LoggerSignal, ServerSignal, SyncSignal,
};

#[test]
fn async_processor_forwards_records_and_reports_completion() {
    let mut proc = AsyncProcessor::new();
    let mut async_q: SignalQueue<AsyncSignal> = SignalQueue::new();
    let mut server_q: SignalQueue<ServerSignal> = SignalQueue::new();
    async_q.push(AsyncSignal::Logger(
        11,
        LoggerSignal::Append(
            String::from("g"),
            LogEntry::new(String::from("k"), LogValue::Int(1)),
        ),
    ));
    async_q.push(AsyncSignal::Logger(
        12,
        LoggerSignal::Extend(String::from("h"), vec![]),
    ));
    async_q.push(AsyncSignal::Finish);
    // traffic after the terminal signal is never read
    async_q.push(AsyncSignal::Logger(
        13,
        LoggerSignal::Append(
            String::from("late"),
            LogEntry::new(String::from("k"), LogValue::Int(2)),
        ),
    ));
    proc.run(&mut async_q, &mut server_q);
    assert_eq!(server_q.pop(), Some(ServerSignal::AsyncComplete(Ok(()))));
    assert_eq!(server_q.pop(), None);
    let records = proc.into_logger().take();
    assert_eq!(records.len(), 2);
    assert_eq!(records[0].time, 11);
    assert_eq!(records[0].group, String::from("g"));
    assert_eq!(records[0].entries.len(), 1);
    assert_eq!(records[1].time, 12);
    assert_eq!(records[1].group, String::from("h"));
    assert_eq!(records[1].entries.len(), 0);
}

#[test]
fn trivially_complete_tree_finishes_exactly_once() {
    // a counter starting at zero is over immediately after construction
    let tree = StatefulAction::Counter(StatefulCounter { done: true, count: 0 });
    let mut proc = SyncProcessor::new(tree);
    let mut sync_q: SignalQueue<SyncSignal> = SignalQueue::new();
    let mut async_q: SignalQueue<AsyncSignal> = SignalQueue::new();
    let mut server_q: SignalQueue<ServerSignal> = SignalQueue::new();
    // the startup sequence queues the first graph update; later ones arrive
    // as the block winds down
    sync_q.push(SyncSignal::UpdateGraph);
    sync_q.push(SyncSignal::UpdateGraph);
    sync_q.push(SyncSignal::UpdateGraph);
    sync_q.push(SyncSignal::Finish);
    proc.run(&mut sync_q, &mut async_q, &mut server_q);
    let mut finished = 0;
    let mut completed = 0;
    while let Some(sig) = server_q.pop() {
        match sig {
            ServerSignal::BlockFinished => finished += 1,
            ServerSignal::SyncComplete(Ok(())) => completed += 1,
            other => panic!("unexpected: {:?}", other),
        }
    }
    assert_eq!(finished, 1);
    assert_eq!(completed, 1);
    // the audit trail: the start entry, then exactly one finish entry
    match async_q.pop() {
        Some(AsyncSignal::Logger(_, LoggerSignal::Append(g, e))) => {
            assert_eq!(g, String::from("mainevent"));
            assert_eq!(e.name, String::from("start"));
        }
        other => panic!("unexpected: {:?}", other),
    }
    match async_q.pop() {
        Some(AsyncSignal::Logger(_, LoggerSignal::Append(g, e))) => {
            assert_eq!(g, String::from("mainevent"));
            assert_eq!(e.name, String::from("finish"));
            assert_eq!(e.value, LogValue::Text(String::from("Success")));
        }
        other => panic!("unexpected: {:?}", other),
    }
    assert_eq!(async_q.pop(), None);
}

#[test]
fn incomplete_tree_reports_nothing_but_completion() {
    let tree = StatefulAction::Nil(StatefulNil::new());
    let mut proc = SyncProcessor::new(tree);
    let mut sync_q: SignalQueue<SyncSignal> = SignalQueue::new();
    let mut async_q: SignalQueue<AsyncSignal> = SignalQueue::new();
    let mut server_q: SignalQueue<ServerSignal> = SignalQueue::new();
    sync_q.push(SyncSignal::UpdateGraph);
    sync_q.push(SyncSignal::KeyPress(5, KeySet::new()));
    sync_q.push(SyncSignal::Finish);
    proc.run(&mut sync_q, &mut async_q, &mut server_q);
    assert_eq!(server_q.pop(), Some(ServerSignal::SyncComplete(Ok(()))));
    assert_eq!(server_q.pop(), None);
}

#[test]
fn logger_accumulates_records_in_order() {
    let mut logger = Logger::new();
    logger
        .update(
            3,
            LoggerSignal::Append(
                String::from("g"),
                LogEntry::new(String::from("a"), LogValue::Text(String::from("x"))),
            ),
        )
        .unwrap();
    logger.update(4, LoggerSignal::Extend(String::from("g"), vec![])).unwrap();
    logger.finish().unwrap();
    let records = logger.take();
    assert_eq!(records.len(), 2);
    assert_eq!(records[0].time, 3);
    assert_eq!(records[1].time, 4);
}

#[test]
fn resource_fetch_finds_the_first_binding() {
    let mut res = ResourceMap::new();
    res.insert(String::from("a"), ResourceValue::Text(String::from("one")));
    res.insert(String::from("b"), ResourceValue::Text(String::from("two")));
    match res.fetch(&String::from("b")) {
        Ok(ResourceValue::Text(t)) => assert_eq!(t, &String::from("two")),
        other => panic!("unexpected: {:?}", other),
    }
    match res.fetch(&String::from("missing")) {
        Err(Error::InvalidResourceError(_)) => {}
        other => panic!("unexpected: {:?}", other),
    }
}
