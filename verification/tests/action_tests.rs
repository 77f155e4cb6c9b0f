use cog_task::action::counter::{from, Counter, StatefulCounter};
use cog_task::action::key_logger::{group, KeyLogger};
use cog_task::action::nil::{Nil, StatefulNil};
use cog_task::action::stream::{DecodeStep, DoneState, StatefulStream, Stream, StreamWorker};
use cog_task::action::{Action, StatefulAction};
use cog_task::config::Config;
use cog_task::error::Error;
use cog_task::queue::SignalQueue;
use cog_task::resource::{ResourceMap, ResourceValue};
use cog_task::scheduler::State;
use cog_task::signal::{AsyncSignal, Key, KeySet, LogValue, LoggerSignal};

fn media(width: u32, num: u32, chan: u16) -> cog_task::resource::stream::Stream {
    cog_task::resource::stream::Stream::new(
        String::from("clip.mp4"),
        width,
        if width > 0 { 100 } else { 0 },
        num,
        1,
        chan,
        44100,
        2500,
    )
}

#[test]
fn defaults_match_the_task_format() {
    assert_eq!(group(), String::from("keypress"));
    assert_eq!(from(), 3);
}

#[test]
fn nil_is_never_over_until_stopped() {
    let mut async_q: SignalQueue<AsyncSignal> = SignalQueue::new();
    let (mut a, w) = Action::Nil(Nil::new())
        .stateful(&ResourceMap::new(), &Config::default())
        .unwrap();
    assert!(w.is_none());
    assert_eq!(a.is_over(), Ok(false));
    a.stop(&State::new(), &mut async_q).unwrap();
    assert_eq!(a.is_over(), Ok(true));
    assert_eq!(StatefulNil::default(), StatefulNil::new());
}

#[test]
fn key_logger_rejects_empty_group() {
    let k = KeyLogger::new(String::new());
    match k.stateful() {
        Err(Error::InvalidNameError(_)) => {}
        other => panic!("unexpected: {:?}", other),
    }
}

#[test]
fn key_logger_logs_key_names() {
    let mut async_q: SignalQueue<AsyncSignal> = SignalQueue::new();
    let k = KeyLogger::new(group());
    let mut a = match k.stateful() {
        Ok(a) => a,
        Err(e) => panic!("unexpected: {:?}", e),
    };
    assert!(a.props().cap_keys);
    let keys = KeySet::from_vec(vec![Key::A, Key::Enter]);
    let sig = cog_task::action::ActionSignal::KeyPress(7, keys);
    a.update(&sig, &State::new(), &mut async_q).unwrap();
    match async_q.pop() {
        Some(AsyncSignal::Logger(_, LoggerSignal::Append(g, entry))) => {
            assert_eq!(g, String::from("keypress"));
            assert_eq!(entry.name, String::from("key"));
            assert_eq!(
                entry.value,
                LogValue::TextList(vec![String::from("A"), String::from("Enter")])
            );
        }
        other => panic!("unexpected signal: {:?}", other),
    }
}

#[test]
fn counter_starting_at_zero_is_already_done() {
    let c = Counter::from(0u32);
    match c.stateful() {
        Ok(StatefulAction::Counter(StatefulCounter { done, count })) => {
            assert!(done);
            assert_eq!(count, 0);
        }
        other => panic!("unexpected: {:?}", other),
    }
}

#[test]
fn stream_volume_validation() {
    let s = Stream {
        src: String::from("a.mp4"),
        width: None,
        volume: Some(1500),
        looping: false,
    };
    match s.init() {
        Err(Error::TaskDefinitionError(_)) => {}
        other => panic!("unexpected: {:?}", other),
    }
    let ok = Stream { src: String::from("a.mp4"), width: None, volume: Some(800), looping: false };
    assert!(ok.init().is_ok());
}

#[test]
fn stream_stateful_checks_resource_kind_and_width() {
    let config = Config::default();
    let mut res = ResourceMap::new();
    res.insert(String::from("a.mp4#stream"), ResourceValue::Text(String::from("nope")));
    let s = Stream { src: String::from("a.mp4"), width: None, volume: None, looping: false };
    match s.stateful(&res, &config) {
        Err(Error::InvalidResourceError(_)) => {}
        other => panic!("unexpected: {:?}", other),
    }

    let mut res2 = ResourceMap::new();
    res2.insert(String::from("a.mp4#stream"), ResourceValue::Stream(media(0, 0, 2)));
    let with_width =
        Stream { src: String::from("a.mp4"), width: Some(640), volume: None, looping: false };
    match with_width.stateful(&res2, &config) {
        Err(Error::TaskDefinitionError(_)) => {}
        other => panic!("unexpected: {:?}", other),
    }
}

#[test]
fn stream_stateful_binds_the_resolved_volume() {
    let config = Config::new(700, Default::default(), Default::default());
    let mut res = ResourceMap::new();
    res.insert(String::from("a.mp4#stream"), ResourceValue::Stream(media(640, 30, 2)));
    let inherit = Stream { src: String::from("a.mp4"), width: None, volume: None, looping: true };
    match inherit.stateful(&res, &config) {
        Ok((StatefulAction::Stream(s), w)) => {
            assert_eq!(w.stream.volume, 700);
            assert_eq!(w.stream.path, String::from("clip.mp4"));
            assert!(!w.stream.muted);
            assert_eq!(s.framerate_num, 30);
            assert_eq!(s.done, DoneState::Running);
            assert!(!s.link_taken);
        }
        other => panic!("unexpected: {:?}", other),
    }
    let own = Stream { src: String::from("a.mp4"), width: None, volume: Some(250), looping: false };
    match own.stateful(&res, &config) {
        Ok((_, w)) => assert_eq!(w.stream.volume, 250),
        other => panic!("unexpected: {:?}", other),
    }
    // a missing binding is an invalid resource
    match own.stateful(&ResourceMap::new(), &config) {
        Err(Error::InvalidResourceError(_)) => {}
        other => panic!("unexpected: {:?}", other),
    }
}

#[test]
fn stream_probed_at_end_of_stream_is_over_from_the_start() {
    let mut at_eos = media(640, 30, 2);
    at_eos.is_eos = true;
    let mut res = ResourceMap::new();
    res.insert(String::from("a.mp4#stream"), ResourceValue::Stream(at_eos));
    let s = Stream { src: String::from("a.mp4"), width: None, volume: None, looping: false };
    match s.stateful(&res, &Config::default()) {
        Ok((a, w)) => {
            assert_eq!(a.is_over(), Ok(true));
            assert_eq!(w.done, DoneState::Finished);
        }
        other => panic!("unexpected: {:?}", other),
    }
}

#[test]
fn stream_props_follow_video_and_looping() {
    let s = StatefulStream {
        done: DoneState::Running,
        framerate_num: 30,
        framerate_den: 1,
        width: None,
        looping: false,
        link_taken: false,
    };
    let p = s.props();
    assert!(p.visual && p.animated && p.finite && !p.cap_keys);
    let looping = StatefulStream { looping: true, ..s };
    let p2 = looping.props();
    assert!(p2.visual && p2.animated && !p2.finite);
}

#[test]
fn stream_start_hands_the_link_out_once() {
    let mut s = StatefulStream {
        done: DoneState::Running,
        framerate_num: 30,
        framerate_den: 1,
        width: None,
        looping: false,
        link_taken: false,
    };
    assert!(s.start().is_ok());
    match s.start() {
        Err(Error::InternalError(_)) => {}
        other => panic!("unexpected: {:?}", other),
    }
}

#[test]
fn end_of_stream_without_looping_finishes_exactly_once() {
    let mut w = StreamWorker { stream: media(640, 30, 2), looping: false, done: DoneState::Running };
    // quiet tick: keep decoding
    assert_eq!(w.decode_step(false, false, false), DecodeStep::Continue);
    assert_eq!(w.done, DoneState::Running);
    // end of stream arrives: outcome recorded, loop exits
    assert_eq!(w.decode_step(false, false, true), DecodeStep::Exit);
    assert_eq!(w.done, DoneState::Finished);
    assert!(w.stream.eos());
    assert!(w.stream.paused());
}

#[test]
fn end_of_stream_with_looping_restarts_and_records_nothing() {
    let mut w = StreamWorker { stream: media(640, 30, 2), looping: true, done: DoneState::Running };
    assert_eq!(w.decode_step(false, false, true), DecodeStep::Continue);
    assert_eq!(w.done, DoneState::Running);
    assert!(!w.stream.eos());
    assert!(!w.stream.paused());
}

#[test]
fn stopped_worker_exits_on_next_step() {
    let mut w = StreamWorker {
        stream: media(640, 30, 2),
        looping: true,
        done: DoneState::Finished,  // as `stop` forces the shared cell
    };
    assert_eq!(w.decode_step(false, false, false), DecodeStep::Exit);
}

#[test]
fn disconnected_stop_channel_pauses_and_stops() {
    let mut w = StreamWorker { stream: media(640, 30, 2), looping: false, done: DoneState::Running };
    assert_eq!(w.decode_step(true, false, false), DecodeStep::Stop);
    assert!(w.stream.paused());
}

#[test]
fn bus_error_is_recorded_and_polling_goes_on() {
    let mut w = StreamWorker { stream: media(640, 30, 2), looping: false, done: DoneState::Running };
    assert_eq!(w.decode_step(false, true, false), DecodeStep::Continue);
    match &w.done {
        DoneState::Failed(Error::MediaError(_)) => {}
        other => panic!("unexpected: {:?}", other),
    }
}

#[test]
fn join_outcome_maps_results_into_the_cell() {
    assert_eq!(cog_task::action::stream::join_outcome(Some(Ok(()))), DoneState::Finished);
    match cog_task::action::stream::join_outcome(Some(Err(Error::FlowError(String::from("x"))))) {
        DoneState::Failed(Error::FlowError(_)) => {}
        other => panic!("unexpected: {:?}", other),
    }
    match cog_task::action::stream::join_outcome(None) {
        DoneState::Failed(Error::InternalError(_)) => {}
        other => panic!("unexpected: {:?}", other),
    }
}
