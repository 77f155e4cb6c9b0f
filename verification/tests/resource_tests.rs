use cog_task::resource::audio::{drop_channel, interlace_channels, AudioData, TimePrecision, UseTrigger};
use cog_task::resource::stream::{pipeline, AudioChannel, Stream, StreamMode};
use cog_task::resource::text::{parse_text, text_or_file, TextContent};
use cog_task::error::Error;

#[test]
fn interlace_appends_one_trigger_sample_per_frame() {
    let audio = AudioData::new(2, 44100, vec![1, 2, 3, 4, 5, 6]);
    let trigger = AudioData::new(1, 44100, vec![9, 8, 7]);
    let out = interlace_channels(audio, trigger).unwrap();
    assert_eq!(out.channels, 3);
    assert_eq!(out.sample_rate, 44100);
    assert_eq!(out.samples, vec![1, 2, 9, 3, 4, 8, 5, 6, 7]);
}

#[test]
fn interlace_tolerates_short_trigger() {
    let audio = AudioData::new(1, 8000, vec![1, 2, 3]);
    let trigger = AudioData::new(1, 8000, vec![5]);
    let out = interlace_channels(audio, trigger).unwrap();
    assert_eq!(out.samples, vec![1, 5, 2, 3]);
}

#[test]
fn interlace_rejects_bad_triggers() {
    let audio = AudioData::new(2, 44100, vec![1, 2, 3, 4]);
    let wrong_rate = AudioData::new(1, 48000, vec![9]);
    match interlace_channels(audio, wrong_rate) {
        Err(Error::InvalidResourceError(_)) => {}
        other => panic!("unexpected: {:?}", other),
    }
    let audio = AudioData::new(2, 44100, vec![1, 2, 3, 4]);
    let stereo_trigger = AudioData::new(2, 44100, vec![9, 9]);
    assert!(interlace_channels(audio, stereo_trigger).is_err());
    let audio = AudioData::new(2, 44100, vec![1, 2, 3, 4]);
    let long_trigger = AudioData::new(1, 44100, vec![9, 9, 9]);
    assert!(interlace_channels(audio, long_trigger).is_err());
}

#[test]
fn drop_channel_strips_the_trailing_channel() {
    let audio = AudioData::new(3, 44100, vec![1, 2, 9, 3, 4, 8, 5, 6, 7]);
    let out = drop_channel(audio).unwrap();
    assert_eq!(out.channels, 2);
    assert_eq!(out.samples, vec![1, 2, 3, 4, 5, 6]);
    let mono = AudioData::new(1, 44100, vec![1, 2, 3]);
    assert!(drop_channel(mono).is_err());
}

#[test]
fn trigger_and_precision_resolve_inherit() {
    assert_eq!(UseTrigger::default(), UseTrigger::Inherit);
    assert_eq!(UseTrigger::Inherit.or(&UseTrigger::No), UseTrigger::No);
    assert_eq!(UseTrigger::Yes.or(&UseTrigger::No), UseTrigger::Yes);
    assert!(UseTrigger::Yes.value());
    assert!(UseTrigger::Inherit.value());
    assert!(!UseTrigger::No.value());
    assert_eq!(TimePrecision::default(), TimePrecision::Inherit);
    assert_eq!(
        TimePrecision::Inherit.or(&TimePrecision::RespectBoundaries),
        TimePrecision::RespectBoundaries
    );
    assert_eq!(
        TimePrecision::RespectIntervals.or(&TimePrecision::RespectBoundaries),
        TimePrecision::RespectIntervals
    );
}

#[test]
fn pipeline_description_for_a_muted_stream() {
    let p = pipeline(&String::from("/tmp/a.mp4"), &StreamMode::Muted);
    assert_eq!(
        p,
        String::from(
            "playbin uri=\"file:///tmp/a.mp4\" name=playbin video-sink=\"videoconvert ! videoscale ! appsink name=video_sink caps=video/x-raw,format=RGBA,pixel-aspect-ratio=1/1\" audio-sink=\"audioconvert ! fakesink\""
        )
    );
}

#[test]
fn pipeline_description_modes_differ_only_in_audio_sink() {
    let base = pipeline(&String::from("x"), &StreamMode::Normal(AudioChannel::Stereo));
    let left = pipeline(&String::from("x"), &StreamMode::Normal(AudioChannel::Left));
    let right = pipeline(&String::from("x"), &StreamMode::Normal(AudioChannel::Right));
    let query = pipeline(&String::from("x"), &StreamMode::Query);
    assert!(left.starts_with(base.as_str()));
    assert!(left.ends_with("audiopanorama panorama=-1 ! playsink\""));
    assert!(right.ends_with("audiopanorama panorama=1 ! playsink\""));
    assert!(query.ends_with("caps=audio/x-raw,format=S16LE,layout=interleaved\""));
}

#[test]
fn stream_bus_processing() {
    let mut s = Stream::new(String::from("a"), 640, 480, 30, 1, 2, 44100, 1000);
    assert!(s.has_video());
    assert!(s.has_audio());
    assert_eq!(s.size(), (640, 480));
    assert_eq!(s.framerate(), (30, 1));
    assert_eq!(s.channels(), 2);
    assert_eq!(s.duration(), 1000);
    // quiet bus: nothing changes
    assert_eq!(s.process_bus(false, false, false), Ok(false));
    // end of stream with looping: restart, not ended
    assert_eq!(s.process_bus(false, true, true), Ok(false));
    assert!(!s.eos());
    assert!(!s.paused());
    // end of stream without looping: ended and paused
    assert_eq!(s.process_bus(false, true, false), Ok(true));
    assert!(s.eos());
    assert!(s.paused());
    // bus error fails the call
    assert!(s.process_bus(true, false, false).is_err());
}

#[test]
fn text_or_file_recognizes_file_references() {
    assert_eq!(
        text_or_file(&String::from("!![assets/a.txt]")),
        Some(String::from("assets/a.txt"))
    );
    assert_eq!(text_or_file(&String::from("!![]")), Some(String::from("")));
    assert_eq!(text_or_file(&String::from("plain text")), None);
    assert_eq!(text_or_file(&String::from("!![a\nb]")), None);
    assert_eq!(text_or_file(&String::from("!![a]b")), None);
    assert_eq!(text_or_file(&String::from("!![")), None);
}

#[test]
fn parse_text_splits_directives() {
    match parse_text(&String::from("!!<easy_mark>\nbody here")) {
        Ok(TextContent::EasyMark(b)) => assert_eq!(b, String::from("body here")),
        other => panic!("unexpected: {:?}", other),
    }
    match parse_text(&String::from("!!<easy_mark> \t\n  \nbody")) {
        Ok(TextContent::EasyMark(b)) => assert_eq!(b, String::from("body")),
        other => panic!("unexpected: {:?}", other),
    }
    match parse_text(&String::from("!!<markdown>\nbody")) {
        Err(Error::TaskDefinitionError(_)) => {}
        other => panic!("unexpected: {:?}", other),
    }
    match parse_text(&String::from("ordinary text")) {
        Ok(TextContent::Plain(b)) => assert_eq!(b, String::from("ordinary text")),
        other => panic!("unexpected: {:?}", other),
    }
    // an unterminated directive is shown as plain text
    match parse_text(&String::from("!!<easy_mark body")) {
        Ok(TextContent::Plain(_)) => {}
        other => panic!("unexpected: {:?}", other),
    }
}
