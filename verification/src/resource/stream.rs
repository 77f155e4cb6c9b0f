//! The streaming-media handle model and its pipeline description.
//!
//! The real decoder (a media pipeline built from a textual description)
//! lives outside the library; everything it only reads or toggles — probed
//! metadata, the end-of-stream flag, the paused flag — is modelled here as
//! plain values, so the bus-processing and restart decisions are verified.

use vstd::prelude::*;
use crate::error::Error;

verus! {

/// Which audio channel of a stereo sink a stream is routed to.
#[derive(Debug, Clone, Copy, PartialEq, Eq, Structural)]
pub enum AudioChannel {
    Stereo,
    Left,
    Right,
}

/// How a stream's pipeline is assembled: probing (`Query`), normal playback
/// on a channel, or with audio discarded.
#[derive(Debug, Clone, Copy, PartialEq, Eq, Structural)]
pub enum StreamMode {
    Query,
    Normal(AudioChannel),
    Muted,
}

/// A streaming media handle: the probed metadata plus the two flags the
/// core reads and writes. The decoder itself is owned outside the library.
#[derive(Debug, PartialEq)]
pub struct Stream {
    pub path: String,
    pub frame_width: u32,
    pub frame_height: u32,
    pub framerate_num: u32,
    pub framerate_den: u32,
    pub audio_chan: u16,
    pub audio_rate: u32,
    pub duration_ms: u64,
    pub is_eos: bool,
    pub paused: bool,
    pub volume: u32,
    pub muted: bool,
}

impl Stream {
    /// Binds a freshly probed stream: not yet at end of stream, paused,
    /// at full volume (volume is carried in per-mille of full scale).
    pub fn new(
        path: String,
        frame_width: u32,
        frame_height: u32,
        framerate_num: u32,
        framerate_den: u32,
        audio_chan: u16,
        audio_rate: u32,
        duration_ms: u64,
    ) -> (r: Stream)
        ensures
            r.path == path,
            r.frame_width == frame_width,
            r.frame_height == frame_height,
            r.framerate_num == framerate_num,
            r.framerate_den == framerate_den,
            r.audio_chan == audio_chan,
            r.audio_rate == audio_rate,
            r.duration_ms == duration_ms,
            !r.is_eos,
            r.paused,
            r.volume == 1000,
            !r.muted,
    {
        Stream {
            path,
            frame_width,
            frame_height,
            framerate_num,
            framerate_den,
            audio_chan,
            audio_rate,
            duration_ms,
            is_eos: false,
            paused: true,
            volume: 1000,
            muted: false,
        }
    }

    /// A playback instance bound to the same media, with its own volume.
    pub fn cloned(&self, volume: u32) -> (r: Stream)
        ensures
            r.path@ == self.path@,
            r.frame_width == self.frame_width,
            r.frame_height == self.frame_height,
            r.framerate_num == self.framerate_num,
            r.framerate_den == self.framerate_den,
            r.audio_chan == self.audio_chan,
            r.audio_rate == self.audio_rate,
            r.duration_ms == self.duration_ms,
            r.is_eos == self.is_eos,
            r.paused == self.paused,
            r.volume == volume,
            !r.muted,
    {
        Stream {
            path: self.path.clone(),
            frame_width: self.frame_width,
            frame_height: self.frame_height,
            framerate_num: self.framerate_num,
            framerate_den: self.framerate_den,
            audio_chan: self.audio_chan,
            audio_rate: self.audio_rate,
            duration_ms: self.duration_ms,
            is_eos: self.is_eos,
            paused: self.paused,
            volume,
            muted: false,
        }
    }

    /// Whether the stream has ended.
    pub fn eos(&self) -> (r: bool)
        ensures
            r == self.is_eos,
    {
        self.is_eos
    }

    /// The video resolution as `(width, height)`.
    pub fn size(&self) -> (r: (u32, u32))
        ensures
            r.0 == self.frame_width,
            r.1 == self.frame_height,
    {
        (self.frame_width, self.frame_height)
    }

    /// The framerate as an exact fraction `(numerator, denominator)` of
    /// frames per second.
    pub fn framerate(&self) -> (r: (u32, u32))
        ensures
            r.0 == self.framerate_num,
            r.1 == self.framerate_den,
    {
        (self.framerate_num, self.framerate_den)
    }

    /// The number of audio channels.
    pub fn channels(&self) -> (r: u16)
        ensures
            r == self.audio_chan,
    {
        self.audio_chan
    }

    /// The media duration in milliseconds.
    pub fn duration(&self) -> (r: u64)
        ensures
            r == self.duration_ms,
    {
        self.duration_ms
    }

    /// Whether the stream carries video: a non-degenerate resolution.
    pub fn has_video(&self) -> (r: bool)
        ensures
            r == (self.frame_width > 0 || self.frame_height > 0),
    {
        self.frame_width > 0 || self.frame_height > 0
    }

    /// Whether the stream carries audio.
    pub fn has_audio(&self) -> (r: bool)
        ensures
            r == (self.audio_chan > 0),
    {
        self.audio_chan > 0
    }

    /// Starts playback: assumes the stream sits at its first frame and
    /// unpauses it.
    pub fn start(&mut self)
        ensures
            *final(self) == (Stream { paused: false, ..*old(self) }),
    {
        self.set_paused(false);
    }

    /// Restarts playback: back to the first frame, unpaused, with the
    /// end-of-stream flag cleared. The seek itself happens outside.
    pub fn restart(&mut self)
        ensures
            *final(self) == (Stream { paused: false, is_eos: false, ..*old(self) }),
    {
        self.is_eos = false;
        self.set_paused(false);
    }

    /// Pauses playback.
    pub fn pause(&mut self)
        ensures
            *final(self) == (Stream { paused: true, ..*old(self) }),
    {
        self.set_paused(true);
    }

    /// Gets whether the stream is paused.
    pub fn paused(&self) -> (r: bool)
        ensures
            r == self.paused,
    {
        self.paused
    }

    /// Records the paused state; the pipeline state change happens outside.
    pub fn set_paused(&mut self, paused: bool)
        ensures
            *final(self) == (Stream { paused, ..*old(self) }),
    {
        self.paused = paused;
    }

    /// Records the volume multiplier, in per-mille of full scale.
    pub fn set_volume(&mut self, volume: u32)
        ensures
            *final(self) == (Stream { volume, ..*old(self) }),
    {
        self.volume = volume;
    }

    /// Records whether audio is muted, without changing the volume.
    pub fn set_muted(&mut self, muted: bool)
        ensures
            *final(self) == (Stream { muted, ..*old(self) }),
    {
        self.muted = muted;
    }

    /// Applies one round of bus messages, reported as plain flags: whether
    /// an error message and whether an end-of-stream message was seen.
    ///
    /// On end of stream with looping the stream restarts and has not ended;
    /// without looping it ends and pauses. A bus error fails the call and
    /// leaves the flags untouched.
    pub fn process_bus(&mut self, saw_error: bool, saw_eos: bool, looping: bool) -> (r: Result<
        bool,
        Error,
    >)
        ensures
            saw_error ==> (r matches Err(e) && e is MediaError && *final(self) == *old(self)),
            !saw_error && saw_eos && looping ==> r == Ok::<bool, Error>(false) && *final(self) == (
            Stream { paused: false, is_eos: false, ..*old(self) }),
            !saw_error && saw_eos && !looping ==> r == Ok::<bool, Error>(true) && *final(self) == (
            Stream { paused: true, is_eos: true, ..*old(self) }),
            !saw_error && !saw_eos ==> r == Ok::<bool, Error>(old(self).is_eos) && *final(self)
                == *old(self),
    {
        if saw_error {
            return Err(
                Error::MediaError(String::from_str("Encountered error in gstreamer bus")),
            );
        }
        if saw_eos && looping {
            self.restart();
            Ok(false)
        } else if saw_eos {
            self.is_eos = true;
            self.set_paused(true);
            Ok(true)
        } else {
            Ok(self.is_eos)
        }
    }
}

/// The textual description of the playback pipeline for a path and mode.
pub open spec fn pipeline_spec(path: Seq<char>, mode: StreamMode) -> Seq<char> {
    "playbin uri=\"file://"@ + path
        + "\" name=playbin video-sink=\"videoconvert ! videoscale ! appsink name=video_sink caps=video/x-raw,format=RGBA,pixel-aspect-ratio=1/1\""@
        + match mode {
        StreamMode::Query => " audio-sink=\"audioconvert ! appsink name=audio_sink caps=audio/x-raw,format=S16LE,layout=interleaved\""@,
        StreamMode::Normal(AudioChannel::Stereo) => Seq::<char>::empty(),
        StreamMode::Normal(
            AudioChannel::Left,
        ) => " audio-sink=\"audioconvert ! audiopanorama panorama=-1 ! playsink\""@,
        StreamMode::Normal(
            AudioChannel::Right,
        ) => " audio-sink=\"audioconvert ! audiopanorama panorama=1 ! playsink\""@,
        StreamMode::Muted => " audio-sink=\"audioconvert ! fakesink\""@,
    }
}

/// Builds the pipeline description for an already-canonical media path.
pub fn pipeline(path: &String, mode: &StreamMode) -> (r: String)
    ensures
        r@ == pipeline_spec(path@, *mode),
{
    let mut r = String::from_str("playbin uri=\"file://");
    r.append(path.as_str());
    r.append(
        "\" name=playbin video-sink=\"videoconvert ! videoscale ! appsink name=video_sink caps=video/x-raw,format=RGBA,pixel-aspect-ratio=1/1\"",
    );
    match mode {
        StreamMode::Query => {
            r.append(
                " audio-sink=\"audioconvert ! appsink name=audio_sink caps=audio/x-raw,format=S16LE,layout=interleaved\"",
            );
        },
        StreamMode::Normal(AudioChannel::Stereo) => {
            proof {
                assert(r@ =~= r@ + Seq::<char>::empty());
            }
        },
        StreamMode::Normal(AudioChannel::Left) => {
            r.append(" audio-sink=\"audioconvert ! audiopanorama panorama=-1 ! playsink\"");
        },
        StreamMode::Normal(AudioChannel::Right) => {
            r.append(" audio-sink=\"audioconvert ! audiopanorama panorama=1 ! playsink\"");
        },
        StreamMode::Muted => {
            r.append(" audio-sink=\"audioconvert ! fakesink\"");
        },
    }
    r
}

} // verus!
