//! Audio sample buffers and the per-task audio settings.

use vstd::prelude::*;
use vstd::math::min;
use crate::error::Error;

verus! {

/// Decoded interleaved PCM audio: `samples` holds frames of `channels`
/// samples each, at `sample_rate` frames per second. Decoding happens
/// outside the library; the channel arithmetic below is verified.
#[derive(Debug, PartialEq, Eq)]
pub struct AudioData {
    pub channels: u16,
    pub sample_rate: u32,
    pub samples: Vec<i16>,
}

impl AudioData {
    pub open spec fn wf(&self) -> bool {
        self.channels >= 1
    }

    pub fn new(channels: u16, sample_rate: u32, samples: Vec<i16>) -> (r: AudioData)
        requires
            channels >= 1,
        ensures
            r == (AudioData { channels, sample_rate, samples }),
            r.wf(),
    {
        AudioData { channels, sample_rate, samples }
    }
}

/// Whether a trigger channel is added to task audio; `Inherit` defers to
/// the enclosing configuration.
#[derive(Debug, Clone, Copy, PartialEq, Eq, Structural)]
pub enum UseTrigger {
    Inherit,
    Yes,
    No,
}

impl Default for UseTrigger {
    fn default() -> (r: Self)
        ensures
            r == UseTrigger::Inherit,
    {
        UseTrigger::Inherit
    }
}

impl UseTrigger {
    /// Resolves `Inherit` against a fallback.
    pub fn or(&self, other: &Self) -> (r: Self)
        ensures
            *self is Inherit ==> r == *other,
            !(*self is Inherit) ==> r == *self,
    {
        if let Self::Inherit = self {
            *other
        } else {
            *self
        }
    }

    /// Whether a trigger is in use; everything but an explicit `No` counts.
    pub fn value(&self) -> (r: bool)
        ensures
            r == !(*self is No),
    {
        !matches!(self, UseTrigger::No)
    }
}

/// How sleep boundaries are honoured when timing stimuli; `Inherit` defers
/// to the enclosing configuration.
#[derive(Debug, Clone, Copy, PartialEq, Eq, Structural)]
pub enum TimePrecision {
    Inherit,
    RespectIntervals,
    RespectBoundaries,
}

impl Default for TimePrecision {
    fn default() -> (r: Self)
        ensures
            r == TimePrecision::Inherit,
    {
        TimePrecision::Inherit
    }
}

impl TimePrecision {
    /// Resolves `Inherit` against a fallback.
    pub fn or(&self, other: &Self) -> (r: Self)
        ensures
            *self is Inherit ==> r == *other,
            !(*self is Inherit) ==> r == *self,
    {
        if let Self::Inherit = self {
            *other
        } else {
            *self
        }
    }
}

/// The result of interlacing a mono trigger track into interleaved audio:
/// after every complete frame of `ch` samples one trigger sample follows,
/// as long as the trigger has samples left; a trailing partial frame is
/// kept as it is.
pub open spec fn interlaced(s1: Seq<i16>, ch: nat, s2: Seq<i16>) -> Seq<i16>
    decreases s1.len(),
    when ch >= 1
{
    if s1.len() < ch {
        s1
    } else if s2.len() > 0 {
        s1.take(ch as int) + seq![s2[0]] + interlaced(s1.skip(ch as int), ch, s2.drop_first())
    } else {
        s1.take(ch as int) + interlaced(s1.skip(ch as int), ch, s2)
    }
}

/// The result of dropping the last channel from interleaved audio: of every
/// complete frame of `ch` samples only the first `ch - 1` remain; a
/// trailing partial frame (necessarily shorter than `ch`) is kept whole.
pub open spec fn channel_dropped(s: Seq<i16>, ch: nat) -> Seq<i16>
    decreases s.len(),
    when ch >= 1
{
    if s.len() < ch {
        s
    } else {
        s.take(ch - 1) + channel_dropped(s.skip(ch as int), ch)
    }
}

/// Appends a mono trigger track to interleaved audio, one trigger sample
/// after each complete frame.
///
/// Fails when the sample rates differ, when the trigger is not mono, or
/// when the trigger holds more samples than the audio has complete frames.
pub fn interlace_channels(src1: AudioData, src2: AudioData) -> (r: Result<AudioData, Error>)
    requires
        src1.wf(),
        src1.channels < 0x7fff,
    ensures
        src2.sample_rate != src1.sample_rate || src2.channels != 1 || src2.samples@.len()
            > src1.samples@.len() as int / src1.channels as int ==> r is Err,
        src2.sample_rate == src1.sample_rate && src2.channels == 1 && src2.samples@.len()
            <= src1.samples@.len() as int / src1.channels as int ==> (r matches Ok(out)
            && out.channels == src1.channels + 1 && out.sample_rate == src1.sample_rate
            && out.samples@ == interlaced(src1.samples@, src1.channels as nat, src2.samples@)),
{
    let in_channels = src1.channels;
    if src2.sample_rate != src1.sample_rate {
        return Err(
            Error::InvalidResourceError(
                String::from_str(
                    "Trigger (?) has different sampling rate than corresponding audio",
                ),
            ),
        );
    }
    if src2.channels != 1 {
        return Err(
            Error::InvalidResourceError(
                String::from_str("Trigger (?) should have exactly 1 channel"),
            ),
        );
    }
    let ch: usize = in_channels as usize;
    let n = src1.samples.len();
    let frames = n / ch;
    if src2.samples.len() > frames {
        return Err(
            Error::InvalidResourceError(String::from_str("Trigger for (?) is longer than itself.")),
        );
    }
    let ghost s1 = src1.samples@;
    let ghost s2 = src2.samples@;
    let mut samples: Vec<i16> = Vec::new();
    let mut f: usize = 0;
    let mut base: usize = 0;
    proof {
        assert(s1.skip(0) =~= s1);
        assert(s2.skip(0) =~= s2);
    }
    while f < frames
        invariant
            1 <= ch <= 0x7fff,
            n == s1.len(),
            s1 == src1.samples@,
            s2 == src2.samples@,
            frames == n as int / ch as int,
            s2.len() <= frames,
            0 <= f <= frames,
            base == f * ch,
            samples@ + interlaced(s1.skip(base as int), ch as nat, s2.skip(min(f as int, s2.len() as int)))
                == interlaced(s1, ch as nat, s2),
        decreases frames - f,
    {
        let ghost pre = samples@;
        let ghost rest = s1.skip(base as int);
        let ghost trig = s2.skip(min(f as int, s2.len() as int));
        proof {
            assert((f + 1) * ch == f * ch + ch) by (nonlinear_arith);
            assert(f + 1 <= frames ==> (f + 1) * ch <= (n as int / ch as int) * ch as int <= n as int)
                by (nonlinear_arith)
                requires
                    ch >= 1,
                    n >= 0,
                    frames == n as int / ch as int,
            ;
            assert(base + ch <= n);
            assert(rest.len() == n - base >= ch);
        }
        let mut j: usize = 0;
        while j < ch
            invariant
                0 <= j <= ch,
                base + ch <= n,
                n == s1.len(),
                n == src1.samples@.len(),
                s1 == src1.samples@,
                samples@ == pre + s1.subrange(base as int, base as int + j as int),
            decreases ch - j,
        {
            samples.push(src1.samples[base + j]);
            proof {
                assert(samples@ =~= pre + s1.subrange(base as int, base as int + j + 1));
            }
            j += 1;
        }
        if f < src2.samples.len() {
            samples.push(src2.samples[f]);
        }
        proof {
            assert(rest.take(ch as int) =~= s1.subrange(base as int, base as int + ch as int));
            assert(rest.skip(ch as int) =~= s1.skip(base as int + ch as int));
            if f < s2.len() {
                assert(trig =~= s2.skip(f as int));
                assert(trig.len() > 0);
                assert(trig[0] == s2[f as int]);
                assert(trig.drop_first() =~= s2.skip(min(f as int + 1, s2.len() as int)));
                assert(samples@ =~= pre + (rest.take(ch as int) + seq![trig[0]]));
                assert(samples@ + interlaced(rest.skip(ch as int), ch as nat, trig.drop_first())
                    =~= pre + interlaced(rest, ch as nat, trig));
            } else {
                assert(min(f as int, s2.len() as int) == s2.len() as int);
                assert(trig.len() == 0);
                assert(min(f as int + 1, s2.len() as int) == s2.len() as int);
                assert(samples@ =~= pre + rest.take(ch as int));
                assert(samples@ + interlaced(rest.skip(ch as int), ch as nat, trig)
                    =~= pre + interlaced(rest, ch as nat, trig));
            }
        }
        f += 1;
        base = base + ch;
    }
    let mut i: usize = base;
    proof {
        assert(frames * ch <= n && n - frames * ch < ch) by (nonlinear_arith)
            requires
                ch >= 1,
                n >= 0,
                frames == n as int / ch as int,
        ;
        assert(s1.skip(i as int).len() < ch);
        assert(min(frames as int, s2.len() as int) == s2.len() as int);
        assert(s2.skip(s2.len() as int).len() == 0);
    }
    while i < n
        invariant
            1 <= ch,
            n == s1.len(),
            n == src1.samples@.len(),
            s1 == src1.samples@,
            0 <= i <= n,
            s1.skip(i as int).len() < ch,
            samples@ + s1.skip(i as int) == interlaced(s1, ch as nat, s2),
        decreases n - i,
    {
        samples.push(src1.samples[i]);
        proof {
            assert(s1.skip(i as int).drop_first() =~= s1.skip(i + 1));
            assert(samples@ + s1.skip(i + 1) =~= samples@.drop_last() + s1.skip(i as int));
        }
        i += 1;
    }
    proof {
        assert(s1.skip(n as int).len() == 0);
        assert(samples@ + s1.skip(n as int) =~= samples@);
    }
    Ok(AudioData { channels: in_channels + 1, sample_rate: src1.sample_rate, samples })
}

/// Removes the trailing (trigger) channel from interleaved audio.
///
/// Fails when the audio has a single channel, since nothing would remain.
pub fn drop_channel(src: AudioData) -> (r: Result<AudioData, Error>)
    requires
        src.wf(),
    ensures
        src.channels == 1 ==> r is Err,
        src.channels > 1 ==> (r matches Ok(out) && out.channels == src.channels - 1
            && out.sample_rate == src.sample_rate && out.samples@ == channel_dropped(
            src.samples@,
            src.channels as nat,
        )),
{
    if src.channels == 1 {
        return Err(
            Error::InvalidResourceError(
                String::from_str("Audio with internal trigger should have at least one channel."),
            ),
        );
    }
    let ch: usize = src.channels as usize;
    let ghost s = src.samples@;
    let n = src.samples.len();
    let frames = n / ch;
    let mut samples: Vec<i16> = Vec::new();
    let mut f: usize = 0;
    let mut base: usize = 0;
    proof {
        assert(s.skip(0) =~= s);
    }
    while f < frames
        invariant
            2 <= ch,
            n == s.len(),
            s == src.samples@,
            frames == n as int / ch as int,
            0 <= f <= frames,
            base == f * ch,
            samples@ + channel_dropped(s.skip(base as int), ch as nat) == channel_dropped(
                s,
                ch as nat,
            ),
        decreases frames - f,
    {
        let ghost pre = samples@;
        let ghost rest = s.skip(base as int);
        proof {
            assert((f + 1) * ch == f * ch + ch) by (nonlinear_arith);
            assert(f + 1 <= frames ==> (f + 1) * ch <= (n as int / ch as int) * ch as int
                <= n as int) by (nonlinear_arith)
                requires
                    ch >= 1,
                    n >= 0,
                    frames == n as int / ch as int,
            ;
            assert(base + ch <= n);
            assert(rest.len() == n - base >= ch);
        }
        let mut j: usize = 0;
        while j < ch - 1
            invariant
                2 <= ch,
                0 <= j <= ch - 1,
                base + ch <= n,
                n == src.samples@.len(),
                s == src.samples@,
                samples@ == pre + s.subrange(base as int, base as int + j as int),
            decreases ch - j,
        {
            samples.push(src.samples[base + j]);
            proof {
                assert(samples@ =~= pre + s.subrange(base as int, base as int + j + 1));
            }
            j += 1;
        }
        proof {
            assert(rest.take(ch - 1) =~= s.subrange(base as int, base as int + ch - 1));
            assert(rest.skip(ch as int) =~= s.skip(base as int + ch as int));
            assert(samples@ =~= pre + rest.take(ch - 1));
            assert(samples@ + channel_dropped(rest.skip(ch as int), ch as nat) =~= pre
                + channel_dropped(rest, ch as nat));
        }
        f += 1;
        base = base + ch;
    }
    let mut i: usize = base;
    proof {
        assert(frames * ch <= n && n - frames * ch < ch) by (nonlinear_arith)
            requires
                ch >= 1,
                n >= 0,
                frames == n as int / ch as int,
        ;
        assert(s.skip(base as int).len() < ch);
    }
    while i < n
        invariant
            2 <= ch,
            n == s.len(),
            n == src.samples@.len(),
            s == src.samples@,
            base <= i <= n,
            s.skip(i as int).len() < ch,
            samples@ + s.skip(i as int) == channel_dropped(s, ch as nat),
        decreases n - i,
    {
        samples.push(src.samples[i]);
        proof {
            assert(s.skip(i as int).drop_first() =~= s.skip(i + 1));
            assert(samples@ + s.skip(i + 1) =~= samples@.drop_last() + s.skip(i as int));
        }
        i += 1;
    }
    proof {
        assert(s.skip(n as int).len() == 0);
        assert(samples@ + s.skip(n as int) =~= samples@);
    }
    Ok(AudioData { channels: src.channels - 1, sample_rate: src.sample_rate, samples })
}

} // verus!
