use vstd::prelude::*;

verus! {

/// Number of frames in `duration_ms` milliseconds of audio at `sample_rate`
/// frames per second, rounded to the nearest frame (halves round up).
pub open spec fn frames_for(sample_rate: int, duration_ms: int) -> int {
    (sample_rate * duration_ms + 500) / 1000
}

/// `samples` brought to exactly `target` entries: cut after the first
/// `target`, or extended with silence.
pub open spec fn fit(samples: Seq<i16>, target: nat) -> Seq<i16> {
    if samples.len() >= target {
        samples.take(target as int)
    } else {
        samples + Seq::new((target - samples.len()) as nat, |i: int| 0i16)
    }
}

/// Computes the frame count of a clip of `duration_ms` at `sample_rate`.
pub fn target_frames(sample_rate: u32, duration_ms: u32) -> (r: u64)
    ensures
        r as int == frames_for(sample_rate as int, duration_ms as int),
{
    assert(sample_rate as int * duration_ms as int <= 0xffff_ffff * 0xffff_ffff) by (nonlinear_arith)
        requires
            sample_rate <= 0xffff_ffff,
            duration_ms <= 0xffff_ffff,
    ;
    let product: u64 = sample_rate as u64 * duration_ms as u64;
    (product + 500) / 1000
}

/// Truncates `samples` to `target` entries, or pads it with silence up to
/// `target` entries.
pub fn fit_to_length(samples: Vec<i16>, target: u64) -> (r: Vec<i16>)
    ensures
        r@ == fit(samples@, target as nat),
        r@.len() == target,
{
    let mut out = samples;
    if out.len() as u64 >= target {
        out.truncate(target as usize);
        assert(out@ =~= fit(samples@, target as nat));
    } else {
        let start = out.len();
        while (out.len() as u64) < target
            invariant
                start == samples@.len(),
                start <= out@.len() <= target,
                out@.take(start as int) == samples@,
                forall|i: int| start <= i < out@.len() ==> out@[i] == 0i16,
            decreases target - out@.len(),
        {
            let ghost prev = out@;
            out.push(0i16);
            assert(out@.take(start as int) =~= prev.take(start as int));
        }
        assert(out@ =~= fit(samples@, target as nat));
    }
    out
}

/// Sum of the `n` samples that start at index `start`.
pub open spec fn channel_sum(s: Seq<i16>, start: int, n: nat) -> int
    decreases n,
{
    if n == 0 {
        0
    } else {
        channel_sum(s, start, (n - 1) as nat) + s[start + n - 1] as int
    }
}

/// Integer quotient rounded towards zero.
pub open spec fn div_toward_zero(a: int, b: int) -> int {
    if a >= 0 {
        a / b
    } else {
        -((-a) / b)
    }
}

/// Mean of the `channels` interleaved samples of frame `f`.
pub open spec fn frame_mean(s: Seq<i16>, channels: nat, f: int) -> int {
    div_toward_zero(channel_sum(s, f * channels, channels), channels as int)
}

/// Interleaved audio with `channels` channels mixed down to one channel,
/// each output sample the mean of its frame. A trailing partial frame is
/// dropped.
pub open spec fn mono_mix(s: Seq<i16>, channels: nat) -> Seq<i16> {
    Seq::new(s.len() / channels, |f: int| frame_mean(s, channels, f) as i16)
}

proof fn lemma_channel_sum_bounds(s: Seq<i16>, start: int, n: nat)
    requires
        0 <= start,
        start + n <= s.len(),
    ensures
        -32768 * n <= channel_sum(s, start, n) <= 32767 * n,
    decreases n,
{
    if n > 0 {
        lemma_channel_sum_bounds(s, start, (n - 1) as nat);
    }
}

proof fn lemma_mean_fits(sum: int, n: int)
    requires
        n > 0,
        -32768 * n <= sum <= 32767 * n,
    ensures
        -32768 <= div_toward_zero(sum, n) <= 32767,
{
    if sum >= 0 {
        vstd::arithmetic::div_mod::lemma_div_is_ordered(sum, 32767 * n, n);
        vstd::arithmetic::div_mod::lemma_div_multiples_vanish(32767, n);
        vstd::arithmetic::div_mod::lemma_div_pos_is_pos(sum, n);
    } else {
        vstd::arithmetic::div_mod::lemma_div_is_ordered(-sum, 32768 * n, n);
        vstd::arithmetic::div_mod::lemma_div_multiples_vanish(32768, n);
        vstd::arithmetic::div_mod::lemma_div_pos_is_pos(-sum, n);
    }
}

/// Mean of the frame of `channels` samples that starts at `start`.
fn mix_frame(samples: &Vec<i16>, start: usize, channels: usize) -> (r: i16)
    requires
        channels > 0,
        start + channels <= samples.len(),
    ensures
        r as int == div_toward_zero(channel_sum(samples@, start as int, channels as nat), channels as int),
{
    let mut sum: i128 = 0;
    let mut c: usize = 0;
    while c < channels
        invariant
            c <= channels,
            start + channels <= samples.len(),
            sum as int == channel_sum(samples@, start as int, c as nat),
            -32768 * c <= sum <= 32767 * c,
        decreases channels - c,
    {
        sum = sum + samples[start + c] as i128;
        c = c + 1;
    }
    proof {
        lemma_mean_fits(sum as int, channels as int);
    }
    let n: u128 = channels as u128;
    if sum >= 0 {
        ((sum as u128) / n) as i16
    } else {
        let q: u128 = ((-sum) as u128) / n;
        -(q as i128) as i16
    }
}

/// Why a clip could not be loaded.
#[derive(Debug, Clone, Copy, PartialEq, Eq, Structural)]
pub enum LoadError {
    /// The file could not be opened for reading.
    OpenError,
    /// No container or audio track could be recognised.
    ProbeError,
    /// The stream does not give its sample rate or its channel count.
    MissingFormatInfo,
    /// Decoding failed in a way that is not limited to one packet.
    DecodeError,
    /// Not a single frame was decoded.
    EmptyDecodeResult,
}

/// A mono clip of exactly the requested duration, ready to be played at any
/// pitch. It is never changed once built.
pub struct SampleClip {
    sample_rate: u32,
    samples: Vec<i16>,
}

/// What a clip holds: its sample rate and its samples.
pub struct ClipView {
    pub sample_rate: nat,
    pub samples: Seq<i16>,
}

impl View for SampleClip {
    type V = ClipView;

    closed spec fn view(&self) -> ClipView {
        ClipView { sample_rate: self.sample_rate as nat, samples: self.samples@ }
    }
}

impl SampleClip {
    /// A clip at a positive sample rate.
    pub open spec fn wf(&self) -> bool {
        self@.sample_rate > 0
    }

    /// Builds a clip of `duration_ms` milliseconds from mono samples at
    /// `sample_rate`, cutting or padding them with silence to the exact
    /// length. There is no clip at a sample rate of zero.
    pub fn fitted(sample_rate: u32, samples: Vec<i16>, duration_ms: u32) -> (r: Option<SampleClip>)
        ensures
            sample_rate == 0 <==> r is None,
            r matches Some(c) ==> c.wf() && c@.sample_rate == sample_rate && c@.samples == fit(
                samples@,
                frames_for(sample_rate as int, duration_ms as int) as nat,
            ),
    {
        if sample_rate == 0 {
            return None;
        }
        let target = target_frames(sample_rate, duration_ms);
        Some(SampleClip { sample_rate, samples: fit_to_length(samples, target) })
    }

    /// Frames per second.
    pub fn sample_rate(&self) -> (r: u32)
        ensures
            r == self@.sample_rate,
    {
        self.sample_rate
    }

    /// The mono samples, in order.
    pub fn samples(&self) -> (r: &Vec<i16>)
        ensures
            r@ == self@.samples,
    {
        &self.samples
    }

    /// Number of samples (one per frame).
    pub fn len(&self) -> (r: usize)
        ensures
            r == self@.samples.len(),
    {
        self.samples.len()
    }
}

/// One step of reading a stream, as handed to a [`DecodeSession`].
pub enum DecodeEvent {
    /// A packet decoded to interleaved samples with `channels` channels.
    Frames { channels: usize, samples: Vec<i16> },
    /// A packet that could not be decoded; the stream goes on.
    SkippedPacket,
    /// The stream has no more packets.
    EndOfStream,
    /// The stream cannot be read any further.
    Fatal,
}

/// Channel count used for mixing: a stream that reports none is read as mono.
pub open spec fn mix_channels(channels: usize) -> nat {
    if channels == 0 {
        1
    } else {
        channels as nat
    }
}

/// The first `target` entries of `d`, or all of `d` when it is shorter.
pub open spec fn bounded(d: Seq<i16>, target: nat) -> Seq<i16> {
    if d.len() <= target {
        d
    } else {
        d.take(target as int)
    }
}

/// Whether a stream's reported format lacks its sample rate or its channel
/// count (a zero counts as absent).
pub open spec fn format_missing(sample_rate: Option<u32>, channels: Option<u32>) -> bool {
    (sample_rate matches Some(sr) ==> sr == 0) || (channels matches Some(c) ==> c == 0)
}

/// Gathers decoded audio into a mono buffer of at most the target frame
/// count. Decoding stops as soon as enough frames are in.
pub struct DecodeSession {
    sample_rate: u32,
    target: u64,
    mono: Vec<i16>,
    decoded: Ghost<Seq<i16>>,
}

impl DecodeSession {
    /// Every frame mixed so far, including those past the target.
    pub closed spec fn decoded(&self) -> Seq<i16> {
        self.decoded@
    }

    /// Frames the finished clip holds.
    pub closed spec fn target(&self) -> nat {
        self.target as nat
    }

    /// Sample rate of the stream.
    pub closed spec fn rate(&self) -> nat {
        self.sample_rate as nat
    }

    /// The frames kept: the decoded frames up to the target.
    pub closed spec fn kept(&self) -> Seq<i16> {
        self.mono@
    }

    pub closed spec fn wf(&self) -> bool {
        &&& self.sample_rate > 0
        &&& self.mono@.len() <= self.target
        &&& self.mono@.len() <= self.decoded@.len()
        &&& self.mono@ == self.decoded@.take(self.mono@.len() as int)
        &&& (self.mono@.len() < self.target ==> self.mono@ == self.decoded@)
    }

    /// Starts reading a stream whose format reports `sample_rate` and
    /// `channels`, for a clip of `duration_ms` milliseconds. Fails with
    /// `MissingFormatInfo` when either is absent or zero.
    pub fn start(sample_rate: Option<u32>, channels: Option<u32>, duration_ms: u32) -> (r: Result<DecodeSession, LoadError>)
        ensures
            r is Err <==> format_missing(sample_rate, channels),
            r matches Err(e) ==> e == LoadError::MissingFormatInfo,
            r matches Ok(s) ==> s.wf() && s.decoded() == Seq::<i16>::empty() && s.kept() == Seq::<i16>::empty()
                && s.rate() == sample_rate->0
                && s.target() == frames_for(sample_rate->0 as int, duration_ms as int),
    {
        let rate = match sample_rate {
            Some(sr) if sr > 0 => sr,
            _ => return Err(LoadError::MissingFormatInfo),
        };
        match channels {
            Some(c) if c > 0 => {},
            _ => return Err(LoadError::MissingFormatInfo),
        }
        let target = target_frames(rate, duration_ms);
        let s = DecodeSession { sample_rate: rate, target, mono: Vec::new(), decoded: Ghost(Seq::empty()) };
        assert(s.mono@ =~= s.decoded@.take(0));
        Ok(s)
    }

    /// Whether more frames are needed to reach the target.
    pub fn wants_more(&self) -> (r: bool)
        requires
            self.wf(),
        ensures
            r == (self.kept().len() < self.target()),
    {
        (self.mono.len() as u64) < self.target
    }

    proof fn lemma_kept(&self)
        requires
            self.wf(),
        ensures
            self.kept() == bounded(self.decoded(), self.target()),
    {
        if self.decoded@.len() > self.target {
            assert(self.mono@.len() == self.target);
        } else if self.mono@.len() == self.target {
            assert(self.mono@ =~= self.decoded@);
        }
    }

    /// Takes one step of the stream. Decoded frames are mixed to mono and
    /// kept up to the target; a skipped packet changes nothing; the end of
    /// the stream ends reading; a fatal event fails with `DecodeError`. On
    /// success, tells whether more frames are wanted.
    pub fn accept(&mut self, event: DecodeEvent) -> (r: Result<bool, LoadError>)
        requires
            old(self).wf(),
        ensures
            final(self).wf(),
            final(self).rate() == old(self).rate(),
            final(self).target() == old(self).target(),
            final(self).kept() == bounded(final(self).decoded(), final(self).target()),
            match event {
                DecodeEvent::Frames { channels, samples } => final(self).decoded() == old(self).decoded()
                    + mono_mix(samples@, mix_channels(channels)) && r == Ok::<bool, LoadError>(
                    final(self).kept().len() < final(self).target(),
                ),
                DecodeEvent::SkippedPacket => final(self).decoded() == old(self).decoded() && r
                    == Ok::<bool, LoadError>(final(self).kept().len() < final(self).target()),
                DecodeEvent::EndOfStream => final(self).decoded() == old(self).decoded() && r
                    == Ok::<bool, LoadError>(false),
                DecodeEvent::Fatal => final(self).decoded() == old(self).decoded() && r
                    == Err::<bool, LoadError>(LoadError::DecodeError),
            },
    {
        let r = match event {
            DecodeEvent::Frames { channels, samples } => {
                let ch: usize = if channels == 0 {
                    1
                } else {
                    channels
                };
                let ghost mix = mono_mix(samples@, ch as nat);
                let ghost new_dec = self.decoded@ + mix;
                if (self.mono.len() as u64) >= self.target {
                    assert(self.mono@ =~= new_dec.take(self.mono@.len() as int));
                } else {
                    let nframes: usize = samples.len() / ch;
                    let ghost start = self.mono@.len();
                    let mut f: usize = 0;
                    while f < nframes && (self.mono.len() as u64) < self.target
                        invariant
                            ch > 0,
                            nframes == (samples@.len() as int) / (ch as int),
                            samples@.len() <= usize::MAX,
                            mix.len() == nframes,
                            mix == mono_mix(samples@, ch as nat),
                            new_dec == old(self).decoded@ + mix,
                            start == old(self).decoded@.len(),
                            f <= nframes,
                            self.mono@.len() == start + f,
                            self.mono@.len() <= self.target,
                            self.mono@ == new_dec.take(self.mono@.len() as int),
                            self.target == old(self).target,
                            self.sample_rate == old(self).sample_rate,
                            self.sample_rate > 0,
                        decreases nframes - f,
                    {
                        proof {
                            assert(f * ch + ch <= nframes * ch) by (nonlinear_arith)
                                requires
                                    f < nframes,
                                    ch > 0,
                            ;
                            vstd::arithmetic::div_mod::lemma_fundamental_div_mod(samples@.len() as int, ch as int);
                            assert(nframes * ch <= samples@.len()) by (nonlinear_arith)
                                requires
                                    samples@.len() == ch * ((samples@.len() as int) / (ch as int)) + (samples@.len() as int) % (ch as int),
                                    (samples@.len() as int) % (ch as int) >= 0,
                                    nframes == (samples@.len() as int) / (ch as int),
                            ;
                        }
                        let m = mix_frame(&samples, f * ch, ch);
                        let ghost prev = self.mono@;
                        self.mono.push(m);
                        proof {
                            assert(mix[f as int] == m);
                            assert(self.mono@ =~= new_dec.take(self.mono@.len() as int));
                        }
                        f = f + 1;
                    }
                    proof {
                        if self.mono@.len() < self.target {
                            assert(f == nframes);
                            assert(self.mono@.len() == new_dec.len());
                            assert(self.mono@ =~= new_dec);
                        }
                    }
                }
                self.decoded = Ghost(new_dec);
                Ok((self.mono.len() as u64) < self.target)
            },
            DecodeEvent::SkippedPacket => Ok((self.mono.len() as u64) < self.target),
            DecodeEvent::EndOfStream => Ok(false),
            DecodeEvent::Fatal => Err(LoadError::DecodeError),
        };
        proof {
            self.lemma_kept();
        }
        r
    }

    /// Ends reading and builds the clip: the kept frames padded with silence
    /// to the target. Fails with `EmptyDecodeResult` when no frame was kept.
    pub fn finish(self) -> (r: Result<SampleClip, LoadError>)
        requires
            self.wf(),
        ensures
            r is Err <==> self.kept().len() == 0,
            r matches Err(e) ==> e == LoadError::EmptyDecodeResult,
            r matches Ok(c) ==> c.wf() && c@.sample_rate == self.rate() && c@.samples == fit(
                self.decoded(),
                self.target(),
            ),
    {
        proof {
            self.lemma_kept();
            if self.decoded@.len() >= self.target {
                assert(fit(self.mono@, self.target as nat) =~= fit(self.decoded@, self.target as nat));
            }
        }
        if self.mono.len() == 0 {
            return Err(LoadError::EmptyDecodeResult);
        }
        let samples = fit_to_length(self.mono, self.target);
        Ok(SampleClip { sample_rate: self.sample_rate, samples })
    }
}

/// Every clip, decoded or built from given samples, has exactly one sample
/// per frame of the requested duration: `round(rate * ms / 1000)` samples,
/// its channel count being one.
pub proof fn lemma_clip_length(samples: Seq<i16>, sample_rate: nat, duration_ms: nat)
    ensures
        fit(samples, frames_for(sample_rate as int, duration_ms as int) as nat).len()
            == frames_for(sample_rate as int, duration_ms as int) * 1,
{
    assert(frames_for(sample_rate as int, duration_ms as int) >= 0) by (nonlinear_arith)
        requires
            sample_rate >= 0,
            duration_ms >= 0,
    ;
}

/// Audio shorter than the target keeps all of its samples and is followed
/// by silence up to exactly the target length.
pub proof fn lemma_short_audio_is_padded(samples: Seq<i16>, target: nat)
    requires
        samples.len() < target,
    ensures
        fit(samples, target).len() == target,
        fit(samples, target).take(samples.len() as int) == samples,
        forall|i: int| samples.len() <= i < target ==> #[trigger] fit(samples, target)[i] == 0i16,
{
    assert(fit(samples, target).take(samples.len() as int) =~= samples);
}

/// Audio at least as long as the target is cut to its first `target`
/// samples; what follows is dropped.
pub proof fn lemma_long_audio_is_truncated(samples: Seq<i16>, target: nat)
    requires
        samples.len() >= target,
    ensures
        fit(samples, target).len() == target,
        forall|i: int| 0 <= i < target ==> #[trigger] fit(samples, target)[i] == samples[i],
{
}

/// The clip a session finishes with, whatever packets it was given: exactly
/// `target` frames; all the decoded frames followed by silence when they
/// fall short; only the first `target` of them when there are enough.
pub proof fn lemma_session_clip(s: DecodeSession)
    requires
        s.wf(),
    ensures
        fit(s.decoded(), s.target()).len() == s.target(),
        s.decoded().len() < s.target() ==> fit(s.decoded(), s.target()).take(s.decoded().len() as int)
            == s.decoded(),
        forall|i: int|
            s.decoded().len() <= i < s.target() ==> #[trigger] fit(s.decoded(), s.target())[i] == 0i16,
        s.decoded().len() >= s.target() ==> fit(s.decoded(), s.target()) == s.decoded().take(
            s.target() as int,
        ),
{
    if s.decoded().len() < s.target() {
        lemma_short_audio_is_padded(s.decoded(), s.target());
    }
}

} // verus!
