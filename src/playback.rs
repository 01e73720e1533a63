use vstd::prelude::*;
use crate::clip::SampleClip;

verus! {

/// The note at which a clip plays at its recorded speed: middle C.
pub const BASE_MIDI_NOTE: i32 = 60;

/// Gain applied to every render, as the fraction `GAIN_NUM / GAIN_DEN`,
/// leaving headroom against clipping.
pub const GAIN_NUM: u32 = 3;

/// Denominator of the render gain.
pub const GAIN_DEN: u32 = 4;

/// A multiple of twelve that makes `midi - BASE_MIDI_NOTE` non-negative for
/// every `i32` note number.
pub const OCTAVE_SHIFT: i64 = 178956976;

/// The distance of a note from the base note, split into whole octaves and
/// the semitones left over. The playback speed it stands for is
/// `2^octaves * 2^(semitones / 12)`.
#[derive(Debug, Clone, Copy, PartialEq, Eq, Structural)]
pub struct PitchStep {
    pub octaves: i32,
    pub semitones: u32,
}

/// Semitones from the base note to `midi`.
pub open spec fn semitones_from_base(midi: int) -> int {
    midi - BASE_MIDI_NOTE as int
}

/// The pitch step of a note: whole octaves rounded down, and the semitones
/// above that octave, from `0` to `11`.
pub open spec fn step_of(midi: int) -> PitchStep {
    PitchStep {
        octaves: (semitones_from_base(midi) / 12) as i32,
        semitones: (semitones_from_base(midi) % 12) as u32,
    }
}

/// Computes the pitch step of a note.
pub fn pitch_step(midi_note: i32) -> (r: PitchStep)
    ensures
        r == step_of(midi_note as int),
        r.octaves * 12 + r.semitones == semitones_from_base(midi_note as int),
        r.semitones < 12,
{
    let d: i64 = midi_note as i64 - BASE_MIDI_NOTE as i64;
    let u: u64 = (d + 12 * OCTAVE_SHIFT) as u64;
    let q: u64 = u / 12;
    let rem: u64 = u % 12;
    proof {
        let di = d as int;
        vstd::arithmetic::div_mod::lemma_fundamental_div_mod(di, 12);
        vstd::arithmetic::div_mod::lemma_fundamental_div_mod_converse(
            di + 12 * OCTAVE_SHIFT,
            12,
            di / 12 + OCTAVE_SHIFT,
            di % 12,
        );
    }
    PitchStep { octaves: (q as i64 - OCTAVE_SHIFT) as i32, semitones: rem as u32 }
}

/// The speed ratio is exactly one at the base note, and moving a note up or
/// down by twelve semitones doubles or halves it: one octave more or less,
/// with the same semitones.
pub proof fn lemma_octave_doubles(midi: i32)
    ensures
        step_of(BASE_MIDI_NOTE as int) == (PitchStep { octaves: 0, semitones: 0 }),
        step_of(midi + 12).octaves == step_of(midi as int).octaves + 1,
        step_of(midi + 12).semitones == step_of(midi as int).semitones,
        step_of(midi - 12).octaves == step_of(midi as int).octaves - 1,
        step_of(midi - 12).semitones == step_of(midi as int).semitones,
{
    let d = semitones_from_base(midi as int);
    vstd::arithmetic::div_mod::lemma_fundamental_div_mod(d, 12);
    vstd::arithmetic::div_mod::lemma_fundamental_div_mod_converse(d + 12, 12, d / 12 + 1, d % 12);
    vstd::arithmetic::div_mod::lemma_fundamental_div_mod_converse(d - 12, 12, d / 12 - 1, d % 12);
}

/// How to render a clip for one note: the clip's sample rate, the pitch step
/// that sets the playback speed, and the gain.
#[derive(Debug, Clone, Copy, PartialEq, Eq, Structural)]
pub struct RenderPlan {
    pub sample_rate: u32,
    pub step: PitchStep,
    pub gain_num: u32,
    pub gain_den: u32,
}

/// The one voice that may be rendering: the note it plays, if any.
pub struct VoiceSlot {
    active: Option<i32>,
}

impl View for VoiceSlot {
    type V = Option<i32>;

    closed spec fn view(&self) -> Option<i32> {
        self.active
    }
}

/// The voice that renders after `note` is triggered: the new note alone.
pub open spec fn after_trigger(active: Option<i32>, note: i32) -> Option<i32> {
    Some(note)
}

impl VoiceSlot {
    /// A slot with nothing rendering.
    pub fn new() -> (r: VoiceSlot)
        ensures
            r@ is None,
    {
        VoiceSlot { active: None }
    }

    /// The note being rendered, if any.
    pub fn active_note(&self) -> (r: Option<i32>)
        ensures
            r == self@,
    {
        self.active
    }

    /// Records that `note` now renders in place of the previous voice, and
    /// returns that previous voice, which is to be stopped.
    pub fn replace(&mut self, note: i32) -> (r: Option<i32>)
        ensures
            r == old(self)@,
            final(self)@ == after_trigger(old(self)@, note),
    {
        let prev = self.active;
        self.active = Some(note);
        prev
    }
}

/// Triggering one note and then another leaves exactly the second one
/// rendering, and the second trigger stops the first.
pub proof fn lemma_last_trigger_wins(active: Option<i32>, first: i32, second: i32)
    ensures
        after_trigger(after_trigger(active, first), second) == Some(second),
        after_trigger(active, first) == Some(first),
{
}

/// The playback engine's decisions: whether an output device is present,
/// and which voice renders.
pub struct Playback {
    has_device: bool,
    voice: VoiceSlot,
}

impl Playback {
    /// Whether an output device is present.
    pub closed spec fn device(&self) -> bool {
        self.has_device
    }

    /// The voice that renders.
    pub closed spec fn voice(&self) -> Option<i32> {
        self.voice@
    }

    /// An engine with an output device and nothing rendering.
    pub fn with_device() -> (r: Playback)
        ensures
            r.device(),
            r.voice() is None,
    {
        Playback { has_device: true, voice: VoiceSlot::new() }
    }

    /// An engine without an output device: every note is a no-op.
    pub fn silent_fallback() -> (r: Playback)
        ensures
            !r.device(),
            r.voice() is None,
    {
        Playback { has_device: false, voice: VoiceSlot::new() }
    }

    /// Whether an output device is present.
    pub fn has_device(&self) -> (r: bool)
        ensures
            r == self.device(),
    {
        self.has_device
    }

    /// How to render `clip` for `midi_note`: nothing without a device, else
    /// the clip's rate, the note's pitch step and the render gain.
    pub fn plan(&self, clip: &SampleClip, midi_note: i32) -> (r: Option<RenderPlan>)
        ensures
            !self.device() <==> r is None,
            r matches Some(p) ==> p.sample_rate == clip@.sample_rate && p.step == step_of(
                midi_note as int,
            ) && p.gain_num == GAIN_NUM && p.gain_den == GAIN_DEN,
    {
        if !self.has_device {
            return None;
        }
        Some(
            RenderPlan {
                sample_rate: clip.sample_rate(),
                step: pitch_step(midi_note),
                gain_num: GAIN_NUM,
                gain_den: GAIN_DEN,
            },
        )
    }

    /// Records that the render of `midi_note` has started and returns the
    /// voice it replaces, which is to be stopped.
    pub fn started(&mut self, midi_note: i32) -> (r: Option<i32>)
        ensures
            r == old(self).voice(),
            final(self).voice() == after_trigger(old(self).voice(), midi_note),
            final(self).device() == old(self).device(),
    {
        self.voice.replace(midi_note)
    }
}

} // verus!
