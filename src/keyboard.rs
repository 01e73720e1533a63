use vstd::prelude::*;
use crate::notes::{is_black_key, is_sharp_class, pitch_class};

verus! {

/// Lowest note on the keyboard (C3).
pub const PIANO_START_MIDI: i32 = 48;

/// Highest note on the keyboard (C6).
pub const PIANO_END_MIDI: i32 = 84;

/// Width of a white key.
pub const WHITE_KEY_WIDTH: i32 = 44;

/// Width of a black key.
pub const BLACK_KEY_WIDTH: i32 = 28;

/// One key of the on-screen keyboard, with its left edge and width in
/// layout units.
#[derive(Debug, Clone, Copy, PartialEq, Eq, Structural)]
pub struct PianoKey {
    pub midi: i32,
    pub is_black: bool,
    pub x: i32,
    pub width: i32,
}

/// Number of white keys from the start of the keyboard up to, not
/// including, note `m`.
pub open spec fn whites_before(m: int) -> int
    decreases m - PIANO_START_MIDI,
{
    if m <= PIANO_START_MIDI {
        0
    } else if is_sharp_class(pitch_class(m - 1)) {
        whites_before(m - 1)
    } else {
        whites_before(m - 1) + 1
    }
}

/// The key of note `m`: white keys sit side by side, and a black key is
/// centred on the edge between two white keys.
pub open spec fn key_of(m: int) -> PianoKey {
    if is_sharp_class(pitch_class(m)) {
        PianoKey {
            midi: m as i32,
            is_black: true,
            x: (whites_before(m) * WHITE_KEY_WIDTH - BLACK_KEY_WIDTH / 2) as i32,
            width: BLACK_KEY_WIDTH,
        }
    } else {
        PianoKey { midi: m as i32, is_black: false, x: (whites_before(m) * WHITE_KEY_WIDTH) as i32, width: WHITE_KEY_WIDTH }
    }
}

proof fn lemma_whites_before_bound(m: int)
    ensures
        0 <= whites_before(m) <= if m > PIANO_START_MIDI { m - PIANO_START_MIDI } else { 0 },
    decreases m - PIANO_START_MIDI,
{
    if m > PIANO_START_MIDI {
        lemma_whites_before_bound(m - 1);
    }
}

/// The keys of the keyboard from C3 to C6, lowest first.
pub fn piano_keys() -> (r: Vec<PianoKey>)
    ensures
        r@.len() == PIANO_END_MIDI - PIANO_START_MIDI + 1,
        forall|i: int| 0 <= i < r@.len() ==> #[trigger] r@[i] == key_of(PIANO_START_MIDI + i),
{
    let mut keys: Vec<PianoKey> = Vec::new();
    let mut white_index: i32 = 0;
    let mut midi: i32 = PIANO_START_MIDI;
    while midi <= PIANO_END_MIDI
        invariant
            PIANO_START_MIDI <= midi <= PIANO_END_MIDI + 1,
            keys@.len() == midi - PIANO_START_MIDI,
            white_index == whites_before(midi as int),
            forall|i: int| 0 <= i < keys@.len() ==> #[trigger] keys@[i] == key_of(PIANO_START_MIDI + i),
        decreases PIANO_END_MIDI + 1 - midi,
    {
        proof {
            lemma_whites_before_bound(midi as int);
        }
        if is_black_key(midi) {
            keys.push(
                PianoKey {
                    midi,
                    is_black: true,
                    x: white_index * WHITE_KEY_WIDTH - BLACK_KEY_WIDTH / 2,
                    width: BLACK_KEY_WIDTH,
                },
            );
        } else {
            keys.push(PianoKey { midi, is_black: false, x: white_index * WHITE_KEY_WIDTH, width: WHITE_KEY_WIDTH });
            white_index = white_index + 1;
        }
        midi = midi + 1;
    }
    keys
}

/// Total width of the keyboard: the sum of the white keys' widths.
pub fn keyboard_width(keys: &Vec<PianoKey>) -> (r: i64)
    requires
        keys@.len() <= 0x7fff_ffff,
    ensures
        r == white_width_sum(keys@),
{
    let mut total: i64 = 0;
    let mut i: usize = 0;
    while i < keys.len()
        invariant
            i <= keys@.len() <= 0x7fff_ffff,
            total == white_width_sum(keys@.take(i as int)),
            -0x8000_0000 * i <= total <= 0x7fff_ffff * i,
        decreases keys@.len() - i,
    {
        assert(keys@.take(i + 1).drop_last() =~= keys@.take(i as int));
        if !keys[i].is_black {
            total = total + keys[i].width as i64;
        }
        i = i + 1;
    }
    assert(keys@.take(i as int) =~= keys@);
    total
}

/// Sum of the widths of the white keys in `keys`.
pub open spec fn white_width_sum(keys: Seq<PianoKey>) -> int
    decreases keys.len(),
{
    if keys.len() == 0 {
        0
    } else {
        white_width_sum(keys.drop_last()) + if keys.last().is_black {
            0
        } else {
            keys.last().width as int
        }
    }
}

} // verus!
