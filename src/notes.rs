use vstd::prelude::*;
use vstd::string::StringExecFns;

verus! {

/// Offset that makes any `i32` note number non-negative while keeping its
/// pitch class: a multiple of twelve larger than `2^31`.
pub const PITCH_CLASS_SHIFT: i64 = 2147483652;

/// The pitch class of a note number, `0` for C up to `11` for B.
pub open spec fn pitch_class(midi: int) -> int {
    midi % 12
}

/// Whether a pitch class is one of the five sharps of the octave.
pub open spec fn is_sharp_class(pc: int) -> bool {
    pc == 1 || pc == 3 || pc == 6 || pc == 8 || pc == 10
}

/// The octave number shown beside a note name (middle C, note 60, is in
/// octave 4). The quotient is taken towards zero.
pub open spec fn octave_of(midi: int) -> int {
    if midi >= 0 {
        midi / 12 - 1
    } else {
        -((-midi) / 12) - 1
    }
}

/// The letter (and sharp sign) of a pitch class.
pub open spec fn class_name(pc: int) -> Seq<char> {
    if pc == 0 {
        seq!['C']
    } else if pc == 1 {
        seq!['C', '#']
    } else if pc == 2 {
        seq!['D']
    } else if pc == 3 {
        seq!['D', '#']
    } else if pc == 4 {
        seq!['E']
    } else if pc == 5 {
        seq!['F']
    } else if pc == 6 {
        seq!['F', '#']
    } else if pc == 7 {
        seq!['G']
    } else if pc == 8 {
        seq!['G', '#']
    } else if pc == 9 {
        seq!['A']
    } else if pc == 10 {
        seq!['A', '#']
    } else {
        seq!['B']
    }
}

/// The character of a single decimal digit.
pub open spec fn digit_char(d: nat) -> char {
    if d == 0 {
        '0'
    } else if d == 1 {
        '1'
    } else if d == 2 {
        '2'
    } else if d == 3 {
        '3'
    } else if d == 4 {
        '4'
    } else if d == 5 {
        '5'
    } else if d == 6 {
        '6'
    } else if d == 7 {
        '7'
    } else if d == 8 {
        '8'
    } else {
        '9'
    }
}

/// The decimal digits of a natural number, most significant first.
pub open spec fn decimal(n: nat) -> Seq<char>
    decreases n,
{
    if n < 10 {
        seq![digit_char(n)]
    } else {
        decimal(n / 10).push(digit_char(n % 10))
    }
}

/// A signed integer written in decimal, with a leading minus sign when negative.
pub open spec fn signed_decimal(n: int) -> Seq<char> {
    if n >= 0 {
        decimal(n as nat)
    } else {
        seq!['-'] + decimal((-n) as nat)
    }
}

/// The display name of a note, such as `C#4` or `A-1`.
pub open spec fn note_name(midi: int) -> Seq<char> {
    class_name(pitch_class(midi)) + signed_decimal(octave_of(midi))
}

/// Computes the pitch class of a note number.
pub fn pitch_class_of(midi: i32) -> (r: u32)
    ensures
        r as int == pitch_class(midi as int),
        r < 12,
{
    let shifted: u64 = (midi as i64 + PITCH_CLASS_SHIFT) as u64;
    assert(PITCH_CLASS_SHIFT == 12 * 178956971);
    assert((midi as int + 12 * 178956971) % 12 == midi as int % 12) by {
        vstd::arithmetic::div_mod::lemma_mod_multiples_vanish(178956971, midi as int, 12);
    }
    (shifted % 12) as u32
}

/// Whether a note is played on a black key of the keyboard.
pub fn is_black_key(midi: i32) -> (r: bool)
    ensures
        r == is_sharp_class(pitch_class(midi as int)),
{
    let pc = pitch_class_of(midi);
    pc == 1 || pc == 3 || pc == 6 || pc == 8 || pc == 10
}

fn class_str(pc: u32) -> (r: &'static str)
    requires
        pc < 12,
    ensures
        r@ == class_name(pc as int),
{
    proof {
        reveal_strlit("C");
        reveal_strlit("C#");
        reveal_strlit("D");
        reveal_strlit("D#");
        reveal_strlit("E");
        reveal_strlit("F");
        reveal_strlit("F#");
        reveal_strlit("G");
        reveal_strlit("G#");
        reveal_strlit("A");
        reveal_strlit("A#");
        reveal_strlit("B");
    }
    match pc {
        0 => "C",
        1 => "C#",
        2 => "D",
        3 => "D#",
        4 => "E",
        5 => "F",
        6 => "F#",
        7 => "G",
        8 => "G#",
        9 => "A",
        10 => "A#",
        _ => "B",
    }
}

fn digit_str(d: u64) -> (r: &'static str)
    requires
        d < 10,
    ensures
        r@ == seq![digit_char(d as nat)],
{
    proof {
        reveal_strlit("0");
        reveal_strlit("1");
        reveal_strlit("2");
        reveal_strlit("3");
        reveal_strlit("4");
        reveal_strlit("5");
        reveal_strlit("6");
        reveal_strlit("7");
        reveal_strlit("8");
        reveal_strlit("9");
    }
    match d {
        0 => "0",
        1 => "1",
        2 => "2",
        3 => "3",
        4 => "4",
        5 => "5",
        6 => "6",
        7 => "7",
        8 => "8",
        _ => "9",
    }
}

/// Appends the decimal digits of `n` to `s`.
fn push_decimal(s: &mut String, n: u64)
    ensures
        final(s)@ == old(s)@ + decimal(n as nat),
    decreases n,
{
    if n >= 10 {
        push_decimal(s, n / 10);
    }
    s.append(digit_str(n % 10));
    proof {
        if n >= 10 {
            assert(decimal(n as nat) == decimal((n / 10) as nat).push(digit_char((n % 10) as nat)));
        }
    }
    assert(final(s)@ =~= old(s)@ + decimal(n as nat));
}

/// The display name of a note: its letter, a `#` for a sharp, and its octave.
pub fn midi_note_name(midi: i32) -> (r: String)
    ensures
        r@ == note_name(midi as int),
{
    let pc = pitch_class_of(midi);
    let mut s = String::from_str(class_str(pc));
    let m: i64 = midi as i64;
    let octave: i64 = if m >= 0 {
        m / 12 - 1
    } else {
        -((-m) / 12) - 1
    };
    if octave >= 0 {
        push_decimal(&mut s, octave as u64);
    } else {
        s.append("-");
        proof {
            reveal_strlit("-");
        }
        push_decimal(&mut s, (-octave) as u64);
    }
    assert(s@ =~= note_name(midi as int));
    s
}

} // verus!
