use openwah::keyboard::{keyboard_width, piano_keys, PianoKey};

#[test]
fn keyboard_spans_three_octaves() {
    let keys = piano_keys();
    assert_eq!(keys.len(), 37);
    assert_eq!(keys[0], PianoKey { midi: 48, is_black: false, x: 0, width: 44 });
    assert_eq!(keys[1], PianoKey { midi: 49, is_black: true, x: 30, width: 28 });
    assert_eq!(keys[2], PianoKey { midi: 50, is_black: false, x: 44, width: 44 });
    assert_eq!(keys[36], PianoKey { midi: 84, is_black: false, x: 21 * 44, width: 44 });
    assert_eq!(keys.iter().filter(|k| k.is_black).count(), 15);
}

#[test]
fn keyboard_width_counts_white_keys() {
    assert_eq!(keyboard_width(&piano_keys()), 22 * 44);
    assert_eq!(keyboard_width(&vec![]), 0);
}
