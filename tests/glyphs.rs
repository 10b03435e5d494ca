use led_matrix::glyph::{lookup, to_upper};
use led_matrix::matrix::LedMatrix;
use led_matrix::error::DisplayError;

fn frame(rows: [&str; 5]) -> Vec<bool> {
    rows.iter().flat_map(|r| r.chars().map(|c| c == '#')).collect()
}

#[test]
fn lookup_digits_and_letters() {
    assert_eq!(lookup(b'0'), Some(0b11111_10011_10101_11001_11111));
    assert_eq!(lookup(b'7'), Some(0b11111_00001_00010_00100_00100));
    assert_eq!(lookup(b'A'), Some(0b01110_10001_11111_10001_10001));
    assert_eq!(lookup(b'H'), Some(0b10001_10001_11111_10001_10001));
    assert_eq!(lookup(b'Z'), Some(0b11111_00010_00100_01000_11111));
}

#[test]
fn lookup_ignores_case() {
    assert_eq!(lookup(b'h'), lookup(b'H'));
    assert_eq!(lookup(b'q'), Some(0b01110_10001_10001_01110_00011));
    assert_eq!(lookup(b'a'), lookup(b'A'));
    assert_eq!(lookup(b'z'), lookup(b'Z'));
}

#[test]
fn lookup_rejects_other_bytes() {
    for c in [b' ', b'!', b'/', b':', b'@', b'[', b'`', b'{', 0u8, 200u8] {
        assert_eq!(lookup(c), None, "byte {}", c);
    }
    let known = (0u8..=255).filter(|c| lookup(*c).is_some()).count();
    assert_eq!(known, 10 + 26 + 26);
}

#[test]
fn to_upper_maps_only_lower_case_letters() {
    assert_eq!(to_upper(b'a'), b'A');
    assert_eq!(to_upper(b'z'), b'Z');
    assert_eq!(to_upper(b'A'), b'A');
    assert_eq!(to_upper(b'5'), b'5');
    assert_eq!(to_upper(b'{'), b'{');
    assert_eq!(to_upper(b'`'), b'`');
}

#[test]
fn new_matrix_is_blank() {
    let m = LedMatrix::new();
    assert_eq!(m.states(), vec![false; 25]);
}

#[test]
fn render_puts_bit_24_upper_left() {
    let mut m = LedMatrix::new();
    m.render(1 << 24);
    let mut expected = vec![false; 25];
    expected[0] = true;
    assert_eq!(m.states(), expected);
    m.render(1);
    let mut expected = vec![false; 25];
    expected[24] = true;
    assert_eq!(m.states(), expected);
    assert!(m.is_on(24));
    assert!(!m.is_on(0));
}

#[test]
fn render_glyph_rows() {
    let mut m = LedMatrix::new();
    m.render(lookup(b'7').unwrap());
    assert_eq!(m.states(), frame(["#####", "....#", "...#.", "..#..", "..#.."]));
}

#[test]
fn render_blank_turns_all_off() {
    let mut m = LedMatrix::new();
    m.render(0x1ff_ffff);
    assert_eq!(m.states(), vec![true; 25]);
    m.render_blank();
    assert_eq!(m.states(), vec![false; 25]);
}

#[test]
fn show_char_blank_for_unknown() {
    let mut m = LedMatrix::new();
    assert_eq!(m.show_char(b'k'), Ok(()));
    assert_eq!(m.states(), frame(["#...#", "#..#.", "###..", "#..#.", "#...#"]));
    assert_eq!(m.show_char(b'-'), Err(DisplayError::InvalidCharacter));
    assert_eq!(m.states(), vec![false; 25]);
}
