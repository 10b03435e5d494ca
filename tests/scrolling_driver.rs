use led_matrix::driver::{LedMatrixText, Notification, Status};
use led_matrix::error::DisplayError;

fn frame(rows: [&str; 5]) -> Vec<bool> {
    rows.iter().flat_map(|r| r.chars().map(|c| c == '#')).collect()
}

fn h_frame() -> Vec<bool> {
    frame(["#...#", "#...#", "#####", "#...#", "#...#"])
}

fn i_frame() -> Vec<bool> {
    frame(["#####", "..#..", "..#..", "..#..", "#####"])
}

fn blank() -> Vec<bool> {
    vec![false; 25]
}

fn expect_write_complete(n: Notification) -> (Vec<u8>, usize) {
    match n {
        Notification::WriteComplete { buffer, length } => (buffer, length),
        other => panic!("expected a write completion, got {:?}", other),
    }
}

#[test]
fn new_driver_is_idle_enabled_and_blank() {
    let d = LedMatrixText::new(vec![0u8; 16], 200);
    assert_eq!(d.status(), Status::Idle);
    assert!(d.is_enabled());
    assert_eq!(d.speed(), 200);
    assert_eq!(d.text_len(), 0);
    assert_eq!(d.cursor(), 0);
    assert_eq!(d.leds(), blank());
    assert_eq!(d.get_size(), (16, 1));
}

#[test]
fn print_hi_scrolls_and_wraps() {
    let mut d = LedMatrixText::new(vec![0u8; 16], 200);
    let r = d.print(b"HI".to_vec(), 2);
    assert_eq!(r.unwrap(), Some(200));
    assert_eq!(d.leds(), h_frame());
    assert_eq!(d.status(), Status::ExecutingPrint);
    assert_eq!(d.alarm(), Some(200));
    assert_eq!(d.leds(), i_frame());
    assert_eq!(d.alarm(), Some(200));
    assert_eq!(d.leds(), h_frame());
    let (buffer, length) = expect_write_complete(d.call());
    assert_eq!(buffer, b"HI".to_vec());
    assert_eq!(length, 2);
    assert_eq!(d.status(), Status::Idle);
}

#[test]
fn print_length_over_buffer_is_invalid_size() {
    let mut d = LedMatrixText::new(vec![0u8; 16], 200);
    let client = b"ABCDE".to_vec();
    match d.print(client.clone(), 10) {
        Err((e, back)) => {
            assert_eq!(e, DisplayError::InvalidSize);
            assert_eq!(back, client);
        }
        Ok(_) => panic!("print was accepted"),
    }
    assert_eq!(d.status(), Status::Idle);
    assert_eq!(d.text_len(), 0);
    assert_eq!(d.leds(), blank());
    assert!(matches!(d.call(), Notification::Nothing));
}

#[test]
fn clear_while_idle_blanks_and_resets() {
    let mut d = LedMatrixText::new(vec![0u8; 16], 200);
    d.print(b"HI".to_vec(), 2).unwrap();
    d.alarm();
    expect_write_complete(d.call());
    assert_eq!(d.clear(), Ok(()));
    assert_eq!(d.leds(), blank());
    assert_eq!(d.text_len(), 0);
    assert_eq!(d.cursor(), 0);
    assert_eq!(d.status(), Status::ExecutingCommand);
    assert!(matches!(d.call(), Notification::CommandComplete));
    assert_eq!(d.status(), Status::Idle);
    assert_eq!(d.alarm(), None);
    assert_eq!(d.leds(), blank());
}

#[test]
fn unknown_character_shows_blank_and_continues() {
    let mut d = LedMatrixText::new(vec![0u8; 16], 100);
    assert_eq!(d.print(b"H-I".to_vec(), 3).unwrap(), Some(100));
    assert_eq!(d.leds(), h_frame());
    assert_eq!(d.alarm(), Some(100));
    assert_eq!(d.leds(), blank());
    assert_eq!(d.alarm(), Some(100));
    assert_eq!(d.leds(), i_frame());
    assert_eq!(d.alarm(), Some(100));
    assert_eq!(d.leds(), h_frame());
}

#[test]
fn lower_case_text_shows_capitals() {
    let mut d = LedMatrixText::new(vec![0u8; 16], 100);
    d.print(b"hi".to_vec(), 2).unwrap();
    assert_eq!(d.leds(), h_frame());
    d.alarm();
    assert_eq!(d.leds(), i_frame());
}

#[test]
fn print_while_busy_is_refused_without_change() {
    let mut d = LedMatrixText::new(vec![0u8; 16], 200);
    d.print(b"HI".to_vec(), 2).unwrap();
    let (cursor, len, leds) = (d.cursor(), d.text_len(), d.leds());
    match d.print(b"XYZ".to_vec(), 3) {
        Err((e, back)) => {
            assert_eq!(e, DisplayError::Busy);
            assert_eq!(back, b"XYZ".to_vec());
        }
        Ok(_) => panic!("second print was accepted"),
    }
    assert_eq!((d.cursor(), d.text_len(), d.leds()), (cursor, len, leds));
    assert_eq!(d.status(), Status::ExecutingPrint);
    let (buffer, _) = expect_write_complete(d.call());
    assert_eq!(buffer, b"HI".to_vec());
}

#[test]
fn one_action_at_a_time() {
    let mut d = LedMatrixText::new(vec![0u8; 16], 200);
    assert_eq!(d.status(), Status::Idle);
    d.print(b"AB".to_vec(), 2).unwrap();
    assert_eq!(d.display_on(), Err(DisplayError::Busy));
    assert_eq!(d.display_off(), Err(DisplayError::Busy));
    assert_eq!(d.clear(), Err(DisplayError::Busy));
    assert!(d.is_enabled());
    assert_eq!(d.text_len(), 2);
    d.alarm();
    assert_eq!(d.status(), Status::ExecutingPrint);
    expect_write_complete(d.call());
    assert_eq!(d.status(), Status::Idle);

    assert_eq!(d.display_off(), Ok(()));
    assert_eq!(d.status(), Status::ExecutingCommand);
    assert!(d.print(b"C".to_vec(), 1).is_err());
    assert!(matches!(d.call(), Notification::CommandComplete));
    assert_eq!(d.status(), Status::Idle);
    assert!(matches!(d.call(), Notification::Nothing));
    assert_eq!(d.status(), Status::Idle);
    assert!(d.print(b"C".to_vec(), 1).is_ok());
}

#[test]
fn disabling_blanks_but_keeps_position() {
    let mut d = LedMatrixText::new(vec![0u8; 16], 200);
    d.print(b"HIH".to_vec(), 3).unwrap();
    expect_write_complete(d.call());
    assert_eq!(d.cursor(), 1);
    assert_eq!(d.display_off(), Ok(()));
    assert!(!d.is_enabled());
    assert_eq!(d.leds(), h_frame());
    assert!(matches!(d.call(), Notification::CommandComplete));
    assert_eq!(d.alarm(), Some(200));
    assert_eq!(d.leds(), blank());
    assert_eq!(d.cursor(), 2);
    assert_eq!(d.display_on(), Ok(()));
    assert!(matches!(d.call(), Notification::CommandComplete));
    assert_eq!(d.cursor(), 2);
    assert_eq!(d.text_len(), 3);
    assert_eq!(d.alarm(), Some(200));
    assert_eq!(d.leds(), h_frame());
    assert_eq!(d.cursor(), 3);
    assert_eq!(d.alarm(), Some(200));
    assert_eq!(d.leds(), h_frame());
    assert_eq!(d.cursor(), 1);
}

#[test]
fn print_onto_running_text_keeps_pace() {
    let mut d = LedMatrixText::new(vec![0u8; 16], 200);
    d.print(b"ABCD".to_vec(), 4).unwrap();
    expect_write_complete(d.call());
    let before = d.leds();
    assert_eq!(d.print(b"XY".to_vec(), 2).unwrap(), None);
    assert_eq!(d.leds(), before);
    assert_eq!(d.text_len(), 4);
    assert_eq!(d.cursor(), 1);
    let (buffer, length) = expect_write_complete(d.call());
    assert_eq!((buffer, length), (b"XY".to_vec(), 2));
    d.alarm();
    assert_eq!(d.leds(), frame(["#...#", "#...#", ".#.#.", "..#..", "..#.."]));
}

#[test]
fn print_after_clear_starts_from_first_character() {
    let mut d = LedMatrixText::new(vec![0u8; 16], 200);
    d.print(b"AB".to_vec(), 2).unwrap();
    d.alarm();
    expect_write_complete(d.call());
    d.clear().unwrap();
    d.call();
    assert_eq!(d.print(b"HI".to_vec(), 2).unwrap(), Some(200));
    assert_eq!(d.leds(), h_frame());
    assert_eq!(d.cursor(), 1);
}

#[test]
fn print_longer_than_capacity_is_truncated() {
    let mut d = LedMatrixText::new(vec![0u8; 3], 200);
    assert_eq!(d.print(b"HIHIHI".to_vec(), 6).unwrap(), Some(200));
    assert_eq!(d.text_len(), 3);
    let (buffer, length) = expect_write_complete(d.call());
    assert_eq!(buffer, b"HIHIHI".to_vec());
    assert_eq!(length, 3);
}

#[test]
fn print_of_nothing_shows_nothing() {
    let mut d = LedMatrixText::new(vec![0u8; 8], 200);
    assert_eq!(d.print(b"HI".to_vec(), 0).unwrap(), None);
    assert_eq!(d.leds(), blank());
    assert_eq!(d.text_len(), 0);
    let (_, length) = expect_write_complete(d.call());
    assert_eq!(length, 0);
    assert_eq!(d.alarm(), None);
}

#[test]
fn speed_command_applies_at_next_timer_request() {
    let mut d = LedMatrixText::new(vec![0u8; 8], 200);
    d.print(b"HI".to_vec(), 2).unwrap();
    assert_eq!(d.command(1, 500), Ok(()));
    assert_eq!(d.speed(), 500);
    assert_eq!(d.alarm(), Some(500));
    assert_eq!(d.command(0, 7), Ok(()));
    assert_eq!(d.speed(), 500);
    assert_eq!(d.command(2, 7), Err(DisplayError::Unsupported));
    assert_eq!(d.speed(), 500);
    assert_eq!(d.status(), Status::ExecutingPrint);
}

#[test]
fn cursor_requests_are_unsupported() {
    let d = LedMatrixText::new(vec![0u8; 8], 200);
    assert_eq!(d.set_cursor(1, 0), Err(DisplayError::Unsupported));
    assert_eq!(d.hide_cursor(), Err(DisplayError::Unsupported));
    assert_eq!(d.show_cursor(), Err(DisplayError::Unsupported));
    assert_eq!(d.blink_cursor_on(), Err(DisplayError::Unsupported));
    assert_eq!(d.blink_cursor_off(), Err(DisplayError::Unsupported));
}
