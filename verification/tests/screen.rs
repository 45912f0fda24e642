use nes::emulator::io::{Screen, SCREEN_BYTES};

fn shown(screen: &Screen) -> Vec<u8> {
    let mut frame = vec![];
    screen.do_render(|pixels: &[u8]| frame.extend_from_slice(pixels));
    frame
}

#[test]
fn test_screen_starts_black() {
    let screen = Screen::new();
    let frame = shown(&screen);
    assert_eq!(frame.len(), SCREEN_BYTES);
    assert!(frame.iter().all(|b| *b == 0));
}

#[test]
fn test_screen_single_buffered_shows_drawing() {
    let mut screen = Screen::new();
    screen.set_double_buffering(false);
    screen.emit(1, 2, 3);
    screen.emit(4, 5, 6);
    let frame = shown(&screen);
    assert_eq!(&frame[0..6], &[1, 2, 3, 4, 5, 6]);
}

#[test]
fn test_screen_double_buffered_flips_after_frame() {
    let mut screen = Screen::new();
    screen.emit(9, 8, 7);
    assert_eq!(&shown(&screen)[0..3], &[0, 0, 0]);
    for _ in 1..(256 * 240) {
        screen.emit(1, 1, 1);
    }
    let frame = shown(&screen);
    assert_eq!(&frame[0..3], &[9, 8, 7]);
    assert_eq!(&frame[SCREEN_BYTES - 3..], &[1, 1, 1]);
}

#[test]
fn test_screen_second_line_starts_after_256_dots() {
    let mut screen = Screen::new();
    screen.set_double_buffering(false);
    for _ in 0..256 {
        screen.emit(0, 0, 0);
    }
    screen.emit(5, 5, 5);
    assert_eq!(&shown(&screen)[256 * 3..256 * 3 + 3], &[5, 5, 5]);
}
