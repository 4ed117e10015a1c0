use pstream_frontend::clock::{format_clock, progress_caption};

#[test]
fn clock_formats() {
    assert_eq!(format_clock(0), "00:00");
    assert_eq!(format_clock(65), "01:05");
    assert_eq!(format_clock(3599), "59:59");
    assert_eq!(format_clock(3600), "01:00:00");
    assert_eq!(format_clock(3 * 3600 + 2 * 60 + 1), "03:02:01");
    assert_eq!(format_clock(100 * 3600), "100:00:00");
}

#[test]
fn simple_player_caption() {
    assert_eq!(progress_caption(65, 2520), "01:05 / 42:00");
    assert_eq!(progress_caption(0, 0), "00:00 / 00:00");
}
