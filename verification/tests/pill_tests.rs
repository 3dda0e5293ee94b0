use mercer_voice::pill::{
    checked_dock_position, cursor_to_top_left, dock_position, is_cursor_over_pill_window_at,
    pill_window_rect_top_left, should_forward, HoverState, HIT_SLOP, MARGIN_BOTTOM, THROTTLE_MS,
};
use mercer_voice::platform::Platform;

#[test]
fn the_window_and_its_slop_count_as_over() {
    assert_eq!(HIT_SLOP, 12);
    assert!(is_cursor_over_pill_window_at(100, 200, 100, 200, 50, 20));
    assert!(is_cursor_over_pill_window_at(88, 188, 100, 200, 50, 20));
    assert!(!is_cursor_over_pill_window_at(87, 188, 100, 200, 50, 20));
    assert!(!is_cursor_over_pill_window_at(88, 187, 100, 200, 50, 20));
    assert!(is_cursor_over_pill_window_at(161, 231, 100, 200, 50, 20));
    assert!(!is_cursor_over_pill_window_at(162, 231, 100, 200, 50, 20));
    assert!(!is_cursor_over_pill_window_at(161, 232, 100, 200, 50, 20));
}

#[test]
fn the_hit_test_does_not_overflow() {
    assert!(is_cursor_over_pill_window_at(i32::MIN as i64, 0, i32::MIN, 0, 10, 10));
    assert!(is_cursor_over_pill_window_at(i32::MAX as i64, 0, i32::MAX - 5, 0, i32::MAX, 10));
    assert!(!is_cursor_over_pill_window_at(i64::MAX, 0, i32::MAX, 0, i32::MAX, 10));
}

#[test]
fn the_window_docks_centred_above_the_margin() {
    assert_eq!(MARGIN_BOTTOM, 28);
    assert_eq!(dock_position(0, 0, 1920, 1080, 320, 64), (800, 988));
    assert_eq!(dock_position(-1920, 100, 1920, 1080, 321, 64), (-1121, 1088));
    assert_eq!(dock_position(0, 0, 100, 100, 201, 10), (-50, 62));
    assert_eq!(checked_dock_position(0, 0, 1920, 1080, 320, 64), Some((800, 988)));
    assert_eq!(checked_dock_position(i32::MAX, 0, i32::MAX, 0, 0, 0), None);
    assert_eq!(checked_dock_position(0, i32::MIN, 0, 0, 0, 0), None);
}

#[test]
fn the_reported_position_is_used_where_it_can_be_trusted() {
    assert_eq!(pill_window_rect_top_left(Platform::Windows, Some((10, 20)), Some((800, 988))), (10, 20));
    assert_eq!(pill_window_rect_top_left(Platform::Windows, Some((0, 0)), Some((800, 988))), (0, 0));
    assert_eq!(pill_window_rect_top_left(Platform::Other, None, Some((800, 988))), (0, 0));
    assert_eq!(pill_window_rect_top_left(Platform::MacOs, Some((10, 20)), Some((800, 988))), (10, 20));
    assert_eq!(pill_window_rect_top_left(Platform::MacOs, Some((0, 5)), Some((800, 988))), (0, 5));
    assert_eq!(pill_window_rect_top_left(Platform::MacOs, Some((0, 0)), Some((800, 988))), (800, 988));
    assert_eq!(pill_window_rect_top_left(Platform::MacOs, None, Some((800, 988))), (800, 988));
    assert_eq!(pill_window_rect_top_left(Platform::MacOs, Some((0, 0)), None), (0, 0));
    assert_eq!(pill_window_rect_top_left(Platform::MacOs, None, None), (0, 0));
}

#[test]
fn the_cursor_is_flipped_on_macos() {
    assert_eq!(cursor_to_top_left(Platform::MacOs, Some(1080), 5, 1000), (5, 80));
    assert_eq!(cursor_to_top_left(Platform::MacOs, None, 5, 1000), (5, 1000));
    assert_eq!(cursor_to_top_left(Platform::Windows, Some(1080), 5, 1000), (5, 1000));
    assert_eq!(cursor_to_top_left(Platform::MacOs, Some(i32::MAX), 0, i32::MIN), (0, 4294967295));
}

#[test]
fn positions_are_throttled() {
    assert_eq!(THROTTLE_MS, 50);
    assert!(should_forward(50_000_000, 0));
    assert!(!should_forward(49_999_999, 0));
    assert!(should_forward(1_050_000_000, 1_000_000_000));
    assert!(!should_forward(1_000_000_000, 1_000_000_000));
    assert!(!should_forward(5, 1_000_000_000));
}

#[test]
fn hover_is_reported_when_it_changes() {
    let mut hover = HoverState::new();
    assert_eq!(hover.update(false), None);
    assert_eq!(hover.update(true), Some(true));
    assert_eq!(hover.update(true), None);
    assert_eq!(hover.update(false), Some(false));
}
