use simpliview::scroll::{
    calculate_new_pos, clamp_scroll, scrollbar_range, wheel_scroll_amount, ScrollAction,
    ScrollbarRange, LINE_SCROLL_PIXELS,
};

#[test]
fn scrollbar_range_is_shown_only_for_overflowing_content() {
    assert_eq!(
        scrollbar_range(500, 2000, 300),
        Some(ScrollbarRange { max: 1999, page: 500, pos: 300 })
    );
    assert_eq!(scrollbar_range(500, 500, 0), None);
    assert_eq!(scrollbar_range(2000, 500, 0), None);
}

#[test]
fn scroll_codes_decode() {
    assert_eq!(ScrollAction::from_scroll_code(0), Some(ScrollAction::LineUp));
    assert_eq!(ScrollAction::from_scroll_code(1), Some(ScrollAction::LineDown));
    assert_eq!(ScrollAction::from_scroll_code(2), Some(ScrollAction::PageUp));
    assert_eq!(ScrollAction::from_scroll_code(3), Some(ScrollAction::PageDown));
    assert_eq!(ScrollAction::from_scroll_code(4), Some(ScrollAction::ThumbPosition));
    assert_eq!(ScrollAction::from_scroll_code(5), Some(ScrollAction::ThumbTrack));
    assert_eq!(ScrollAction::from_scroll_code(6), Some(ScrollAction::Top));
    assert_eq!(ScrollAction::from_scroll_code(7), Some(ScrollAction::Bottom));
    assert_eq!(ScrollAction::from_scroll_code(8), Some(ScrollAction::EndScroll));
    assert_eq!(ScrollAction::from_scroll_code(9), None);
    assert_eq!(ScrollAction::from_scroll_code(0xffff), None);
}

#[test]
fn line_steps_move_by_the_line_constant() {
    assert_eq!(LINE_SCROLL_PIXELS, 40);
    assert_eq!(calculate_new_pos(ScrollAction::LineUp, 100, 500, 2000, 500, 0), 60);
    assert_eq!(calculate_new_pos(ScrollAction::LineUp, 10, 500, 2000, 500, 0), 0);
    assert_eq!(calculate_new_pos(ScrollAction::LineDown, 100, 500, 2000, 500, 0), 140);
    assert_eq!(calculate_new_pos(ScrollAction::LineDown, 1480, 500, 2000, 500, 0), 1500);
}

#[test]
fn page_steps_move_by_the_viewport() {
    assert_eq!(calculate_new_pos(ScrollAction::PageUp, 300, 500, 2000, 500, 0), 0);
    assert_eq!(calculate_new_pos(ScrollAction::PageDown, 300, 500, 2000, 500, 0), 800);
    assert_eq!(calculate_new_pos(ScrollAction::PageDown, 1300, 500, 2000, 500, 0), 1500);
}

#[test]
fn home_end_and_thumb_positions() {
    assert_eq!(calculate_new_pos(ScrollAction::Top, 900, 500, 2000, 500, 0), 0);
    assert_eq!(calculate_new_pos(ScrollAction::Bottom, 900, 500, 2000, 500, 0), 1500);
    assert_eq!(calculate_new_pos(ScrollAction::ThumbTrack, 900, 500, 2000, 500, 777), 777);
    assert_eq!(calculate_new_pos(ScrollAction::ThumbTrack, 900, 500, 2000, 500, 99999), 1500);
    assert_eq!(calculate_new_pos(ScrollAction::ThumbPosition, 900, 500, 2000, 500, -5), 0);
    assert_eq!(calculate_new_pos(ScrollAction::EndScroll, 900, 500, 2000, 500, 0), 900);
}

#[test]
fn scroll_actions_are_idempotent_on_their_result() {
    // Applying an action from the position it produced changes nothing
    // for absolute actions, and clamping is idempotent.
    let bottom = calculate_new_pos(ScrollAction::Bottom, 900, 500, 2000, 500, 0);
    assert_eq!(calculate_new_pos(ScrollAction::Bottom, bottom, 500, 2000, 500, 0), bottom);
    let clamped = clamp_scroll(987654, 500, 2000);
    assert_eq!(clamp_scroll(clamped, 500, 2000), clamped);
}

#[test]
fn clamp_scroll_limits() {
    assert_eq!(clamp_scroll(-10, 500, 2000), 0);
    assert_eq!(clamp_scroll(700, 500, 2000), 700);
    assert_eq!(clamp_scroll(99999, 500, 2000), 1500);
    // Content smaller than the viewport pins the scroll at zero.
    assert_eq!(clamp_scroll(300, 2000, 500), 0);
    assert_eq!(clamp_scroll(0, 0, 0), 0);
}

#[test]
fn wheel_amounts_scale_with_notches_and_lines() {
    assert_eq!(wheel_scroll_amount(120, 3), -120);
    assert_eq!(wheel_scroll_amount(-240, 3), 240);
    assert_eq!(wheel_scroll_amount(0, 3), 0);
    // Partial notches are ignored.
    assert_eq!(wheel_scroll_amount(119, 3), 0);
    assert_eq!(wheel_scroll_amount(-121, 1), 40);
}
