use simpliview::document::Document;
use simpliview::layout::PageData;
use simpliview::scroll::ScrollAction;
use simpliview::viewport::ViewportState;

const VW: i32 = 1000;
const VH: i32 = 800;

fn five_page_doc() -> Document {
    Document::new_pdf(vec![PageData { width: 600, height: 800 }; 5])
}

fn single_page_doc() -> Document {
    Document::new_image(600, 800)
}

fn loaded_multi() -> (ViewportState, Document) {
    let doc = five_page_doc();
    let mut state = ViewportState::new();
    state.load_document(&doc, VW, VH);
    (state, doc)
}

#[test]
fn loading_a_multi_page_document_starts_at_full_zoom() {
    let (state, _doc) = loaded_multi();
    assert_eq!(state.zoom, 1000);
    assert_eq!(state.rotation, 0);
    assert_eq!(state.current_page, 0);
    assert_eq!(state.total_pages, 5);
    assert!(!state.fit_to_page);
    assert_eq!((state.scroll_x, state.scroll_y), (0, 0));
    assert_eq!((state.content_width, state.content_height), (600, 4080));
    assert!(state.page_layout.is_some());
}

#[test]
fn loading_a_single_page_document_fits_the_viewport() {
    let doc = single_page_doc();
    let mut state = ViewportState::new();
    // Viewport 300 x 400 around a 600 x 800 page: both axes fit at 50%.
    state.load_document(&doc, 300, 400);
    assert!(state.fit_to_page);
    assert_eq!(state.zoom, 500);
    assert_eq!((state.content_width, state.content_height), (300, 400));
    assert!(state.page_layout.is_none());
}

#[test]
fn zoom_transitions_update_content_and_leave_fit_mode() {
    let (mut state, doc) = loaded_multi();
    state.zoom_in(&doc, VW, VH);
    assert_eq!(state.zoom, 1100);
    assert!(!state.fit_to_page);
    let expected = doc.compute_layout(1100, 0);
    assert_eq!(state.content_width, expected.max_width);
    assert_eq!(state.content_height, expected.total_height);

    state.zoom_out(&doc, VW, VH);
    assert_eq!(state.zoom, 1000);
    state.zoom_reset(&doc, VW, VH);
    assert_eq!(state.zoom, 1000);
}

#[test]
fn rotation_cycles_and_resets_scroll() {
    let (mut state, doc) = loaded_multi();
    state.scroll_by(0, 500, VW, VH);
    assert_eq!(state.scroll_y, 500);
    state.rotate_right(&doc, VW, VH);
    assert_eq!(state.rotation, 90);
    assert_eq!((state.scroll_x, state.scroll_y), (0, 0));
    // Rotated pages are 800 wide and 600 tall.
    assert_eq!(state.content_width, 800);
    assert_eq!(state.content_height, 5 * 600 + 4 * 20);
    state.rotate_right(&doc, VW, VH);
    assert_eq!(state.rotation, 180);
    state.rotate_left(&doc, VW, VH);
    assert_eq!(state.rotation, 90);
    state.rotate_left(&doc, VW, VH);
    state.rotate_left(&doc, VW, VH);
    assert_eq!(state.rotation, 270);
}

#[test]
fn scroll_is_clamped_on_every_move() {
    let (mut state, _doc) = loaded_multi();
    // Content is 600 x 4080 in a 1000 x 800 viewport: max scroll is
    // (0, 3280).
    state.scroll_by(50, 999999, VW, VH);
    assert_eq!((state.scroll_x, state.scroll_y), (0, 3280));
    state.scroll_by(0, -999999, VW, VH);
    assert_eq!((state.scroll_x, state.scroll_y), (0, 0));
    state.scroll_to(123, 456, VW, VH);
    assert_eq!((state.scroll_x, state.scroll_y), (0, 456));
}

#[test]
fn scrollbar_actions_move_one_axis() {
    let (mut state, _doc) = loaded_multi();
    state.apply_scroll_action(false, ScrollAction::Bottom, 0, VW, VH);
    assert_eq!(state.scroll_y, 3280);
    state.apply_scroll_action(false, ScrollAction::LineUp, 0, VW, VH);
    assert_eq!(state.scroll_y, 3240);
    state.apply_scroll_action(false, ScrollAction::PageUp, 0, VW, VH);
    assert_eq!(state.scroll_y, 2440);
    state.apply_scroll_action(false, ScrollAction::ThumbTrack, 100, VW, VH);
    assert_eq!(state.scroll_y, 100);
    state.apply_scroll_action(false, ScrollAction::Top, 0, VW, VH);
    assert_eq!(state.scroll_y, 0);
    // The horizontal axis has no room: everything clamps to zero.
    state.apply_scroll_action(true, ScrollAction::Bottom, 0, VW, VH);
    assert_eq!(state.scroll_x, 0);
}

#[test]
fn resize_reclamps_scroll() {
    let (mut state, doc) = loaded_multi();
    state.apply_scroll_action(false, ScrollAction::Bottom, 0, VW, VH);
    assert_eq!(state.scroll_y, 3280);
    // A taller viewport leaves less room to scroll.
    state.resize(&doc, VW, 2000);
    assert_eq!(state.scroll_y, 4080 - 2000);
    assert_eq!(state.zoom, 1000);
}

#[test]
fn resize_in_fit_mode_recalculates_zoom() {
    let doc = single_page_doc();
    let mut state = ViewportState::new();
    state.load_document(&doc, 300, 400);
    assert_eq!(state.zoom, 500);
    state.resize(&doc, 600, 800);
    assert_eq!(state.zoom, 1000);
    assert!(state.fit_to_page);
}

#[test]
fn page_navigation_scrolls_in_multi_page_view() {
    let (mut state, doc) = loaded_multi();
    state.next_page(&doc, VW, VH);
    assert_eq!(state.current_page, 1);
    assert_eq!(state.scroll_y, 820);
    state.last_page(&doc, VW, VH);
    assert_eq!(state.current_page, 4);
    // Page 4 starts at 3280, which is exactly the scroll limit.
    assert_eq!(state.scroll_y, 3280);
    state.next_page(&doc, VW, VH);
    assert_eq!(state.current_page, 4);
    state.first_page(&doc, VW, VH);
    assert_eq!(state.current_page, 0);
    assert_eq!(state.scroll_y, 0);
    state.prev_page(&doc, VW, VH);
    assert_eq!(state.current_page, 0);
}

#[test]
fn page_navigation_is_a_noop_on_a_single_page() {
    let doc = single_page_doc();
    let mut state = ViewportState::new();
    state.load_document(&doc, VW, VH);
    state.next_page(&doc, VW, VH);
    assert_eq!(state.current_page, 0);
    state.prev_page(&doc, VW, VH);
    assert_eq!(state.current_page, 0);
}

#[test]
fn fit_page_resets_zoom_in_multi_page_view() {
    let (mut state, doc) = loaded_multi();
    state.zoom_in(&doc, VW, VH);
    assert_eq!(state.zoom, 1100);
    state.fit_page(&doc, VW, VH);
    assert_eq!(state.zoom, 1000);
    assert!(!state.fit_to_page);
}

#[test]
fn fit_page_fits_a_single_page_document() {
    let doc = single_page_doc();
    let mut state = ViewportState::new();
    state.load_document(&doc, VW, VH);
    state.zoom_reset(&doc, VW, VH);
    assert!(!state.fit_to_page);
    state.fit_page(&doc, 300, 400);
    assert!(state.fit_to_page);
    assert_eq!(state.zoom, 500);
    assert_eq!((state.scroll_x, state.scroll_y), (0, 0));
}

#[test]
fn fit_width_and_fit_height_use_one_axis() {
    let doc = single_page_doc();
    let mut state = ViewportState::new();
    state.load_document(&doc, VW, VH);
    state.fit_width(&doc, 300, 400);
    assert_eq!(state.zoom, 500);
    assert!(!state.fit_to_page);
    state.fit_height(&doc, 300, 400);
    assert_eq!(state.zoom, 500);
    // With the page rotated, the footprint is 800 wide.
    state.rotate_right(&doc, 300, 400);
    state.fit_width(&doc, 300, 400);
    assert_eq!(state.zoom, 375);
}

#[test]
fn fit_zoom_truncates_toward_zero() {
    let doc = single_page_doc();
    let mut state = ViewportState::new();
    // 301 * 1000 / 600 = 501.67 and 401 * 1000 / 800 = 501.25, both
    // truncated; the tighter axis wins.
    state.load_document(&doc, 301, 401);
    assert_eq!(state.zoom, 501);
}

#[test]
fn fit_zoom_is_clamped_to_the_allowed_range() {
    let doc = Document::new_image(600, 800);
    let mut state = ViewportState::new();
    // A tiny viewport would want less than 10%.
    state.load_document(&doc, 30, 40);
    assert_eq!(state.zoom, 100);
    // A huge viewport would want more than 1000%.
    state.resize(&doc, 600 * 20, 800 * 20);
    assert_eq!(state.zoom, 10000);
}

#[test]
fn drag_scrolling_follows_the_pointer_from_the_drag_origin() {
    let (mut state, _doc) = loaded_multi();
    state.scroll_to(0, 1000, VW, VH);
    // Dragging the page up by 200 pixels scrolls down by 200 from the
    // position where the drag began, regardless of later moves.
    state.drag_scroll(0, 1000, 0, 200, VW, VH);
    assert_eq!(state.scroll_y, 1200);
    state.drag_scroll(0, 1000, 0, -99999, VW, VH);
    assert_eq!(state.scroll_y, 0);
    state.drag_scroll(0, 1000, 0, 99999, VW, VH);
    assert_eq!(state.scroll_y, 3280);
}

#[test]
fn scrollbars_hide_only_when_fitted_content_is_inside_the_viewport() {
    let doc = single_page_doc();
    let mut state = ViewportState::new();
    state.load_document(&doc, 300, 400);
    assert!(state.fit_to_page);
    assert!(state.scrollbars_hidden(300, 400));
    state.zoom_in(&doc, 300, 400);
    assert!(!state.fit_to_page);
    assert!(!state.scrollbars_hidden(300, 400));
}

#[test]
fn scroll_tracking_follows_the_nearest_page_center() {
    let (mut state, doc) = loaded_multi();
    // Viewport center at 900 + 400 = 1300; page 1's center is at
    // 820 + 400 = 1220, the closest of all pages.
    state.scroll_by(0, 900, VW, VH);
    state.update_current_page_from_scroll(&doc, VH);
    assert_eq!(state.current_page, 1);
    assert_eq!(state.most_visible_page(&doc, VH), 1);
    state.scroll_to(0, 3280, VW, VH);
    state.update_current_page_from_scroll(&doc, VH);
    assert_eq!(state.current_page, 4);
    state.scroll_to(0, 0, VW, VH);
    state.update_current_page_from_scroll(&doc, VH);
    assert_eq!(state.current_page, 0);
}
