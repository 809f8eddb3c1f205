//! Scroll translation: native scrollbar codes, step arithmetic, clamping.
//!
//! Scrollbar interaction arrives as a small integer code; it is decoded
//! into a `ScrollAction` and turned into a new scroll position. Every
//! position-changing action keeps the result inside
//! `[0, max(0, content_size - viewport_size)]`.

use vstd::prelude::*;

verus! {

/// Pixels to scroll per "line" (arrow click or single wheel notch line).
pub const LINE_SCROLL_PIXELS: i32 = 40;

/// Scroll action decoded from a native scrollbar interaction code.
#[derive(Debug, Clone, Copy, PartialEq, Eq, Structural)]
pub enum ScrollAction {
    LineUp,
    LineDown,
    PageUp,
    PageDown,
    ThumbTrack,
    ThumbPosition,
    Top,
    Bottom,
    EndScroll,
}

/// The native scrollbar code for each action. Horizontal and vertical
/// bars share the same numbering, so each code covers both directions.
pub open spec fn spec_scroll_action(code: u16) -> Option<ScrollAction> {
    if code == 0 { Some(ScrollAction::LineUp) }
    else if code == 1 { Some(ScrollAction::LineDown) }
    else if code == 2 { Some(ScrollAction::PageUp) }
    else if code == 3 { Some(ScrollAction::PageDown) }
    else if code == 4 { Some(ScrollAction::ThumbPosition) }
    else if code == 5 { Some(ScrollAction::ThumbTrack) }
    else if code == 6 { Some(ScrollAction::Top) }
    else if code == 7 { Some(ScrollAction::Bottom) }
    else if code == 8 { Some(ScrollAction::EndScroll) }
    else { None }
}

/// Largest reachable scroll offset for the given content and viewport.
pub open spec fn spec_max_scroll(content_size: int, viewport_size: int) -> int {
    if content_size - viewport_size > 0 { content_size - viewport_size } else { 0 }
}

/// A scroll value clamped to `[0, max(0, content_size - viewport_size)]`.
pub open spec fn spec_clamp_scroll(scroll: int, viewport_size: int, content_size: int) -> int {
    let max_scroll = spec_max_scroll(content_size, viewport_size);
    if scroll < 0 { 0 } else if scroll > max_scroll { max_scroll } else { scroll }
}

/// The new scroll position that a scroll action produces. Line steps move
/// by `LINE_SCROLL_PIXELS`, page steps by `page_size`; thumb actions take
/// the native track position verbatim; all results except `EndScroll`
/// stay inside `[0, max_scroll]`.
pub open spec fn spec_new_pos(
    action: ScrollAction,
    current_pos: int,
    page_size: int,
    content_size: int,
    viewport_size: int,
    track_pos: int,
) -> int {
    match action {
        ScrollAction::LineUp => spec_clamp_scroll(
            current_pos - LINE_SCROLL_PIXELS, viewport_size, content_size),
        ScrollAction::LineDown => spec_clamp_scroll(
            current_pos + LINE_SCROLL_PIXELS, viewport_size, content_size),
        ScrollAction::PageUp => spec_clamp_scroll(
            current_pos - page_size, viewport_size, content_size),
        ScrollAction::PageDown => spec_clamp_scroll(
            current_pos + page_size, viewport_size, content_size),
        ScrollAction::Top => 0,
        ScrollAction::Bottom => spec_max_scroll(content_size, viewport_size),
        ScrollAction::ThumbTrack => spec_clamp_scroll(track_pos, viewport_size, content_size),
        ScrollAction::ThumbPosition => spec_clamp_scroll(track_pos, viewport_size, content_size),
        ScrollAction::EndScroll => current_pos,
    }
}

impl ScrollAction {
    /// Parse a scroll action from the low word of a native scroll message.
    pub fn from_scroll_code(code: u16) -> (r: Option<ScrollAction>)
        ensures
            r == spec_scroll_action(code),
    {
        if code == 0 { Some(ScrollAction::LineUp) }
        else if code == 1 { Some(ScrollAction::LineDown) }
        else if code == 2 { Some(ScrollAction::PageUp) }
        else if code == 3 { Some(ScrollAction::PageDown) }
        else if code == 4 { Some(ScrollAction::ThumbPosition) }
        else if code == 5 { Some(ScrollAction::ThumbTrack) }
        else if code == 6 { Some(ScrollAction::Top) }
        else if code == 7 { Some(ScrollAction::Bottom) }
        else if code == 8 { Some(ScrollAction::EndScroll) }
        else { None }
    }
}

/// Calculate the new scroll position for a scroll action. Pure: the
/// result depends on the arguments alone, and every action except
/// `EndScroll` lands inside `[0, max(0, content_size - viewport_size)]`.
pub fn calculate_new_pos(
    action: ScrollAction,
    current_pos: i32,
    page_size: i32,
    content_size: i32,
    viewport_size: i32,
    track_pos: i32,
) -> (r: i32)
    requires
        0 <= current_pos,
        0 <= page_size,
        0 <= content_size,
        0 <= viewport_size,
    ensures
        r == spec_new_pos(action, current_pos as int, page_size as int, content_size as int,
            viewport_size as int, track_pos as int),
        action != ScrollAction::EndScroll ==> 0 <= r <= spec_max_scroll(
            content_size as int, viewport_size as int),
{
    let max_scroll: i32 = if content_size - viewport_size > 0 {
        content_size - viewport_size
    } else {
        0
    };
    match action {
        ScrollAction::LineUp => {
            clamp_i64(current_pos as i64 - LINE_SCROLL_PIXELS as i64, max_scroll)
        }
        ScrollAction::LineDown => {
            clamp_i64(current_pos as i64 + LINE_SCROLL_PIXELS as i64, max_scroll)
        }
        ScrollAction::PageUp => {
            clamp_i64(current_pos as i64 - page_size as i64, max_scroll)
        }
        ScrollAction::PageDown => {
            clamp_i64(current_pos as i64 + page_size as i64, max_scroll)
        }
        ScrollAction::Top => 0,
        ScrollAction::Bottom => max_scroll,
        ScrollAction::ThumbTrack | ScrollAction::ThumbPosition => {
            clamp_i64(track_pos as i64, max_scroll)
        }
        ScrollAction::EndScroll => current_pos,
    }
}

/// A value clamped to `[0, bound]`.
fn clamp_i64(v: i64, bound: i32) -> (r: i32)
    requires
        0 <= bound,
    ensures
        r == if v < 0 { 0int } else if v > bound { bound as int } else { v as int },
{
    if v < 0 { 0 } else if v > bound as i64 { bound } else { v as i32 }
}

/// Clamp a scroll position to the valid range for the given sizes.
pub fn clamp_scroll(scroll: i32, viewport_size: i32, content_size: i32) -> (r: i32)
    ensures
        r == spec_clamp_scroll(scroll as int, viewport_size as int, content_size as int),
{
    let max_scroll: i64 = if content_size as i64 - viewport_size as i64 > 0 {
        content_size as i64 - viewport_size as i64
    } else {
        0
    };
    let s: i64 = scroll as i64;
    let clamped: i64 = if s < 0 { 0 } else if s > max_scroll { max_scroll } else { s };
    clamped as i32
}

/// What a native scrollbar needs when content overflows the viewport:
/// range maximum, thumb (page) size, and position. The range maximum
/// is `content_size - 1`, so with a thumb of `viewport_size` the
/// largest reachable position is `content_size - viewport_size`.
#[derive(Clone, Copy, Debug, PartialEq, Eq, Structural)]
pub struct ScrollbarRange {
    pub max: i32,
    pub page: u32,
    pub pos: i32,
}

/// Parameters for a native scrollbar: `Some` exactly when the content
/// is strictly larger than the viewport, else the bar is hidden.
pub fn scrollbar_range(viewport_size: i32, content_size: i32, scroll_pos: i32) -> (r: Option<
    ScrollbarRange>)
    requires
        0 <= viewport_size,
        0 <= content_size,
    ensures
        content_size > viewport_size ==> r == Some(ScrollbarRange {
            max: (content_size - 1) as i32,
            page: viewport_size as u32,
            pos: scroll_pos,
        }),
        content_size <= viewport_size ==> r is None,
{
    if content_size > viewport_size {
        Some(ScrollbarRange { max: content_size - 1, page: viewport_size as u32, pos: scroll_pos })
    } else {
        None
    }
}

/// Number of whole wheel notches in a native wheel delta, as a
/// magnitude: one notch is 120 delta units.
pub open spec fn spec_wheel_notches(delta: i16) -> int {
    (if delta >= 0 { delta as int } else { -(delta as int) }) / 120
}

/// Vertical scroll amount for a mouse-wheel turn: `delta` is the native
/// wheel delta (one notch is 120), `scroll_lines` the system lines-per-
/// notch setting; a notch moves `scroll_lines` lines of
/// `LINE_SCROLL_PIXELS` pixels, and a positive delta scrolls up
/// (negative amount).
pub fn wheel_scroll_amount(delta: i16, scroll_lines: u32) -> (r: i32)
    requires
        1 <= scroll_lines <= 10000,
    ensures
        delta >= 0 ==> r == -(spec_wheel_notches(delta) * scroll_lines * LINE_SCROLL_PIXELS),
        delta < 0 ==> r == spec_wheel_notches(delta) * scroll_lines * LINE_SCROLL_PIXELS,
{
    let magnitude: u32 = if delta >= 0 { delta as u32 } else { (-(delta as i32)) as u32 };
    let notches: u32 = magnitude / 120;
    proof {
        assert(notches <= 273);
        assert(notches * scroll_lines * 40 <= 273 * 10000 * 40) by (nonlinear_arith)
            requires
                notches <= 273,
                scroll_lines <= 10000,
        ;
    }
    let amount: u32 = notches * scroll_lines * 40;
    if delta >= 0 { -(amount as i32) } else { amount as i32 }
}

} // verus!
