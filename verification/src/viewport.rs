//! The viewport state machine.
//!
//! `ViewportState` is the mutable session state of the view: zoom,
//! rotation, scroll offsets, content size, current page, fit mode, and
//! the cached multi-page layout. Every transition recomputes the
//! content size when zoom, rotation, or the shown page changes, and
//! clamps both scroll offsets to `[0, max(0, content - viewport)]`, so
//! the view never points outside the content.
//!
//! The state is kept consistent with a loaded document through
//! `state_synced`: in multi-page view the cached layout is exactly the
//! stack layout of the document at the current zoom and rotation and
//! the content size is the layout's; in single-page view there is no
//! cached layout and the content size is the rotated, scaled size of
//! the current page.

use crate::document::{document_wf, Document};
use crate::layout::{
    layout_matches, lemma_layout_deterministic, page_wf, rotation_wf, spec_page_top, spec_rot_h,
    spec_rot_w, spec_scaled, PageData, PageLayout, MAX_LAYOUT_EXTENT, MAX_PAGE_DIM,
};
use crate::scroll::{clamp_scroll, spec_clamp_scroll, spec_max_scroll};
use crate::zoom::{
    clamp_zoom, spec_clamp_zoom, spec_fit_axis, spec_zoom_in, spec_zoom_out, zoom_in_level,
    zoom_out_level, zoom_wf, ZOOM_UNIT,
};
use vstd::prelude::*;

verus! {

/// The mutable session state of the viewer.
pub struct ViewportState {
    /// Zoom factor in thousandths; 1000 is 100%.
    pub zoom: u32,
    /// Rotation in degrees: 0, 90, 180, or 270.
    pub rotation: u32,
    /// Horizontal scroll offset in scaled pixels.
    pub scroll_x: i32,
    /// Vertical scroll offset in scaled pixels.
    pub scroll_y: i32,
    /// Total content width at the current zoom.
    pub content_width: i32,
    /// Total content height at the current zoom.
    pub content_height: i32,
    /// Page shown (single-page view) or tracked (multi-page view).
    pub current_page: usize,
    /// Number of pages of the loaded document.
    pub total_pages: usize,
    /// Whether the zoom follows the viewport size.
    pub fit_to_page: bool,
    /// Whether all pages are shown stacked vertically.
    pub multi_page_view: bool,
    /// Cached layout; present exactly in multi-page view.
    pub page_layout: Option<PageLayout>,
}

pub open spec fn viewport_wf(s: ViewportState) -> bool {
    &&& zoom_wf(s.zoom)
    &&& rotation_wf(s.rotation)
    &&& s.total_pages >= 1
    &&& s.current_page < s.total_pages
    &&& 0 <= s.scroll_x
    &&& 0 <= s.scroll_y
    &&& 0 <= s.content_width <= MAX_LAYOUT_EXTENT
    &&& 0 <= s.content_height <= MAX_LAYOUT_EXTENT
}

/// Multi-page view is effective only for documents with several pages.
pub open spec fn is_multi_page(s: ViewportState) -> bool {
    s.multi_page_view && s.total_pages > 1
}

/// The state agrees with the loaded document: the page count matches;
/// in multi-page view the cached layout is the document's stack layout
/// at the current zoom and rotation and the content size is taken from
/// it; in single-page view there is no cached layout and the content
/// size is the rotated, scaled current page.
pub open spec fn state_synced(s: ViewportState, doc: Document) -> bool {
    &&& s.total_pages == doc.pages@.len()
    &&& if is_multi_page(s) {
        match s.page_layout {
            Some(l) => {
                &&& layout_matches(doc.pages@, s.zoom, s.rotation, l)
                &&& s.content_width == l.max_width
                &&& s.content_height == l.total_height
            },
            None => false,
        }
    } else {
        &&& s.page_layout is None
        &&& s.content_width == spec_scaled(
            spec_rot_w(doc.pages@[s.current_page as int], s.rotation), s.zoom)
        &&& s.content_height == spec_scaled(
            spec_rot_h(doc.pages@[s.current_page as int], s.rotation), s.zoom)
    }
}

/// Both scroll offsets lie inside the valid range for the given
/// viewport: `[0, max(0, content - viewport)]`.
pub open spec fn scroll_clamped(s: ViewportState, vw: i32, vh: i32) -> bool {
    &&& 0 <= s.scroll_x <= spec_max_scroll(s.content_width as int, vw as int)
    &&& 0 <= s.scroll_y <= spec_max_scroll(s.content_height as int, vh as int)
}

/// Distance between page `i`'s vertical center and a viewport center
/// offset `vc`, in scaled pixels.
pub open spec fn spec_center_dist(l: PageLayout, i: int, vc: int) -> int {
    let c = l.page_tops@[i] + l.page_sizes@[i].1 / 2;
    if c >= vc { c - vc } else { vc - c }
}

/// Widest unscaled rotated page width among the first `i` pages.
pub open spec fn spec_widest_unscaled(pages: Seq<PageData>, rotation: u32, i: int) -> int
    decreases i,
{
    if i <= 0 {
        0
    } else {
        let prev = spec_widest_unscaled(pages, rotation, i - 1);
        let w = spec_rot_w(pages[i - 1], rotation) as int;
        if w > prev { w } else { prev }
    }
}

/// Fit zoom of a single page: the zoom that scales the rotated page to
/// the viewport on the tighter axis, clamped to the allowed range.
pub open spec fn spec_fit_zoom_single(p: PageData, rotation: u32, vw: i32, vh: i32) -> u32 {
    let zw = spec_fit_axis(vw as int, spec_rot_w(p, rotation) as int);
    let zh = spec_fit_axis(vh as int, spec_rot_h(p, rotation) as int);
    spec_clamp_zoom(if zw < zh { zw } else { zh })
}

/// The zoom that the fit recalculation gives a state: in multi-page
/// view the widest page is fitted to the viewport width; in
/// single-page view page 0 is fitted on both axes; a degenerate
/// viewport leaves the zoom unchanged.
pub open spec fn spec_fit_zoom(s: ViewportState, doc: Document, vw: i32, vh: i32) -> u32 {
    if is_multi_page(s) {
        if vw > 0 && spec_widest_unscaled(doc.pages@, s.rotation, doc.pages@.len() as int) > 0 {
            spec_clamp_zoom(spec_fit_axis(vw as int, spec_widest_unscaled(
                doc.pages@, s.rotation, doc.pages@.len() as int)))
        } else {
            s.zoom
        }
    } else {
        if vw > 0 && vh > 0 {
            spec_fit_zoom_single(doc.pages@[0], s.rotation, vw, vh)
        } else {
            s.zoom
        }
    }
}

impl ViewportState {
    /// The state before any document is loaded: 100% zoom, no rotation,
    /// fit mode on, multi-page view preferred, nothing to scroll.
    pub fn new() -> (s: ViewportState)
        ensures
            viewport_wf(s),
            s.zoom == ZOOM_UNIT,
            s.rotation == 0,
            s.scroll_x == 0 && s.scroll_y == 0,
            s.content_width == 0 && s.content_height == 0,
            s.current_page == 0,
            s.total_pages == 1,
            s.fit_to_page,
            s.multi_page_view,
            s.page_layout is None,
    {
        ViewportState {
            zoom: ZOOM_UNIT,
            rotation: 0,
            scroll_x: 0,
            scroll_y: 0,
            content_width: 0,
            content_height: 0,
            current_page: 0,
            total_pages: 1,
            fit_to_page: true,
            multi_page_view: true,
            page_layout: None,
        }
    }

    /// Recompute the content size from the document at the current
    /// zoom, rotation, and page, refresh the cached layout, and clamp
    /// both scroll offsets to the new content. This is the one
    /// post-transition step every transition ends with.
    pub fn update_content_size(&mut self, doc: &Document, vw: i32, vh: i32)
        requires
            viewport_wf(*old(self)),
            document_wf(*doc),
            old(self).total_pages == doc.pages@.len(),
            doc.pages@.len() >= 1,
            0 <= vw,
            0 <= vh,
        ensures
            viewport_wf(*final(self)),
            state_synced(*final(self), *doc),
            scroll_clamped(*final(self), vw, vh),
            final(self).zoom == old(self).zoom,
            final(self).rotation == old(self).rotation,
            final(self).current_page == old(self).current_page,
            final(self).total_pages == old(self).total_pages,
            final(self).fit_to_page == old(self).fit_to_page,
            final(self).multi_page_view == old(self).multi_page_view,
            final(self).scroll_x == spec_clamp_scroll(old(self).scroll_x as int, vw as int,
                final(self).content_width as int),
            final(self).scroll_y == spec_clamp_scroll(old(self).scroll_y as int, vh as int,
                final(self).content_height as int),
    {
        if self.multi_page_view && self.total_pages > 1 {
            let l = doc.compute_layout(self.zoom, self.rotation);
            self.content_width = l.max_width;
            self.content_height = l.total_height;
            self.page_layout = Some(l);
        } else {
            let (pw, ph) = doc.page_dimensions(self.current_page);
            let (w, h) = if self.rotation == 90 || self.rotation == 270 {
                (ph, pw)
            } else {
                (pw, ph)
            };
            self.content_width = crate::document::scale_dim(w, self.zoom);
            self.content_height = crate::document::scale_dim(h, self.zoom);
            self.page_layout = None;
        }
        self.scroll_x = clamp_scroll(self.scroll_x, vw, self.content_width);
        self.scroll_y = clamp_scroll(self.scroll_y, vh, self.content_height);
    }

    /// Recalculate the zoom so the document fits the viewport: in
    /// multi-page view the widest rotated page is fitted to the
    /// viewport width, in single-page view page 0 is fitted on both
    /// axes. Only the zoom changes; the caller recomputes the content.
    fn calculate_fit_zoom(&mut self, doc: &Document, vw: i32, vh: i32)
        requires
            viewport_wf(*old(self)),
            document_wf(*doc),
            old(self).total_pages == doc.pages@.len(),
            doc.pages@.len() >= 1,
        ensures
            final(self).zoom == spec_fit_zoom(*old(self), *doc, vw, vh),
            zoom_wf(final(self).zoom),
            *final(self) == (ViewportState { zoom: final(self).zoom, ..*old(self) }),
    {
        if self.multi_page_view && self.total_pages > 1 {
            let n = doc.page_count();
            let mut max_width: u32 = 0;
            let mut i: usize = 0;
            while i < n
                invariant
                    document_wf(*doc),
                    n == doc.pages@.len(),
                    i <= n,
                    max_width == spec_widest_unscaled(doc.pages@, self.rotation, i as int),
                    max_width <= MAX_PAGE_DIM,
                decreases n - i,
            {
                let (pw, ph) = doc.page_dimensions(i);
                let w = if self.rotation == 90 || self.rotation == 270 { ph } else { pw };
                if w > max_width {
                    max_width = w;
                }
                i = i + 1;
            }
            if vw > 0 && max_width > 0 {
                let fit: u64 = (vw as u64 * 1000) / (max_width as u64);
                self.zoom = clamp_zoom(fit);
            }
        } else {
            let (pw, ph) = doc.dimensions();
            let (w, h) = if self.rotation == 90 || self.rotation == 270 {
                (ph, pw)
            } else {
                (pw, ph)
            };
            if vw > 0 && vh > 0 {
                let zw: u64 = (vw as u64 * 1000) / (w as u64);
                let zh: u64 = (vh as u64 * 1000) / (h as u64);
                let z = if zw < zh { zw } else { zh };
                self.zoom = clamp_zoom(z);
            }
        }
    }

    /// Load a document: rotation, scroll, and current page reset;
    /// multi-page documents start at 100% zoom, single-page documents
    /// start fitted to the viewport.
    pub fn load_document(&mut self, doc: &Document, vw: i32, vh: i32)
        requires
            viewport_wf(*old(self)),
            document_wf(*doc),
            doc.pages@.len() >= 1,
            0 <= vw,
            0 <= vh,
        ensures
            viewport_wf(*final(self)),
            state_synced(*final(self), *doc),
            scroll_clamped(*final(self), vw, vh),
            final(self).rotation == 0,
            final(self).current_page == 0,
            final(self).total_pages == doc.pages@.len(),
            final(self).scroll_x == 0 && final(self).scroll_y == 0,
            final(self).fit_to_page == (doc.pages@.len() == 1),
            final(self).multi_page_view == old(self).multi_page_view,
            final(self).zoom == if doc.pages@.len() > 1 {
                ZOOM_UNIT
            } else if vw > 0 && vh > 0 {
                spec_fit_zoom_single(doc.pages@[0], 0, vw, vh)
            } else {
                ZOOM_UNIT
            },
    {
        let total = doc.page_count();
        self.current_page = 0;
        self.total_pages = total;
        self.rotation = 0;
        self.fit_to_page = total <= 1;
        self.zoom = ZOOM_UNIT;
        self.scroll_x = 0;
        self.scroll_y = 0;
        if total <= 1 {
            self.calculate_fit_zoom(doc, vw, vh);
        }
        self.update_content_size(doc, vw, vh);
    }

    /// React to a viewport size change: in fit mode the zoom follows
    /// the new size; the content size and scroll range follow always.
    pub fn resize(&mut self, doc: &Document, vw: i32, vh: i32)
        requires
            viewport_wf(*old(self)),
            state_synced(*old(self), *doc),
            document_wf(*doc),
            0 <= vw,
            0 <= vh,
        ensures
            viewport_wf(*final(self)),
            state_synced(*final(self), *doc),
            scroll_clamped(*final(self), vw, vh),
            final(self).zoom == if old(self).fit_to_page {
                spec_fit_zoom(*old(self), *doc, vw, vh)
            } else {
                old(self).zoom
            },
            final(self).rotation == old(self).rotation,
            final(self).current_page == old(self).current_page,
            final(self).total_pages == old(self).total_pages,
            final(self).fit_to_page == old(self).fit_to_page,
            final(self).multi_page_view == old(self).multi_page_view,
            final(self).scroll_x == spec_clamp_scroll(old(self).scroll_x as int, vw as int,
                final(self).content_width as int),
            final(self).scroll_y == spec_clamp_scroll(old(self).scroll_y as int, vh as int,
                final(self).content_height as int),
    {
        if self.fit_to_page {
            self.calculate_fit_zoom(doc, vw, vh);
        }
        self.update_content_size(doc, vw, vh);
    }

    /// Rotate a quarter turn clockwise: scroll resets, and in fit mode
    /// the zoom is recalculated for the new orientation.
    pub fn rotate_right(&mut self, doc: &Document, vw: i32, vh: i32)
        requires
            viewport_wf(*old(self)),
            state_synced(*old(self), *doc),
            document_wf(*doc),
            0 <= vw,
            0 <= vh,
        ensures
            viewport_wf(*final(self)),
            state_synced(*final(self), *doc),
            scroll_clamped(*final(self), vw, vh),
            final(self).rotation == (old(self).rotation + 90) % 360,
            final(self).scroll_x == 0 && final(self).scroll_y == 0,
            final(self).current_page == old(self).current_page,
            final(self).total_pages == old(self).total_pages,
            final(self).fit_to_page == old(self).fit_to_page,
            final(self).multi_page_view == old(self).multi_page_view,
            final(self).zoom == if old(self).fit_to_page {
                spec_fit_zoom((ViewportState { rotation: final(self).rotation, ..*old(self) }),
                    *doc, vw, vh)
            } else {
                old(self).zoom
            },
    {
        self.rotation = (self.rotation + 90) % 360;
        self.scroll_x = 0;
        self.scroll_y = 0;
        if self.fit_to_page {
            self.calculate_fit_zoom(doc, vw, vh);
        }
        self.update_content_size(doc, vw, vh);
    }

    /// Rotate a quarter turn counterclockwise; see `rotate_right`.
    pub fn rotate_left(&mut self, doc: &Document, vw: i32, vh: i32)
        requires
            viewport_wf(*old(self)),
            state_synced(*old(self), *doc),
            document_wf(*doc),
            0 <= vw,
            0 <= vh,
        ensures
            viewport_wf(*final(self)),
            state_synced(*final(self), *doc),
            scroll_clamped(*final(self), vw, vh),
            final(self).rotation == (old(self).rotation + 270) % 360,
            final(self).scroll_x == 0 && final(self).scroll_y == 0,
            final(self).current_page == old(self).current_page,
            final(self).total_pages == old(self).total_pages,
            final(self).fit_to_page == old(self).fit_to_page,
            final(self).multi_page_view == old(self).multi_page_view,
            final(self).zoom == if old(self).fit_to_page {
                spec_fit_zoom((ViewportState { rotation: final(self).rotation, ..*old(self) }),
                    *doc, vw, vh)
            } else {
                old(self).zoom
            },
    {
        self.rotation = (self.rotation + 270) % 360;
        self.scroll_x = 0;
        self.scroll_y = 0;
        if self.fit_to_page {
            self.calculate_fit_zoom(doc, vw, vh);
        }
        self.update_content_size(doc, vw, vh);
    }

    /// Step to the next zoom table level; leaves fit mode.
    pub fn zoom_in(&mut self, doc: &Document, vw: i32, vh: i32)
        requires
            viewport_wf(*old(self)),
            state_synced(*old(self), *doc),
            document_wf(*doc),
            0 <= vw,
            0 <= vh,
        ensures
            viewport_wf(*final(self)),
            state_synced(*final(self), *doc),
            scroll_clamped(*final(self), vw, vh),
            final(self).zoom == spec_zoom_in(old(self).zoom),
            !final(self).fit_to_page,
            final(self).rotation == old(self).rotation,
            final(self).current_page == old(self).current_page,
            final(self).total_pages == old(self).total_pages,
            final(self).multi_page_view == old(self).multi_page_view,
            final(self).scroll_x == spec_clamp_scroll(old(self).scroll_x as int, vw as int,
                final(self).content_width as int),
            final(self).scroll_y == spec_clamp_scroll(old(self).scroll_y as int, vh as int,
                final(self).content_height as int),
    {
        let z = zoom_in_level(self.zoom);
        self.zoom = z;
        self.fit_to_page = false;
        self.update_content_size(doc, vw, vh);
    }

    /// Step to the previous zoom table level; leaves fit mode.
    pub fn zoom_out(&mut self, doc: &Document, vw: i32, vh: i32)
        requires
            viewport_wf(*old(self)),
            state_synced(*old(self), *doc),
            document_wf(*doc),
            0 <= vw,
            0 <= vh,
        ensures
            viewport_wf(*final(self)),
            state_synced(*final(self), *doc),
            scroll_clamped(*final(self), vw, vh),
            final(self).zoom == spec_zoom_out(old(self).zoom),
            !final(self).fit_to_page,
            final(self).rotation == old(self).rotation,
            final(self).current_page == old(self).current_page,
            final(self).total_pages == old(self).total_pages,
            final(self).multi_page_view == old(self).multi_page_view,
            final(self).scroll_x == spec_clamp_scroll(old(self).scroll_x as int, vw as int,
                final(self).content_width as int),
            final(self).scroll_y == spec_clamp_scroll(old(self).scroll_y as int, vh as int,
                final(self).content_height as int),
    {
        let z = zoom_out_level(self.zoom);
        self.zoom = z;
        self.fit_to_page = false;
        self.update_content_size(doc, vw, vh);
    }

    /// Return to 100% zoom; leaves fit mode.
    pub fn zoom_reset(&mut self, doc: &Document, vw: i32, vh: i32)
        requires
            viewport_wf(*old(self)),
            state_synced(*old(self), *doc),
            document_wf(*doc),
            0 <= vw,
            0 <= vh,
        ensures
            viewport_wf(*final(self)),
            state_synced(*final(self), *doc),
            scroll_clamped(*final(self), vw, vh),
            final(self).zoom == ZOOM_UNIT,
            !final(self).fit_to_page,
            final(self).rotation == old(self).rotation,
            final(self).current_page == old(self).current_page,
            final(self).total_pages == old(self).total_pages,
            final(self).multi_page_view == old(self).multi_page_view,
            final(self).scroll_x == spec_clamp_scroll(old(self).scroll_x as int, vw as int,
                final(self).content_width as int),
            final(self).scroll_y == spec_clamp_scroll(old(self).scroll_y as int, vh as int,
                final(self).content_height as int),
    {
        self.zoom = ZOOM_UNIT;
        self.fit_to_page = false;
        self.update_content_size(doc, vw, vh);
    }

    /// Fit the current page into the viewport. Multi-page documents
    /// are not auto-fitted: there this resets to 100% zoom instead.
    /// In single-page view the fit mode turns on, scroll resets, and
    /// the zoom scales page 0 to fill the viewport on one axis.
    pub fn fit_page(&mut self, doc: &Document, vw: i32, vh: i32)
        requires
            viewport_wf(*old(self)),
            state_synced(*old(self), *doc),
            document_wf(*doc),
            0 <= vw,
            0 <= vh,
        ensures
            viewport_wf(*final(self)),
            state_synced(*final(self), *doc),
            scroll_clamped(*final(self), vw, vh),
            final(self).rotation == old(self).rotation,
            final(self).current_page == old(self).current_page,
            final(self).total_pages == old(self).total_pages,
            final(self).multi_page_view == old(self).multi_page_view,
            is_multi_page(*old(self)) ==> final(self).zoom == ZOOM_UNIT && !final(self).fit_to_page,
            !is_multi_page(*old(self)) ==> final(self).fit_to_page && final(self).scroll_x == 0
                && final(self).scroll_y == 0 && final(self).zoom == (
            if vw > 0 && vh > 0 {
                spec_fit_zoom_single(doc.pages@[0], old(self).rotation, vw, vh)
            } else {
                old(self).zoom
            }),
    {
        if self.multi_page_view && self.total_pages > 1 {
            self.zoom_reset(doc, vw, vh);
        } else {
            self.fit_to_page = true;
            self.scroll_x = 0;
            self.scroll_y = 0;
            self.calculate_fit_zoom(doc, vw, vh);
            self.update_content_size(doc, vw, vh);
        }
    }

    /// Fit page 0's rotated width to the viewport width; single-page
    /// view only, a zoom reset in multi-page view, and a no-op when
    /// the viewport is degenerate.
    pub fn fit_width(&mut self, doc: &Document, vw: i32, vh: i32)
        requires
            viewport_wf(*old(self)),
            state_synced(*old(self), *doc),
            document_wf(*doc),
            0 <= vw,
            0 <= vh,
        ensures
            viewport_wf(*final(self)),
            state_synced(*final(self), *doc),
            scroll_clamped(*old(self), vw, vh) ==> scroll_clamped(*final(self), vw, vh),
            final(self).rotation == old(self).rotation,
            final(self).current_page == old(self).current_page,
            final(self).total_pages == old(self).total_pages,
            final(self).multi_page_view == old(self).multi_page_view,
            is_multi_page(*old(self)) ==> final(self).zoom == ZOOM_UNIT && !final(self).fit_to_page
                && scroll_clamped(*final(self), vw, vh),
            !is_multi_page(*old(self)) && vw > 0 ==> final(self).zoom == spec_clamp_zoom(
                spec_fit_axis(vw as int, spec_rot_w(doc.pages@[0], old(self).rotation) as int))
                && !final(self).fit_to_page && final(self).scroll_y == 0 && scroll_clamped(
                *final(self), vw, vh),
            !is_multi_page(*old(self)) && vw == 0 ==> *final(self) == *old(self),
    {
        if self.multi_page_view && self.total_pages > 1 {
            self.zoom_reset(doc, vw, vh);
            return;
        }
        if vw > 0 {
            let (pw, ph) = doc.dimensions();
            let w = if self.rotation == 90 || self.rotation == 270 { ph } else { pw };
            proof {
                assert(page_wf(doc.pages@[0]));
            }
            let fit: u64 = (vw as u64 * 1000) / (w as u64);
            self.zoom = clamp_zoom(fit);
            self.fit_to_page = false;
            self.scroll_y = 0;
            self.update_content_size(doc, vw, vh);
        }
    }

    /// Fit page 0's rotated height to the viewport height; the
    /// vertical counterpart of `fit_width`.
    pub fn fit_height(&mut self, doc: &Document, vw: i32, vh: i32)
        requires
            viewport_wf(*old(self)),
            state_synced(*old(self), *doc),
            document_wf(*doc),
            0 <= vw,
            0 <= vh,
        ensures
            viewport_wf(*final(self)),
            state_synced(*final(self), *doc),
            scroll_clamped(*old(self), vw, vh) ==> scroll_clamped(*final(self), vw, vh),
            final(self).rotation == old(self).rotation,
            final(self).current_page == old(self).current_page,
            final(self).total_pages == old(self).total_pages,
            final(self).multi_page_view == old(self).multi_page_view,
            is_multi_page(*old(self)) ==> final(self).zoom == ZOOM_UNIT && !final(self).fit_to_page
                && scroll_clamped(*final(self), vw, vh),
            !is_multi_page(*old(self)) && vh > 0 ==> final(self).zoom == spec_clamp_zoom(
                spec_fit_axis(vh as int, spec_rot_h(doc.pages@[0], old(self).rotation) as int))
                && !final(self).fit_to_page && final(self).scroll_x == 0 && scroll_clamped(
                *final(self), vw, vh),
            !is_multi_page(*old(self)) && vh == 0 ==> *final(self) == *old(self),
    {
        if self.multi_page_view && self.total_pages > 1 {
            self.zoom_reset(doc, vw, vh);
            return;
        }
        if vh > 0 {
            let (pw, ph) = doc.dimensions();
            let h = if self.rotation == 90 || self.rotation == 270 { pw } else { ph };
            proof {
                assert(page_wf(doc.pages@[0]));
            }
            let fit: u64 = (vh as u64 * 1000) / (h as u64);
            self.zoom = clamp_zoom(fit);
            self.fit_to_page = false;
            self.scroll_x = 0;
            self.update_content_size(doc, vw, vh);
        }
    }

    /// Bring a page into view: in multi-page view the view scrolls to
    /// the page's top offset, clamped to the content; in single-page
    /// view the page becomes current and the content is recomputed.
    pub fn scroll_to_page(&mut self, doc: &Document, page: usize, vw: i32, vh: i32)
        requires
            viewport_wf(*old(self)),
            state_synced(*old(self), *doc),
            document_wf(*doc),
            page < old(self).total_pages,
            0 <= vw,
            0 <= vh,
        ensures
            viewport_wf(*final(self)),
            state_synced(*final(self), *doc),
            scroll_clamped(*final(self), vw, vh),
            final(self).current_page == page,
            final(self).zoom == old(self).zoom,
            final(self).rotation == old(self).rotation,
            final(self).total_pages == old(self).total_pages,
            final(self).fit_to_page == old(self).fit_to_page,
            final(self).multi_page_view == old(self).multi_page_view,
            is_multi_page(*old(self)) ==> final(self).content_width == old(self).content_width
                && final(self).content_height == old(self).content_height && final(self).scroll_y
                == spec_clamp_scroll(spec_page_top(doc.pages@, old(self).zoom, old(self).rotation,
                    page as int), vh as int, old(self).content_height as int) && final(self).scroll_x
                == spec_clamp_scroll(old(self).scroll_x as int, vw as int,
                old(self).content_width as int),
            !is_multi_page(*old(self)) ==> final(self).scroll_x == spec_clamp_scroll(
                old(self).scroll_x as int, vw as int, final(self).content_width as int)
                && final(self).scroll_y == spec_clamp_scroll(old(self).scroll_y as int, vh as int,
                final(self).content_height as int),
    {
        if self.multi_page_view && self.total_pages > 1 {
            let ghost old_layout = self.page_layout->Some_0;
            proof {
                crate::layout::lemma_matches_in_range(doc.pages@, self.zoom, self.rotation,
                    old_layout);
            }
            let top = match &self.page_layout {
                Some(l) => l.page_tops[page],
                None => 0,
            };
            self.scroll_y = top;
            self.current_page = page;
            self.update_content_size(doc, vw, vh);
            proof {
                lemma_layout_deterministic(doc.pages@, old(self).zoom, old(self).rotation,
                    old_layout, final(self).page_layout->Some_0);
            }
        } else {
            self.current_page = page;
            self.update_content_size(doc, vw, vh);
        }
    }

    /// Go to the next page: scrolls there in multi-page view, switches
    /// the shown page in single-page view; a no-op on the last page.
    pub fn next_page(&mut self, doc: &Document, vw: i32, vh: i32)
        requires
            viewport_wf(*old(self)),
            state_synced(*old(self), *doc),
            document_wf(*doc),
            0 <= vw,
            0 <= vh,
        ensures
            viewport_wf(*final(self)),
            state_synced(*final(self), *doc),
            old(self).current_page + 1 >= old(self).total_pages ==> *final(self) == *old(self),
            old(self).current_page + 1 < old(self).total_pages ==> scroll_clamped(*final(self),
                vw, vh) && final(self).current_page == old(self).current_page + 1
                && final(self).zoom == old(self).zoom && final(self).rotation == old(self).rotation
                && final(self).total_pages == old(self).total_pages && final(self).fit_to_page
                == old(self).fit_to_page && final(self).multi_page_view == old(
                self).multi_page_view,
            old(self).current_page + 1 < old(self).total_pages && is_multi_page(*old(self))
                ==> final(self).scroll_y == spec_clamp_scroll(spec_page_top(doc.pages@,
                    old(self).zoom, old(self).rotation, old(self).current_page + 1), vh as int,
                old(self).content_height as int),
            old(self).current_page + 1 < old(self).total_pages && !is_multi_page(*old(self))
                ==> final(self).scroll_x == 0 && final(self).scroll_y == 0,
    {
        if self.current_page + 1 < self.total_pages {
            if self.multi_page_view && self.total_pages > 1 {
                let target = self.current_page + 1;
                self.scroll_to_page(doc, target, vw, vh);
            } else {
                self.current_page = self.current_page + 1;
                self.scroll_x = 0;
                self.scroll_y = 0;
                self.update_content_size(doc, vw, vh);
            }
        }
    }

    /// Go to the previous page; a no-op on the first page.
    pub fn prev_page(&mut self, doc: &Document, vw: i32, vh: i32)
        requires
            viewport_wf(*old(self)),
            state_synced(*old(self), *doc),
            document_wf(*doc),
            0 <= vw,
            0 <= vh,
        ensures
            viewport_wf(*final(self)),
            state_synced(*final(self), *doc),
            old(self).current_page == 0 ==> *final(self) == *old(self),
            old(self).current_page > 0 ==> scroll_clamped(*final(self), vw, vh)
                && final(self).current_page == old(self).current_page - 1 && final(self).zoom
                == old(self).zoom && final(self).rotation == old(self).rotation
                && final(self).total_pages == old(self).total_pages && final(self).fit_to_page
                == old(self).fit_to_page && final(self).multi_page_view == old(
                self).multi_page_view,
            old(self).current_page > 0 && is_multi_page(*old(self)) ==> final(self).scroll_y
                == spec_clamp_scroll(spec_page_top(doc.pages@, old(self).zoom, old(self).rotation,
                    old(self).current_page - 1), vh as int, old(self).content_height as int),
            old(self).current_page > 0 && !is_multi_page(*old(self)) ==> final(self).scroll_x == 0
                && final(self).scroll_y == 0,
    {
        if self.current_page > 0 {
            if self.multi_page_view && self.total_pages > 1 {
                let target = self.current_page - 1;
                self.scroll_to_page(doc, target, vw, vh);
            } else {
                self.current_page = self.current_page - 1;
                self.scroll_x = 0;
                self.scroll_y = 0;
                self.update_content_size(doc, vw, vh);
            }
        }
    }

    /// Go to the first page; a no-op when already there.
    pub fn first_page(&mut self, doc: &Document, vw: i32, vh: i32)
        requires
            viewport_wf(*old(self)),
            state_synced(*old(self), *doc),
            document_wf(*doc),
            0 <= vw,
            0 <= vh,
        ensures
            viewport_wf(*final(self)),
            state_synced(*final(self), *doc),
            old(self).current_page == 0 ==> *final(self) == *old(self),
            old(self).current_page > 0 ==> scroll_clamped(*final(self), vw, vh)
                && final(self).current_page == 0 && final(self).zoom == old(self).zoom
                && final(self).rotation == old(self).rotation && final(self).total_pages == old(
                self).total_pages && final(self).fit_to_page == old(self).fit_to_page
                && final(self).multi_page_view == old(self).multi_page_view,
            old(self).current_page > 0 && is_multi_page(*old(self)) ==> final(self).scroll_y
                == spec_clamp_scroll(spec_page_top(doc.pages@, old(self).zoom, old(self).rotation,
                    0), vh as int, old(self).content_height as int),
            old(self).current_page > 0 && !is_multi_page(*old(self)) ==> final(self).scroll_x == 0
                && final(self).scroll_y == 0,
    {
        if self.current_page > 0 {
            if self.multi_page_view && self.total_pages > 1 {
                self.scroll_to_page(doc, 0, vw, vh);
            } else {
                self.current_page = 0;
                self.scroll_x = 0;
                self.scroll_y = 0;
                self.update_content_size(doc, vw, vh);
            }
        }
    }

    /// Go to the last page; a no-op when already there.
    pub fn last_page(&mut self, doc: &Document, vw: i32, vh: i32)
        requires
            viewport_wf(*old(self)),
            state_synced(*old(self), *doc),
            document_wf(*doc),
            0 <= vw,
            0 <= vh,
        ensures
            viewport_wf(*final(self)),
            state_synced(*final(self), *doc),
            old(self).current_page == old(self).total_pages - 1 ==> *final(self) == *old(self),
            old(self).current_page < old(self).total_pages - 1 ==> scroll_clamped(*final(self),
                vw, vh) && final(self).current_page == old(self).total_pages - 1
                && final(self).zoom == old(self).zoom && final(self).rotation == old(self).rotation
                && final(self).total_pages == old(self).total_pages && final(self).fit_to_page
                == old(self).fit_to_page && final(self).multi_page_view == old(
                self).multi_page_view,
            old(self).current_page < old(self).total_pages - 1 && is_multi_page(*old(self))
                ==> final(self).scroll_y == spec_clamp_scroll(spec_page_top(doc.pages@,
                    old(self).zoom, old(self).rotation, old(self).total_pages - 1), vh as int,
                old(self).content_height as int),
            old(self).current_page < old(self).total_pages - 1 && !is_multi_page(*old(self))
                ==> final(self).scroll_x == 0 && final(self).scroll_y == 0,
    {
        let last = self.total_pages - 1;
        if self.current_page < last {
            if self.multi_page_view && self.total_pages > 1 {
                self.scroll_to_page(doc, last, vw, vh);
            } else {
                self.current_page = last;
                self.scroll_x = 0;
                self.scroll_y = 0;
                self.update_content_size(doc, vw, vh);
            }
        }
    }

    /// Scroll to an absolute position, clamped to the content. Used
    /// for thumb drags and drag-to-pan, where the host supplies the
    /// target offsets.
    pub fn scroll_to(&mut self, x: i32, y: i32, vw: i32, vh: i32)
        requires
            viewport_wf(*old(self)),
            0 <= vw,
            0 <= vh,
        ensures
            viewport_wf(*final(self)),
            scroll_clamped(*final(self), vw, vh),
            final(self).scroll_x == spec_clamp_scroll(x as int, vw as int,
                old(self).content_width as int),
            final(self).scroll_y == spec_clamp_scroll(y as int, vh as int,
                old(self).content_height as int),
            *final(self) == (ViewportState {
                scroll_x: final(self).scroll_x,
                scroll_y: final(self).scroll_y,
                ..*old(self)
            }),
    {
        self.scroll_x = clamp_scroll(x, vw, self.content_width);
        self.scroll_y = clamp_scroll(y, vh, self.content_height);
    }

    /// Scroll by a relative amount (mouse wheel), clamped to the
    /// content.
    pub fn scroll_by(&mut self, dx: i32, dy: i32, vw: i32, vh: i32)
        requires
            viewport_wf(*old(self)),
            0 <= vw,
            0 <= vh,
        ensures
            viewport_wf(*final(self)),
            scroll_clamped(*final(self), vw, vh),
            final(self).scroll_x == spec_clamp_scroll(old(self).scroll_x + dx, vw as int,
                old(self).content_width as int),
            final(self).scroll_y == spec_clamp_scroll(old(self).scroll_y + dy, vh as int,
                old(self).content_height as int),
            *final(self) == (ViewportState {
                scroll_x: final(self).scroll_x,
                scroll_y: final(self).scroll_y,
                ..*old(self)
            }),
    {
        let max_x: i32 = if self.content_width > vw { self.content_width - vw } else { 0 };
        let max_y: i32 = if self.content_height > vh { self.content_height - vh } else { 0 };
        let tx: i64 = self.scroll_x as i64 + dx as i64;
        let ty: i64 = self.scroll_y as i64 + dy as i64;
        self.scroll_x = if tx < 0 { 0 } else if tx > max_x as i64 { max_x } else { tx as i32 };
        self.scroll_y = if ty < 0 { 0 } else if ty > max_y as i64 { max_y } else { ty as i32 };
    }

    /// Apply a decoded scrollbar action to one axis. The page step is
    /// the viewport size on that axis; the other axis is untouched.
    pub fn apply_scroll_action(
        &mut self,
        horizontal: bool,
        action: crate::scroll::ScrollAction,
        track_pos: i32,
        vw: i32,
        vh: i32,
    )
        requires
            viewport_wf(*old(self)),
            0 <= vw,
            0 <= vh,
        ensures
            viewport_wf(*final(self)),
            horizontal ==> final(self).scroll_x == crate::scroll::spec_new_pos(action,
                old(self).scroll_x as int, vw as int, old(self).content_width as int, vw as int,
                track_pos as int) && final(self).scroll_y == old(self).scroll_y,
            !horizontal ==> final(self).scroll_y == crate::scroll::spec_new_pos(action,
                old(self).scroll_y as int, vh as int, old(self).content_height as int, vh as int,
                track_pos as int) && final(self).scroll_x == old(self).scroll_x,
            *final(self) == (ViewportState {
                scroll_x: final(self).scroll_x,
                scroll_y: final(self).scroll_y,
                ..*old(self)
            }),
    {
        if horizontal {
            self.scroll_x = crate::scroll::calculate_new_pos(action, self.scroll_x, vw,
                self.content_width, vw, track_pos);
        } else {
            self.scroll_y = crate::scroll::calculate_new_pos(action, self.scroll_y, vh,
                self.content_height, vh, track_pos);
        }
    }

    /// Scroll while dragging: the pointer moved by `(dx, dy)` since the
    /// drag began at scroll position `(start_x, start_y)`; the view
    /// follows, clamped to the content.
    pub fn drag_scroll(&mut self, start_x: i32, start_y: i32, dx: i32, dy: i32, vw: i32, vh: i32)
        requires
            viewport_wf(*old(self)),
            0 <= vw,
            0 <= vh,
        ensures
            viewport_wf(*final(self)),
            scroll_clamped(*final(self), vw, vh),
            final(self).scroll_x == spec_clamp_scroll(start_x + dx, vw as int,
                old(self).content_width as int),
            final(self).scroll_y == spec_clamp_scroll(start_y + dy, vh as int,
                old(self).content_height as int),
            *final(self) == (ViewportState {
                scroll_x: final(self).scroll_x,
                scroll_y: final(self).scroll_y,
                ..*old(self)
            }),
    {
        let max_x: i32 = if self.content_width > vw { self.content_width - vw } else { 0 };
        let max_y: i32 = if self.content_height > vh { self.content_height - vh } else { 0 };
        let tx: i64 = start_x as i64 + dx as i64;
        let ty: i64 = start_y as i64 + dy as i64;
        self.scroll_x = if tx < 0 { 0 } else if tx > max_x as i64 { max_x } else { tx as i32 };
        self.scroll_y = if ty < 0 { 0 } else if ty > max_y as i64 { max_y } else { ty as i32 };
    }

    /// Whether the native scrollbars are hidden: fit mode with the
    /// whole content inside the viewport needs no bars.
    pub fn scrollbars_hidden(&self, vw: i32, vh: i32) -> (r: bool)
        ensures
            r == (self.fit_to_page && self.content_height <= vh && self.content_width <= vw),
    {
        self.fit_to_page && self.content_height <= vh && self.content_width <= vw
    }

    /// The page whose vertical center lies closest to the viewport's
    /// vertical center; ties go to the earliest page. In single-page
    /// view this is simply the current page.
    pub fn most_visible_page(&self, doc: &Document, vh: i32) -> (r: usize)
        requires
            viewport_wf(*self),
            state_synced(*self, *doc),
            document_wf(*doc),
            0 <= vh,
        ensures
            r < self.total_pages,
            !is_multi_page(*self) ==> r == self.current_page,
            is_multi_page(*self) ==> {
                let l = self.page_layout->Some_0;
                let vc = self.scroll_y + vh / 2;
                &&& forall|i: int|
                    0 <= i < self.total_pages ==> spec_center_dist(l, r as int, vc)
                        <= spec_center_dist(l, i, vc)
                &&& forall|i: int|
                    0 <= i < r ==> spec_center_dist(l, i, vc) > spec_center_dist(l, r as int, vc)
            },
    {
        if !(self.multi_page_view && self.total_pages > 1) {
            return self.current_page;
        }
        proof {
            crate::layout::lemma_matches_in_range(doc.pages@, self.zoom, self.rotation,
                self.page_layout->Some_0);
        }
        let viewport_center: i64 = self.scroll_y as i64 + (vh as u64 / 2) as i64;
        match &self.page_layout {
            Some(l) => {
                let ghost lg = self.page_layout->Some_0;
                let ghost vc = self.scroll_y + vh / 2;
                let n = l.page_tops.len();
                let mut best: usize = 0;
                let mut best_dist: i64 = center_dist_at(l, 0, viewport_center);
                let mut i: usize = 1;
                while i < n
                    invariant
                        crate::layout::layout_in_range(*l),
                        l == &lg,
                        n == l.page_tops@.len(),
                        0 < n,
                        viewport_center == vc,
                        -0x4000_0000_0000_0000 < viewport_center < 0x4000_0000_0000_0000,
                        1 <= i <= n,
                        best < i,
                        best_dist == spec_center_dist(lg, best as int, vc),
                        forall|j: int|
                            0 <= j < i ==> best_dist <= spec_center_dist(lg, j, vc),
                        forall|j: int|
                            0 <= j < best ==> spec_center_dist(lg, j, vc) > best_dist,
                    decreases n - i,
                {
                    let d = center_dist_at(l, i, viewport_center);
                    if d < best_dist {
                        best = i;
                        best_dist = d;
                    }
                    i = i + 1;
                }
                best
            },
            None => self.current_page,
        }
    }

    /// After a scroll change in multi-page view, retarget the current
    /// page to the one closest to the viewport center. This drives the
    /// page-number display, not rendering.
    pub fn update_current_page_from_scroll(&mut self, doc: &Document, vh: i32)
        requires
            viewport_wf(*old(self)),
            state_synced(*old(self), *doc),
            document_wf(*doc),
            0 <= vh,
        ensures
            viewport_wf(*final(self)),
            state_synced(*final(self), *doc),
            *final(self) == (ViewportState {
                current_page: final(self).current_page,
                ..*old(self)
            }),
            !is_multi_page(*old(self)) ==> final(self).current_page == old(self).current_page,
            is_multi_page(*old(self)) ==> {
                let l = old(self).page_layout->Some_0;
                let vc = old(self).scroll_y + vh / 2;
                &&& forall|i: int|
                    0 <= i < old(self).total_pages ==> spec_center_dist(
                        l, final(self).current_page as int, vc) <= #[trigger] spec_center_dist(
                        l, i, vc)
                &&& forall|i: int|
                    0 <= i < final(self).current_page ==> #[trigger] spec_center_dist(l, i, vc)
                        > spec_center_dist(l, final(self).current_page as int, vc)
            },
    {
        let p = self.most_visible_page(doc, vh);
        self.current_page = p;
    }
}

/// Distance between page `i`'s center and the viewport center, for the
/// scan that tracks the current page while scrolling.
fn center_dist_at(l: &PageLayout, i: usize, viewport_center: i64) -> (d: i64)
    requires
        crate::layout::layout_in_range(*l),
        i < l.page_tops@.len(),
        -0x4000_0000_0000_0000 < viewport_center < 0x4000_0000_0000_0000,
    ensures
        d == spec_center_dist(*l, i as int, viewport_center as int),
{
    let h = l.page_sizes[i].1;
    let center: i64 = l.page_tops[i] as i64 + (h as u64 / 2) as i64;
    if center >= viewport_center {
        center - viewport_center
    } else {
        viewport_center - center
    }
}

} // verus!
