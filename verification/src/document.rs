//! The document model: an ordered, fixed sequence of pages with a
//! bitmap cache, plus the layout and visibility queries.
//!
//! A document is created once per load and its page geometry never
//! changes afterwards. Decoding a page into pixels is the host's job;
//! the document only remembers decoded images in its cache, keyed by
//! page index.

use crate::cache::{
    cache_contains, cache_image_of, cache_wf, BitmapCache, PageImage, MAX_CACHED_PAGES,
};
use crate::layout::{
    layout_in_range, layout_matches, lemma_matches_in_range, pages_wf, rotation_wf, spec_bottom,
    spec_dim_sum, spec_gap, spec_page_top, spec_rot_h, spec_rot_w, spec_scaled, spec_widest,
    PageData, PageLayout, MAX_PAGE_DIM,
};
use crate::zoom::zoom_wf;
use vstd::prelude::*;

verus! {

/// Kind of a loaded document: a single-frame image or a paginated file.
#[derive(Clone, Copy, Debug, PartialEq, Eq, Structural)]
pub enum DocumentType {
    Image,
    Pdf,
}

/// Errors of the viewer engine. A page index past the page count is a
/// caller error; a decoder that produced no image is reported to the
/// host, which keeps the previous frame on screen.
#[derive(Clone, Copy, Debug, PartialEq, Eq, Structural)]
pub enum ViewerError {
    PageIndexOutOfRange,
    DecodeFailure,
}

/// A loaded document: its kind, the per-page geometry, and the cache of
/// decoded page images. Every operation that reads a page index expects
/// it to be in bounds; the layout and visibility queries return
/// degenerate but valid results for an empty document.
pub struct Document {
    pub doc_type: DocumentType,
    pub pages: Vec<PageData>,
    pub bitmap_cache: BitmapCache,
}

pub open spec fn document_wf(doc: Document) -> bool {
    &&& pages_wf(doc.pages@)
    &&& cache_wf(doc.bitmap_cache)
}

impl Document {
    /// A single-page image document with the given pixel dimensions.
    pub fn new_image(width: u32, height: u32) -> (doc: Document)
        requires
            0 < width <= MAX_PAGE_DIM,
            0 < height <= MAX_PAGE_DIM,
        ensures
            document_wf(doc),
            doc.doc_type == DocumentType::Image,
            doc.pages@.len() == 1,
            doc.pages@[0] == (PageData { width, height }),
            doc.bitmap_cache.entries@.len() == 0,
    {
        let mut pages: Vec<PageData> = Vec::new();
        pages.push(PageData { width, height });
        assert(spec_dim_sum(pages@, 0) == 0);
        assert(spec_dim_sum(pages@, 1) == width + height);
        Document { doc_type: DocumentType::Image, pages, bitmap_cache: BitmapCache::new() }
    }

    /// A paginated document from per-page geometry.
    pub fn new_pdf(pages: Vec<PageData>) -> (doc: Document)
        requires
            pages_wf(pages@),
        ensures
            document_wf(doc),
            doc.doc_type == DocumentType::Pdf,
            doc.pages@ == pages@,
            doc.bitmap_cache.entries@.len() == 0,
    {
        Document { doc_type: DocumentType::Pdf, pages, bitmap_cache: BitmapCache::new() }
    }

    pub fn doc_type(&self) -> (t: DocumentType)
        ensures
            t == self.doc_type,
    {
        self.doc_type
    }

    pub fn page_count(&self) -> (n: usize)
        ensures
            n == self.pages@.len(),
    {
        self.pages.len()
    }

    /// The document bounding box: page 0's dimensions, used for
    /// single-page fit calculations; `(0, 0)` for an empty document.
    pub fn dimensions(&self) -> (d: (u32, u32))
        ensures
            self.pages@.len() > 0 ==> d == (self.pages@[0].width, self.pages@[0].height),
            self.pages@.len() == 0 ==> d == (0u32, 0u32),
    {
        if self.pages.len() > 0 {
            (self.pages[0].width, self.pages[0].height)
        } else {
            (0, 0)
        }
    }

    /// A page's untransformed dimensions; `(0, 0)` when the index is
    /// out of range.
    pub fn page_dimensions(&self, page: usize) -> (d: (u32, u32))
        ensures
            page < self.pages@.len() ==> d == (self.pages@[page as int].width, self.pages@[
                page as int].height),
            page >= self.pages@.len() ==> d == (0u32, 0u32),
    {
        if page < self.pages.len() {
            (self.pages[page].width, self.pages[page].height)
        } else {
            (0, 0)
        }
    }

    /// Compute the vertical stack layout for the given zoom and
    /// rotation: one linear pass that is a pure function of the page
    /// geometry, the zoom, and the rotation.
    pub fn compute_layout(&self, zoom: u32, rotation: u32) -> (l: PageLayout)
        requires
            pages_wf(self.pages@),
            zoom_wf(zoom),
            rotation_wf(rotation),
        ensures
            layout_matches(self.pages@, zoom, rotation, l),
            layout_in_range(l),
    {
        let n = self.pages.len();
        let mut page_tops: Vec<i32> = Vec::new();
        let mut page_sizes: Vec<(i32, i32)> = Vec::new();
        let mut current_y: i32 = 0;
        let mut max_width: i32 = 0;
        let scaled_gap = gap_for(zoom);
        proof {
            crate::layout::lemma_dim_sum_monotone(self.pages@, 0, n as int);
        }
        let mut i: usize = 0;
        while i < n
            invariant
                pages_wf(self.pages@),
                zoom_wf(zoom),
                rotation_wf(rotation),
                n == self.pages@.len(),
                i <= n,
                scaled_gap == spec_gap(zoom),
                0 <= scaled_gap <= 200,
                page_tops@.len() == i,
                page_sizes@.len() == i,
                forall|j: int|
                    0 <= j < i ==> #[trigger] page_tops@[j] == spec_page_top(self.pages@, zoom,
                        rotation, j),
                forall|j: int|
                    0 <= j < i ==> (#[trigger] page_sizes@[j]).0 == spec_scaled(spec_rot_w(
                        self.pages@[j], rotation), zoom) && page_sizes@[j].1 == spec_scaled(
                        spec_rot_h(self.pages@[j], rotation), zoom),
                current_y == spec_page_top(self.pages@, zoom, rotation, i as int),
                0 <= current_y <= 10 * spec_dim_sum(self.pages@, i as int) + 200 * i,
                0 <= spec_dim_sum(self.pages@, i as int) <= spec_dim_sum(self.pages@, n as int),
                max_width == spec_widest(self.pages@, zoom, rotation, i as int),
                0 <= max_width <= 10 * MAX_PAGE_DIM,
            decreases n - i,
        {
            let page = self.pages[i];
            let (w, h) = if rotation == 90 || rotation == 270 {
                (page.height, page.width)
            } else {
                (page.width, page.height)
            };
            let scaled_w = scale_dim(w, zoom);
            let scaled_h = scale_dim(h, zoom);
            page_tops.push(current_y);
            page_sizes.push((scaled_w, scaled_h));
            if scaled_w > max_width {
                max_width = scaled_w;
            }
            proof {
                crate::layout::lemma_dim_sum_monotone(self.pages@, i + 1, n as int);
                assert(spec_rot_h(self.pages@[i as int], rotation) <= self.pages@[i as int].width
                    + self.pages@[i as int].height);
            }
            current_y = current_y + scaled_h;
            if i < n - 1 {
                current_y = current_y + scaled_gap;
            }
            i = i + 1;
        }
        let l = PageLayout { page_tops, total_height: current_y, max_width, page_sizes };
        proof {
            lemma_matches_in_range(self.pages@, zoom, rotation, l);
        }
        l
    }

    /// Find the contiguous range `[first, last)` of pages intersecting
    /// the viewport `[scroll_y, scroll_y + viewport_height)`. The scan
    /// is linear: `first` is the first page whose bottom edge lies
    /// strictly below `scroll_y` (or the last page when none does), and
    /// the range extends while page tops lie strictly above the
    /// viewport bottom. An empty document yields `(0, 0)`.
    pub fn find_visible_pages(&self, layout: &PageLayout, scroll_y: i32, viewport_height: i32) -> (r:
        (usize, usize))
        requires
            layout.page_tops@.len() == self.pages@.len(),
            layout.page_sizes@.len() == self.pages@.len(),
            layout_in_range(*layout),
        ensures
            self.pages@.len() == 0 ==> r == (0usize, 0usize),
            self.pages@.len() > 0 ==> {
                let n = self.pages@.len() as int;
                &&& r.0 < n
                &&& r.0 <= r.1 <= n
                &&& forall|j: int| 0 <= j < r.0 ==> spec_bottom(*layout, j) <= scroll_y
                &&& spec_bottom(*layout, r.0 as int) > scroll_y || r.0 == n - 1
                &&& forall|j: int|
                    r.0 <= j < r.1 ==> layout.page_tops@[j] < scroll_y + viewport_height
                &&& r.1 < n ==> layout.page_tops@[r.1 as int] >= scroll_y + viewport_height
            },
    {
        let n = self.pages.len();
        if n == 0 {
            return (0, 0);
        }
        let viewport_bottom: i64 = scroll_y as i64 + viewport_height as i64;

        // First page whose bottom edge lies below the scroll offset.
        let mut first_visible: usize = 0;
        let mut i: usize = 0;
        while i < n
            invariant_except_break
                first_visible == if i == 0 { 0int } else { i - 1 },
            invariant
                n == self.pages@.len(),
                n == layout.page_tops@.len(),
                n == layout.page_sizes@.len(),
                layout_in_range(*layout),
                0 < n,
                i <= n,
                first_visible <= i,
                first_visible < n,
                forall|j: int| 0 <= j < i ==> spec_bottom(*layout, j) <= scroll_y,
            ensures
                first_visible < n,
                forall|j: int| 0 <= j < first_visible ==> spec_bottom(*layout, j) <= scroll_y,
                spec_bottom(*layout, first_visible as int) > scroll_y || first_visible == n - 1,
            decreases n - i,
        {
            let top = layout.page_tops[i];
            let page_bottom: i64 = top as i64 + layout.page_sizes[i].1 as i64;
            if page_bottom > scroll_y as i64 {
                first_visible = i;
                break;
            }
            first_visible = i;
            i = i + 1;
        }

        // Extend the range while page tops lie above the viewport bottom.
        let mut last_visible: usize = first_visible;
        let mut k: usize = first_visible;
        while k < n
            invariant
                n == self.pages@.len(),
                n == layout.page_tops@.len(),
                n == layout.page_sizes@.len(),
                layout_in_range(*layout),
                0 < n,
                first_visible < n,
                first_visible <= k <= n,
                last_visible == k,
                viewport_bottom == scroll_y + viewport_height,
                forall|j: int|
                    first_visible <= j < k ==> layout.page_tops@[j] < scroll_y + viewport_height,
            ensures
                first_visible <= last_visible <= n,
                forall|j: int|
                    first_visible <= j < last_visible ==> layout.page_tops@[j] < scroll_y
                        + viewport_height,
                last_visible < n ==> layout.page_tops@[last_visible as int] >= scroll_y
                    + viewport_height,
            decreases n - k,
        {
            if layout.page_tops[k] as i64 >= viewport_bottom {
                break;
            }
            last_visible = k + 1;
            k = k + 1;
        }
        (first_visible, last_visible)
    }

    /// A page's geometry, or `PageIndexOutOfRange` past the page count.
    pub fn page_data(&self, page: usize) -> (r: Result<PageData, ViewerError>)
        ensures
            page < self.pages@.len() ==> r == Ok::<PageData, ViewerError>(self.pages@[page as int]),
            page >= self.pages@.len() ==> r == Err::<PageData, ViewerError>(
                ViewerError::PageIndexOutOfRange),
    {
        if page < self.pages.len() {
            Ok(self.pages[page])
        } else {
            Err(ViewerError::PageIndexOutOfRange)
        }
    }

    /// Complete a cache miss with what the external decoder produced:
    /// a decoded image is stored under the page index and returned; a
    /// decode failure is propagated and leaves the cache unmodified
    /// (failures are not cached).
    pub fn store_decoded(&mut self, page: usize, decoded: Option<PageImage>) -> (r: Result<
        PageImage, ViewerError>)
        requires
            cache_wf(old(self).bitmap_cache),
        ensures
            cache_wf(final(self).bitmap_cache),
            final(self).pages@ == old(self).pages@,
            final(self).doc_type == old(self).doc_type,
            decoded is None ==> r == Err::<PageImage, ViewerError>(ViewerError::DecodeFailure)
                && *final(self) == *old(self),
            decoded matches Some(img) ==> r == Ok::<PageImage, ViewerError>(img)
                && cache_contains(final(self).bitmap_cache, page as int) && cache_image_of(
                final(self).bitmap_cache, page as int) == img,
            forall|q: int|
                q != page ==> (cache_contains(final(self).bitmap_cache, q) <==> cache_contains(
                    old(self).bitmap_cache, q)),
            forall|q: int|
                q != page && cache_contains(old(self).bitmap_cache, q) ==> cache_image_of(
                    final(self).bitmap_cache, q) == cache_image_of(old(self).bitmap_cache, q),
    {
        match decoded {
            Some(img) => {
                self.bitmap_cache.insert(page, img);
                Ok(img)
            }
            None => Err(ViewerError::DecodeFailure),
        }
    }

    /// The image cached for a page, if one was decoded before.
    pub fn cached_image(&self, page: usize) -> (r: Option<PageImage>)
        requires
            cache_wf(self.bitmap_cache),
        ensures
            cache_contains(self.bitmap_cache, page as int) ==> r == Some(cache_image_of(
                self.bitmap_cache, page as int)),
            !cache_contains(self.bitmap_cache, page as int) ==> r is None,
    {
        self.bitmap_cache.get(page)
    }

    /// Remember the image the host decoded for a page. The pages and
    /// the document kind are untouched.
    pub fn insert_image(&mut self, page: usize, image: PageImage)
        requires
            cache_wf(old(self).bitmap_cache),
        ensures
            cache_wf(final(self).bitmap_cache),
            final(self).pages@ == old(self).pages@,
            final(self).doc_type == old(self).doc_type,
            cache_contains(final(self).bitmap_cache, page as int),
            cache_image_of(final(self).bitmap_cache, page as int) == image,
            forall|q: int|
                q != page ==> (cache_contains(final(self).bitmap_cache, q) <==> cache_contains(
                    old(self).bitmap_cache, q)),
            forall|q: int|
                q != page && cache_contains(old(self).bitmap_cache, q) ==> cache_image_of(
                    final(self).bitmap_cache, q) == cache_image_of(old(self).bitmap_cache, q),
    {
        self.bitmap_cache.insert(page, image);
    }

    /// Drop every cached image.
    pub fn clear_cache(&mut self)
        ensures
            cache_wf(final(self).bitmap_cache),
            final(self).bitmap_cache.entries@.len() == 0,
            final(self).pages@ == old(self).pages@,
            final(self).doc_type == old(self).doc_type,
    {
        self.bitmap_cache.clear();
    }

    /// Evict cached images of pages far from `center_page` until at
    /// most `MAX_CACHED_PAGES` remain; see `BitmapCache::evict_distant`.
    pub fn evict_distant_pages(&mut self, center_page: usize)
        requires
            cache_wf(old(self).bitmap_cache),
        ensures
            cache_wf(final(self).bitmap_cache),
            final(self).pages@ == old(self).pages@,
            final(self).doc_type == old(self).doc_type,
            final(self).bitmap_cache.entries@.len() == if old(
                self).bitmap_cache.entries@.len() <= MAX_CACHED_PAGES {
                old(self).bitmap_cache.entries@.len() as int
            } else {
                MAX_CACHED_PAGES as int
            },
            old(self).bitmap_cache.entries@.len() <= MAX_CACHED_PAGES ==> final(
                self).bitmap_cache.entries@ == old(self).bitmap_cache.entries@,
            forall|q: int|
                cache_contains(final(self).bitmap_cache, q) ==> cache_contains(
                    old(self).bitmap_cache, q) && cache_image_of(final(self).bitmap_cache, q)
                    == cache_image_of(old(self).bitmap_cache, q),
            forall|p: int, q: int|
                cache_contains(final(self).bitmap_cache, p) && cache_contains(
                    old(self).bitmap_cache, q) && !cache_contains(final(self).bitmap_cache, q)
                    ==> crate::cache::spec_page_dist(p, center_page as int)
                    <= crate::cache::spec_page_dist(q, center_page as int),
    {
        self.bitmap_cache.evict_distant(center_page);
    }

    /// A copy that shares the page geometry but starts with an empty
    /// cache: decoded bitmaps are never duplicated into a copy.
    pub fn duplicate(&self) -> (doc: Document)
        ensures
            doc.doc_type == self.doc_type,
            doc.pages@ == self.pages@,
            doc.bitmap_cache.entries@.len() == 0,
            cache_wf(doc.bitmap_cache),
    {
        let mut pages: Vec<PageData> = Vec::new();
        let n = self.pages.len();
        let mut i: usize = 0;
        while i < n
            invariant
                n == self.pages@.len(),
                i <= n,
                pages@.len() == i,
                forall|j: int| 0 <= j < i ==> pages@[j] == self.pages@[j],
            decreases n - i,
        {
            pages.push(self.pages[i]);
            i = i + 1;
        }
        proof {
            assert(pages@ =~= self.pages@);
        }
        Document { doc_type: self.doc_type, pages, bitmap_cache: BitmapCache::new() }
    }
}

/// The scaled size of one dimension: `dim * zoom / 1000`, truncated.
pub(crate) fn scale_dim(dim: u32, zoom: u32) -> (r: i32)
    requires
        dim <= MAX_PAGE_DIM,
        zoom_wf(zoom),
    ensures
        r == spec_scaled(dim, zoom),
        0 <= r <= 10 * dim,
{
    proof {
        crate::layout::lemma_scaled_bounds(dim, zoom);
        assert(dim as u64 * zoom as u64 <= 1000000u64 * 10000u64) by (nonlinear_arith)
            requires
                dim <= 1000000,
                zoom <= 10000,
        ;
    }
    let wide: u64 = dim as u64 * zoom as u64;
    (wide / 1000) as i32
}

/// The scaled inter-page gap: `PAGE_GAP * zoom / 1000`, rounded.
fn gap_for(zoom: u32) -> (r: i32)
    requires
        zoom_wf(zoom),
    ensures
        r == spec_gap(zoom),
        0 <= r <= 200,
{
    proof {
        crate::layout::lemma_gap_bounds(zoom);
    }
    let wide: u64 = crate::layout::PAGE_GAP as u64 * zoom as u64 + 500;
    (wide / 1000) as i32
}

} // verus!
