//! Page geometry and the vertical stack layout.
//!
//! Pages are laid out top to bottom in a single column. For a zoom factor
//! `z` (in thousandths) and a rotation (multiples of 90 degrees), each
//! page's footprint is its rotation-swapped size scaled by `z / 1000`,
//! truncated toward zero; consecutive pages are separated by a gap of
//! `PAGE_GAP` document pixels scaled by the zoom and rounded to the
//! nearest pixel. `spec_page_top(pages, z, r, i)` is the top offset of
//! page `i`, and at `i == pages.len()` it is the total content height.

use vstd::arithmetic::div_mod::{lemma_div_is_ordered, lemma_div_multiples_vanish, lemma_div_pos_is_pos};
use vstd::arithmetic::mul::lemma_mul_inequality;
use vstd::prelude::*;

verus! {

/// Vertical gap between pages, in document pixels at zoom 1.0.
pub const PAGE_GAP: u32 = 20;

/// Largest page dimension the layout accepts, in document pixels.
pub const MAX_PAGE_DIM: u32 = 1000000;

/// Largest page count the layout accepts.
pub const MAX_PAGES: usize = 100000;

/// Bound on the sum of all page dimensions of a document. Together with
/// the zoom bound it keeps every layout coordinate well inside `i32`.
pub const MAX_DIM_SUM: u32 = 100000000;

/// Upper bound on every layout coordinate: ten times `MAX_DIM_SUM` for
/// the maximum zoom, plus the largest possible total of scaled gaps.
pub const MAX_LAYOUT_EXTENT: i32 = 1020000000;

/// Per-page geometry: the untransformed size in document units.
/// The pixel content itself lives outside the layout engine.
#[derive(Clone, Copy, Debug, PartialEq, Eq, Structural)]
pub struct PageData {
    pub width: u32,
    pub height: u32,
}

/// A computed snapshot of the vertical stack layout at one zoom and
/// rotation: each page's top offset and scaled size, the total content
/// height, and the widest scaled page width.
#[derive(Clone, Debug)]
pub struct PageLayout {
    /// Top offset of each page, in scaled pixels, in page order.
    pub page_tops: Vec<i32>,
    /// Total document height including all pages and gaps.
    pub total_height: i32,
    /// Width of the widest page, for horizontal centering.
    pub max_width: i32,
    /// Page sizes after rotation and zoom, in pixels.
    pub page_sizes: Vec<(i32, i32)>,
}

pub open spec fn page_wf(p: PageData) -> bool {
    &&& 0 < p.width <= MAX_PAGE_DIM
    &&& 0 < p.height <= MAX_PAGE_DIM
}

/// Sum of width and height of the first `i` pages.
pub open spec fn spec_dim_sum(pages: Seq<PageData>, i: int) -> int
    decreases i,
{
    if i <= 0 {
        0
    } else {
        spec_dim_sum(pages, i - 1) + pages[i - 1].width + pages[i - 1].height
    }
}

pub open spec fn pages_wf(pages: Seq<PageData>) -> bool {
    &&& pages.len() <= MAX_PAGES
    &&& forall|i: int| 0 <= i < pages.len() ==> page_wf(#[trigger] pages[i])
    &&& spec_dim_sum(pages, pages.len() as int) <= MAX_DIM_SUM
}

pub open spec fn rotation_wf(r: u32) -> bool {
    r == 0 || r == 90 || r == 180 || r == 270
}

/// Whether a rotation swaps a page's width and height.
pub open spec fn rotation_swaps(r: u32) -> bool {
    r == 90 || r == 270
}

/// Width of a page's occupied footprint after rotation, unscaled.
pub open spec fn spec_rot_w(p: PageData, rotation: u32) -> u32 {
    if rotation_swaps(rotation) { p.height } else { p.width }
}

/// Height of a page's occupied footprint after rotation, unscaled.
pub open spec fn spec_rot_h(p: PageData, rotation: u32) -> u32 {
    if rotation_swaps(rotation) { p.width } else { p.height }
}

/// A dimension scaled by the zoom, truncated toward zero.
pub open spec fn spec_scaled(dim: u32, zoom: u32) -> int {
    dim * zoom / 1000
}

/// The inter-page gap scaled by the zoom, rounded to the nearest pixel.
pub open spec fn spec_gap(zoom: u32) -> int {
    (PAGE_GAP * zoom + 500) / 1000
}

/// Top offset of page `i` in the stack; at `i == pages.len()` this is
/// the total content height (no gap follows the last page).
pub open spec fn spec_page_top(pages: Seq<PageData>, zoom: u32, rotation: u32, i: int) -> int
    decreases i,
{
    if i <= 0 {
        0
    } else {
        spec_page_top(pages, zoom, rotation, i - 1)
            + spec_scaled(spec_rot_h(pages[i - 1], rotation), zoom)
            + if i < pages.len() { spec_gap(zoom) } else { 0 }
    }
}

/// Widest scaled page width among the first `i` pages.
pub open spec fn spec_widest(pages: Seq<PageData>, zoom: u32, rotation: u32, i: int) -> int
    decreases i,
{
    if i <= 0 {
        0
    } else {
        let prev = spec_widest(pages, zoom, rotation, i - 1);
        let w = spec_scaled(spec_rot_w(pages[i - 1], rotation), zoom);
        if w > prev { w } else { prev }
    }
}

/// The layout `l` is exactly the stack layout of `pages` at the given
/// zoom and rotation.
pub open spec fn layout_matches(pages: Seq<PageData>, zoom: u32, rotation: u32, l: PageLayout) -> bool {
    &&& l.page_tops@.len() == pages.len()
    &&& l.page_sizes@.len() == pages.len()
    &&& forall|i: int|
        0 <= i < pages.len() ==> #[trigger] l.page_tops@[i] == spec_page_top(pages, zoom, rotation, i)
    &&& forall|i: int|
        0 <= i < pages.len() ==> (#[trigger] l.page_sizes@[i]).0 == spec_scaled(
            spec_rot_w(pages[i], rotation), zoom)
            && l.page_sizes@[i].1 == spec_scaled(spec_rot_h(pages[i], rotation), zoom)
    &&& l.total_height == spec_page_top(pages, zoom, rotation, pages.len() as int)
    &&& l.max_width == spec_widest(pages, zoom, rotation, pages.len() as int)
}

/// Structural bounds of a layout: every coordinate is a nonnegative
/// number no larger than `MAX_LAYOUT_EXTENT`, and each page's bottom
/// stays within that bound as well.
pub open spec fn layout_in_range(l: PageLayout) -> bool {
    &&& l.page_tops@.len() == l.page_sizes@.len()
    &&& forall|i: int|
        0 <= i < l.page_tops@.len() ==> 0 <= #[trigger] l.page_tops@[i]
            && 0 <= l.page_sizes@[i].0 && 0 <= l.page_sizes@[i].1
            && l.page_tops@[i] + l.page_sizes@[i].1 <= MAX_LAYOUT_EXTENT
    &&& 0 <= l.total_height <= MAX_LAYOUT_EXTENT
    &&& 0 <= l.max_width <= MAX_LAYOUT_EXTENT
}

/// Bottom edge of page `i` in the layout.
pub open spec fn spec_bottom(l: PageLayout, i: int) -> int {
    l.page_tops@[i] + l.page_sizes@[i].1
}

/// Page `i`'s vertical extent intersects the viewport `[scroll_y,
/// scroll_y + viewport_height)`: a page whose bottom edge equals
/// `scroll_y` is not visible, and a page starting at the viewport
/// bottom is not visible either.
pub open spec fn spec_page_visible(l: PageLayout, i: int, scroll_y: int, viewport_height: int) -> bool {
    &&& l.page_tops@[i] < scroll_y + viewport_height
    &&& spec_bottom(l, i) > scroll_y
}

pub proof fn lemma_scaled_bounds(dim: u32, zoom: u32)
    requires
        zoom <= 10000,
    ensures
        0 <= spec_scaled(dim, zoom) <= 10 * dim,
{
    lemma_div_pos_is_pos(dim * zoom, 1000);
    lemma_mul_inequality(zoom as int, 10000, dim as int);
    lemma_div_is_ordered(dim * zoom, dim * 10000, 1000);
    lemma_div_multiples_vanish(10 * dim, 1000);
    assert(dim * 10000 == 1000 * (10 * dim)) by (nonlinear_arith);
}

pub proof fn lemma_gap_bounds(zoom: u32)
    requires
        zoom <= 10000,
    ensures
        0 <= spec_gap(zoom) <= 200,
{
    lemma_div_pos_is_pos(PAGE_GAP * zoom + 500, 1000);
    lemma_div_is_ordered(PAGE_GAP * zoom + 500, 200500, 1000);
}

/// Page tops never decrease along the stack, and the total height
/// bounds them all.
pub proof fn lemma_tops_monotone(pages: Seq<PageData>, zoom: u32, rotation: u32, i: int, j: int)
    requires
        zoom <= 10000,
        0 <= i <= j,
    ensures
        spec_page_top(pages, zoom, rotation, i) <= spec_page_top(pages, zoom, rotation, j),
    decreases j - i,
{
    if i < j {
        lemma_tops_monotone(pages, zoom, rotation, i, j - 1);
        lemma_scaled_bounds(spec_rot_h(pages[j - 1], rotation), zoom);
        lemma_gap_bounds(zoom);
    }
}

/// Every page top is bounded by ten times the dimension sum so far plus
/// the room the gaps can take.
pub proof fn lemma_top_bound(pages: Seq<PageData>, zoom: u32, rotation: u32, i: int)
    requires
        zoom <= 10000,
        0 <= i,
    ensures
        0 <= spec_page_top(pages, zoom, rotation, i) <= 10 * spec_dim_sum(pages, i) + 200 * i,
        0 <= spec_dim_sum(pages, i),
    decreases i,
{
    if i > 0 {
        lemma_top_bound(pages, zoom, rotation, i - 1);
        lemma_scaled_bounds(spec_rot_h(pages[i - 1], rotation), zoom);
        lemma_gap_bounds(zoom);
        assert(spec_rot_h(pages[i - 1], rotation) <= pages[i - 1].width + pages[i - 1].height);
    }
}

/// The dimension sum of a prefix never exceeds the dimension sum of the
/// whole sequence.
pub proof fn lemma_dim_sum_monotone(pages: Seq<PageData>, i: int, j: int)
    requires
        0 <= i <= j,
    ensures
        spec_dim_sum(pages, i) <= spec_dim_sum(pages, j),
    decreases j - i,
{
    if i < j {
        lemma_dim_sum_monotone(pages, i, j - 1);
    }
}

/// Bounds of a freshly computed layout: under the document limits every
/// coordinate stays inside `MAX_LAYOUT_EXTENT`.
pub proof fn lemma_matches_in_range(pages: Seq<PageData>, zoom: u32, rotation: u32, l: PageLayout)
    requires
        pages_wf(pages),
        zoom <= 10000,
        layout_matches(pages, zoom, rotation, l),
    ensures
        layout_in_range(l),
{
    let n = pages.len() as int;
    assert forall|i: int| 0 <= i < n implies 0 <= #[trigger] l.page_tops@[i]
        && 0 <= l.page_sizes@[i].0 && 0 <= l.page_sizes@[i].1
        && l.page_tops@[i] + l.page_sizes@[i].1 <= MAX_LAYOUT_EXTENT by {
        lemma_top_bound(pages, zoom, rotation, i);
        lemma_scaled_bounds(spec_rot_w(pages[i], rotation), zoom);
        lemma_scaled_bounds(spec_rot_h(pages[i], rotation), zoom);
        lemma_gap_bounds(zoom);
        lemma_tops_monotone(pages, zoom, rotation, i + 1, n);
        lemma_top_bound(pages, zoom, rotation, n);
        lemma_dim_sum_monotone(pages, n, n);
        assert(l.page_tops@[i] + l.page_sizes@[i].1 <= spec_page_top(pages, zoom, rotation, i + 1));
    }
    lemma_top_bound(pages, zoom, rotation, n);
    lemma_widest_bound(pages, zoom, rotation, n);
}

/// The widest page width is nonnegative and bounded by ten times the
/// largest page dimension.
pub proof fn lemma_widest_bound(pages: Seq<PageData>, zoom: u32, rotation: u32, i: int)
    requires
        zoom <= 10000,
        forall|k: int| 0 <= k < pages.len() ==> page_wf(#[trigger] pages[k]),
        0 <= i <= pages.len(),
    ensures
        0 <= spec_widest(pages, zoom, rotation, i) <= 10 * MAX_PAGE_DIM,
    decreases i,
{
    if i > 0 {
        lemma_widest_bound(pages, zoom, rotation, i - 1);
        lemma_scaled_bounds(spec_rot_w(pages[i - 1], rotation), zoom);
    }
}

/// The stack leaves exactly one scaled gap between consecutive pages:
/// each page's occupied interval ends a gap before the next page's top,
/// and the tops are non-decreasing.
pub proof fn lemma_layout_stacking(pages: Seq<PageData>, zoom: u32, rotation: u32, l: PageLayout)
    requires
        pages_wf(pages),
        zoom <= 10000,
        layout_matches(pages, zoom, rotation, l),
    ensures
        forall|i: int|
            0 <= i < pages.len() - 1 ==> #[trigger] l.page_tops@[i] + l.page_sizes@[i].1
                + spec_gap(zoom) == l.page_tops@[i + 1],
        forall|i: int|
            0 <= i < pages.len() - 1 ==> #[trigger] l.page_tops@[i] + l.page_sizes@[i].1
                <= l.page_tops@[i + 1],
        forall|i: int, j: int|
            0 <= i <= j < pages.len() ==> #[trigger] l.page_tops@[i] <= #[trigger] l.page_tops@[j],
        forall|i: int|
            0 <= i < pages.len() ==> #[trigger] l.page_tops@[i] + l.page_sizes@[i].1
                <= l.total_height,
{
    let n = pages.len() as int;
    assert forall|i: int| 0 <= i < n - 1 implies #[trigger] l.page_tops@[i] + l.page_sizes@[i].1
        + spec_gap(zoom) == l.page_tops@[i + 1] by {
        assert(spec_page_top(pages, zoom, rotation, i + 1) == spec_page_top(pages, zoom, rotation, i)
            + spec_scaled(spec_rot_h(pages[i], rotation), zoom) + spec_gap(zoom));
    }
    assert forall|i: int| 0 <= i < n - 1 implies #[trigger] l.page_tops@[i] + l.page_sizes@[i].1
        <= l.page_tops@[i + 1] by {
        lemma_gap_bounds(zoom);
    }
    assert forall|i: int, j: int| 0 <= i <= j < n implies #[trigger] l.page_tops@[i]
        <= #[trigger] l.page_tops@[j] by {
        lemma_tops_monotone(pages, zoom, rotation, i, j);
    }
    assert forall|i: int| 0 <= i < n implies #[trigger] l.page_tops@[i] + l.page_sizes@[i].1
        <= l.total_height by {
        assert(spec_page_top(pages, zoom, rotation, i) + spec_scaled(
            spec_rot_h(pages[i], rotation), zoom) <= spec_page_top(pages, zoom, rotation, i + 1)) by {
            lemma_gap_bounds(zoom);
        }
        lemma_tops_monotone(pages, zoom, rotation, i + 1, n);
    }
}

/// The layout is a function of pages, zoom, and rotation alone: two
/// layouts that both match the same inputs are identical.
pub proof fn lemma_layout_deterministic(
    pages: Seq<PageData>,
    zoom: u32,
    rotation: u32,
    l1: PageLayout,
    l2: PageLayout,
)
    requires
        layout_matches(pages, zoom, rotation, l1),
        layout_matches(pages, zoom, rotation, l2),
    ensures
        l1.page_tops@ == l2.page_tops@,
        l1.page_sizes@ == l2.page_sizes@,
        l1.total_height == l2.total_height,
        l1.max_width == l2.max_width,
{
    assert(l1.page_tops@ =~= l2.page_tops@);
    assert(l1.page_sizes@ =~= l2.page_sizes@);
}

/// Bottoms of pages never decrease along the stack.
pub proof fn lemma_bottoms_monotone(pages: Seq<PageData>, zoom: u32, rotation: u32, l: PageLayout, i: int, j: int)
    requires
        pages_wf(pages),
        zoom <= 10000,
        layout_matches(pages, zoom, rotation, l),
        0 <= i <= j < pages.len(),
    ensures
        spec_bottom(l, i) <= spec_bottom(l, j),
{
    if i < j {
        lemma_layout_stacking(pages, zoom, rotation, l);
        assert(spec_bottom(l, i) == spec_page_top(pages, zoom, rotation, i) + spec_scaled(
            spec_rot_h(pages[i], rotation), zoom));
        assert(spec_page_top(pages, zoom, rotation, i) + spec_scaled(
            spec_rot_h(pages[i], rotation), zoom) <= spec_page_top(pages, zoom, rotation, i + 1)) by {
            lemma_gap_bounds(zoom);
        }
        lemma_tops_monotone(pages, zoom, rotation, i + 1, j);
        lemma_scaled_bounds(spec_rot_h(pages[j], rotation), zoom);
    }
}

/// Partition property of the visible range: a page is inside the range
/// returned by the visibility scan exactly when its interval intersects
/// the viewport. `first` and `last` are characterized the way the scan
/// pins them down; the scroll offset must lie above the content end.
pub proof fn lemma_visible_partition(
    pages: Seq<PageData>,
    zoom: u32,
    rotation: u32,
    l: PageLayout,
    scroll_y: int,
    viewport_height: int,
    first: int,
    last: int,
)
    requires
        pages_wf(pages),
        zoom <= 10000,
        layout_matches(pages, zoom, rotation, l),
        pages.len() > 0,
        0 <= scroll_y < l.total_height,
        0 <= viewport_height,
        // `first` is the first page whose bottom lies below the scroll offset:
        0 <= first < pages.len(),
        spec_bottom(l, first) > scroll_y || first == pages.len() - 1,
        forall|j: int| 0 <= j < first ==> spec_bottom(l, j) <= scroll_y,
        // `last` extends the range while tops stay above the viewport bottom:
        first <= last <= pages.len(),
        forall|j: int| first <= j < last ==> l.page_tops@[j] < scroll_y + viewport_height,
        last < pages.len() ==> l.page_tops@[last] >= scroll_y + viewport_height,
    ensures
        forall|i: int|
            0 <= i < pages.len() ==> (first <= i < last <==> spec_page_visible(
                l, i, scroll_y, viewport_height)),
{
    let n = pages.len() as int;
    lemma_layout_stacking(pages, zoom, rotation, l);
    // The last page's bottom is the total height, so some page ends below
    // the scroll offset and `first` really is the least such page.
    assert(spec_bottom(l, n - 1) == l.total_height);
    assert(spec_bottom(l, first) > scroll_y);
    assert forall|i: int| 0 <= i < n implies (first <= i < last <==> spec_page_visible(
        l, i, scroll_y, viewport_height)) by {
        if first <= i < last {
            lemma_bottoms_monotone(pages, zoom, rotation, l, first, i);
        }
        if i < first {
            assert(spec_bottom(l, i) <= scroll_y);
        }
        if last <= i && last < n {
            lemma_tops_monotone(pages, zoom, rotation, last, i);
        }
    }
}

} // verus!
