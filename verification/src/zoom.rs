//! Discrete zoom levels and fit-zoom arithmetic.
//!
//! Zoom factors are stored in thousandths: `1000` is 100%. The viewer
//! steps through a fixed ascending table of levels between 10% and 1000%.
//! Zoom-in picks the smallest table entry at least 1.1 times the current
//! zoom; zoom-out picks the largest entry at most the current zoom divided
//! by 1.1. Both comparisons are exact in integer arithmetic:
//! `level * 10 >= zoom * 11` says `level >= zoom * 1.1`.

use vstd::prelude::*;

verus! {

/// Zoom factors are thousandths of the nominal scale: 1000 is 100%.
pub const ZOOM_UNIT: u32 = 1000;

/// Smallest allowed zoom factor (10%).
pub const MIN_ZOOM: u32 = 100;

/// Largest allowed zoom factor (1000%).
pub const MAX_ZOOM: u32 = 10000;

/// Number of entries in the discrete zoom table.
pub const ZOOM_LEVEL_COUNT: usize = 27;

pub open spec fn zoom_wf(z: u32) -> bool {
    MIN_ZOOM <= z <= MAX_ZOOM
}

/// The fixed ascending table of zoom levels, in thousandths.
pub open spec fn spec_zoom_level(i: int) -> u32 {
    if i == 0 { 100 }
    else if i == 1 { 125 }
    else if i == 2 { 150 }
    else if i == 3 { 175 }
    else if i == 4 { 200 }
    else if i == 5 { 250 }
    else if i == 6 { 330 }
    else if i == 7 { 400 }
    else if i == 8 { 500 }
    else if i == 9 { 600 }
    else if i == 10 { 670 }
    else if i == 11 { 750 }
    else if i == 12 { 850 }
    else if i == 13 { 1000 }
    else if i == 14 { 1100 }
    else if i == 15 { 1250 }
    else if i == 16 { 1400 }
    else if i == 17 { 1500 }
    else if i == 18 { 1750 }
    else if i == 19 { 2000 }
    else if i == 20 { 2500 }
    else if i == 21 { 3000 }
    else if i == 22 { 4000 }
    else if i == 23 { 5000 }
    else if i == 24 { 6000 }
    else if i == 25 { 8000 }
    else { 10000 }
}

pub open spec fn spec_is_zoom_level(v: u32) -> bool {
    exists|i: int| 0 <= i < ZOOM_LEVEL_COUNT && spec_zoom_level(i) == v
}

/// Result of stepping the zoom one level up from `z`: the smallest table
/// entry at least `1.1 * z`, or the table maximum if there is none.
pub open spec fn spec_zoom_in(z: u32) -> u32 {
    spec_zoom_in_from(z, 0)
}

pub open spec fn spec_zoom_in_from(z: u32, i: int) -> u32
    decreases ZOOM_LEVEL_COUNT - i,
{
    if i < 0 || i >= ZOOM_LEVEL_COUNT {
        MAX_ZOOM
    } else if spec_zoom_level(i) * 10 >= z * 11 {
        spec_zoom_level(i)
    } else {
        spec_zoom_in_from(z, i + 1)
    }
}

/// Result of stepping the zoom one level down from `z`: the largest table
/// entry at most `z / 1.1`, or the table minimum if there is none.
pub open spec fn spec_zoom_out(z: u32) -> u32 {
    spec_zoom_out_from(z, ZOOM_LEVEL_COUNT - 1)
}

pub open spec fn spec_zoom_out_from(z: u32, i: int) -> u32
    decreases i + 1,
{
    if i < 0 || i >= ZOOM_LEVEL_COUNT {
        MIN_ZOOM
    } else if spec_zoom_level(i) * 11 <= z * 10 {
        spec_zoom_level(i)
    } else {
        spec_zoom_out_from(z, i - 1)
    }
}

/// An arbitrary integer zoom value clamped into the allowed range.
pub open spec fn spec_clamp_zoom(v: int) -> u32 {
    if v < MIN_ZOOM { MIN_ZOOM } else if v > MAX_ZOOM { MAX_ZOOM } else { v as u32 }
}

/// The zoom that scales a length of `dim` onto a viewport of `extent`
/// pixels, in thousandths, truncated toward zero.
pub open spec fn spec_fit_axis(extent: int, dim: int) -> int {
    extent * 1000 / dim
}

/// Every table entry is a well-formed zoom factor.
pub proof fn lemma_zoom_table_bounds()
    ensures
        forall|i: int| 0 <= i < ZOOM_LEVEL_COUNT ==> zoom_wf(#[trigger] spec_zoom_level(i)),
{
}

/// The zoom table is strictly ascending.
pub proof fn lemma_zoom_table_sorted()
    ensures
        forall|i: int, j: int|
            0 <= i < j < ZOOM_LEVEL_COUNT ==> spec_zoom_level(i) < spec_zoom_level(j),
{
}

pub fn zoom_level_at(i: usize) -> (r: u32)
    requires
        i < ZOOM_LEVEL_COUNT,
    ensures
        r == spec_zoom_level(i as int),
{
    if i == 0 { 100 }
    else if i == 1 { 125 }
    else if i == 2 { 150 }
    else if i == 3 { 175 }
    else if i == 4 { 200 }
    else if i == 5 { 250 }
    else if i == 6 { 330 }
    else if i == 7 { 400 }
    else if i == 8 { 500 }
    else if i == 9 { 600 }
    else if i == 10 { 670 }
    else if i == 11 { 750 }
    else if i == 12 { 850 }
    else if i == 13 { 1000 }
    else if i == 14 { 1100 }
    else if i == 15 { 1250 }
    else if i == 16 { 1400 }
    else if i == 17 { 1500 }
    else if i == 18 { 1750 }
    else if i == 19 { 2000 }
    else if i == 20 { 2500 }
    else if i == 21 { 3000 }
    else if i == 22 { 4000 }
    else if i == 23 { 5000 }
    else if i == 24 { 6000 }
    else if i == 25 { 8000 }
    else { 10000 }
}

/// Step the zoom one level up. The result is the smallest table entry at
/// least `1.1 * z`, saturating at the table maximum; it strictly exceeds
/// `z` unless `z` is already the maximum.
pub fn zoom_in_level(z: u32) -> (r: u32)
    requires
        zoom_wf(z),
    ensures
        r == spec_zoom_in(z),
        zoom_wf(r),
        spec_is_zoom_level(r),
        (exists|j: int| 0 <= j < ZOOM_LEVEL_COUNT && #[trigger] spec_zoom_level(j) * 10 >= z * 11)
            ==> r * 10 >= z * 11,
        forall|j: int|
            0 <= j < ZOOM_LEVEL_COUNT && #[trigger] spec_zoom_level(j) * 10 >= z * 11
                ==> r <= spec_zoom_level(j),
        z < MAX_ZOOM ==> r > z,
        z == MAX_ZOOM ==> r == MAX_ZOOM,
{
    proof {
        lemma_zoom_table_bounds();
        lemma_zoom_table_sorted();
    }
    let mut i: usize = 0;
    while i < ZOOM_LEVEL_COUNT
        invariant
            zoom_wf(z),
            i <= ZOOM_LEVEL_COUNT,
            forall|j: int| 0 <= j < i ==> #[trigger] spec_zoom_level(j) * 10 < z * 11,
            spec_zoom_in(z) == spec_zoom_in_from(z, i as int),
        decreases ZOOM_LEVEL_COUNT - i,
    {
        let e = zoom_level_at(i);
        proof {
            lemma_zoom_table_bounds();
            lemma_zoom_table_sorted();
        }
        if e * 10 >= z * 11 {
            return e;
        }
        i = i + 1;
    }
    assert(spec_zoom_level(ZOOM_LEVEL_COUNT - 1) == MAX_ZOOM);
    MAX_ZOOM
}

/// Step the zoom one level down. The result is the largest table entry at
/// most `z / 1.1`, saturating at the table minimum; it is strictly below
/// `z` unless `z` is already the minimum.
pub fn zoom_out_level(z: u32) -> (r: u32)
    requires
        zoom_wf(z),
    ensures
        r == spec_zoom_out(z),
        zoom_wf(r),
        spec_is_zoom_level(r),
        (exists|j: int| 0 <= j < ZOOM_LEVEL_COUNT && #[trigger] spec_zoom_level(j) * 11 <= z * 10)
            ==> r * 11 <= z * 10,
        forall|j: int|
            0 <= j < ZOOM_LEVEL_COUNT && #[trigger] spec_zoom_level(j) * 11 <= z * 10
                ==> r >= spec_zoom_level(j),
        z > MIN_ZOOM ==> r < z,
        z == MIN_ZOOM ==> r == MIN_ZOOM,
{
    proof {
        lemma_zoom_table_bounds();
        lemma_zoom_table_sorted();
    }
    let mut i: usize = ZOOM_LEVEL_COUNT;
    while i > 0
        invariant
            zoom_wf(z),
            i <= ZOOM_LEVEL_COUNT,
            forall|j: int| i <= j < ZOOM_LEVEL_COUNT ==> #[trigger] spec_zoom_level(j) * 11 > z * 10,
            spec_zoom_out(z) == spec_zoom_out_from(z, i as int - 1),
        decreases i,
    {
        let e = zoom_level_at(i - 1);
        proof {
            lemma_zoom_table_bounds();
            lemma_zoom_table_sorted();
        }
        if e * 11 <= z * 10 {
            return e;
        }
        i = i - 1;
    }
    assert(spec_zoom_level(0) == MIN_ZOOM);
    MIN_ZOOM
}

/// Clamp an arbitrary zoom value into the allowed range.
pub fn clamp_zoom(v: u64) -> (r: u32)
    ensures
        r == spec_clamp_zoom(v as int),
        zoom_wf(r),
{
    if v < MIN_ZOOM as u64 {
        MIN_ZOOM
    } else if v > MAX_ZOOM as u64 {
        MAX_ZOOM
    } else {
        v as u32
    }
}

} // verus!
