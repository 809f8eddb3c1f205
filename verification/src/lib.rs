//! Viewport and page-layout engine for a paginated document viewer.
//!
//! The library computes where every page of a document sits in a virtual
//! scrolling space, decides which pages intersect the viewport, keeps a
//! size-bounded cache of decoded page images with distance-based eviction,
//! and drives the zoom / rotation / scroll state machine of the view.
//! All geometry is integer: pixel coordinates are `i32` and zoom factors
//! are thousandths of the nominal scale, so a zoom of 1.0 is stored
//! as `1000`.

pub mod cache;
pub mod document;
pub mod layout;
pub mod scroll;
pub mod viewport;
pub mod zoom;
