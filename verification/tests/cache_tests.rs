use simpliview::cache::PageImage;
use simpliview::document::{Document, ViewerError};
use simpliview::layout::PageData;

#[test]
fn decode_failure_propagates_and_leaves_the_cache_alone() {
    let mut doc = doc_with_pages(3);
    doc.insert_image(0, image(5));
    assert_eq!(doc.store_decoded(1, None), Err(ViewerError::DecodeFailure));
    assert_eq!(doc.cached_image(0), Some(image(5)));
    assert_eq!(doc.cached_image(1), None);
}

#[test]
fn decoded_images_are_stored_and_returned() {
    let mut doc = doc_with_pages(3);
    assert_eq!(doc.store_decoded(1, Some(image(9))), Ok(image(9)));
    assert_eq!(doc.cached_image(1), Some(image(9)));
}

#[test]
fn page_data_rejects_out_of_range_indices() {
    let doc = doc_with_pages(2);
    assert_eq!(doc.page_data(0), Ok(PageData { width: 600, height: 800 }));
    assert_eq!(doc.page_data(2), Err(ViewerError::PageIndexOutOfRange));
}

fn doc_with_pages(n: usize) -> Document {
    Document::new_pdf(vec![PageData { width: 600, height: 800 }; n])
}

fn image(handle: u64) -> PageImage {
    PageImage { handle, width: 600, height: 800 }
}

#[test]
fn cache_miss_then_hit() {
    let mut doc = doc_with_pages(3);
    assert_eq!(doc.cached_image(1), None);
    doc.insert_image(1, image(41));
    assert_eq!(doc.cached_image(1), Some(image(41)));
    assert_eq!(doc.cached_image(0), None);
}

#[test]
fn cache_insert_replaces_existing_entry() {
    let mut doc = doc_with_pages(3);
    doc.insert_image(2, image(1));
    doc.insert_image(2, image(2));
    assert_eq!(doc.cached_image(2), Some(image(2)));
}

#[test]
fn clear_cache_empties_it() {
    let mut doc = doc_with_pages(3);
    doc.insert_image(0, image(10));
    doc.insert_image(1, image(11));
    doc.clear_cache();
    assert_eq!(doc.cached_image(0), None);
    assert_eq!(doc.cached_image(1), None);
}

#[test]
fn eviction_is_a_noop_at_the_bound() {
    let mut doc = doc_with_pages(30);
    for p in 0..20 {
        doc.insert_image(p, image(p as u64));
    }
    doc.evict_distant_pages(0);
    for p in 0..20 {
        assert_eq!(doc.cached_image(p), Some(image(p as u64)));
    }
}

#[test]
fn eviction_keeps_the_twenty_pages_closest_to_center() {
    let mut doc = doc_with_pages(30);
    for p in 0..25 {
        doc.insert_image(p, image(p as u64));
    }
    doc.evict_distant_pages(12);

    // Pages at distance <= 9 from page 12 (3..=21, nineteen pages) must
    // all survive with their images intact.
    let mut kept: usize = 0;
    for p in 3..=21 {
        assert_eq!(doc.cached_image(p), Some(image(p as u64)));
        kept += 1;
    }
    assert_eq!(kept, 19);
    // Pages at distance >= 11 must all be gone.
    for p in [0, 1, 23, 24] {
        assert_eq!(doc.cached_image(p), None);
    }
    // Exactly one of the two distance-10 pages stays; which one is
    // unspecified.
    let two = doc.cached_image(2).is_some();
    let twenty_two = doc.cached_image(22).is_some();
    assert!(two != twenty_two);
}

#[test]
fn eviction_near_document_start_keeps_low_pages() {
    let mut doc = doc_with_pages(30);
    for p in 0..25 {
        doc.insert_image(p, image(p as u64));
    }
    doc.evict_distant_pages(0);
    // The twenty closest pages to 0 are 0..=19; 20..=24 are evicted.
    for p in 0..20 {
        assert_eq!(doc.cached_image(p), Some(image(p as u64)));
    }
    for p in 20..25 {
        assert_eq!(doc.cached_image(p), None);
    }
}

#[test]
fn eviction_with_center_past_the_cached_range_keeps_high_pages() {
    let mut doc = doc_with_pages(30);
    for p in 0..25 {
        doc.insert_image(p, image(p as u64));
    }
    doc.evict_distant_pages(29);
    // The twenty closest cached pages to 29 are 5..=24.
    for p in 0..5 {
        assert_eq!(doc.cached_image(p), None);
    }
    for p in 5..25 {
        assert_eq!(doc.cached_image(p), Some(image(p as u64)));
    }
}

#[test]
fn duplicate_shares_geometry_but_not_cache() {
    let mut doc = doc_with_pages(3);
    doc.insert_image(0, image(7));
    let copy = doc.duplicate();
    assert_eq!(copy.page_count(), 3);
    assert_eq!(copy.page_dimensions(2), (600, 800));
    assert_eq!(copy.cached_image(0), None);
    assert_eq!(doc.cached_image(0), Some(image(7)));
}
