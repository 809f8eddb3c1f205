use simpliview::document::Document;
use simpliview::layout::PageData;

fn five_pages() -> Vec<PageData> {
    vec![PageData { width: 600, height: 800 }; 5]
}

#[test]
fn five_page_layout_at_full_zoom() {
    let doc = Document::new_pdf(five_pages());
    let layout = doc.compute_layout(1000, 0);
    assert_eq!(layout.page_tops, vec![0, 820, 1640, 2460, 3280]);
    assert_eq!(layout.total_height, 4080);
    assert_eq!(layout.max_width, 600);
    assert_eq!(layout.page_sizes, vec![(600, 800); 5]);
}

#[test]
fn layout_is_deterministic() {
    let doc = Document::new_pdf(five_pages());
    let a = doc.compute_layout(675, 90);
    let b = doc.compute_layout(675, 90);
    assert_eq!(a.page_tops, b.page_tops);
    assert_eq!(a.page_sizes, b.page_sizes);
    assert_eq!(a.total_height, b.total_height);
    assert_eq!(a.max_width, b.max_width);
}

#[test]
fn rotation_swaps_page_footprint() {
    let doc = Document::new_pdf(vec![PageData { width: 600, height: 800 }]);
    let layout = doc.compute_layout(1000, 90);
    assert_eq!(layout.page_sizes, vec![(800, 600)]);
    assert_eq!(layout.total_height, 600);
    assert_eq!(layout.max_width, 800);
    let layout = doc.compute_layout(1000, 270);
    assert_eq!(layout.page_sizes, vec![(800, 600)]);
    let layout = doc.compute_layout(1000, 180);
    assert_eq!(layout.page_sizes, vec![(600, 800)]);
}

#[test]
fn scaling_truncates_page_sizes_and_rounds_gap() {
    let doc = Document::new_pdf(vec![
        PageData { width: 333, height: 777 },
        PageData { width: 333, height: 777 },
    ]);
    // 333 * 0.675 = 224.775 and 777 * 0.675 = 524.475, truncated toward zero;
    // the gap 20 * 0.675 = 13.5 rounds to 14.
    let layout = doc.compute_layout(675, 0);
    assert_eq!(layout.page_sizes, vec![(224, 524); 2]);
    assert_eq!(layout.page_tops, vec![0, 524 + 14]);
    assert_eq!(layout.total_height, 524 + 14 + 524);
}

#[test]
fn empty_document_layout_is_degenerate() {
    let doc = Document::new_pdf(Vec::new());
    let layout = doc.compute_layout(1000, 0);
    assert_eq!(layout.page_tops.len(), 0);
    assert_eq!(layout.page_sizes.len(), 0);
    assert_eq!(layout.total_height, 0);
    assert_eq!(layout.max_width, 0);
    assert_eq!(doc.find_visible_pages(&layout, 0, 800), (0, 0));
}

#[test]
fn visible_range_on_five_page_layout() {
    let doc = Document::new_pdf(five_pages());
    let layout = doc.compute_layout(1000, 0);
    // Page 1 spans 820..1620 and page 2 spans 1640..2440, both overlapping
    // [900, 1700); page 3 starts at 2460 >= 1700 and is excluded.
    assert_eq!(doc.find_visible_pages(&layout, 900, 800), (1, 3));
}

#[test]
fn visible_range_edges_are_half_open() {
    let doc = Document::new_pdf(five_pages());
    let layout = doc.compute_layout(1000, 0);
    // Page 0 ends at 800; a scroll offset of exactly 800 excludes it.
    assert_eq!(doc.find_visible_pages(&layout, 800, 20), (1, 1));
    // A page starting exactly at the viewport bottom is excluded:
    // viewport [0, 820) excludes page 1, which starts at 820.
    assert_eq!(doc.find_visible_pages(&layout, 0, 820), (0, 1));
    // One pixel more includes it.
    assert_eq!(doc.find_visible_pages(&layout, 0, 821), (0, 2));
}

#[test]
fn visible_range_at_document_start_and_end() {
    let doc = Document::new_pdf(five_pages());
    let layout = doc.compute_layout(1000, 0);
    assert_eq!(doc.find_visible_pages(&layout, 0, 800), (0, 1));
    // Clamped bottom position: scroll 3280, viewport 800 sees only page 4.
    assert_eq!(doc.find_visible_pages(&layout, 3280, 800), (4, 5));
}

#[test]
fn document_accessors() {
    let doc = Document::new_pdf(vec![
        PageData { width: 600, height: 800 },
        PageData { width: 500, height: 700 },
    ]);
    assert_eq!(doc.page_count(), 2);
    assert_eq!(doc.dimensions(), (600, 800));
    assert_eq!(doc.page_dimensions(1), (500, 700));
    assert_eq!(doc.page_dimensions(2), (0, 0));
    let empty = Document::new_pdf(Vec::new());
    assert_eq!(empty.dimensions(), (0, 0));
}

#[test]
fn image_document_has_one_page() {
    let doc = Document::new_image(1024, 768);
    assert_eq!(doc.page_count(), 1);
    assert_eq!(doc.dimensions(), (1024, 768));
}
