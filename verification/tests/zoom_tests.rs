use simpliview::zoom::{clamp_zoom, zoom_in_level, zoom_out_level, MAX_ZOOM, MIN_ZOOM};

#[test]
fn zoom_in_from_two_thirds_climbs_the_table_and_saturates() {
    // Starting from 67%, repeated zoom-in must strictly increase through
    // the table and saturate at 1000% without exceeding it.
    let mut z: u32 = 670;
    let mut seen = Vec::new();
    for _ in 0..40 {
        let next = zoom_in_level(z);
        assert!(next <= MAX_ZOOM);
        if z < MAX_ZOOM {
            assert!(next > z);
        } else {
            assert_eq!(next, MAX_ZOOM);
        }
        seen.push(next);
        z = next;
    }
    assert_eq!(z, MAX_ZOOM);
    assert_eq!(
        &seen[..15],
        &[750, 850, 1000, 1100, 1250, 1400, 1750, 2000, 2500, 3000, 4000, 5000, 6000, 8000, 10000]
    );
}

#[test]
fn zoom_in_picks_smallest_entry_above_ten_percent_growth() {
    assert_eq!(zoom_in_level(1000), 1100);
    assert_eq!(zoom_in_level(100), 125);
    assert_eq!(zoom_in_level(9000), 10000);
    assert_eq!(zoom_in_level(10000), 10000);
}

#[test]
fn zoom_out_picks_largest_entry_below_ten_percent_shrink() {
    assert_eq!(zoom_out_level(1000), 850);
    assert_eq!(zoom_out_level(110), 100);
    assert_eq!(zoom_out_level(100), 100);
    assert_eq!(zoom_out_level(10000), 8000);
}

#[test]
fn zoom_out_descends_to_the_minimum_and_saturates() {
    let mut z: u32 = 10000;
    for _ in 0..40 {
        let next = zoom_out_level(z);
        assert!(next >= MIN_ZOOM);
        if z > MIN_ZOOM {
            assert!(next < z);
        } else {
            assert_eq!(next, MIN_ZOOM);
        }
        z = next;
    }
    assert_eq!(z, MIN_ZOOM);
}

#[test]
fn clamp_zoom_limits() {
    assert_eq!(clamp_zoom(5), 100);
    assert_eq!(clamp_zoom(100), 100);
    assert_eq!(clamp_zoom(4321), 4321);
    assert_eq!(clamp_zoom(10000), 10000);
    assert_eq!(clamp_zoom(123456789), 10000);
}
