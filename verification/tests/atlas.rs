use rabitty::atlas::{
    ATLAS_INITIAL_SIZE, ATLAS_MAX_SIZE, AtlasAllocator, AtlasPacker, AtlasPlacement, GlyphStore,
    align_to, instance_capacity, pad_glyph_rows,
};

#[test]
fn packer_places_boxes_left_to_right() {
    let mut p = AtlasPacker::new(100);
    assert_eq!(p.allocate(30, 10), Some((0, 0)));
    assert_eq!(p.allocate(30, 12), Some((30, 0)));
    assert_eq!(p.allocate(30, 8), Some((60, 0)));
}

#[test]
fn packer_wraps_to_new_row_when_width_runs_out() {
    let mut p = AtlasPacker::new(100);
    assert_eq!(p.allocate(60, 10), Some((0, 0)));
    // 60 + 60 exceeds the row: wrap below the tallest box so far
    assert_eq!(p.allocate(60, 20), Some((0, 10)));
    assert_eq!(p.allocate(40, 5), Some((60, 10)));
}

#[test]
fn packer_reports_no_space_when_height_runs_out() {
    let mut p = AtlasPacker::new(100);
    assert_eq!(p.allocate(60, 10), Some((0, 0)));
    assert_eq!(p.allocate(60, 20), Some((0, 10)));
    // taller than the remaining vertical space at this size
    assert_eq!(p.allocate(10, 95), None);
    // wider than the atlas side
    assert_eq!(p.allocate(200, 5), None);
}

#[test]
fn packer_reset_forgets_placements() {
    let mut p = AtlasPacker::new(100);
    assert_eq!(p.allocate(60, 10), Some((0, 0)));
    p.reset(100);
    assert_eq!(p.allocate(60, 10), Some((0, 0)));
}

#[test]
fn failed_allocation_doubles_the_atlas() {
    let mut a = AtlasAllocator::new(64, 256);
    // padded to 34x34, this fits the fresh 64-sided atlas
    assert_eq!(a.allocate_padded(32, 32), AtlasPlacement::Placed { x: 0, y: 0 });
    assert_eq!(a.size(), 64);
    // padded to 62x62 this wraps, runs out of height, and forces growth
    match a.allocate_padded(60, 60) {
        AtlasPlacement::Rebuilt { new_size, x, y } => {
            assert_eq!(new_size, 128);
            assert_eq!((x, y), (0, 0));
        }
        other => panic!("expected growth, got {:?}", other),
    }
    assert_eq!(a.size(), 128);
}

#[test]
fn growth_is_capped_at_the_maximum() {
    let mut a = AtlasAllocator::new(96, 128);
    match a.allocate_padded(100, 100) {
        AtlasPlacement::Rebuilt { new_size, .. } => assert_eq!(new_size, 128),
        other => panic!("expected growth, got {:?}", other),
    }
    assert_eq!(a.size(), 128);
}

#[test]
fn at_maximum_size_failures_skip_instead_of_growing() {
    let mut a = AtlasAllocator::new(128, 128);
    assert_eq!(a.allocate_padded(200, 10), AtlasPlacement::Skipped);
    assert_eq!(a.allocate_padded(200, 10), AtlasPlacement::Skipped);
    assert_eq!(a.allocate_padded(126, 300), AtlasPlacement::Skipped);
    assert_eq!(a.size(), 128);
}

#[test]
fn align_to_rounds_up_to_the_alignment() {
    assert_eq!(align_to(0, 256), 0);
    assert_eq!(align_to(1, 256), 256);
    assert_eq!(align_to(256, 256), 256);
    assert_eq!(align_to(257, 256), 512);
    assert_eq!(align_to(300, 4), 300);
    assert_eq!(align_to(301, 4), 304);
    assert_eq!(align_to(123, 0), 123);
}

#[test]
fn pad_glyph_rows_zero_fills_each_row() {
    let pixels = vec![1u8, 2, 3, 4, 5, 6];
    let padded = pad_glyph_rows(&pixels, 3, 2, 8);
    assert_eq!(padded.len(), 16);
    assert_eq!(&padded[0..3], &[1, 2, 3]);
    assert_eq!(&padded[3..8], &[0, 0, 0, 0, 0]);
    assert_eq!(&padded[8..11], &[4, 5, 6]);
    assert_eq!(&padded[11..16], &[0, 0, 0, 0, 0]);
}

#[test]
fn instance_capacity_grows_to_the_next_power_of_two() {
    assert_eq!(instance_capacity(10, 64), 64);
    assert_eq!(instance_capacity(64, 64), 64);
    assert_eq!(instance_capacity(65, 64), 128);
    assert_eq!(instance_capacity(1000, 64), 1024);
    assert_eq!(instance_capacity(100, 1024), 1024);
    assert_eq!(instance_capacity(3, 0), 64);
}

#[test]
fn glyph_store_caches_and_looks_up() {
    let mut store = GlyphStore::new(14);
    assert!(store.lookup('A').is_none());
    let outcome = store.insert_rasterized('A', 10, 12, 1, -2, 9);
    let info = outcome.stored.expect("glyph fits in a fresh atlas");
    assert_eq!(outcome.rebuilt_size, None);
    assert_eq!((info.width, info.height), (10, 12));
    assert_eq!((info.bearing_x, info.bearing_y), (1, -2));
    assert_eq!(info.advance, 9);
    // placed behind the one-pixel bleed margin
    assert_eq!((info.x, info.y), (1, 1));
    assert_eq!(store.lookup('A'), Some(info));
    assert!(store.lookup('B').is_none());
}

#[test]
fn glyph_store_blank_entries_keep_only_the_advance() {
    let mut store = GlyphStore::new(14);
    let info = store.insert_blank(' ', 7);
    assert_eq!((info.width, info.height), (0, 0));
    assert_eq!(info.advance, 7);
    assert_eq!(store.lookup(' '), Some(info));
}

#[test]
fn font_size_change_clears_the_cache() {
    let mut store = GlyphStore::new(14);
    store.insert_rasterized('A', 10, 12, 0, 0, 9);
    store.set_font_px(14);
    assert!(store.lookup('A').is_some());
    store.set_font_px(20);
    assert!(store.lookup('A').is_none());
}

#[test]
fn atlas_constants_match_the_render_path() {
    assert_eq!(ATLAS_INITIAL_SIZE, 2048);
    assert_eq!(ATLAS_MAX_SIZE, 4096);
    let store = GlyphStore::new(14);
    assert_eq!(store.atlas.packer.size, ATLAS_INITIAL_SIZE);
}
