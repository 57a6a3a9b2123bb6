use orbital::text::atlas::ShelfPacker;
use orbital::text::glyph_pixels::copy_glyph_pixels;

#[test]
fn shelf_packer_basic() {
    let mut packer = ShelfPacker::new(256, 256);

    let pos1 = packer.allocate(32, 32);
    assert_eq!(pos1, Some((0, 0)));

    let pos2 = packer.allocate(32, 32);
    assert_eq!(pos2, Some((32, 0)));

    let pos3 = packer.allocate(32, 32);
    assert_eq!(pos3, Some((64, 0)));
}

#[test]
fn shelf_packer_row_wrap() {
    let mut packer = ShelfPacker::new(100, 100);

    // Fill first row
    let _ = packer.allocate(50, 20);
    let _ = packer.allocate(50, 20);

    // Next allocation should wrap to new row
    let pos = packer.allocate(30, 30);
    assert_eq!(pos, Some((0, 20)));
}

// --- Further cases -----------------------------------------------------------

#[test]
fn shelf_packer_full_atlas_refuses() {
    let mut packer = ShelfPacker::new(64, 64);
    assert_eq!(packer.allocate(64, 40), Some((0, 0)));
    // The next row would start at 40 and end at 80 > 64.
    assert_eq!(packer.allocate(10, 30), None);
    // A refused request still moved the packer to a new row; a small slot fits.
    assert_eq!(packer.allocate(10, 20), Some((0, 40)));
}

#[test]
fn shelf_packer_row_height_is_tallest_slot() {
    let mut packer = ShelfPacker::new(100, 100);
    assert_eq!(packer.allocate(40, 10), Some((0, 0)));
    assert_eq!(packer.allocate(40, 25), Some((40, 0)));
    assert_eq!(packer.allocate(40, 5), Some((0, 25)));
}

#[test]
fn shelf_packer_refuses_a_glyph_wider_than_the_atlas() {
    let mut p = ShelfPacker::new(100, 100);
    assert_eq!(p.allocate(150, 10), None);
    // Nothing moved: the next glyph still goes to the origin.
    assert_eq!(p.allocate(10, 10), Some((0, 0)));
}

#[test]
fn shelf_packer_slots_never_overlap() {
    let mut packer = ShelfPacker::new(64, 64);
    let sizes = [(20u32, 10u32), (30, 15), (25, 5), (40, 20), (10, 30), (64, 4), (5, 5)];
    let mut placed: Vec<(u32, u32, u32, u32)> = Vec::new();
    for (w, h) in sizes {
        if let Some((x, y)) = packer.allocate(w, h) {
            for &(px, py, pw, ph) in &placed {
                let disjoint = x + w <= px || px + pw <= x || y + h <= py || py + ph <= y;
                assert!(disjoint, "({x},{y},{w},{h}) overlaps ({px},{py},{pw},{ph})");
            }
            placed.push((x, y, w, h));
        }
    }
    assert!(placed.len() >= 5);
}

#[test]
fn glyph_pixels_are_copied_and_clipped() {
    let (w, h) = (4u32, 3u32);
    let mut data = vec![7u8; (w * h * 4) as usize];
    // A 2x2 glyph at (3, 1): its right column falls outside the atlas.
    copy_glyph_pixels(&mut data, w, h, &[10, 20, 30, 40], 2, 2, 3, 1);
    let px = |x: usize, y: usize| -> [u8; 4] {
        let i = (y * w as usize + x) * 4;
        [data[i], data[i + 1], data[i + 2], data[i + 3]]
    };
    assert_eq!(px(3, 1), [10, 10, 10, 255]);
    assert_eq!(px(3, 2), [30, 30, 30, 255]);
    assert_eq!(px(2, 1), [7, 7, 7, 7]);
    assert_eq!(px(3, 0), [7, 7, 7, 7]);
    assert_eq!(data.len(), 48);
    let changed = data.iter().filter(|&&b| b != 7).count();
    assert_eq!(changed, 8);
}

#[test]
fn shelf_packer_reports_u32_overflow() {
    let mut packer = ShelfPacker::new(u32::MAX, u32::MAX);
    assert!(packer.fits_u32(10, 10));
    assert!(packer.fits_u32(u32::MAX, 1));
    assert_eq!(packer.allocate(u32::MAX - 1, 5), Some((0, 0)));
    assert!(!packer.fits_u32(2, 1));
    assert!(packer.fits_u32(1, 1));
}
