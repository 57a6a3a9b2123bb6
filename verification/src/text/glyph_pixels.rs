//! Copying a glyph's distance-field bitmap into the RGBA pixels of an atlas.
use vstd::prelude::*;

verus! {

/// The byte of channel `c` of the atlas pixel `(x, y)`, for an atlas
/// `width` pixels wide with four bytes per pixel.
pub open spec fn pixel_byte(width: int, x: int, y: int, c: int) -> int {
    (y * width + x) * 4 + c
}

/// The atlas pixel `(x, y)` lies on the glyph placed with its top-left
/// corner at `(ox, oy)`.
pub open spec fn on_glyph(x: int, y: int, ox: int, oy: int, glyph_width: int, glyph_height: int) -> bool {
    ox <= x < ox + glyph_width && oy <= y < oy + glyph_height
}

/// Every glyph value that lands inside the atlas is present in `values`
/// (row after row, `glyph_width` values per row).
pub open spec fn glyph_values_cover(
    values_len: int,
    glyph_width: int,
    glyph_height: int,
    ox: int,
    oy: int,
    atlas_width: int,
    atlas_height: int,
) -> bool {
    forall|x: int, y: int|
        0 <= x < glyph_width && 0 <= y < glyph_height && ox + x < atlas_width && oy + y
            < atlas_height ==> #[trigger] (y * glyph_width + x) < values_len
}

proof fn lemma_pixel_byte_bounds(width: int, height: int, x: int, y: int, c: int)
    requires
        0 <= x < width,
        0 <= y < height,
        0 <= c < 4,
    ensures
        0 <= y * width,
        y * width + x < width * height,
        0 <= pixel_byte(width, x, y, c) < width * height * 4,
{
    assert(0 <= y * width) by (nonlinear_arith)
        requires
            0 <= y,
            0 <= width,
    ;
    assert(y * width + x < width * height) by (nonlinear_arith)
        requires
            0 <= x < width,
            0 <= y < height,
    ;
}

proof fn lemma_pixel_byte_injective(
    width: int,
    x1: int,
    y1: int,
    c1: int,
    x2: int,
    y2: int,
    c2: int,
)
    requires
        0 <= x1 < width,
        0 <= x2 < width,
        0 <= y1,
        0 <= y2,
        0 <= c1 < 4,
        0 <= c2 < 4,
        pixel_byte(width, x1, y1, c1) == pixel_byte(width, x2, y2, c2),
    ensures
        x1 == x2 && y1 == y2 && c1 == c2,
{
    let p1 = y1 * width + x1;
    let p2 = y2 * width + x2;
    assert(p1 == p2 && c1 == c2);
    assert(y1 == y2) by (nonlinear_arith)
        requires
            0 <= x1 < width,
            0 <= x2 < width,
            0 <= y1,
            0 <= y2,
            y1 * width + x1 == y2 * width + x2,
    {
        if y1 < y2 {
            assert(y1 * width + width <= y2 * width);
        } else if y2 < y1 {
            assert(y2 * width + width <= y1 * width);
        }
    }
}

/// The atlas pixels are stored row after row, four bytes per pixel: each
/// channel of each pixel has a byte of its own inside the buffer, the
/// channels of a pixel are adjacent, the next pixel of a row follows four
/// bytes later and the pixel below lies one row (`4 * width` bytes) later.
pub proof fn atlas_pixels_are_row_major_rgba(
    width: int,
    height: int,
    x1: int,
    y1: int,
    c1: int,
    x2: int,
    y2: int,
    c2: int,
)
    requires
        0 <= x1 < width && 0 <= y1 < height && 0 <= c1 < 4,
        0 <= x2 < width && 0 <= y2 < height && 0 <= c2 < 4,
    ensures
        0 <= pixel_byte(width, x1, y1, c1) < width * height * 4,
        pixel_byte(width, x1, y1, c1) == pixel_byte(width, x2, y2, c2) ==> x1 == x2 && y1 == y2 && c1 == c2,
        c1 + 1 < 4 ==> pixel_byte(width, x1, y1, c1 + 1) == pixel_byte(width, x1, y1, c1) + 1,
        pixel_byte(width, x1 + 1, y1, c1) == pixel_byte(width, x1, y1, c1) + 4,
        pixel_byte(width, x1, y1 + 1, c1) == pixel_byte(width, x1, y1, c1) + 4 * width,
{
    lemma_pixel_byte_bounds(width, height, x1, y1, c1);
    if pixel_byte(width, x1, y1, c1) == pixel_byte(width, x2, y2, c2) {
        lemma_pixel_byte_injective(width, x1, y1, c1, x2, y2, c2);
    }
    assert((y1 + 1) * width == y1 * width + width) by (nonlinear_arith);
}

/// Copies a glyph's bitmap into the atlas pixels `data`: each glyph value
/// `v` becomes the pixel `(v, v, v, 255)` at the glyph's position, glyph
/// pixels that fall outside the atlas are left out, and every other byte
/// stays as it was.
pub fn copy_glyph_pixels(
    data: &mut Vec<u8>,
    atlas_width: u32,
    atlas_height: u32,
    values: &[u8],
    glyph_width: usize,
    glyph_height: usize,
    offset_x: u32,
    offset_y: u32,
)
    requires
        old(data).len() == atlas_width * atlas_height * 4,
        glyph_values_cover(
            values.len() as int,
            glyph_width as int,
            glyph_height as int,
            offset_x as int,
            offset_y as int,
            atlas_width as int,
            atlas_height as int,
        ),
        offset_x + glyph_width <= usize::MAX,
        offset_y + glyph_height <= usize::MAX,
    ensures
        final(data).len() == old(data).len(),
        forall|x: int, y: int, c: int|
            0 <= x < atlas_width && 0 <= y < atlas_height && 0 <= c < 4
                ==> #[trigger] final(data)@[pixel_byte(atlas_width as int, x, y, c)] == if on_glyph(
                x,
                y,
                offset_x as int,
                offset_y as int,
                glyph_width as int,
                glyph_height as int,
            ) {
                if c == 3 {
                    255u8
                } else {
                    values@[(y - offset_y) * glyph_width + (x - offset_x)]
                }
            } else {
                old(data)@[pixel_byte(atlas_width as int, x, y, c)]
            },
{
    let ghost aw = atlas_width as int;
    let ghost ah = atlas_height as int;
    let ghost ox = offset_x as int;
    let ghost oy = offset_y as int;
    let ghost gw = glyph_width as int;
    let ghost gh = glyph_height as int;
    let ghost initial = data@;
    let aw_usize = atlas_width as usize;
    let ah_usize = atlas_height as usize;
    let mut gy: usize = 0;
    while gy < glyph_height
        invariant
            gy <= glyph_height,
            data@.len() == initial.len(),
            initial.len() == aw * ah * 4,
            aw == atlas_width,
            ah == atlas_height,
            aw_usize == atlas_width,
            ah_usize == atlas_height,
            ox == offset_x,
            oy == offset_y,
            gw == glyph_width,
            gh == glyph_height,
            glyph_values_cover(values.len() as int, gw, gh, ox, oy, aw, ah),
            offset_x + glyph_width <= usize::MAX,
            offset_y + glyph_height <= usize::MAX,
            forall|x: int, y: int, c: int|
                0 <= x < aw && 0 <= y < ah && 0 <= c < 4 ==> #[trigger] data@[pixel_byte(
                    aw,
                    x,
                    y,
                    c,
                )] == if on_glyph(x, y, ox, oy, gw, gy as int) {
                    if c == 3 {
                        255u8
                    } else {
                        values@[(y - oy) * gw + (x - ox)]
                    }
                } else {
                    initial[pixel_byte(aw, x, y, c)]
                },
        decreases glyph_height - gy,
    {
        let mut gx: usize = 0;
        while gx < glyph_width
            invariant
                gx <= glyph_width,
                gy < glyph_height,
                data@.len() == initial.len(),
                initial.len() == aw * ah * 4,
                aw == atlas_width,
                ah == atlas_height,
                aw_usize == atlas_width,
                ah_usize == atlas_height,
                ox == offset_x,
                oy == offset_y,
                gw == glyph_width,
                gh == glyph_height,
                glyph_values_cover(values.len() as int, gw, gh, ox, oy, aw, ah),
                offset_x + glyph_width <= usize::MAX,
                offset_y + glyph_height <= usize::MAX,
                forall|x: int, y: int, c: int|
                    0 <= x < aw && 0 <= y < ah && 0 <= c < 4 ==> #[trigger] data@[pixel_byte(
                        aw,
                        x,
                        y,
                        c,
                    )] == if on_glyph(x, y, ox, oy, gw, gy as int) || (y == oy + gy && ox <= x
                        < ox + gx) {
                        if c == 3 {
                            255u8
                        } else {
                            values@[(y - oy) * gw + (x - ox)]
                        }
                    } else {
                        initial[pixel_byte(aw, x, y, c)]
                    },
            decreases glyph_width - gx,
        {
            let ax: usize = offset_x as usize + gx;
            let ay: usize = offset_y as usize + gy;
            if ax < aw_usize && ay < ah_usize {
                let data_len = data.len();
                proof {
                    assert((gy as int) * gw + gx < values.len()) by {
                        assert(0 <= gx < gw && 0 <= gy < gh && ox + gx < aw && oy + gy < ah);
                    }
                    lemma_pixel_byte_bounds(aw, ah, ax as int, ay as int, 3);
                    lemma_pixel_byte_bounds(aw, ah, ax as int, ay as int, 0);
                    assert(data@.len() == data_len);
                    assert((ay as int) * (aw_usize as int) == (ay as int) * aw);
                    assert(((ay as int) * (aw_usize as int) + ax) * 4 + 3 < data@.len());
                }
                let v = values[gy * glyph_width + gx];
                let idx: usize = (ay * aw_usize + ax) * 4;
                let ghost before = data@;
                data.set(idx, v);
                data.set(idx + 1, v);
                data.set(idx + 2, v);
                data.set(idx + 3, 255);
                proof {
                    assert forall|x: int, y: int, c: int|
                        0 <= x < aw && 0 <= y < ah && 0 <= c < 4 implies #[trigger] data@[pixel_byte(
                        aw,
                        x,
                        y,
                        c,
                    )] == if on_glyph(x, y, ox, oy, gw, gy as int) || (y == oy + gy && ox <= x
                        < ox + gx + 1) {
                        if c == 3 {
                            255u8
                        } else {
                            values@[(y - oy) * gw + (x - ox)]
                        }
                    } else {
                        initial[pixel_byte(aw, x, y, c)]
                    } by {
                        let k = pixel_byte(aw, x, y, c);
                        lemma_pixel_byte_bounds(aw, ah, x, y, c);
                        if x == ax && y == ay {
                            assert(k == idx + c);
                        } else {
                            if k == idx || k == idx + 1 || k == idx + 2 || k == idx + 3 {
                                let c2 = k - idx;
                                assert(pixel_byte(aw, ax as int, ay as int, c2) == k);
                                lemma_pixel_byte_injective(aw, x, y, c, ax as int, ay as int, c2);
                            }
                            assert(data@[k] == before[k]);
                        }
                    }
                }
            } else {
                proof {
                    assert forall|x: int, y: int, c: int|
                        0 <= x < aw && 0 <= y < ah && 0 <= c < 4 implies #[trigger] data@[pixel_byte(
                        aw,
                        x,
                        y,
                        c,
                    )] == if on_glyph(x, y, ox, oy, gw, gy as int) || (y == oy + gy && ox <= x
                        < ox + gx + 1) {
                        if c == 3 {
                            255u8
                        } else {
                            values@[(y - oy) * gw + (x - ox)]
                        }
                    } else {
                        initial[pixel_byte(aw, x, y, c)]
                    } by {
                        if y == oy + gy && x == ox + gx {
                            assert(false);
                        }
                    }
                }
            }
            gx = gx + 1;
        }
        proof {
            assert forall|x: int, y: int, c: int|
                0 <= x < aw && 0 <= y < ah && 0 <= c < 4 implies #[trigger] data@[pixel_byte(
                aw,
                x,
                y,
                c,
            )] == if on_glyph(x, y, ox, oy, gw, gy + 1) {
                if c == 3 {
                    255u8
                } else {
                    values@[(y - oy) * gw + (x - ox)]
                }
            } else {
                initial[pixel_byte(aw, x, y, c)]
            } by {
                assert(on_glyph(x, y, ox, oy, gw, gy + 1) == (on_glyph(x, y, ox, oy, gw, gy as int)
                    || (y == oy + gy && ox <= x < ox + gx)));
            }
        }
        gy = gy + 1;
    }
}

} // verus!
