use vstd::prelude::*;
use vstd::arithmetic::div_mod::lemma_fundamental_div_mod_converse;

verus! {

/// Side of the square cell that each rune occupies in the atlas, in pixels.
pub const SYMBOL_CELL: u32 = 64;

/// Number of pixels in one rune cell (`SYMBOL_CELL * SYMBOL_CELL`).
pub const CELL_PIXELS: usize = 4096;

/// Bytes per RGBA pixel.
pub const BYTES_PER_PIXEL: u32 = 4;

/// Width in pixels of an atlas that holds `count` runes side by side.
pub open spec fn atlas_width(count: int) -> int {
    64 * count
}

/// Coverage (alpha) of atlas pixel `p`, counted row-major over the whole atlas:
/// the rune of its column's cell, at the same row and column inside that cell.
pub open spec fn atlas_alpha(coverage: Seq<Vec<u8>>, p: int) -> u8 {
    let w = atlas_width(coverage.len() as int);
    let row = p / w;
    let col = p % w;
    coverage[col / 64]@[row * 64 + col % 64]
}

/// Byte `i` of the RGBA atlas: white in every colour channel, the rune's
/// coverage in the alpha channel.
pub open spec fn atlas_byte(coverage: Seq<Vec<u8>>, i: int) -> u8 {
    if i % 4 == 3 {
        atlas_alpha(coverage, i / 4)
    } else {
        255u8
    }
}

/// Each rune's coverage is one row-major cell of `CELL_PIXELS` bytes.
pub open spec fn coverage_well_formed(coverage: Seq<Vec<u8>>) -> bool {
    forall|g: int| 0 <= g < coverage.len() ==> (#[trigger] coverage[g])@.len() == CELL_PIXELS
}

/// Lays out the runes' coverage cells side by side in one RGBA texture of
/// `SYMBOL_CELL * count` by `SYMBOL_CELL` pixels, rows top to bottom; returns
/// the bytes, the width and the height.
pub fn build_atlas(coverage: &Vec<Vec<u8>>) -> (r: (Vec<u8>, u32, u32))
    requires
        coverage_well_formed(coverage@),
        coverage.len() * 16384 <= u32::MAX,
    ensures
        r.1 == atlas_width(coverage.len() as int),
        r.1 == 64 * coverage.len(),
        r.2 == SYMBOL_CELL,
        r.2 == 64,
        r.0.len() == r.1 * r.2 * BYTES_PER_PIXEL,
        forall|i: int| 0 <= i < r.0.len() ==> r.0[i] == atlas_byte(coverage@, i),
        forall|i: int| 0 <= i < r.0.len() && i % 4 != 3 ==> r.0[i] == 255,
        forall|i: int|
            0 <= i < r.0.len() && i % 4 == 3 ==> r.0[i] == coverage@[((i / 4) % (r.1 as int))
                / 64]@[((i / 4) / (r.1 as int)) * 64 + ((i / 4) % (r.1 as int)) % 64],
{
    let count = coverage.len() as u32;
    let w = SYMBOL_CELL * count;
    let h = SYMBOL_CELL;
    let mut data: Vec<u8> = Vec::new();
    for y in 0..h
        invariant
            count == coverage.len(),
            h == SYMBOL_CELL,
            w == atlas_width(count as int),
            w * 256 <= u32::MAX,
            coverage_well_formed(coverage@),
            data.len() == 4 * (y * w),
            forall|i: int| 0 <= i < data.len() ==> data[i] == atlas_byte(coverage@, i),
    {
        assert(y * w + w <= 64 * w) by (nonlinear_arith)
            requires
                y < 64,
        ;
        for col in 0..w
            invariant
                count == coverage.len(),
                w == atlas_width(count as int),
                w * 256 <= u32::MAX,
                y < 64,
                coverage_well_formed(coverage@),
                y * w + w <= 64 * w,
                data.len() == 4 * (y * w + col),
                forall|i: int| 0 <= i < data.len() ==> data[i] == atlas_byte(coverage@, i),
        {
            let g = (col / SYMBOL_CELL) as usize;
            let x = col % SYMBOL_CELL;
            let a = coverage[g][(y * SYMBOL_CELL + x) as usize];
            let ghost p = y * w + col;
            proof {
                lemma_fundamental_div_mod_converse(p, w as int, y as int, col as int);
                assert(a == atlas_alpha(coverage@, p));
            }
            let ghost before = data@;
            data.push(255u8);
            data.push(255u8);
            data.push(255u8);
            data.push(a);
            assert forall|i: int| 0 <= i < data.len() implies data[i] == atlas_byte(coverage@, i) by {
                if i >= before.len() {
                    assert(i / 4 == p);
                }
            }
        }
        assert(4 * (y * w + w) == 4 * ((y + 1) * w)) by (nonlinear_arith);
    }
    assert(data.len() == w * h * BYTES_PER_PIXEL) by (nonlinear_arith)
        requires
            data.len() == 4 * (64 * w),
            h == 64,
    ;
    assert forall|i: int| 0 <= i < data.len() && i % 4 != 3 implies data[i] == 255 by {
        assert(data[i] == atlas_byte(coverage@, i));
    }
    (data, w, h)
}

/// Pixel (`x`, `y`) of rune `g` sits at column `g * SYMBOL_CELL + x` of row `y`,
/// so the alpha byte of that atlas pixel is the rune's own coverage there.
pub proof fn lemma_rune_pixel_location(coverage: Seq<Vec<u8>>, g: int, x: int, y: int)
    requires
        0 <= g < coverage.len(),
        0 <= x < 64,
        0 <= y < 64,
    ensures
        atlas_byte(
            coverage,
            4 * (y * atlas_width(coverage.len() as int) + 64 * g + x) + 3,
        ) == coverage[g]@[y * 64 + x],
{
    let w = atlas_width(coverage.len() as int);
    let p = y * w + 64 * g + x;
    assert(64 * g + x < w) by (nonlinear_arith)
        requires
            g < coverage.len(),
            x < 64,
            w == 64 * coverage.len(),
    ;
    lemma_fundamental_div_mod_converse(p, w, y, 64 * g + x);
    lemma_fundamental_div_mod_converse(64 * g + x, 64, g, x);
    assert((4 * p + 3) / 4 == p);
    assert((4 * p + 3) % 4 == 3);
}


/// Every colour byte of every rune's cell is white: for rune `g` and pixel
/// (`x`, `y`) of its cell, the red, green and blue bytes of atlas pixel
/// `y * width + 64 * g + x` are 255, so the shader tints every rune with
/// the particle's own colour.
pub proof fn lemma_rune_colour_white(coverage: Seq<Vec<u8>>, g: int, x: int, y: int, c: int)
    requires
        0 <= g < coverage.len(),
        0 <= x < 64,
        0 <= y < 64,
        0 <= c < 3,
    ensures
        atlas_byte(coverage, 4 * (y * (64 * coverage.len()) + 64 * g + x) + c) == 255,
{
    let p = y * (64 * coverage.len()) + 64 * g + x;
    assert((4 * p + c) % 4 == c);
}

/// The same layout read off any byte sequence that meets `build_atlas`'s
/// postcondition: rune `g`'s pixel (`x`, `y`) is white with the rune's own
/// coverage as alpha.
pub proof fn lemma_atlas_rune_pixel(coverage: Seq<Vec<u8>>, data: Seq<u8>, g: int, x: int, y: int)
    requires
        data.len() == 64 * coverage.len() * 64 * 4,
        forall|i: int| 0 <= i < data.len() ==> data[i] == atlas_byte(coverage, i),
        0 <= g < coverage.len(),
        0 <= x < 64,
        0 <= y < 64,
    ensures
        data[4 * (y * (64 * coverage.len()) + 64 * g + x)] == 255,
        data[4 * (y * (64 * coverage.len()) + 64 * g + x) + 1] == 255,
        data[4 * (y * (64 * coverage.len()) + 64 * g + x) + 2] == 255,
        data[4 * (y * (64 * coverage.len()) + 64 * g + x) + 3] == coverage[g]@[y * 64 + x],
{
    let w = 64 * coverage.len();
    let p = y * w + 64 * g + x;
    assert(p < w * 64) by (nonlinear_arith)
        requires
            p == y * w + 64 * g + x,
            y < 64,
            g < coverage.len(),
            x < 64,
            w == 64 * coverage.len(),
    ;
    assert(4 * p + 3 < data.len()) by (nonlinear_arith)
        requires
            p < w * 64,
            data.len() == w * 64 * 4,
    ;
    lemma_rune_colour_white(coverage, g, x, y, 0);
    lemma_rune_colour_white(coverage, g, x, y, 1);
    lemma_rune_colour_white(coverage, g, x, y, 2);
    lemma_rune_pixel_location(coverage, g, x, y);
    assert(data[4 * p] == atlas_byte(coverage, 4 * p));
    assert(data[4 * p + 1] == atlas_byte(coverage, 4 * p + 1));
    assert(data[4 * p + 2] == atlas_byte(coverage, 4 * p + 2));
    assert(data[4 * p + 3] == atlas_byte(coverage, 4 * p + 3));
}

} // verus!
