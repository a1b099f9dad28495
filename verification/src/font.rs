//! Packed bitmap font tables: one unsigned integer per pixel row of a
//! glyph, one bit per column, most significant bit leftmost.

use vstd::prelude::*;
use crate::jaso::{CHO_GROUP, CHO_GROUPS, JONG_GROUP, JONG_GROUPS, MID_GROUP, MID_GROUPS};
use crate::pixels::{image_alpha, image_dims, img_dimensions};
use crate::table::{image2hex, lemma_mask_fits, packed_region};
use crate::FontError;

verus! {

/// Pixel height of every glyph cell, ASCII and Hangul alike.
pub const CELL_HEIGHT: u32 = 16;

/// A packed 8x16 bitmap font for ASCII, indexed directly by character
/// code; each glyph is 16 row masks, bit 7 marking the leftmost column.
#[derive(Debug)]
pub struct AsciiFonts {
    pub fonts: Vec<Vec<u32>>,
}

/// Packed 16x16 bitmap fonts for the three Hangul components, each a flat
/// table indexed by `jamoIndex + rowGroup * groupSize`; each glyph is 16
/// row masks, bit 15 marking the leftmost column.
#[derive(Debug)]
pub struct KoreanFonts {
    pub cho: Vec<Vec<u32>>,
    pub mid: Vec<Vec<u32>>,
    pub jong: Vec<Vec<u32>>,
}

/// The font resource available for one script class.
#[derive(Debug)]
pub enum Fonts {
    Ascii(AsciiFonts),
    Korean(KoreanFonts),
}

/// A well-formed glyph table: `count` glyphs of 16 rows each, every row
/// mask confined to the cell's column bits.
pub open spec fn table_wf(t: Seq<Vec<u32>>, count: int, mask_bound: u32) -> bool {
    &&& t.len() == count
    &&& forall|g: int| 0 <= g < count ==> (#[trigger] t[g])@.len() == CELL_HEIGHT
    &&& forall|g: int, r: int|
        0 <= g < count && 0 <= r < CELL_HEIGHT ==> #[trigger] t[g]@[r] < mask_bound
}

/// One glyph per ASCII code, 8 columns wide.
pub open spec fn ascii_fonts_wf(f: AsciiFonts) -> bool {
    table_wf(f.fonts@, 128, 0x100)
}

/// Full variant bands for all three components, 16 columns wide. The
/// trailing-consonant table's entry 0 is the pre-registered blank used
/// when a syllable has no trailing consonant.
pub open spec fn korean_fonts_wf(f: KoreanFonts) -> bool {
    &&& table_wf(f.cho@, (CHO_GROUPS * CHO_GROUP) as int, 0x10000)
    &&& table_wf(f.mid@, (MID_GROUPS * MID_GROUP) as int, 0x10000)
    &&& table_wf(f.jong@, (JONG_GROUPS * JONG_GROUP) as int, 0x10000)
}

/// The ASCII table holds, glyph by glyph, the packed form of the alpha
/// channel of a sheet laid out as a 16-column grid of 8x16 cells, glyph
/// `c` in the cell at `((c % 16) * 8, (c / 16) * 16)`.
pub open spec fn ascii_tables_from(f: AsciiFonts, alpha: Map<(int, int), u8>) -> bool {
    forall|g: int|
        0 <= g < 128 ==> packed_region(
            (#[trigger] f.fonts@[g])@,
            alpha,
            ((g % 16) * 8) as u32,
            ((g / 16) * 16) as u32,
            8,
            16,
        )
}

/// The three component tables hold, glyph by glyph, the packed form of
/// the alpha channel of a sheet with the variant bands stacked at cell
/// rows 0 (initial), 8 (medial) and 12 (final), flat index `g` of a band
/// with group size `n` in the cell at `(16 * (g % n), 16 * (g / n + band))`.
pub open spec fn korean_tables_from(f: KoreanFonts, alpha: Map<(int, int), u8>) -> bool {
    &&& forall|g: int|
        0 <= g < 152 ==> packed_region(
            (#[trigger] f.cho@[g])@,
            alpha,
            (16 * (g % 19)) as u32,
            (16 * (g / 19)) as u32,
            16,
            16,
        )
    &&& forall|g: int|
        0 <= g < 84 ==> packed_region(
            (#[trigger] f.mid@[g])@,
            alpha,
            (16 * (g % 21)) as u32,
            (16 * (g / 21 + 8)) as u32,
            16,
            16,
        )
    &&& forall|g: int|
        0 <= g < 112 ==> packed_region(
            (#[trigger] f.jong@[g])@,
            alpha,
            (16 * (g % 28)) as u32,
            (16 * (g / 28 + 12)) as u32,
            16,
            16,
        )
}

/// Builds the packed ASCII table from a decoded glyph sheet laid out as
/// a 16-column grid of 8x16 cells: glyph `c` is packed from the cell at
/// `((c % 16) * 8, (c / 16) * 16)`. A sheet smaller than the 128x128
/// pixel grid is rejected.
pub fn build_ascii_font(img: &image::DynamicImage) -> (r: Result<AsciiFonts, FontError>)
    ensures
        r is Ok <==> (image_dims(*img).0 >= 128 && image_dims(*img).1 >= 128),
        !(image_dims(*img).0 >= 128 && image_dims(*img).1 >= 128) ==> r == Err::<
            AsciiFonts,
            FontError,
        >(FontError::OutOfBounds),
        r matches Ok(f) ==> ascii_fonts_wf(f) && ascii_tables_from(f, image_alpha(*img)),
{
    let (iw, ih) = img_dimensions(img);
    if iw < 128 || ih < 128 {
        return Err(FontError::OutOfBounds);
    }
    let mut fonts: Vec<Vec<u32>> = Vec::new();
    let mut code: u32 = 0;
    while code < 128
        invariant
            code <= 128,
            image_dims(*img).0 >= 128,
            image_dims(*img).1 >= 128,
            fonts@.len() == code,
            forall|g: int|
                0 <= g < code ==> packed_region(
                    (#[trigger] fonts@[g])@,
                    image_alpha(*img),
                    ((g % 16) * 8) as u32,
                    ((g / 16) * 16) as u32,
                    8,
                    16,
                ),
            forall|g: int, r: int|
                0 <= g < code && 0 <= r < CELL_HEIGHT ==> #[trigger] fonts@[g]@[r] < 0x100,
        decreases 128 - code,
    {
        proof {
            assert(code % 16 < 16 && code / 16 < 8) by (nonlinear_arith)
                requires
                    code < 128,
            ;
        }
        let gx = (code % 16) * 8;
        let gy = (code / 16) * 16;
        match image2hex(img, gx, gy, 8, 16) {
            Ok(rows) => {
                proof {
                    assert(1u32 << 8u32 == 0x100) by (bit_vector);
                    assert forall|r: int| 0 <= r < CELL_HEIGHT implies #[trigger] rows@[r]
                        < 0x100 by {
                        lemma_mask_fits(rows@[r], 8);
                    }
                }
                fonts.push(rows);
            },
            Err(_) => {
                return Err(FontError::OutOfBounds);
            },
        }
        code = code + 1;
    }
    Ok(AsciiFonts { fonts })
}

/// Builds the three packed component tables from a decoded Hangul glyph
/// sheet with the variant bands stacked at cell rows 0 (initial), 8
/// (medial) and 12 (final), each cell 16x16 pixels and each band's
/// glyphs flat-indexed as `jamoIndex + rowGroup * groupSize`. A sheet
/// smaller than the 448x256 pixel grid is rejected.
pub fn build_korean_font(img: &image::DynamicImage) -> (r: Result<KoreanFonts, FontError>)
    ensures
        r is Ok <==> (image_dims(*img).0 >= 448 && image_dims(*img).1 >= 256),
        !(image_dims(*img).0 >= 448 && image_dims(*img).1 >= 256) ==> r == Err::<
            KoreanFonts,
            FontError,
        >(FontError::OutOfBounds),
        r matches Ok(f) ==> korean_fonts_wf(f) && korean_tables_from(f, image_alpha(*img)),
{
    let (iw, ih) = img_dimensions(img);
    if iw < 448 || ih < 256 {
        return Err(FontError::OutOfBounds);
    }
    let cho = build_band(img, 19, 8, 0);
    let mid = build_band(img, 21, 4, 8);
    let jong = build_band(img, 28, 4, 12);
    Ok(KoreanFonts { cho, mid, jong })
}

/// Packs one variant band of a Hangul sheet: `groups` rows of `group`
/// glyphs starting `band` cell rows from the sheet's top.
fn build_band(img: &image::DynamicImage, group: u32, groups: u32, band: u32) -> (t: Vec<Vec<u32>>)
    requires
        0 < group <= 28,
        groups <= 8,
        band <= 12,
        image_dims(*img).0 >= 16 * group,
        image_dims(*img).1 >= 16 * (groups + band),
    ensures
        t@.len() == group * groups,
        forall|g: int|
            0 <= g < group * groups ==> packed_region(
                (#[trigger] t@[g])@,
                image_alpha(*img),
                (16 * (g % (group as int))) as u32,
                (16 * (g / (group as int) + band)) as u32,
                16,
                16,
            ),
        forall|g: int, r: int|
            0 <= g < group * groups && 0 <= r < CELL_HEIGHT ==> #[trigger] t@[g]@[r] < 0x10000,
{
    proof {
        assert(group * groups <= 224) by (nonlinear_arith)
            requires
                group <= 28,
                groups <= 8,
        ;
    }
    let total = group * groups;
    let mut t: Vec<Vec<u32>> = Vec::new();
    let mut idx: u32 = 0;
    while idx < total
        invariant
            idx <= total,
            total == group * groups,
            group <= 28,
            groups <= 8,
            band <= 12,
            0 < group,
            image_dims(*img).0 >= 16 * group,
            image_dims(*img).1 >= 16 * (groups + band),
            t@.len() == idx,
            forall|g: int|
                0 <= g < idx ==> packed_region(
                    (#[trigger] t@[g])@,
                    image_alpha(*img),
                    (16 * (g % (group as int))) as u32,
                    (16 * (g / (group as int) + band)) as u32,
                    16,
                    16,
                ),
            forall|g: int, r: int|
                0 <= g < idx && 0 <= r < CELL_HEIGHT ==> #[trigger] t@[g]@[r] < 0x10000,
        decreases total - idx,
    {
        let gi = idx % group;
        let gr = idx / group;
        proof {
            assert(gi < group && gr < groups && gi == idx as int % (group as int) && gr == idx
                as int / (group as int)) by (nonlinear_arith)
                requires
                    0 < group,
                    idx < total,
                    total == group * groups,
                    gi == idx % group,
                    gr == idx / group,
            ;
        }
        let gx = 16 * gi;
        let gy = 16 * (gr + band);
        match image2hex(img, gx, gy, 16, 16) {
            Ok(rows) => {
                proof {
                    assert(1u32 << 16u32 == 0x10000) by (bit_vector);
                    assert forall|r: int| 0 <= r < CELL_HEIGHT implies #[trigger] rows@[r]
                        < 0x10000 by {
                        lemma_mask_fits(rows@[r], 16);
                    }
                }
                t.push(rows);
            },
            Err(_) => {
                proof {
                    assert(false);
                }
            },
        }
        idx = idx + 1;
    }
    t
}

impl Default for AsciiFonts {
    /// An empty table, to be filled glyph by glyph at load time.
    fn default() -> (r: Self)
        ensures
            r.fonts@.len() == 0,
    {
        AsciiFonts { fonts: Vec::new() }
    }
}

impl Default for KoreanFonts {
    /// Empty tables, to be filled glyph by glyph at load time.
    fn default() -> (r: Self)
        ensures
            r.cho@.len() == 0,
            r.mid@.len() == 0,
            r.jong@.len() == 0,
    {
        KoreanFonts { cho: Vec::new(), mid: Vec::new(), jong: Vec::new() }
    }
}

} // verus!
