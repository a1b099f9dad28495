//! The glyph compositor: atlas source-rectangle selection for the blit
//! strategy, and bit-level mask overlay for the packed-table strategy.

use vstd::prelude::*;
use crate::FontError;
use crate::font::{
    ascii_fonts_wf, ascii_tables_from, korean_fonts_wf, korean_tables_from, AsciiFonts,
    KoreanFonts,
};
use crate::jaso::{bul_wf, jaso_wf, Bul, Jaso};
use crate::table::row_bit;

verus! {

/// A source rectangle inside a glyph atlas, in pixels.
#[derive(Clone, Copy, Debug, PartialEq, Eq, Structural)]
pub struct CellRect {
    pub x: u32,
    pub y: u32,
    pub w: u32,
    pub h: u32,
}

/// Atlas source rectangle of an ASCII glyph: the sheet is a grid of
/// sixteen 8x16 cells per row, addressed directly by character code.
pub fn ascii_src_rect(code: u32) -> (r: CellRect)
    requires
        code < 128,
    ensures
        r == (CellRect { x: ((code % 16) * 8) as u32, y: ((code / 16) * 16) as u32, w: 8, h: 16 }),
{
    CellRect { x: (code % 16) * 8, y: (code / 16) * 16, w: 8, h: 16 }
}

/// The three atlas source rectangles of one syllable, in the fixed
/// initial, medial, final order in which they are blitted onto one cell.
/// The sheet stacks the variant bands at row 0 (initial), row 8 (medial)
/// and row 12 (final) in 16-pixel cells; a syllable without a final
/// variant uses the reserved blank cell at `(0, 192)`. A missing initial
/// or medial row group cannot be drawn and is reported, never patched.
pub fn hangul_src_rects(jaso: &Jaso, bul: &Bul) -> (r: Result<
    (CellRect, CellRect, CellRect),
    FontError,
>)
    requires
        jaso_wf(*jaso),
        bul_wf(*bul),
    ensures
        r is Ok <==> (bul.cho is Some && bul.mid is Some),
        !(bul.cho is Some && bul.mid is Some) ==> r == Err::<
            (CellRect, CellRect, CellRect),
            FontError,
        >(FontError::UnmappedRowGroup),
        bul.cho matches Some(gc) ==> bul.mid matches Some(gm) ==> (r matches Ok(t)
            && t.0 == (CellRect { x: (16 * jaso.cho) as u32, y: (16 * gc) as u32, w: 16, h: 16 })
            && t.1 == (CellRect {
                x: (16 * jaso.mid) as u32,
                y: (16 * (gm + 8)) as u32,
                w: 16,
                h: 16,
            })
            && t.2 == (match bul.jong {
                Some(gj) => CellRect {
                    x: (16 * jaso.jong) as u32,
                    y: (16 * (gj + 12)) as u32,
                    w: 16,
                    h: 16,
                },
                None => CellRect { x: 0, y: 192, w: 16, h: 16 },
            })),
{
    match (bul.cho, bul.mid) {
        (Some(gc), Some(gm)) => {
            let cho_rect = CellRect { x: 16 * jaso.cho, y: 16 * gc, w: 16, h: 16 };
            let mid_rect = CellRect { x: 16 * jaso.mid, y: 16 * (gm + 8), w: 16, h: 16 };
            let jong_rect = match bul.jong {
                Some(gj) => CellRect { x: 16 * jaso.jong, y: 16 * (gj + 12), w: 16, h: 16 },
                None => CellRect { x: 0, y: 16 * 12, w: 16, h: 16 },
            };
            Ok((cho_rect, mid_rect, jong_rect))
        },
        _ => Err(FontError::UnmappedRowGroup),
    }
}

/// The compositor's bit test on a 16-column packed row: shift column `i`
/// into the top bit of the 16-bit window and test it.
pub open spec fn spec_bit16(mask: u32, i: u32) -> bool
    recommends
        i < 16,
{
    (mask << i) & 0x8000u32 != 0
}

/// The compositor's bit test on an 8-column packed row.
pub open spec fn spec_bit8(mask: u32, i: u32) -> bool
    recommends
        i < 8,
{
    (mask << i) & 0x80u32 != 0
}

/// One composed Hangul pixel: foreground wherever any of the three
/// component layers claims the column, background only when all three
/// are clear — an OR across layers, not a priority order.
pub open spec fn spec_overlay(cho: u32, mid: u32, jong: u32, i: u32) -> bool
    recommends
        i < 16,
{
    spec_bit16(cho, i) || spec_bit16(mid, i) || spec_bit16(jong, i)
}

/// Law: the bit the compositor's shift-and-test reads from a packed row
/// is exactly the builder's bit for that column, for both cell widths.
pub proof fn lemma_bit_tests_agree(mask: u32, i: u32)
    requires
        i < 16,
    ensures
        spec_bit16(mask, i) == crate::table::row_bit(mask, i, 16),
        i < 8 ==> spec_bit8(mask, i) == crate::table::row_bit(mask, i, 8),
{
    assert(((mask << i) & 0x8000u32 != 0) == ((mask >> ((15 - i) as u32)) & 1u32 == 1u32))
        by (bit_vector)
        requires
            i < 16,
    ;
    if i < 8 {
        assert(((mask << i) & 0x80u32 != 0) == ((mask >> ((7 - i) as u32)) & 1u32 == 1u32))
            by (bit_vector)
            requires
                i < 8,
        ;
    }
}

/// Composes one 16x16 Hangul cell from three packed component glyphs;
/// entry `[j][i]` is true exactly when the pixel at row `j`, column `i`
/// is foreground.
pub fn compose_hangul_cell(cho_hex: &Vec<u32>, mid_hex: &Vec<u32>, jong_hex: &Vec<u32>) -> (cell:
    Vec<Vec<bool>>)
    requires
        cho_hex@.len() == 16,
        mid_hex@.len() == 16,
        jong_hex@.len() == 16,
    ensures
        cell@.len() == 16,
        forall|j: int| 0 <= j < 16 ==> (#[trigger] cell@[j])@.len() == 16,
        forall|j: int, i: u32|
            0 <= j < 16 && i < 16 ==> #[trigger] cell@[j]@[i as int] == spec_overlay(
                cho_hex@[j],
                mid_hex@[j],
                jong_hex@[j],
                i,
            ),
{
    let mut cell: Vec<Vec<bool>> = Vec::new();
    let mut j: usize = 0;
    while j < 16
        invariant
            j <= 16,
            cho_hex@.len() == 16,
            mid_hex@.len() == 16,
            jong_hex@.len() == 16,
            cell@.len() == j,
            forall|jj: int| 0 <= jj < j ==> (#[trigger] cell@[jj])@.len() == 16,
            forall|jj: int, i: u32|
                0 <= jj < j && i < 16 ==> #[trigger] cell@[jj]@[i as int] == spec_overlay(
                    cho_hex@[jj],
                    mid_hex@[jj],
                    jong_hex@[jj],
                    i,
                ),
        decreases 16 - j,
    {
        let cho = cho_hex[j];
        let mid = mid_hex[j];
        let jong = jong_hex[j];
        let mut row: Vec<bool> = Vec::new();
        let mut i: u32 = 0;
        while i < 16
            invariant
                i <= 16,
                row@.len() == i,
                forall|k: u32|
                    k < i ==> #[trigger] row@[k as int] == spec_overlay(cho, mid, jong, k),
            decreases 16 - i,
        {
            let vc = (cho << i) & 0x8000;
            let vm = (mid << i) & 0x8000;
            let vj = (jong << i) & 0x8000;
            row.push(vc != 0 || vm != 0 || vj != 0);
            i = i + 1;
        }
        cell.push(row);
        j = j + 1;
    }
    cell
}

/// Composes one 8x16 ASCII cell from a packed glyph; entry `[j][i]` is
/// true exactly when the glyph's bit for that column is set.
pub fn compose_ascii_cell(rows: &Vec<u32>) -> (cell: Vec<Vec<bool>>)
    requires
        rows@.len() == 16,
    ensures
        cell@.len() == 16,
        forall|j: int| 0 <= j < 16 ==> (#[trigger] cell@[j])@.len() == 8,
        forall|j: int, i: u32|
            0 <= j < 16 && i < 8 ==> #[trigger] cell@[j]@[i as int] == spec_bit8(rows@[j], i),
{
    let mut cell: Vec<Vec<bool>> = Vec::new();
    let mut j: usize = 0;
    while j < 16
        invariant
            j <= 16,
            rows@.len() == 16,
            cell@.len() == j,
            forall|jj: int| 0 <= jj < j ==> (#[trigger] cell@[jj])@.len() == 8,
            forall|jj: int, i: u32|
                0 <= jj < j && i < 8 ==> #[trigger] cell@[jj]@[i as int] == spec_bit8(
                    rows@[jj],
                    i,
                ),
        decreases 16 - j,
    {
        let mask = rows[j];
        let mut row: Vec<bool> = Vec::new();
        let mut i: u32 = 0;
        while i < 8
            invariant
                i <= 8,
                row@.len() == i,
                forall|k: u32| k < i ==> #[trigger] row@[k as int] == spec_bit8(mask, k),
            decreases 8 - i,
        {
            row.push((mask << i) & 0x80 != 0);
            i = i + 1;
        }
        cell.push(row);
        j = j + 1;
    }
    cell
}

/// What the overlay strategy owes for a drawable syllable: a 16x16 cell
/// whose every pixel is the OR of the three component bits, the
/// components taken from the flat tables at `index + rowGroup * groupSize`
/// and the final component falling back to the reserved blank entry 0.
pub open spec fn hangul_composed(
    font: KoreanFonts,
    jaso: Jaso,
    bul: Bul,
    cell: Seq<Vec<bool>>,
) -> bool
    recommends
        korean_fonts_wf(font),
        jaso_wf(jaso),
        bul_wf(bul),
{
    match (bul.cho, bul.mid) {
        (Some(gc), Some(gm)) => {
            let ci = jaso.cho + gc * 19;
            let mi = jaso.mid + gm * 21;
            let ji = match bul.jong {
                Some(gj) => jaso.jong + gj * 28,
                None => 0,
            };
            &&& cell.len() == 16
            &&& forall|j: int| 0 <= j < 16 ==> (#[trigger] cell[j])@.len() == 16
            &&& forall|j: int, i: u32|
                0 <= j < 16 && i < 16 ==> #[trigger] cell[j]@[i as int] == spec_overlay(
                    font.cho@[ci]@[j],
                    font.mid@[mi]@[j],
                    font.jong@[ji]@[j],
                    i,
                )
        },
        _ => false,
    }
}

/// Composites one Hangul syllable cell from the packed component fonts:
/// looks each component's glyph up by the flat-table formula and overlays
/// the three masks. A missing initial or medial row group is reported.
pub fn kor_cell(font: &KoreanFonts, jaso: &Jaso, bul: &Bul) -> (r: Result<
    Vec<Vec<bool>>,
    FontError,
>)
    requires
        korean_fonts_wf(*font),
        jaso_wf(*jaso),
        bul_wf(*bul),
    ensures
        r is Ok <==> (bul.cho is Some && bul.mid is Some),
        !(bul.cho is Some && bul.mid is Some) ==> r == Err::<Vec<Vec<bool>>, FontError>(
            FontError::UnmappedRowGroup,
        ),
        r matches Ok(cell) ==> hangul_composed(*font, *jaso, *bul, cell@),
{
    match (bul.cho, bul.mid) {
        (Some(gc), Some(gm)) => {
            let ci = crate::jaso::cho_index(jaso, gc);
            let mi = crate::jaso::mid_index(jaso, gm);
            let ji = match bul.jong {
                Some(gj) => crate::jaso::jong_index(jaso, gj),
                None => 0,
            };
            let cell = compose_hangul_cell(&font.cho[ci], &font.mid[mi], &font.jong[ji]);
            Ok(cell)
        },
        _ => Err(FontError::UnmappedRowGroup),
    }
}

/// Law: the two compositing strategies select the same geometry. When
/// the packed component tables hold what the Hangul atlas sheet shows,
/// every pixel of an overlay-composed syllable cell is foreground
/// exactly when one of the three atlas source rectangles the blit
/// strategy would copy has a non-transparent pixel at that position.
pub proof fn lemma_strategies_agree(
    font: KoreanFonts,
    alpha: Map<(int, int), u8>,
    jaso: Jaso,
    bul: Bul,
    cell: Seq<Vec<bool>>,
    j: int,
    i: u32,
)
    requires
        jaso_wf(jaso),
        bul_wf(bul),
        korean_tables_from(font, alpha),
        hangul_composed(font, jaso, bul, cell),
        0 <= j < 16,
        i < 16,
    ensures
        cell[j]@[i as int] == (match (bul.cho, bul.mid, bul.jong) {
            (Some(gc), Some(gm), Some(gj)) => (alpha[(16 * jaso.cho + i, 16 * gc + j)] != 0) || (
            alpha[(16 * jaso.mid + i, 16 * (gm + 8) + j)] != 0) || (alpha[(16 * jaso.jong + i, 16
                * (gj + 12) + j)] != 0),
            (Some(gc), Some(gm), None) => (alpha[(16 * jaso.cho + i, 16 * gc + j)] != 0) || (
            alpha[(16 * jaso.mid + i, 16 * (gm + 8) + j)] != 0) || (alpha[(0 + i, 192 + j)] != 0),
            _ => false,
        }),
{
    match (bul.cho, bul.mid) {
        (Some(gc), Some(gm)) => {
            let ci = jaso.cho + gc * 19;
            let mi = jaso.mid + gm * 21;
            let ji: int = match bul.jong {
                Some(gj) => jaso.jong + gj * 28,
                None => 0,
            };
            assert(ci % 19 == jaso.cho && ci / 19 == gc) by (nonlinear_arith)
                requires
                    jaso.cho < 19,
                    ci == jaso.cho + gc * 19,
            ;
            assert(mi % 21 == jaso.mid && mi / 21 == gm) by (nonlinear_arith)
                requires
                    jaso.mid < 21,
                    mi == jaso.mid + gm * 21,
            ;
            match bul.jong {
                Some(gj) => {
                    assert(ji % 28 == jaso.jong && ji / 28 == gj) by (nonlinear_arith)
                        requires
                            jaso.jong < 28,
                            ji == jaso.jong + gj * 28,
                    ;
                },
                None => {
                    assert(ji % 28 == 0 && ji / 28 == 0) by (nonlinear_arith)
                        requires
                            ji == 0,
                    ;
                },
            }
            let cm = font.cho@[ci]@[j];
            let mm = font.mid@[mi]@[j];
            let jm = font.jong@[ji]@[j];
            assert(row_bit(cm, i, 16) <==> alpha[(16 * (ci % 19) + i, 16 * (ci / 19) + j)] != 0);
            assert(row_bit(mm, i, 16) <==> alpha[(16 * (mi % 21) + i, 16 * (mi / 21 + 8) + j)]
                != 0);
            assert(row_bit(jm, i, 16) <==> alpha[(16 * (ji % 28) + i, 16 * (ji / 28 + 12) + j)]
                != 0);
            lemma_bit_tests_agree(cm, i);
            lemma_bit_tests_agree(mm, i);
            lemma_bit_tests_agree(jm, i);
            assert(cell[j]@[i as int] == spec_overlay(cm, mm, jm, i));
        },
        _ => {
        },
    }
}

/// Law: for ASCII the two strategies agree likewise: the bit the overlay
/// strategy tests in a packed glyph equals the alpha test of the pixel
/// the atlas blit would copy from the glyph's source rectangle.
pub proof fn lemma_strategies_agree_ascii(
    font: AsciiFonts,
    alpha: Map<(int, int), u8>,
    code: u32,
    j: int,
    i: u32,
)
    requires
        ascii_tables_from(font, alpha),
        code < 128,
        0 <= j < 16,
        i < 8,
    ensures
        spec_bit8(font.fonts@[code as int]@[j], i) == (alpha[((code % 16) * 8 + i, (code / 16)
            * 16 + j)] != 0),
{
    let g = code as int;
    let mask = font.fonts@[g]@[j];
    assert(row_bit(mask, i, 8) <==> alpha[((g % 16) * 8 + i, (g / 16) * 16 + j)] != 0);
    lemma_bit_tests_agree(mask, i);
}

/// Composites one ASCII cell from the packed ASCII font, indexed directly
/// by character code.
pub fn ascii_cell(font: &AsciiFonts, code: u32) -> (cell: Vec<Vec<bool>>)
    requires
        ascii_fonts_wf(*font),
        code < 128,
    ensures
        cell@.len() == 16,
        forall|j: int| 0 <= j < 16 ==> (#[trigger] cell@[j])@.len() == 8,
        forall|j: int, i: u32|
            0 <= j < 16 && i < 8 ==> #[trigger] cell@[j]@[i as int] == spec_bit8(
                font.fonts@[code as int]@[j],
                i,
            ),
{
    compose_ascii_cell(&font.fonts[code as usize])
}

} // verus!

