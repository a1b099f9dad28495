use jaso_font::cell::{ascii_src_rect, hangul_src_rects, CellRect};
use jaso_font::jaso::{build_jaso, cho_index, jong_index, mid_index, Bul, Jaso};
use jaso_font::FontError;

#[test]
fn ascii_rect_spans_all_rows() {
    // One sample per atlas row of the 16-column ASCII sheet.
    for row in 0..8u32 {
        let code = row * 16 + 3;
        let r = ascii_src_rect(code);
        assert_eq!(r, CellRect { x: 3 * 8, y: row * 16, w: 8, h: 16 });
    }
    let a = ascii_src_rect('A' as u32);
    assert_eq!(a, CellRect { x: 8, y: 64, w: 8, h: 16 });
    let zero = ascii_src_rect(0);
    assert_eq!(zero, CellRect { x: 0, y: 0, w: 8, h: 16 });
    let last = ascii_src_rect(127);
    assert_eq!(last, CellRect { x: 15 * 8, y: 7 * 16, w: 8, h: 16 });
}

#[test]
fn decompose_known_syllables() {
    // U+AC00 is the first syllable: all component indices zero.
    let ga = build_jaso(0xAC00).unwrap();
    assert_eq!((ga.cho, ga.mid, ga.jong), (0, 0, 0));
    // U+D55C: initial 18, medial 0, final 4.
    let han = build_jaso(0xD55C).unwrap();
    assert_eq!((han.cho, han.mid, han.jong), (18, 0, 4));
    // U+D7A3 is the last syllable.
    let last = build_jaso(0xD7A3).unwrap();
    assert_eq!((last.cho, last.mid, last.jong), (18, 20, 27));
}

#[test]
fn decompose_rejects_non_syllables() {
    assert_eq!(build_jaso('A' as u32), Err(FontError::UnsupportedCharacter));
    assert_eq!(build_jaso(0xABFF), Err(FontError::UnsupportedCharacter));
    assert_eq!(build_jaso(0xD7A4), Err(FontError::UnsupportedCharacter));
}

#[test]
fn table_index_formula() {
    let jaso = Jaso { cho: 5, mid: 7, jong: 11 };
    assert_eq!(cho_index(&jaso, 3), 5 + 3 * 19);
    assert_eq!(mid_index(&jaso, 2), 7 + 2 * 21);
    assert_eq!(jong_index(&jaso, 1), 11 + 1 * 28);
    // Row group 0 addresses the first band directly.
    assert_eq!(cho_index(&jaso, 0), 5);
    assert_eq!(mid_index(&jaso, 0), 7);
    assert_eq!(jong_index(&jaso, 0), 11);
}

#[test]
fn hangul_rects_follow_band_layout() {
    let jaso = Jaso { cho: 1, mid: 2, jong: 3 };
    let bul = Bul { cho: Some(1), mid: Some(0), jong: Some(2) };
    let (c, m, j) = hangul_src_rects(&jaso, &bul).unwrap();
    assert_eq!(c, CellRect { x: 16, y: 16, w: 16, h: 16 });
    assert_eq!(m, CellRect { x: 32, y: 16 * 8, w: 16, h: 16 });
    assert_eq!(j, CellRect { x: 48, y: 16 * 14, w: 16, h: 16 });
}

#[test]
fn hangul_rects_blank_final() {
    let jaso = Jaso { cho: 0, mid: 0, jong: 0 };
    let bul = Bul { cho: Some(0), mid: Some(0), jong: None };
    let (_, _, j) = hangul_src_rects(&jaso, &bul).unwrap();
    assert_eq!(j, CellRect { x: 0, y: 192, w: 16, h: 16 });
}

#[test]
fn hangul_rects_missing_row_group() {
    let jaso = Jaso { cho: 0, mid: 0, jong: 0 };
    let no_cho = Bul { cho: None, mid: Some(0), jong: None };
    assert_eq!(hangul_src_rects(&jaso, &no_cho), Err(FontError::UnmappedRowGroup));
    let no_mid = Bul { cho: Some(0), mid: None, jong: None };
    assert_eq!(hangul_src_rects(&jaso, &no_mid), Err(FontError::UnmappedRowGroup));
}
