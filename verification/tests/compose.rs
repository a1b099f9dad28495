use jaso_font::cell::{ascii_cell, compose_ascii_cell, compose_hangul_cell, kor_cell};
use jaso_font::font::{AsciiFonts, KoreanFonts};
use jaso_font::jaso::{Bul, Jaso};
use jaso_font::FontError;

fn glyph(rows: [u32; 16]) -> Vec<u32> {
    rows.to_vec()
}

fn flat_table(count: usize) -> Vec<Vec<u32>> {
    let mut t = Vec::new();
    for _ in 0..count {
        t.push(vec![0u32; 16]);
    }
    t
}

#[test]
fn overlay_is_or_across_layers() {
    let mut cho = vec![0u32; 16];
    let mut mid = vec![0u32; 16];
    let jong = vec![0u32; 16];
    // Row 0: only the initial layer claims column 0.
    cho[0] = 0x8000;
    // Row 1: initial and medial both claim column 3.
    cho[1] = 0x1000;
    mid[1] = 0x1000;
    // Row 2: only the medial layer claims column 15.
    mid[2] = 0x0001;
    let cell = compose_hangul_cell(&cho, &mid, &jong);
    assert_eq!(cell.len(), 16);
    assert!(cell[0][0]);
    assert!(!cell[0][1]);
    assert!(cell[1][3]);
    assert!(!cell[1][2]);
    assert!(cell[2][15]);
    // A column no layer claims stays background.
    assert!(!cell[3][7]);
    // Every row is 16 pixels wide.
    for row in &cell {
        assert_eq!(row.len(), 16);
    }
}

#[test]
fn ascii_compose_reads_top_byte() {
    let mut rows = vec![0u32; 16];
    rows[0] = 0x80;
    rows[1] = 0xFF;
    rows[2] = 0x01;
    let cell = compose_ascii_cell(&rows);
    assert!(cell[0][0]);
    assert!(!cell[0][7]);
    for i in 0..8 {
        assert!(cell[1][i]);
    }
    assert!(!cell[2][0]);
    assert!(cell[2][7]);
    for row in &cell {
        assert_eq!(row.len(), 8);
    }
}

#[test]
fn kor_cell_indexes_by_group_formula() {
    let mut font = KoreanFonts {
        cho: flat_table(152),
        mid: flat_table(84),
        jong: flat_table(112),
    };
    let jaso = Jaso { cho: 2, mid: 3, jong: 4 };
    let bul = Bul { cho: Some(1), mid: Some(2), jong: Some(3) };
    // Place one distinctive row in each selected glyph.
    font.cho[2 + 19] = glyph([0x8000, 0, 0, 0, 0, 0, 0, 0, 0, 0, 0, 0, 0, 0, 0, 0]);
    font.mid[3 + 2 * 21] = glyph([0, 0x4000, 0, 0, 0, 0, 0, 0, 0, 0, 0, 0, 0, 0, 0, 0]);
    font.jong[4 + 3 * 28] = glyph([0, 0, 0x2000, 0, 0, 0, 0, 0, 0, 0, 0, 0, 0, 0, 0, 0]);
    let cell = kor_cell(&font, &jaso, &bul).unwrap();
    assert!(cell[0][0]);
    assert!(cell[1][1]);
    assert!(cell[2][2]);
    assert!(!cell[3][3]);
}

#[test]
fn kor_cell_blank_final_uses_entry_zero() {
    let mut font = KoreanFonts {
        cho: flat_table(152),
        mid: flat_table(84),
        jong: flat_table(112),
    };
    // A syllable with no final variant must read the reserved blank at
    // index 0, here marked with one pixel to make the lookup visible.
    font.jong[0] = glyph([0, 0, 0, 0, 0, 0, 0, 0, 0, 0, 0, 0, 0, 0, 0, 0x0001]);
    let jaso = Jaso { cho: 0, mid: 0, jong: 9 };
    let bul = Bul { cho: Some(0), mid: Some(0), jong: None };
    let cell = kor_cell(&font, &jaso, &bul).unwrap();
    assert!(cell[15][15]);
}

#[test]
fn kor_cell_missing_row_group_fails() {
    let font = KoreanFonts {
        cho: flat_table(152),
        mid: flat_table(84),
        jong: flat_table(112),
    };
    let jaso = Jaso { cho: 0, mid: 0, jong: 0 };
    let bul = Bul { cho: None, mid: Some(0), jong: None };
    assert!(matches!(kor_cell(&font, &jaso, &bul), Err(FontError::UnmappedRowGroup)));
}

#[test]
fn ascii_cell_selects_by_code() {
    let mut font = AsciiFonts { fonts: flat_table(128) };
    font.fonts['A' as usize] = glyph([0, 0x18, 0x24, 0x42, 0x7E, 0x42, 0x42, 0, 0, 0, 0, 0, 0, 0, 0, 0]);
    let cell = ascii_cell(&font, 'A' as u32);
    // Row 1 of 0x18: columns 3 and 4.
    assert!(!cell[1][2]);
    assert!(cell[1][3]);
    assert!(cell[1][4]);
    assert!(!cell[1][5]);
}
