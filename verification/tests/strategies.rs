use image::{DynamicImage, GenericImage, GenericImageView, Rgba};
use jaso_font::cell::{ascii_cell, ascii_src_rect, hangul_src_rects, kor_cell};
use jaso_font::font::{build_ascii_font, build_korean_font};
use jaso_font::jaso::{build_jaso, Bul};

#[test]
fn overlay_matches_atlas_for_a_syllable() {
    let mut sheet = DynamicImage::new_rgba8(448, 256);
    // Pixels inside the three cells that the blit strategy would copy for
    // the syllable at U+D55C with row groups (1, 0, 2).
    sheet.put_pixel(288 + 2, 16, Rgba([0, 0, 0, 255]));
    sheet.put_pixel(7, 128 + 5, Rgba([0, 0, 0, 1]));
    sheet.put_pixel(64 + 15, 224 + 15, Rgba([0, 0, 0, 128]));
    // A pixel outside those cells must not show in the composed glyph.
    sheet.put_pixel(200, 200, Rgba([0, 0, 0, 255]));

    let font = build_korean_font(&sheet).unwrap();
    let jaso = build_jaso(0xD55C).unwrap();
    let bul = Bul { cho: Some(1), mid: Some(0), jong: Some(2) };
    let cell = kor_cell(&font, &jaso, &bul).unwrap();
    let (rc, rm, rj) = hangul_src_rects(&jaso, &bul).unwrap();
    assert_eq!((rc.x, rc.y), (288, 16));
    assert_eq!((rm.x, rm.y), (0, 128));
    assert_eq!((rj.x, rj.y), (64, 224));
    for j in 0..16u32 {
        for i in 0..16u32 {
            let atlas = sheet.get_pixel(rc.x + i, rc.y + j).0[3] != 0
                || sheet.get_pixel(rm.x + i, rm.y + j).0[3] != 0
                || sheet.get_pixel(rj.x + i, rj.y + j).0[3] != 0;
            assert_eq!(cell[j as usize][i as usize], atlas);
        }
    }
    assert!(cell[0][2] && cell[5][7] && cell[15][15]);
}

#[test]
fn overlay_matches_atlas_for_ascii() {
    let mut sheet = DynamicImage::new_rgba8(128, 128);
    // Two pixels inside the cell of code 66, one outside it.
    sheet.put_pixel(16, 64, Rgba([0, 0, 0, 255]));
    sheet.put_pixel(23, 79, Rgba([0, 0, 0, 9]));
    sheet.put_pixel(0, 0, Rgba([0, 0, 0, 255]));

    let font = build_ascii_font(&sheet).unwrap();
    let cell = ascii_cell(&font, 66);
    let r = ascii_src_rect(66);
    assert_eq!((r.x, r.y), (16, 64));
    for j in 0..16u32 {
        for i in 0..8u32 {
            let atlas = sheet.get_pixel(r.x + i, r.y + j).0[3] != 0;
            assert_eq!(cell[j as usize][i as usize], atlas);
        }
    }
    assert!(cell[0][0] && cell[15][7]);
}
