use image::{DynamicImage, GenericImage, Rgba};
use jaso_font::table::image2hex;
use jaso_font::FontError;

fn blank(w: u32, h: u32) -> DynamicImage {
    // new_rgba8 starts fully transparent: every alpha byte is zero.
    DynamicImage::new_rgba8(w, h)
}

#[test]
fn transparent_region_packs_to_zero() {
    let img = blank(32, 32);
    let rows = image2hex(&img, 4, 2, 8, 16).unwrap();
    assert_eq!(rows, vec![0u32; 16]);
}

#[test]
fn opaque_region_packs_to_full_masks() {
    let mut img = blank(16, 16);
    for y in 0..16 {
        for x in 0..16 {
            img.put_pixel(x, y, Rgba([0, 0, 0, 255]));
        }
    }
    let narrow = image2hex(&img, 0, 0, 8, 16).unwrap();
    assert_eq!(narrow, vec![0xFFu32; 16]);
    let wide = image2hex(&img, 0, 0, 16, 16).unwrap();
    assert_eq!(wide, vec![0xFFFFu32; 16]);
}

#[test]
fn masks_are_msb_first() {
    let mut img = blank(8, 4);
    // Row 0: leftmost and rightmost columns set.
    img.put_pixel(0, 0, Rgba([1, 2, 3, 200]));
    img.put_pixel(7, 0, Rgba([0, 0, 0, 1]));
    // Row 2: third column from the left.
    img.put_pixel(2, 2, Rgba([0, 0, 0, 255]));
    let rows = image2hex(&img, 0, 0, 8, 4).unwrap();
    assert_eq!(rows, vec![0x81, 0x00, 0x20, 0x00]);
}

#[test]
fn alpha_alone_decides() {
    let mut img = blank(4, 1);
    // Fully saturated color but zero alpha must stay background.
    img.put_pixel(1, 0, Rgba([255, 255, 255, 0]));
    // Black with the least alpha must be foreground.
    img.put_pixel(2, 0, Rgba([0, 0, 0, 1]));
    let rows = image2hex(&img, 0, 0, 4, 1).unwrap();
    assert_eq!(rows, vec![0b0010]);
}

#[test]
fn sub_region_offsets_apply() {
    let mut img = blank(16, 16);
    img.put_pixel(9, 5, Rgba([0, 0, 0, 255]));
    let rows = image2hex(&img, 8, 4, 8, 4).unwrap();
    // The set pixel is column 1, row 1 of the region.
    assert_eq!(rows, vec![0x00, 0x40, 0x00, 0x00]);
}

#[test]
fn out_of_bounds_region_is_rejected() {
    let img = blank(16, 16);
    assert_eq!(image2hex(&img, 9, 0, 8, 16), Err(FontError::OutOfBounds));
    assert_eq!(image2hex(&img, 0, 1, 8, 16), Err(FontError::OutOfBounds));
    assert_eq!(image2hex(&img, 16, 16, 1, 1), Err(FontError::OutOfBounds));
    // The region may touch the edge exactly.
    assert!(image2hex(&img, 8, 0, 8, 16).is_ok());
}

#[test]
fn ascii_font_builder_packs_whole_sheet() {
    let mut img = blank(128, 128);
    // The cell of code 65 sits at ((65 % 16) * 8, (65 / 16) * 16) = (8, 64).
    img.put_pixel(8, 64, Rgba([0, 0, 0, 255]));
    let font = jaso_font::font::build_ascii_font(&img).unwrap();
    assert_eq!(font.fonts.len(), 128);
    assert_eq!(font.fonts[65][0], 0x80);
    assert_eq!(font.fonts[66], vec![0u32; 16]);
}

#[test]
fn ascii_font_builder_rejects_small_sheet() {
    let img = blank(127, 128);
    assert_eq!(jaso_font::font::build_ascii_font(&img).err(), Some(FontError::OutOfBounds));
}

#[test]
fn korean_font_builder_reads_the_three_bands() {
    let mut img = blank(448, 256);
    // Initial band: flat index 21 is glyph 2 of row group 1, cell (32, 16).
    img.put_pixel(32, 16, Rgba([9, 9, 9, 9]));
    // Medial band: flat index 45 is glyph 3 of row group 2, cell (48, 160).
    img.put_pixel(48, 160, Rgba([1, 1, 1, 1]));
    // Final band: flat index 88 is glyph 4 of row group 3, cell (64, 240);
    // its rightmost top pixel is the lowest bit.
    img.put_pixel(64 + 15, 240, Rgba([1, 1, 1, 255]));
    let font = jaso_font::font::build_korean_font(&img).unwrap();
    assert_eq!(font.cho.len(), 152);
    assert_eq!(font.mid.len(), 84);
    assert_eq!(font.jong.len(), 112);
    assert_eq!(font.cho[21][0], 0x8000);
    assert_eq!(font.mid[45][0], 0x8000);
    assert_eq!(font.jong[88][0], 0x0001);
    assert_eq!(font.cho[0], vec![0u32; 16]);
}

#[test]
fn korean_font_builder_rejects_small_sheet() {
    let img = blank(448, 255);
    assert_eq!(jaso_font::font::build_korean_font(&img).err(), Some(FontError::OutOfBounds));
}
