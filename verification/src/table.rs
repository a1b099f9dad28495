//! The font-table builder: packs a rectangular region of a decoded glyph
//! sheet into one bitmask per pixel row, driven by the alpha channel alone.

use vstd::prelude::*;
use crate::FontError;
use crate::pixels::{image_alpha, image_dims, img_dimensions, pixel_alpha};

verus! {

/// Bit for column `i` (0 = leftmost) of a `width`-column row mask: the
/// mask is MSB-first, so column `i` sits at bit position `width - 1 - i`.
pub open spec fn row_bit(mask: u32, i: u32, width: u32) -> bool
    recommends
        i < width,
        width <= 32,
{
    (mask >> ((width - 1 - i) as u32)) & 1u32 == 1u32
}

/// The packed form of an image region: one mask per row in top-to-bottom
/// order, a column's bit set exactly when its pixel has non-zero alpha,
/// and every bit beyond the region's width clear.
pub open spec fn packed_region(
    rows: Seq<u32>,
    alpha: Map<(int, int), u8>,
    x: u32,
    y: u32,
    w: u32,
    h: u32,
) -> bool {
    &&& rows.len() == h
    &&& forall|j: int, i: u32|
        0 <= j < h && i < w ==> (#[trigger] row_bit(rows[j], i, w) <==> alpha[(x + i, y + j)]
            != 0)
    &&& forall|j: int, k: u32| 0 <= j < h && w <= k < 32 ==> (#[trigger] (rows[j] >> k)) & 1u32
        == 0u32
}

proof fn lemma_or_bit_set(cell: u32, p: u32)
    by (bit_vector)
    requires
        p < 32,
    ensures
        ((cell | (1u32 << p)) >> p) & 1u32 == 1u32,
{
}

proof fn lemma_or_bit_other(cell: u32, p: u32, q: u32)
    by (bit_vector)
    requires
        p < 32,
        q < 32,
        p != q,
    ensures
        ((cell | (1u32 << p)) >> q) & 1u32 == (cell >> q) & 1u32,
{
}

proof fn lemma_zero_bits(q: u32)
    by (bit_vector)
    ensures
        (0u32 >> q) & 1u32 == 0u32,
{
}

/// Packs the glyph-cell region at `(x, y)` of size `w` by `h` into one
/// mask per pixel row: scanning columns left to right, a pixel with zero
/// alpha leaves its bit clear and any non-zero alpha sets the bit at the
/// column's distance from the region's right edge. A region that leaves
/// the image is rejected outright, never clamped.
pub fn image2hex(img: &image::DynamicImage, x: u32, y: u32, w: u32, h: u32) -> (r: Result<
    Vec<u32>,
    FontError,
>)
    requires
        w <= 32,
    ensures
        x + w <= image_dims(*img).0 && y + h <= image_dims(*img).1 ==> (r matches Ok(rows)
            && packed_region(rows@, image_alpha(*img), x, y, w, h)),
        !(x + w <= image_dims(*img).0 && y + h <= image_dims(*img).1) ==> r == Err::<
            Vec<u32>,
            FontError,
        >(FontError::OutOfBounds),
{
    let (iw, ih) = img_dimensions(img);
    if (x as u64) + (w as u64) > (iw as u64) || (y as u64) + (h as u64) > (ih as u64) {
        return Err(FontError::OutOfBounds);
    }
    let ghost alpha = image_alpha(*img);
    let mut rows: Vec<u32> = Vec::new();
    let mut j: u32 = 0;
    while j < h
        invariant
            j <= h,
            w <= 32,
            x + w <= image_dims(*img).0,
            y + h <= image_dims(*img).1,
            alpha == image_alpha(*img),
            packed_region(rows@, alpha, x, y, w, j),
        decreases h - j,
    {
        let mut cell: u32 = 0;
        let mut i: u32 = 0;
        proof {
            assert forall|q: u32| q < 32 implies (cell >> q) & 1u32 == 0u32 by {
                lemma_zero_bits(q);
            }
        }
        while i < w
            invariant
                i <= w,
                w <= 32,
                j < h,
                x + w <= image_dims(*img).0,
                y + h <= image_dims(*img).1,
                alpha == image_alpha(*img),
                forall|k: u32|
                    k < i ==> (#[trigger] row_bit(cell, k, w) <==> alpha[(x + k, y + j)] != 0),
                forall|q: u32|
                    (q < w - i || w <= q < 32) ==> (#[trigger] (cell >> q)) & 1u32 == 0u32,
            decreases w - i,
        {
            let a = pixel_alpha(img, x + i, y + j);
            let ghost prev = cell;
            let p = w - 1 - i;
            if a != 0 {
                cell = cell | (1u32 << p);
            }
            proof {
                if a != 0 {
                    lemma_or_bit_set(prev, p);
                    assert forall|k: u32|
                        k < i implies (#[trigger] row_bit(cell, k, w) <==> alpha[(x + k, y + j)]
                        != 0) by {
                        assert(row_bit(prev, k, w) <==> alpha[(x + k, y + j)] != 0);
                        lemma_or_bit_other(prev, p, (w - 1 - k) as u32);
                        assert((cell >> ((w - 1 - k) as u32)) & 1u32 == (prev >> ((w - 1 - k)
                            as u32)) & 1u32);
                    }
                    assert forall|q: u32|
                        (q < w - (i + 1) || w <= q < 32) implies (#[trigger] (cell >> q)) & 1u32
                        == 0u32 by {
                        lemma_or_bit_other(prev, p, q);
                    }
                } else {
                    assert(!row_bit(cell, i, w));
                }
            }
            i = i + 1;
        }
        rows.push(cell);
        proof {
            assert forall|jj: int, k: u32|
                0 <= jj < j + 1 && w <= k < 32 implies (#[trigger] (rows@[jj] >> k)) & 1u32
                == 0u32 by {
                if jj == j {
                    assert((cell >> k) & 1u32 == 0u32);
                }
            }
            assert(packed_region(rows@, alpha, x, y, w, (j + 1) as u32));
        }
        j = j + 1;
    }
    Ok(rows)
}

/// The mask with every one of `w` column bits set and nothing more.
pub open spec fn full_mask(w: u32) -> u32
    recommends
        w <= 32,
{
    if w == 32 {
        0xFFFF_FFFFu32
    } else {
        ((1u32 << w) - 1) as u32
    }
}

proof fn lemma_bit_is_binary(m: u32, q: u32)
    by (bit_vector)
    ensures
        (m >> q) & 1u32 == 0u32 || (m >> q) & 1u32 == 1u32,
{
}

proof fn lemma_bits_zero_value(m: u32, k: u32)
    requires
        k < 32,
        forall|q: u32| k <= q < 32 ==> (#[trigger] (m >> q)) & 1u32 == 0u32,
    ensures
        m >> k == 0u32,
    decreases 32 - k,
{
    if k == 31 {
        assert(m >> k == 0u32) by (bit_vector)
            requires
                k == 31u32,
                (m >> k) & 1u32 == 0u32,
        ;
    } else {
        let kk: u32 = (k + 1) as u32;
        lemma_bits_zero_value(m, kk);
        assert(m >> k == 0u32) by (bit_vector)
            requires
                k < 31u32,
                kk == k + 1,
                m >> kk == 0u32,
                (m >> k) & 1u32 == 0u32,
        ;
    }
}

proof fn lemma_bits_full_value(m: u32, w: u32, k: u32)
    requires
        k < 32,
        w <= 32,
        forall|q: u32|
            k <= q < 32 ==> (#[trigger] (m >> q)) & 1u32 == (if q < w {
                1u32
            } else {
                0u32
            }),
    ensures
        k >= w ==> m >> k == 0u32,
        k < w ==> m >> k == 0xFFFF_FFFFu32 >> ((32 - (w - k)) as u32),
    decreases 32 - k,
{
    if k == 31 {
        if k >= w {
            assert(m >> k == 0u32) by (bit_vector)
                requires
                    k == 31u32,
                    (m >> k) & 1u32 == 0u32,
            ;
        } else {
            assert(m >> k == 0xFFFF_FFFFu32 >> 31u32) by (bit_vector)
                requires
                    k == 31u32,
                    (m >> k) & 1u32 == 1u32,
            ;
        }
    } else {
        let kk: u32 = (k + 1) as u32;
        lemma_bits_full_value(m, w, kk);
        if k >= w {
            assert(m >> k == 0u32) by (bit_vector)
                requires
                    k < 31u32,
                    kk == k + 1,
                    m >> kk == 0u32,
                    (m >> k) & 1u32 == 0u32,
            ;
        } else if kk >= w {
            assert(m >> k == 0xFFFF_FFFFu32 >> 31u32) by (bit_vector)
                requires
                    k < 31u32,
                    kk == k + 1,
                    m >> kk == 0u32,
                    (m >> k) & 1u32 == 1u32,
            ;
        } else {
            let s: u32 = (32 - (w - kk)) as u32;
            let s2: u32 = (32 - (w - k)) as u32;
            assert(m >> k == 0xFFFF_FFFFu32 >> s2) by (bit_vector)
                requires
                    k < 31u32,
                    kk == k + 1,
                    w <= 32,
                    kk < w,
                    s == 32 - (w - kk),
                    s2 == 32 - (w - k),
                    m >> kk == 0xFFFF_FFFFu32 >> s,
                    (m >> k) & 1u32 == 1u32,
            ;
        }
    }
}

/// Law: a row mask whose bits beyond the declared width are all clear is
/// bounded by two to that width — a packed mask fits its cell.
pub proof fn lemma_mask_fits(m: u32, w: u32)
    requires
        w < 32,
        forall|q: u32| w <= q < 32 ==> (#[trigger] (m >> q)) & 1u32 == 0u32,
    ensures
        m < (1u32 << w),
{
    lemma_bits_zero_value(m, w);
    assert(m < (1u32 << w)) by (bit_vector)
        requires
            w < 32,
            m >> w == 0u32,
    ;
}

/// Law: packing a region where every pixel is fully transparent yields
/// all-zero masks.
pub proof fn lemma_blank_region(
    rows: Seq<u32>,
    alpha: Map<(int, int), u8>,
    x: u32,
    y: u32,
    w: u32,
    h: u32,
)
    requires
        w <= 32,
        packed_region(rows, alpha, x, y, w, h),
        forall|j: int, i: u32| 0 <= j < h && i < w ==> #[trigger] alpha[(x + i, y + j)] == 0,
    ensures
        forall|j: int| 0 <= j < h ==> rows[j] == 0,
{
    assert forall|j: int| 0 <= j < h implies rows[j] == 0 by {
        let m = rows[j];
        assert forall|q: u32| q < 32 implies (#[trigger] (m >> q)) & 1u32 == 0u32 by {
            lemma_bit_is_binary(m, q);
            if q < w {
                let i = (w - 1 - q) as u32;
                assert(alpha[(x + i, y + j)] == 0);
                assert(!row_bit(m, i, w));
                assert((w - 1 - i) as u32 == q);
            }
        }
        lemma_bits_zero_value(m, 0);
        assert(m >> 0u32 == m) by (bit_vector);
    }
}

/// Law: packing a region where every pixel is opaque yields masks with
/// all bits of the declared width set.
pub proof fn lemma_opaque_region(
    rows: Seq<u32>,
    alpha: Map<(int, int), u8>,
    x: u32,
    y: u32,
    w: u32,
    h: u32,
)
    requires
        w <= 32,
        packed_region(rows, alpha, x, y, w, h),
        forall|j: int, i: u32| 0 <= j < h && i < w ==> #[trigger] alpha[(x + i, y + j)] != 0,
    ensures
        forall|j: int| 0 <= j < h ==> rows[j] == full_mask(w),
{
    assert forall|j: int| 0 <= j < h implies rows[j] == full_mask(w) by {
        let m = rows[j];
        assert forall|q: u32| q < 32 implies (#[trigger] (m >> q)) & 1u32 == (if q < w {
            1u32
        } else {
            0u32
        }) by {
            lemma_bit_is_binary(m, q);
            if q < w {
                let i = (w - 1 - q) as u32;
                assert(alpha[(x + i, y + j)] != 0);
                assert(row_bit(m, i, w));
                assert((w - 1 - i) as u32 == q);
            }
        }
        if w == 0 {
            lemma_bits_full_value(m, w, 0);
            assert(m >> 0u32 == m) by (bit_vector);
            assert(1u32 << 0u32 == 1u32) by (bit_vector);
        } else {
            lemma_bits_full_value(m, w, 0);
            assert(m >> 0u32 == m) by (bit_vector);
            if w == 32 {
                assert(0xFFFF_FFFFu32 >> 0u32 == 0xFFFF_FFFFu32) by (bit_vector);
            } else {
                let s: u32 = (32 - w) as u32;
                assert(0xFFFF_FFFFu32 >> s == ((1u32 << w) - 1) as u32) by (bit_vector)
                    requires
                        0 < w < 32,
                        s == 32 - w,
                ;
            }
        }
    }
}

} // verus!
