//! The text layout engine: a single left-to-right, top-to-bottom sweep
//! that classifies each character, wraps on cell-width overflow, and
//! truncates hard when a row leaves the bounding box.

use vstd::prelude::*;
use crate::lang::{spec_language, ucs2_language, Languages};

verus! {

/// Pixel width of the cell a class occupies; skipped classes occupy none.
pub open spec fn spec_cell_width(lang: Languages) -> int {
    match lang {
        Languages::Ascii => 8,
        Languages::Hangul => 16,
        _ => 0,
    }
}

/// One positioned glyph: the character's code point, its class, and the
/// pixel position its cell was placed at.
#[derive(Clone, Copy, Debug, PartialEq, Eq, Structural)]
pub struct Placement {
    pub x: i32,
    pub y: i32,
    pub code: u32,
    pub lang: Languages,
}

/// The placements one layout sweep produces, starting with the cursor at
/// `(cx, cy)` inside the box at `(ox, oy)` of size `w` by `h`. Characters
/// classified ASCII or Hangul are drawn; every other class is skipped
/// with the cursor untouched. Before a character is drawn the cursor
/// wraps to the next line's start once its x-offset has reached the box
/// width; if the wrapped position's y-offset exceeds the box height the
/// sweep stops and the rest of the string produces nothing.
pub open spec fn spec_layout(
    chars: Seq<char>,
    ox: int,
    oy: int,
    w: int,
    h: int,
    cx: int,
    cy: int,
) -> Seq<Placement>
    decreases chars.len(),
{
    if chars.len() == 0 {
        Seq::empty()
    } else {
        let c = chars[0];
        let lang = spec_language(c as u32);
        if spec_cell_width(lang) == 0 {
            spec_layout(chars.drop_first(), ox, oy, w, h, cx, cy)
        } else {
            let nx = if cx - ox >= w {
                ox
            } else {
                cx
            };
            let ny = if cx - ox >= w {
                cy + 16
            } else {
                cy
            };
            if ny - oy > h {
                Seq::empty()
            } else {
                Seq::empty().push(
                    Placement { x: nx as i32, y: ny as i32, code: c as u32, lang },
                ) + spec_layout(
                    chars.drop_first(),
                    ox,
                    oy,
                    w,
                    h,
                    nx + spec_cell_width(lang),
                    ny,
                )
            }
        }
    }
}

/// Lays a string out inside the box at `(x, y)` of size `w` by `h`:
/// returns, in drawing order, each drawn character with the pixel
/// position of its cell. The bounds keep every cursor position inside
/// `i32` range.
pub fn layout_string(chars: &Vec<char>, x: i32, y: i32, w: u32, h: u32) -> (r: Vec<Placement>)
    requires
        -0x1000_0000 <= x <= 0x1000_0000,
        -0x1000_0000 <= y <= 0x1000_0000,
        w <= 0x1000_0000,
        h <= 0x1000_0000,
    ensures
        r@ == spec_layout(chars@, x as int, y as int, w as int, h as int, x as int, y as int),
{
    let ghost full = spec_layout(
        chars@,
        x as int,
        y as int,
        w as int,
        h as int,
        x as int,
        y as int,
    );
    let mut r: Vec<Placement> = Vec::new();
    let mut cx: i32 = x;
    let mut cy: i32 = y;
    let mut idx: usize = 0;
    proof {
        assert(chars@.skip(0) =~= chars@);
        assert(r@ + full =~= full);
    }
    while idx < chars.len()
        invariant
            idx <= chars@.len(),
            -0x1000_0000 <= x <= 0x1000_0000,
            -0x1000_0000 <= y <= 0x1000_0000,
            w <= 0x1000_0000,
            h <= 0x1000_0000,
            x <= cx <= x + w + 16,
            y <= cy <= y + h,
            full == r@ + spec_layout(
                chars@.skip(idx as int),
                x as int,
                y as int,
                w as int,
                h as int,
                cx as int,
                cy as int,
            ),
        decreases chars@.len() - idx,
    {
        let ghost pre_rest = chars@.skip(idx as int);
        proof {
            assert(pre_rest[0] == chars@[idx as int]);
            assert(pre_rest.drop_first() =~= chars@.skip(idx as int + 1));
        }
        let c = chars[idx];
        let code = c as u32;
        let lang = ucs2_language(code);
        let cw: i32 = match lang {
            Languages::Ascii => 8,
            Languages::Hangul => 16,
            _ => 0,
        };
        if cw > 0 {
            let mut nx = cx;
            let mut ny = cy;
            if cx - x >= w as i32 {
                nx = x;
                ny = cy + 16;
            }
            if ny - y > h as i32 {
                proof {
                    assert(spec_layout(
                        pre_rest,
                        x as int,
                        y as int,
                        w as int,
                        h as int,
                        cx as int,
                        cy as int,
                    ) =~= Seq::<Placement>::empty());
                    assert(chars@.skip(chars@.len() as int) =~= Seq::<char>::empty());
                    assert(r@ + Seq::<Placement>::empty() =~= r@);
                }
                idx = chars.len();
            } else {
                let ghost old_r = r@;
                r.push(Placement { x: nx, y: ny, code, lang });
                cx = nx + cw;
                cy = ny;
                proof {
                    let tail = spec_layout(
                        chars@.skip(idx as int + 1),
                        x as int,
                        y as int,
                        w as int,
                        h as int,
                        cx as int,
                        cy as int,
                    );
                    let p = Placement { x: nx, y: ny, code, lang };
                    assert(old_r + (Seq::<Placement>::empty().push(p) + tail) =~= r@ + tail);
                }
                idx = idx + 1;
            }
        } else {
            idx = idx + 1;
        }
    }
    proof {
        assert(chars@.skip(chars@.len() as int) =~= Seq::<char>::empty());
        assert(r@ + Seq::<Placement>::empty() =~= r@);
    }
    r
}

/// Law: a character outside every renderable class contributes nothing
/// to a layout sweep — the sweep of a string containing it equals the
/// sweep of the string without it, so the cursor after it equals the
/// cursor before it and every neighbor lands where it would anyway.
pub proof fn lemma_other_skipped(
    pre: Seq<char>,
    c: char,
    post: Seq<char>,
    ox: int,
    oy: int,
    w: int,
    h: int,
    cx: int,
    cy: int,
)
    requires
        spec_language(c as u32) == Languages::Other,
    ensures
        spec_layout(pre + seq![c] + post, ox, oy, w, h, cx, cy) == spec_layout(
            pre + post,
            ox,
            oy,
            w,
            h,
            cx,
            cy,
        ),
    decreases pre.len(),
{
    let a = pre + seq![c] + post;
    let b = pre + post;
    if pre.len() == 0 {
        assert(a[0] == c);
        assert(a.drop_first() =~= post);
        assert(b =~= post);
    } else {
        assert(a[0] == pre[0]);
        assert(b[0] == pre[0]);
        assert(a.drop_first() =~= pre.drop_first() + seq![c] + post);
        assert(b.drop_first() =~= pre.drop_first() + post);
        let lang = spec_language(pre[0] as u32);
        if spec_cell_width(lang) == 0 {
            lemma_other_skipped(pre.drop_first(), c, post, ox, oy, w, h, cx, cy);
        } else {
            let nx = if cx - ox >= w {
                ox
            } else {
                cx
            };
            let ny = if cx - ox >= w {
                cy + 16
            } else {
                cy
            };
            if ny - oy > h {
            } else {
                lemma_other_skipped(
                    pre.drop_first(),
                    c,
                    post,
                    ox,
                    oy,
                    w,
                    h,
                    nx + spec_cell_width(lang),
                    ny,
                );
            }
        }
    }
}

} // verus!
