use vstd::prelude::*;

use crate::geometry::Color;

verus! {

/// The pixel whose red byte is at `pos` has the red, green and blue of `c`.
pub open spec fn rgb_is(d: Seq<u8>, pos: int, c: Color) -> bool {
    d[pos] == c.r && d[pos + 1] == c.g && d[pos + 2] == c.b
}

/// Paints the pixel at `pos` with `wrap` (fully opaque), unless it has the text colour.
pub open spec fn paint_outline(d: Seq<u8>, pos: int, text: Color, wrap: Color) -> Seq<u8> {
    if rgb_is(d, pos, text) {
        d
    } else {
        d.update(pos, wrap.r).update(pos + 1, wrap.g).update(pos + 2, wrap.b).update(pos + 3, 255)
    }
}

/// The byte offset of pixel `x` / `y` in an image of `pitch` bytes per row.
pub open spec fn pixel_pos(x: int, y: int, pitch: int) -> int {
    y * pitch + x * 4
}

/// Visiting pixel `x` / `y` of a `width` x `height` image: if it has the text colour,
/// its left, right, upper and lower neighbours (those inside the image) are painted.
pub open spec fn visit_pixel(
    d: Seq<u8>,
    x: int,
    y: int,
    pitch: int,
    width: int,
    height: int,
    text: Color,
    wrap: Color,
) -> Seq<u8> {
    if rgb_is(d, pixel_pos(x, y, pitch), text) {
        let d1 = if x > 0 {
            paint_outline(d, pixel_pos(x - 1, y, pitch), text, wrap)
        } else {
            d
        };
        let d2 = if x + 1 < width {
            paint_outline(d1, pixel_pos(x + 1, y, pitch), text, wrap)
        } else {
            d1
        };
        let d3 = if y > 0 {
            paint_outline(d2, pixel_pos(x, y - 1, pitch), text, wrap)
        } else {
            d2
        };
        if y + 1 < height {
            paint_outline(d3, pixel_pos(x, y + 1, pitch), text, wrap)
        } else {
            d3
        }
    } else {
        d
    }
}

/// The image after visiting the first `k` pixels of row `y`, left to right.
pub open spec fn outline_row(
    d: Seq<u8>,
    y: int,
    k: int,
    pitch: int,
    width: int,
    height: int,
    text: Color,
    wrap: Color,
) -> Seq<u8>
    decreases k,
{
    if k <= 0 {
        d
    } else {
        visit_pixel(
            outline_row(d, y, k - 1, pitch, width, height, text, wrap),
            k - 1,
            y,
            pitch,
            width,
            height,
            text,
            wrap,
        )
    }
}

/// The image after visiting the first `k` rows, top to bottom.
pub open spec fn outline_rows(
    d: Seq<u8>,
    k: int,
    pitch: int,
    width: int,
    height: int,
    text: Color,
    wrap: Color,
) -> Seq<u8>
    decreases k,
{
    if k <= 0 {
        d
    } else {
        outline_row(
            outline_rows(d, k - 1, pitch, width, height, text, wrap),
            k - 1,
            width,
            pitch,
            width,
            height,
            text,
            wrap,
        )
    }
}

/// The pixel buffer is large enough for a `width` x `height` RGBA image with rows of
/// `pitch` bytes.
pub open spec fn image_fits(len: int, pitch: int, width: int, height: int) -> bool {
    &&& width * 4 <= pitch
    &&& height * pitch <= len
}

proof fn lemma_pixel_in_bounds(x: int, y: int, pitch: int, width: int, height: int, len: int)
    requires
        0 <= x < width,
        0 <= y < height,
        image_fits(len, pitch, width, height),
    ensures
        0 <= pixel_pos(x, y, pitch),
        pixel_pos(x, y, pitch) + 3 < len,
{
    assert(0 <= y * pitch + x * 4) by (nonlinear_arith)
        requires
            0 <= x,
            0 <= y,
            0 <= width * 4 <= pitch,
            0 <= x < width,
    ;
    assert(y * pitch + x * 4 + 3 < height * pitch) by (nonlinear_arith)
        requires
            0 <= x < width,
            0 <= y < height,
            width * 4 <= pitch,
    ;
}

proof fn lemma_visit_len(
    d: Seq<u8>,
    x: int,
    y: int,
    pitch: int,
    width: int,
    height: int,
    text: Color,
    wrap: Color,
)
    requires
        0 <= x < width,
        0 <= y < height,
        image_fits(d.len() as int, pitch, width, height),
    ensures
        visit_pixel(d, x, y, pitch, width, height, text, wrap).len() == d.len(),
{
    let len = d.len() as int;
    lemma_pixel_in_bounds(x, y, pitch, width, height, len);
    if x > 0 {
        lemma_pixel_in_bounds(x - 1, y, pitch, width, height, len);
    }
    if x + 1 < width {
        lemma_pixel_in_bounds(x + 1, y, pitch, width, height, len);
    }
    if y > 0 {
        lemma_pixel_in_bounds(x, y - 1, pitch, width, height, len);
    }
    if y + 1 < height {
        lemma_pixel_in_bounds(x, y + 1, pitch, width, height, len);
    }
}

proof fn lemma_row_len(
    d: Seq<u8>,
    y: int,
    k: int,
    pitch: int,
    width: int,
    height: int,
    text: Color,
    wrap: Color,
)
    requires
        0 <= k <= width,
        0 <= y < height,
        image_fits(d.len() as int, pitch, width, height),
    ensures
        outline_row(d, y, k, pitch, width, height, text, wrap).len() == d.len(),
    decreases k,
{
    if k > 0 {
        lemma_row_len(d, y, k - 1, pitch, width, height, text, wrap);
        lemma_visit_len(
            outline_row(d, y, k - 1, pitch, width, height, text, wrap),
            k - 1,
            y,
            pitch,
            width,
            height,
            text,
            wrap,
        );
    }
}

proof fn lemma_rows_len(
    d: Seq<u8>,
    k: int,
    pitch: int,
    width: int,
    height: int,
    text: Color,
    wrap: Color,
)
    requires
        0 <= k <= height,
        0 <= width,
        image_fits(d.len() as int, pitch, width, height),
    ensures
        outline_rows(d, k, pitch, width, height, text, wrap).len() == d.len(),
    decreases k,
{
    if k > 0 {
        lemma_rows_len(d, k - 1, pitch, width, height, text, wrap);
        lemma_row_len(
            outline_rows(d, k - 1, pitch, width, height, text, wrap),
            k - 1,
            width,
            pitch,
            width,
            height,
            text,
            wrap,
        );
    }
}

/// Paints the pixel at `pos` with `wrap` unless it has the text colour.
fn paint(data: &mut Vec<u8>, pos: usize, text: Color, wrap: Color)
    requires
        pos + 3 < old(data)@.len(),
    ensures
        final(data)@ == paint_outline(old(data)@, pos as int, text, wrap),
{
    let _n = data.len();
    if !(data[pos] == text.r && data[pos + 1] == text.g && data[pos + 2] == text.b) {
        data.set(pos, wrap.r);
        data.set(pos + 1, wrap.g);
        data.set(pos + 2, wrap.b);
        data.set(pos + 3, 255);
    }
}

/// Surrounds the text of a rendered RGBA image with an outline: every pixel next to
/// (left, right, above or below) a pixel of the text colour `text` gets the colour
/// `wrap`, fully opaque, unless it has the text colour itself. Pixels are visited
/// row by row, left to right, so outline pixels painted earlier count for the later
/// ones when `wrap` has the text colour.
#[verifier::rlimit(40)]
pub fn outline_text(
    data: &mut Vec<u8>,
    pitch: usize,
    width: usize,
    height: usize,
    text: Color,
    wrap: Color,
)
    requires
        image_fits(old(data)@.len() as int, pitch as int, width as int, height as int),
    ensures
        final(data)@ == outline_rows(
            old(data)@,
            height as int,
            pitch as int,
            width as int,
            height as int,
            text,
            wrap,
        ),
{
    let ghost d0 = data@;
    let n = data.len();
    let ghost len = n as int;
    let mut y: usize = 0;
    while y < height
        invariant
            y <= height,
            len == n,
            image_fits(len, pitch as int, width as int, height as int),
            data@.len() == len,
            d0.len() == len,
            data@ == outline_rows(d0, y as int, pitch as int, width as int, height as int, text, wrap),
        decreases height - y,
    {
        let ghost row_start = data@;
        proof {
            assert(y * pitch <= height * pitch) by (nonlinear_arith)
                requires
                    y < height,
            ;
        }
        let y_pitch = y * pitch;
        let mut x: usize = 0;
        while x < width
            invariant
                x <= width,
                y < height,
                y_pitch == y * pitch,
                len == n,
                image_fits(len, pitch as int, width as int, height as int),
                data@.len() == len,
                row_start.len() == len,
                data@ == outline_row(row_start, y as int, x as int, pitch as int, width as int, height as int, text, wrap),
            decreases width - x,
        {
            proof {
                lemma_pixel_in_bounds(x as int, y as int, pitch as int, width as int, height as int, len);
                if x > 0 {
                    lemma_pixel_in_bounds(x - 1, y as int, pitch as int, width as int, height as int, len);
                }
                if x + 1 < width {
                    lemma_pixel_in_bounds(x + 1, y as int, pitch as int, width as int, height as int, len);
                }
                if y > 0 {
                    lemma_pixel_in_bounds(x as int, y - 1, pitch as int, width as int, height as int, len);
                    assert((y - 1) * pitch == y * pitch - pitch) by (nonlinear_arith);
                }
                if y + 1 < height {
                    lemma_pixel_in_bounds(x as int, y + 1, pitch as int, width as int, height as int, len);
                    assert((y + 1) * pitch == y * pitch + pitch) by (nonlinear_arith);
                }
            }
            let x_pos = x * 4;
            let pos = y_pitch + x_pos;
            let ghost before = data@;
            if data[pos] == text.r && data[pos + 1] == text.g && data[pos + 2] == text.b {
                if x > 0 {
                    paint(data, y_pitch + (x_pos - 4), text, wrap);
                }
                if x + 1 < width {
                    paint(data, y_pitch + (x_pos + 4), text, wrap);
                }
                if y > 0 {
                    paint(data, (y_pitch - pitch) + x_pos, text, wrap);
                }
                if y + 1 < height {
                    paint(data, (y_pitch + pitch) + x_pos, text, wrap);
                }
            }
            proof {
                lemma_visit_len(before, x as int, y as int, pitch as int, width as int, height as int, text, wrap);
            }
            x = x + 1;
        }
        y = y + 1;
    }
}

/// Whether the pixel at `x` / `y` has the text colour.
pub open spec fn text_at(d: Seq<u8>, x: int, y: int, pitch: int, text: Color) -> bool {
    rgb_is(d, pixel_pos(x, y, pitch), text)
}

/// Channel `c` (red, green, blue, alpha) of a pixel painted with `wrap`, fully opaque.
pub open spec fn wrap_byte(wrap: Color, c: int) -> u8 {
    if c == 0 {
        wrap.r
    } else if c == 1 {
        wrap.g
    } else if c == 2 {
        wrap.b
    } else {
        255
    }
}

/// Whether `a` / `b` is a neighbour (left, right, above, below) of `x` / `y` inside a
/// `width` x `height` image.
pub open spec fn is_neighbour(a: int, b: int, x: int, y: int, width: int, height: int) -> bool {
    ||| (a == x - 1 && b == y && x > 0)
    ||| (a == x + 1 && b == y && x + 1 < width)
    ||| (a == x && b == y - 1 && y > 0)
    ||| (a == x && b == y + 1 && y + 1 < height)
}

/// Whether the pixel at `x` / `y` has a neighbour with the text colour.
pub open spec fn touches_text(
    d: Seq<u8>,
    x: int,
    y: int,
    pitch: int,
    width: int,
    height: int,
    text: Color,
) -> bool {
    ||| (x > 0 && text_at(d, x - 1, y, pitch, text))
    ||| (x + 1 < width && text_at(d, x + 1, y, pitch, text))
    ||| (y > 0 && text_at(d, x, y - 1, pitch, text))
    ||| (y + 1 < height && text_at(d, x, y + 1, pitch, text))
}

/// The image `d0` where the pixels picked by `marks` that do not have the text colour
/// are painted with `wrap`, fully opaque; the other bytes (other pixels, and the padding
/// at the end of the rows) are those of `d0`.
pub open spec fn marked(
    d0: Seq<u8>,
    marks: spec_fn(int, int) -> bool,
    pitch: int,
    width: int,
    height: int,
    text: Color,
    wrap: Color,
) -> Seq<u8> {
    Seq::new(
        d0.len(),
        |i: int|
            {
                let y = i / pitch;
                let x = (i % pitch) / 4;
                if y < height && i % pitch < 4 * width && marks(x, y) && !text_at(d0, x, y, pitch, text) {
                    wrap_byte(wrap, (i % pitch) % 4)
                } else {
                    d0[i]
                }
            },
    )
}

/// The image `d0` with its text outlined: every pixel that does not have the text colour
/// but touches one that has it is painted with `wrap`, fully opaque; nothing else
/// changes.
pub open spec fn outlined(d0: Seq<u8>, pitch: int, width: int, height: int, text: Color, wrap: Color) -> Seq<
    u8,
> {
    marked(d0, |a: int, b: int| touches_text(d0, a, b, pitch, width, height, text), pitch, width, height, text, wrap)
}

/// The pixels with a text-coloured neighbour among the first `n` pixels, in the order
/// they are visited (row by row, left to right).
pub open spec fn touched(
    d0: Seq<u8>,
    n: int,
    pitch: int,
    width: int,
    height: int,
    text: Color,
) -> spec_fn(int, int) -> bool {
    |a: int, b: int|
        {
            ||| (a > 0 && text_at(d0, a - 1, b, pitch, text) && b * width + (a - 1) < n)
            ||| (a + 1 < width && text_at(d0, a + 1, b, pitch, text) && b * width + (a + 1) < n)
            ||| (b > 0 && text_at(d0, a, b - 1, pitch, text) && (b - 1) * width + a < n)
            ||| (b + 1 < height && text_at(d0, a, b + 1, pitch, text) && (b + 1) * width + a < n)
        }
}

/// Byte `c` of pixel `x` / `y` is found back from its offset.
proof fn lemma_decode(x: int, y: int, c: int, pitch: int, width: int, height: int)
    requires
        0 <= x < width,
        0 <= y < height,
        0 <= c < 4,
        4 * width <= pitch,
    ensures
        (pixel_pos(x, y, pitch) + c) / pitch == y,
        (pixel_pos(x, y, pitch) + c) % pitch == 4 * x + c,
        (4 * x + c) / 4 == x,
        (4 * x + c) % 4 == c,
{
    let i = pixel_pos(x, y, pitch) + c;
    assert(i == y * pitch + (4 * x + c));
    vstd::arithmetic::div_mod::lemma_fundamental_div_mod_converse_div(i, pitch, y, 4 * x + c);
    vstd::arithmetic::div_mod::lemma_fundamental_div_mod_converse_mod(i, pitch, y, 4 * x + c);
    vstd::arithmetic::div_mod::lemma_fundamental_div_mod_converse_div(4 * x + c, 4, x, c);
    vstd::arithmetic::div_mod::lemma_fundamental_div_mod_converse_mod(4 * x + c, 4, x, c);
}

/// A byte of the image belongs to the pixel its offset names.
proof fn lemma_encode(i: int, pitch: int, width: int)
    requires
        0 <= i,
        0 < pitch,
        i % pitch < 4 * width,
    ensures
        i == pixel_pos((i % pitch) / 4, i / pitch, pitch) + (i % pitch) % 4,
        0 <= (i % pitch) / 4 < width,
        0 <= i / pitch,
        0 <= (i % pitch) % 4 < 4,
{
    vstd::arithmetic::div_mod::lemma_fundamental_div_mod(i, pitch);
    vstd::arithmetic::div_mod::lemma_fundamental_div_mod(i % pitch, 4);
    vstd::arithmetic::div_mod::lemma_mod_pos_bound(i, pitch);
    vstd::arithmetic::div_mod::lemma_div_pos_is_pos(i, pitch);
    assert(pitch * (i / pitch) == (i / pitch) * pitch) by (nonlinear_arith);
}

/// Marking never changes which pixels have the text colour, as long as the outline
/// colour differs from the text colour.
proof fn lemma_text_kept(
    d0: Seq<u8>,
    marks: spec_fn(int, int) -> bool,
    x: int,
    y: int,
    pitch: int,
    width: int,
    height: int,
    text: Color,
    wrap: Color,
)
    requires
        0 <= x < width,
        0 <= y < height,
        image_fits(d0.len() as int, pitch, width, height),
        !(wrap.r == text.r && wrap.g == text.g && wrap.b == text.b),
    ensures
        text_at(marked(d0, marks, pitch, width, height, text, wrap), x, y, pitch, text) == text_at(
            d0,
            x,
            y,
            pitch,
            text,
        ),
{
    let m = marked(d0, marks, pitch, width, height, text, wrap);
    let pos = pixel_pos(x, y, pitch);
    lemma_pixel_in_bounds(x, y, pitch, width, height, d0.len() as int);
    lemma_decode(x, y, 0, pitch, width, height);
    lemma_decode(x, y, 1, pitch, width, height);
    lemma_decode(x, y, 2, pitch, width, height);
    assert(pos + 1 == pixel_pos(x, y, pitch) + 1);
    if marks(x, y) && !text_at(d0, x, y, pitch, text) {
        assert(m[pos] == wrap.r);
        assert(m[pos + 1] == wrap.g);
        assert(m[pos + 2] == wrap.b);
    } else {
        assert(m[pos] == d0[pos]);
        assert(m[pos + 1] == d0[pos + 1]);
        assert(m[pos + 2] == d0[pos + 2]);
    }
}

/// Painting pixel `qx` / `qy` of a marked image marks it too.
proof fn lemma_paint_marked(
    d0: Seq<u8>,
    marks: spec_fn(int, int) -> bool,
    qx: int,
    qy: int,
    pitch: int,
    width: int,
    height: int,
    text: Color,
    wrap: Color,
)
    requires
        0 <= qx < width,
        0 <= qy < height,
        0 < pitch,
        image_fits(d0.len() as int, pitch, width, height),
        !(wrap.r == text.r && wrap.g == text.g && wrap.b == text.b),
    ensures
        paint_outline(
            marked(d0, marks, pitch, width, height, text, wrap),
            pixel_pos(qx, qy, pitch),
            text,
            wrap,
        ) == marked(
            d0,
            |a: int, b: int| marks(a, b) || (a == qx && b == qy),
            pitch,
            width,
            height,
            text,
            wrap,
        ),
{
    let m = marked(d0, marks, pitch, width, height, text, wrap);
    let marks2 = |a: int, b: int| marks(a, b) || (a == qx && b == qy);
    let m2 = marked(d0, marks2, pitch, width, height, text, wrap);
    let pos = pixel_pos(qx, qy, pitch);
    lemma_pixel_in_bounds(qx, qy, pitch, width, height, d0.len() as int);
    lemma_text_kept(d0, marks, qx, qy, pitch, width, height, text, wrap);
    let p = paint_outline(m, pos, text, wrap);
    assert forall|i: int| 0 <= i < d0.len() implies p[i] == m2[i] by {
        if i / pitch < height && i % pitch < 4 * width {
            lemma_encode(i, pitch, width);
            let x = (i % pitch) / 4;
            let y = i / pitch;
            let c = (i % pitch) % 4;
            if x == qx && y == qy {
                assert(i == pos + c);
                if !text_at(d0, qx, qy, pitch, text) {
                    assert(!rgb_is(m, pos, text));
                }
            } else {
                if pos <= i <= pos + 3 {
                    lemma_decode(qx, qy, i - pos, pitch, width, height);
                }
                assert(!(pos <= i <= pos + 3));
            }
        } else {
            if pos <= i <= pos + 3 {
                lemma_decode(qx, qy, i - pos, pitch, width, height);
            }
        }
    }
    assert(p =~= m2);
}

/// Marked images agree when their marks agree on the pixels of the image.
proof fn lemma_marked_same(
    d0: Seq<u8>,
    m1: spec_fn(int, int) -> bool,
    m2: spec_fn(int, int) -> bool,
    pitch: int,
    width: int,
    height: int,
    text: Color,
    wrap: Color,
)
    requires
        0 < pitch,
        forall|a: int, b: int| 0 <= a < width && 0 <= b < height ==> #[trigger] m1(a, b) == m2(a, b),
    ensures
        marked(d0, m1, pitch, width, height, text, wrap) == marked(d0, m2, pitch, width, height, text, wrap),
{
    let s1 = marked(d0, m1, pitch, width, height, text, wrap);
    let s2 = marked(d0, m2, pitch, width, height, text, wrap);
    assert forall|i: int| 0 <= i < d0.len() implies s1[i] == s2[i] by {
        if i / pitch < height && i % pitch < 4 * width {
            lemma_encode(i, pitch, width);
        }
    }
    assert(s1 =~= s2);
}

/// Visiting a pixel of a marked image marks, when it has the text colour, its
/// neighbours.
proof fn lemma_visit_marked(
    d0: Seq<u8>,
    marks: spec_fn(int, int) -> bool,
    x: int,
    y: int,
    pitch: int,
    width: int,
    height: int,
    text: Color,
    wrap: Color,
)
    requires
        0 <= x < width,
        0 <= y < height,
        0 < pitch,
        image_fits(d0.len() as int, pitch, width, height),
        !(wrap.r == text.r && wrap.g == text.g && wrap.b == text.b),
    ensures
        visit_pixel(marked(d0, marks, pitch, width, height, text, wrap), x, y, pitch, width, height, text, wrap)
            == marked(
            d0,
            |a: int, b: int| marks(a, b) || (text_at(d0, x, y, pitch, text) && is_neighbour(a, b, x, y, width, height)),
            pitch,
            width,
            height,
            text,
            wrap,
        ),
{
    let target = |a: int, b: int|
        marks(a, b) || (text_at(d0, x, y, pitch, text) && is_neighbour(a, b, x, y, width, height));
    let d = marked(d0, marks, pitch, width, height, text, wrap);
    lemma_text_kept(d0, marks, x, y, pitch, width, height, text, wrap);
    if !text_at(d0, x, y, pitch, text) {
        lemma_marked_same(d0, marks, target, pitch, width, height, text, wrap);
    } else {
        let m1 = if x > 0 {
            |a: int, b: int| marks(a, b) || (a == x - 1 && b == y)
        } else {
            marks
        };
        if x > 0 {
            lemma_paint_marked(d0, marks, x - 1, y, pitch, width, height, text, wrap);
        }
        let d1 = marked(d0, m1, pitch, width, height, text, wrap);
        let m2 = if x + 1 < width {
            |a: int, b: int| m1(a, b) || (a == x + 1 && b == y)
        } else {
            m1
        };
        if x + 1 < width {
            lemma_paint_marked(d0, m1, x + 1, y, pitch, width, height, text, wrap);
        }
        let d2 = marked(d0, m2, pitch, width, height, text, wrap);
        let m3 = if y > 0 {
            |a: int, b: int| m2(a, b) || (a == x && b == y - 1)
        } else {
            m2
        };
        if y > 0 {
            lemma_paint_marked(d0, m2, x, y - 1, pitch, width, height, text, wrap);
        }
        let d3 = marked(d0, m3, pitch, width, height, text, wrap);
        let m4 = if y + 1 < height {
            |a: int, b: int| m3(a, b) || (a == x && b == y + 1)
        } else {
            m3
        };
        if y + 1 < height {
            lemma_paint_marked(d0, m3, x, y + 1, pitch, width, height, text, wrap);
        }
        assert(visit_pixel(d, x, y, pitch, width, height, text, wrap) == marked(
            d0,
            m4,
            pitch,
            width,
            height,
            text,
            wrap,
        ));
        assert forall|a: int, b: int| 0 <= a < width && 0 <= b < height implies #[trigger] m4(a, b)
            == target(a, b) by {}
        lemma_marked_same(d0, m4, target, pitch, width, height, text, wrap);
    }
}

/// Two pixels of a row-major image with the same visiting index are the same pixel.
proof fn lemma_index_unique(a: int, b: int, x: int, y: int, width: int)
    requires
        0 <= a < width,
        0 <= x < width,
        b * width + a == y * width + x,
    ensures
        a == x,
        b == y,
{
    vstd::arithmetic::div_mod::lemma_fundamental_div_mod_converse_div(b * width + a, width, b, a);
    vstd::arithmetic::div_mod::lemma_fundamental_div_mod_converse_div(y * width + x, width, y, x);
    vstd::arithmetic::div_mod::lemma_fundamental_div_mod_converse_mod(b * width + a, width, b, a);
    vstd::arithmetic::div_mod::lemma_fundamental_div_mod_converse_mod(y * width + x, width, y, x);
}

/// Visiting one more pixel adds its neighbours to the touched pixels when it has the
/// text colour.
proof fn lemma_touched_step(
    d0: Seq<u8>,
    x: int,
    y: int,
    a: int,
    b: int,
    pitch: int,
    width: int,
    height: int,
    text: Color,
)
    requires
        0 <= x < width,
        0 <= y < height,
        0 <= a < width,
        0 <= b < height,
    ensures
        touched(d0, y * width + x + 1, pitch, width, height, text)(a, b) == (touched(
            d0,
            y * width + x,
            pitch,
            width,
            height,
            text,
        )(a, b) || (text_at(d0, x, y, pitch, text) && is_neighbour(a, b, x, y, width, height))),
{
    let n = y * width + x;
    if a > 0 && b * width + (a - 1) == n {
        lemma_index_unique(a - 1, b, x, y, width);
    }
    if a + 1 < width && b * width + (a + 1) == n {
        lemma_index_unique(a + 1, b, x, y, width);
    }
    if b > 0 && (b - 1) * width + a == n {
        lemma_index_unique(a, b - 1, x, y, width);
    }
    if b + 1 < height && (b + 1) * width + a == n {
        lemma_index_unique(a, b + 1, x, y, width);
    }
    if is_neighbour(a, b, x, y, width, height) {
        if a == x - 1 && b == y {
            assert(b * width + (a + 1) == n);
        }
        if a == x + 1 && b == y {
            assert(b * width + (a - 1) == n);
        }
        if a == x && b == y - 1 {
            assert((b + 1) * width + a == n) by (nonlinear_arith)
                requires
                    b == y - 1,
                    a == x,
                    n == y * width + x,
            ;
        }
        if a == x && b == y + 1 {
            assert((b - 1) * width + a == n) by (nonlinear_arith)
                requires
                    b == y + 1,
                    a == x,
                    n == y * width + x,
            ;
        }
    }
}

/// Visiting the first `k` pixels of row `y` marks the pixels touched so far.
proof fn lemma_row_marked(
    d0: Seq<u8>,
    y: int,
    k: int,
    pitch: int,
    width: int,
    height: int,
    text: Color,
    wrap: Color,
)
    requires
        0 <= y < height,
        0 <= k <= width,
        0 < pitch,
        image_fits(d0.len() as int, pitch, width, height),
        !(wrap.r == text.r && wrap.g == text.g && wrap.b == text.b),
    ensures
        outline_row(
            marked(d0, touched(d0, y * width, pitch, width, height, text), pitch, width, height, text, wrap),
            y,
            k,
            pitch,
            width,
            height,
            text,
            wrap,
        ) == marked(d0, touched(d0, y * width + k, pitch, width, height, text), pitch, width, height, text, wrap),
    decreases k,
{
    if k > 0 {
        lemma_row_marked(d0, y, k - 1, pitch, width, height, text, wrap);
        let before = touched(d0, y * width + (k - 1), pitch, width, height, text);
        lemma_visit_marked(d0, before, k - 1, y, pitch, width, height, text, wrap);
        let visited = |a: int, b: int|
            before(a, b) || (text_at(d0, k - 1, y, pitch, text) && is_neighbour(a, b, k - 1, y, width, height));
        let after = touched(d0, y * width + k, pitch, width, height, text);
        assert forall|a: int, b: int| 0 <= a < width && 0 <= b < height implies #[trigger] visited(a, b)
            == after(a, b) by {
            lemma_touched_step(d0, k - 1, y, a, b, pitch, width, height, text);
        }
        lemma_marked_same(d0, visited, after, pitch, width, height, text, wrap);
    }
}

/// Visiting the first `k` rows marks the pixels touched so far.
proof fn lemma_rows_marked(
    d0: Seq<u8>,
    k: int,
    pitch: int,
    width: int,
    height: int,
    text: Color,
    wrap: Color,
)
    requires
        0 <= k <= height,
        0 <= width,
        0 < pitch,
        image_fits(d0.len() as int, pitch, width, height),
        !(wrap.r == text.r && wrap.g == text.g && wrap.b == text.b),
    ensures
        outline_rows(d0, k, pitch, width, height, text, wrap) == marked(
            d0,
            touched(d0, k * width, pitch, width, height, text),
            pitch,
            width,
            height,
            text,
            wrap,
        ),
    decreases k,
{
    if k == 0 {
        let none = |a: int, b: int| false;
        let start = touched(d0, 0, pitch, width, height, text);
        assert forall|a: int, b: int| 0 <= a < width && 0 <= b < height implies #[trigger] start(a, b)
            == none(a, b) by {
            assert(b * width >= 0) by (nonlinear_arith)
                requires
                    b >= 0,
                    width >= 0,
            ;
            if b > 0 {
                assert((b - 1) * width >= 0) by (nonlinear_arith)
                    requires
                        b >= 1,
                        width >= 0,
                ;
            }
            assert((b + 1) * width >= 0) by (nonlinear_arith)
                requires
                    b >= 0,
                    width >= 0,
            ;
        }
        lemma_marked_same(d0, start, none, pitch, width, height, text, wrap);
        assert(marked(d0, none, pitch, width, height, text, wrap) =~= d0);
        assert(0 * width == 0);
    } else {
        lemma_rows_marked(d0, k - 1, pitch, width, height, text, wrap);
        lemma_row_marked(d0, k - 1, width, pitch, width, height, text, wrap);
        assert((k - 1) * width + width == k * width) by (nonlinear_arith);
    }
}

/// The outline the text gets: when the outline colour differs from the text colour,
/// outlining paints exactly the pixels that do not have the text colour but touch one
/// that has it, with the outline colour, fully opaque, and leaves every other byte of the
/// image as it was.
pub proof fn lemma_outline_text_result(
    d0: Seq<u8>,
    pitch: int,
    width: int,
    height: int,
    text: Color,
    wrap: Color,
)
    requires
        0 < pitch,
        0 <= width,
        0 <= height,
        image_fits(d0.len() as int, pitch, width, height),
        !(wrap.r == text.r && wrap.g == text.g && wrap.b == text.b),
    ensures
        outline_rows(d0, height, pitch, width, height, text, wrap) == outlined(
            d0,
            pitch,
            width,
            height,
            text,
            wrap,
        ),
{
    lemma_rows_marked(d0, height, pitch, width, height, text, wrap);
    let all = touched(d0, height * width, pitch, width, height, text);
    let touching = |a: int, b: int| touches_text(d0, a, b, pitch, width, height, text);
    assert forall|a: int, b: int| 0 <= a < width && 0 <= b < height implies #[trigger] all(a, b)
        == touching(a, b) by {
        assert(b * width + width <= height * width) by (nonlinear_arith)
            requires
                b < height,
                width >= 0,
        ;
        if b + 1 < height {
            assert((b + 1) * width + width <= height * width) by (nonlinear_arith)
                requires
                    b + 1 < height,
                    width >= 0,
            ;
            assert((b + 1) * width == b * width + width) by (nonlinear_arith);
        }
        if b > 0 {
            assert((b - 1) * width == b * width - width) by (nonlinear_arith);
        }
    }
    lemma_marked_same(d0, all, touching, pitch, width, height, text, wrap);
}

} // verus!
