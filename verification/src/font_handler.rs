use vstd::prelude::*;

use crate::geometry::{half_i32, half_toward_zero, Color, Rect};
use crate::texture_holder::TextureHolder;

verus! {

/// Where a character sits in a font map.
#[derive(Clone, Copy, PartialEq, Eq, Debug, Structural)]
pub struct CharInfo {
    pub c: char,
    pub x: i32,
    pub height: u32,
    pub width: u32,
}

/// A texture holding every supported character of a font in one size and colour,
/// side by side.
pub struct FontHandler<T> {
    pub texture: TextureHolder<T>,
    pub size: u16,
    pub color: Color,
    pub inner: Vec<CharInfo>,
}

/// The characters of every font map, in the order they are placed in it.
pub const FONT_CHARACTERS: &'static str = "ABCDEFGHIJKLMNOPQRSTUVWXYZ abcdefghijklmnopqrstuvwxyz0123456789ÇÀÉÈÊÙÛçàéêùû#(){}[]_&+-*/%='\",;.?:!";

/// The glyphs of a font map: the `i`-th character of `FONT_CHARACTERS` with the width
/// and height (`sizes[i]`) that rendering it alone gave.
pub fn font_glyphs(sizes: &Vec<(u32, u32)>) -> (r: Vec<(char, u32, u32)>)
    requires
        sizes@.len() == FONT_CHARACTERS@.len(),
    ensures
        r@.len() == sizes@.len(),
        forall|i: int|
            0 <= i < sizes@.len() ==> #[trigger] r@[i] == (FONT_CHARACTERS@[i], sizes@[i].0, sizes@[i].1),
{
    let mut glyphs: Vec<(char, u32, u32)> = Vec::new();
    let mut i: usize = 0;
    while i < sizes.len()
        invariant
            i <= sizes@.len(),
            sizes@.len() == FONT_CHARACTERS@.len(),
            glyphs@.len() == i,
            forall|j: int|
                0 <= j < i ==> #[trigger] glyphs@[j] == (FONT_CHARACTERS@[j], sizes@[j].0, sizes@[j].1),
        decreases sizes@.len() - i,
    {
        let c = FONT_CHARACTERS.get_char(i);
        let (w, h) = sizes[i];
        glyphs.push((c, w, h));
        i = i + 1;
    }
    glyphs
}

/// The sum of the glyph widths.
pub open spec fn glyphs_width(glyphs: Seq<(char, u32, u32)>) -> int
    decreases glyphs.len(),
{
    if glyphs.len() == 0 {
        0
    } else {
        glyphs_width(glyphs.drop_last()) + glyphs.last().1
    }
}

/// The entry of the font map for the `i`-th glyph.
pub open spec fn glyph_entry(glyphs: Seq<(char, u32, u32)>, i: int) -> CharInfo {
    CharInfo {
        c: glyphs[i].0,
        x: glyphs_width(glyphs.take(i)) as i32,
        height: glyphs_height(glyphs) as u32,
        width: glyphs[i].1,
    }
}

/// The tallest glyph height (0 without glyphs).
pub open spec fn glyphs_height(glyphs: Seq<(char, u32, u32)>) -> int
    decreases glyphs.len(),
{
    if glyphs.len() == 0 {
        0
    } else if glyphs.last().2 > glyphs_height(glyphs.drop_last()) {
        glyphs.last().2 as int
    } else {
        glyphs_height(glyphs.drop_last())
    }
}

proof fn lemma_glyphs_width_monotonic(glyphs: Seq<(char, u32, u32)>, k: int)
    requires
        0 <= k <= glyphs.len(),
    ensures
        0 <= glyphs_width(glyphs.take(k)) <= glyphs_width(glyphs),
    decreases glyphs.len(),
{
    if glyphs.len() > 0 {
        if k == glyphs.len() {
            assert(glyphs.take(k) =~= glyphs);
            lemma_glyphs_width_monotonic(glyphs.drop_last(), k - 1);
        } else {
            assert(glyphs.take(k) =~= glyphs.drop_last().take(k));
            lemma_glyphs_width_monotonic(glyphs.drop_last(), k);
        }
    }
}

proof fn lemma_glyphs_height_bounds(glyphs: Seq<(char, u32, u32)>)
    ensures
        0 <= glyphs_height(glyphs) <= u32::MAX,
        forall|i: int| 0 <= i < glyphs.len() ==> glyphs[i].2 <= glyphs_height(glyphs),
    decreases glyphs.len(),
{
    if glyphs.len() > 0 {
        lemma_glyphs_height_bounds(glyphs.drop_last());
        assert forall|i: int| 0 <= i < glyphs.len() implies glyphs[i].2 <= glyphs_height(glyphs) by {
            if i < glyphs.len() - 1 {
                assert(glyphs.drop_last()[i] == glyphs[i]);
            }
        }
    }
}

/// The position of the first character of `inner` that is `c`.
pub open spec fn find_char(inner: Seq<CharInfo>, c: char) -> Option<int>
    decreases inner.len(),
{
    if inner.len() == 0 {
        None
    } else {
        match find_char(inner.drop_last(), c) {
            Some(i) => Some(i),
            None => if inner.last().c == c {
                Some(inner.len() - 1)
            } else {
                None
            },
        }
    }
}

proof fn lemma_find_char(inner: Seq<CharInfo>, c: char, i: int)
    requires
        0 <= i <= inner.len(),
        forall|j: int| 0 <= j < i ==> inner[j].c != c,
    ensures
        i == inner.len() ==> find_char(inner, c) is None,
        i < inner.len() && inner[i].c == c ==> find_char(inner, c) == Some(i),
    decreases inner.len(),
{
    if inner.len() > 0 {
        if i == inner.len() {
            lemma_find_char(inner.drop_last(), c, i - 1);
        } else if inner[i].c == c {
            if i == inner.len() - 1 {
                lemma_find_char(inner.drop_last(), c, i);
            } else {
                lemma_find_char(inner.drop_last(), c, i);
                assert(inner.drop_last()[i] == inner[i]);
            }
        }
    }
}

proof fn lemma_find_char_in_range(inner: Seq<CharInfo>, c: char)
    ensures
        find_char(inner, c) matches Some(i) ==> 0 <= i < inner.len() && inner[i].c == c,
    decreases inner.len(),
{
    if inner.len() > 0 {
        lemma_find_char_in_range(inner.drop_last(), c);
    }
}

/// The width `text` takes once drawn: every known character adds its width plus one
/// pixel of spacing; unknown characters are skipped.
pub open spec fn text_width(inner: Seq<CharInfo>, text: Seq<char>) -> int
    decreases text.len(),
{
    if text.len() == 0 {
        0
    } else {
        text_width(inner, text.drop_last()) + match find_char(inner, text.last()) {
            Some(i) => inner[i].width + 1,
            None => 0,
        }
    }
}

/// The height of the tallest known character of `text`.
pub open spec fn text_height(inner: Seq<CharInfo>, text: Seq<char>) -> int
    decreases text.len(),
{
    if text.len() == 0 {
        0
    } else {
        let h = text_height(inner, text.drop_last());
        match find_char(inner, text.last()) {
            Some(i) => if inner[i].height > h {
                inner[i].height as int
            } else {
                h
            },
            None => h,
        }
    }
}

/// Where the pen stands after drawing `text` from `x0`.
pub open spec fn pen_after(inner: Seq<CharInfo>, text: Seq<char>, x0: int) -> int
    decreases text.len(),
{
    if text.len() == 0 {
        x0
    } else {
        pen_after(inner, text.drop_last(), x0) + match find_char(inner, text.last()) {
            Some(i) => (inner[i].width as i32) + 1,
            None => 0,
        }
    }
}

/// The pen stays within `i32` while drawing `text` from `x0`.
pub open spec fn pen_fits(inner: Seq<CharInfo>, text: Seq<char>, x0: int) -> bool
    decreases text.len(),
{
    if text.len() == 0 {
        true
    } else {
        &&& pen_fits(inner, text.drop_last(), x0)
        &&& match find_char(inner, text.last()) {
            Some(i) => {
                let p = pen_after(inner, text.drop_last(), x0) + (inner[i].width as i32);
                &&& i32::MIN <= p <= i32::MAX
                &&& i32::MIN <= p + 1 <= i32::MAX
            },
            None => true,
        }
    }
}

/// The copies (from the font map, to the screen) that draw `text` from `x0` / `y0`.
pub open spec fn text_copies(inner: Seq<CharInfo>, text: Seq<char>, x0: int, y0: i32) -> Seq<
    (Rect, Rect),
>
    decreases text.len(),
{
    if text.len() == 0 {
        Seq::empty()
    } else {
        let prefix = text_copies(inner, text.drop_last(), x0, y0);
        match find_char(inner, text.last()) {
            Some(i) => prefix.push(
                (
                    Rect { x: inner[i].x, y: 0, width: inner[i].width, height: inner[i].height },
                    Rect {
                        x: pen_after(inner, text.drop_last(), x0) as i32,
                        y: y0,
                        width: inner[i].width,
                        height: inner[i].height,
                    },
                ),
            ),
            None => prefix,
        }
    }
}

/// Where drawing starts, horizontally, once centring is applied.
pub open spec fn start_x(inner: Seq<CharInfo>, text: Seq<char>, x: i32, x_centered: bool) -> int {
    if x_centered {
        x - half_toward_zero((text_width(inner, text) as u32 as i32) as int)
    } else {
        x as int
    }
}

/// Where drawing starts, vertically, once centring is applied.
pub open spec fn start_y(inner: Seq<CharInfo>, text: Seq<char>, y: i32, y_centered: bool) -> int {
    if y_centered {
        y - half_toward_zero((text_height(inner, text) as u32 as i32) as int)
    } else {
        y as int
    }
}

proof fn lemma_text_height_bounds(inner: Seq<CharInfo>, text: Seq<char>)
    ensures
        0 <= text_height(inner, text) <= u32::MAX,
    decreases text.len(),
{
    if text.len() > 0 {
        lemma_text_height_bounds(inner, text.drop_last());
    }
}

proof fn lemma_text_width_monotonic(inner: Seq<CharInfo>, text: Seq<char>, k: int)
    requires
        0 <= k <= text.len(),
    ensures
        0 <= text_width(inner, text.take(k)) <= text_width(inner, text),
    decreases text.len(),
{
    if text.len() > 0 {
        if k == text.len() {
            assert(text.take(k) =~= text);
            lemma_text_width_monotonic(inner, text.drop_last(), k - 1);
        } else {
            assert(text.take(k) =~= text.drop_last().take(k));
            lemma_text_width_monotonic(inner, text.drop_last(), k);
        }
    }
}

proof fn lemma_pen_fits_prefix(inner: Seq<CharInfo>, text: Seq<char>, x0: int, k: int)
    requires
        0 <= k <= text.len(),
        pen_fits(inner, text, x0),
    ensures
        pen_fits(inner, text.take(k), x0),
    decreases text.len(),
{
    if k == text.len() {
        assert(text.take(k) =~= text);
    } else {
        assert(text.take(k) =~= text.drop_last().take(k));
        lemma_pen_fits_prefix(inner, text.drop_last(), x0, k);
    }
}

impl<T> FontHandler<T> {
    /// A font map whose characters are `glyphs` (character, width, height), placed side
    /// by side in that order in `texture`, which is as wide as all of them and as tall as
    /// the tallest; every entry gets the height of the tallest glyph. The glyphs of the
    /// game's font maps are `font_glyphs` of the rendered characters.
    pub fn new(texture: TextureHolder<T>, font_size: u16, color: Color, glyphs: &Vec<(char, u32, u32)>) -> (r: FontHandler<T>)
        requires
            glyphs_width(glyphs@) <= u32::MAX,
            texture.width == glyphs_width(glyphs@),
            texture.height == glyphs_height(glyphs@),
        ensures
            r.texture == texture,
            r.texture.width == glyphs_width(glyphs@),
            r.texture.height == glyphs_height(glyphs@),
            r.size == font_size,
            r.color == color,
            r.inner@.len() == glyphs@.len(),
            forall|i: int| 0 <= i < glyphs@.len() ==> #[trigger] r.inner@[i] == glyph_entry(glyphs@, i),
    {
        let max_height = Self::max_glyph_height(glyphs);
        let mut entries: Vec<CharInfo> = Vec::new();
        let mut current_width: u32 = 0;
        let mut i: usize = 0;
        while i < glyphs.len()
            invariant
                i <= glyphs@.len(),
                glyphs_width(glyphs@) <= u32::MAX,
                max_height == glyphs_height(glyphs@),
                current_width == glyphs_width(glyphs@.take(i as int)),
                entries@.len() == i,
                forall|j: int| 0 <= j < i ==> #[trigger] entries@[j] == glyph_entry(glyphs@, j),
            decreases glyphs@.len() - i,
        {
            let (c, w, _h) = glyphs[i];
            proof {
                assert(glyphs@.take(i + 1).drop_last() =~= glyphs@.take(i as int));
                lemma_glyphs_width_monotonic(glyphs@, i + 1);
            }
            let info = CharInfo { c: c, x: current_width as i32, height: max_height, width: w };
            assert(info == glyph_entry(glyphs@, i as int));
            entries.push(info);
            current_width = current_width + w;
            i = i + 1;
        }
        FontHandler { texture, size: font_size, color, inner: entries }
    }

    /// The height of the tallest glyph.
    pub fn max_glyph_height(glyphs: &Vec<(char, u32, u32)>) -> (r: u32)
        ensures
            r == glyphs_height(glyphs@),
    {
        let mut max_height: u32 = 0;
        let mut i: usize = 0;
        while i < glyphs.len()
            invariant
                i <= glyphs@.len(),
                max_height == glyphs_height(glyphs@.take(i as int)),
            decreases glyphs@.len() - i,
        {
            proof {
                assert(glyphs@.take(i + 1).drop_last() =~= glyphs@.take(i as int));
            }
            if glyphs[i].2 > max_height {
                max_height = glyphs[i].2;
            }
            i = i + 1;
        }
        proof {
            assert(glyphs@.take(glyphs@.len() as int) =~= glyphs@);
        }
        max_height
    }

    /// Where each glyph goes when the glyphs are copied into the font map: side by side,
    /// aligned on their bottom edge.
    pub fn glyph_rects(glyphs: &Vec<(char, u32, u32)>) -> (r: Vec<Rect>)
        requires
            glyphs_width(glyphs@) <= u32::MAX,
            forall|i: int|
                0 <= i < glyphs@.len() ==> i32::MIN <= (glyphs_height(glyphs@) as u32 as i32)
                    - (#[trigger] glyphs@[i].2 as i32) <= i32::MAX,
        ensures
            r@.len() == glyphs@.len(),
            forall|i: int|
                0 <= i < glyphs@.len() ==> #[trigger] r@[i] == (Rect {
                    x: glyphs_width(glyphs@.take(i)) as i32,
                    y: ((glyphs_height(glyphs@) as u32 as i32) - (glyphs@[i].2 as i32)) as i32,
                    width: glyphs@[i].1,
                    height: glyphs@[i].2,
                }),
    {
        let max_height = Self::max_glyph_height(glyphs);
        let mut rects: Vec<Rect> = Vec::new();
        let mut current_width: u32 = 0;
        let mut i: usize = 0;
        while i < glyphs.len()
            invariant
                i <= glyphs@.len(),
                glyphs_width(glyphs@) <= u32::MAX,
                max_height == glyphs_height(glyphs@),
                forall|i: int|
                    0 <= i < glyphs@.len() ==> i32::MIN <= (glyphs_height(glyphs@) as u32 as i32)
                        - (#[trigger] glyphs@[i].2 as i32) <= i32::MAX,
                current_width == glyphs_width(glyphs@.take(i as int)),
                rects@.len() == i,
                forall|j: int|
                    0 <= j < i ==> #[trigger] rects@[j] == (Rect {
                        x: glyphs_width(glyphs@.take(j)) as i32,
                        y: ((glyphs_height(glyphs@) as u32 as i32) - (glyphs@[j].2 as i32)) as i32,
                        width: glyphs@[j].1,
                        height: glyphs@[j].2,
                    }),
            decreases glyphs@.len() - i,
        {
            let (_c, w, h) = glyphs[i];
            proof {
                assert(glyphs@.take(i + 1).drop_last() =~= glyphs@.take(i as int));
                lemma_glyphs_width_monotonic(glyphs@, i + 1);
                assert(i32::MIN <= (glyphs_height(glyphs@) as u32 as i32) - (glyphs@[i as int].2 as i32) <= i32::MAX);
            }
            rects.push(Rect::new(current_width as i32, max_height as i32 - h as i32, w, h));
            current_width = current_width + w;
            i = i + 1;
        }
        rects
    }

    /// The size of the font map that holds `glyphs`: the sum of their widths and the
    /// tallest height.
    pub fn atlas_size(glyphs: &Vec<(char, u32, u32)>) -> (r: (u32, u32))
        requires
            glyphs_width(glyphs@) <= u32::MAX,
        ensures
            r.0 == glyphs_width(glyphs@),
            r.1 == glyphs_height(glyphs@),
    {
        let mut total: u32 = 0;
        let mut i: usize = 0;
        while i < glyphs.len()
            invariant
                i <= glyphs@.len(),
                glyphs_width(glyphs@) <= u32::MAX,
                total == glyphs_width(glyphs@.take(i as int)),
            decreases glyphs@.len() - i,
        {
            proof {
                assert(glyphs@.take(i + 1).drop_last() =~= glyphs@.take(i as int));
                lemma_glyphs_width_monotonic(glyphs@, i + 1);
            }
            total = total + glyphs[i].1;
            i = i + 1;
        }
        proof {
            assert(glyphs@.take(glyphs@.len() as int) =~= glyphs@);
        }
        (total, Self::max_glyph_height(glyphs))
    }

    /// The entry of the first character of the map that is `c`.
    fn find(&self, c: char) -> (r: Option<usize>)
        ensures
            r matches Some(i) ==> find_char(self.inner@, c) == Some(i as int),
            r is None ==> find_char(self.inner@, c) is None,
    {
        let mut i: usize = 0;
        while i < self.inner.len()
            invariant
                i <= self.inner@.len(),
                forall|j: int| 0 <= j < i ==> self.inner@[j].c != c,
            decreases self.inner@.len() - i,
        {
            if self.inner[i].c == c {
                proof {
                    lemma_find_char(self.inner@, c, i as int);
                }
                return Some(i);
            }
            i = i + 1;
        }
        proof {
            lemma_find_char(self.inner@, c, i as int);
        }
        None
    }

    /// Width and height of `text` once drawn with this font map.
    pub fn measure(&self, text: &str) -> (r: (u32, u32))
        requires
            text_width(self.inner@, text@) <= u32::MAX,
        ensures
            r.0 == text_width(self.inner@, text@),
            r.1 == text_height(self.inner@, text@),
    {
        let n = text.unicode_len();
        let mut total_width: u32 = 0;
        let mut max_height: u32 = 0;
        let mut i: usize = 0;
        while i < n
            invariant
                n == text@.len(),
                i <= n,
                text_width(self.inner@, text@) <= u32::MAX,
                total_width == text_width(self.inner@, text@.take(i as int)),
                max_height == text_height(self.inner@, text@.take(i as int)),
            decreases n - i,
        {
            let c = text.get_char(i);
            proof {
                assert(text@.take(i + 1).drop_last() =~= text@.take(i as int));
                assert(text@.take(i + 1).last() == c);
                lemma_text_width_monotonic(self.inner@, text@, i + 1);
                lemma_find_char_in_range(self.inner@, c);
            }
            match self.find(c) {
                Some(k) => {
                    total_width = total_width + self.inner[k].width + 1;
                    if self.inner[k].height > max_height {
                        max_height = self.inner[k].height;
                    }
                },
                None => {},
            }
            i = i + 1;
        }
        proof {
            assert(text@.take(n as int) =~= text@);
        }
        (total_width, max_height)
    }

    /// The copies (from the font map to the screen) that draw `text` at `x` / `y`,
    /// optionally centred on that point, with the width and height the text takes.
    pub fn draw(&self, text: &str, x: i32, y: i32, x_centered: bool, y_centered: bool) -> (r: (
        Vec<(Rect, Rect)>,
        u32,
        u32,
    ))
        requires
            text_width(self.inner@, text@) <= u32::MAX,
            i32::MIN <= start_x(self.inner@, text@, x, x_centered) <= i32::MAX,
            i32::MIN <= start_y(self.inner@, text@, y, y_centered) <= i32::MAX,
            pen_fits(self.inner@, text@, start_x(self.inner@, text@, x, x_centered)),
        ensures
            r.0@ == text_copies(
                self.inner@,
                text@,
                start_x(self.inner@, text@, x, x_centered),
                start_y(self.inner@, text@, y, y_centered) as i32,
            ),
            r.1 == text_width(self.inner@, text@),
            r.2 == text_height(self.inner@, text@),
    {
        let (w, h) = self.measure(text);
        let mut pen = if x_centered {
            x - half_i32(w as i32)
        } else {
            x
        };
        let top = if y_centered {
            y - half_i32(h as i32)
        } else {
            y
        };
        let ghost x0 = pen as int;
        let n = text.unicode_len();
        let mut copies: Vec<(Rect, Rect)> = Vec::new();
        let mut total_width: u32 = 0;
        let mut max_height: u32 = 0;
        let mut i: usize = 0;
        while i < n
            invariant
                n == text@.len(),
                i <= n,
                text_width(self.inner@, text@) <= u32::MAX,
                pen_fits(self.inner@, text@, x0),
                pen == pen_after(self.inner@, text@.take(i as int), x0),
                total_width == text_width(self.inner@, text@.take(i as int)),
                max_height == text_height(self.inner@, text@.take(i as int)),
                copies@ == text_copies(self.inner@, text@.take(i as int), x0, top),
            decreases n - i,
        {
            let c = text.get_char(i);
            proof {
                assert(text@.take(i + 1).drop_last() =~= text@.take(i as int));
                assert(text@.take(i + 1).last() == c);
                lemma_text_width_monotonic(self.inner@, text@, i + 1);
                lemma_pen_fits_prefix(self.inner@, text@, x0, i + 1);
                lemma_find_char_in_range(self.inner@, c);
            }
            match self.find(c) {
                Some(k) => {
                    let info = self.inner[k];
                    copies.push(
                        (
                            Rect::new(info.x, 0, info.width, info.height),
                            Rect::new(pen, top, info.width, info.height),
                        ),
                    );
                    pen = pen + info.width as i32 + 1;
                    total_width = total_width + info.width + 1;
                    if info.height > max_height {
                        max_height = info.height;
                    }
                },
                None => {},
            }
            i = i + 1;
        }
        proof {
            assert(text@.take(n as int) =~= text@);
        }
        (copies, total_width, max_height)
    }
}

} // verus!
