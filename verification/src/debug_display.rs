use vstd::prelude::*;

use crate::font_handler::{start_x, start_y, text_copies, text_height};
use crate::geometry::{Color, Rect};
use crate::system::{font_map_index, text_fits, System};
use crate::texture_holder::{TextureHolder, TextureId, Textures};

verus! {

/// The height of the debug panel, in pixels.
pub const DEBUG_PANEL_HEIGHT: u32 = 200;

/// The debug overlay: a translucent panel with lines of text, and a grid that can be
/// switched on.
pub struct DebugDisplay {
    pub background: TextureId,
    pub width: u32,
    pub height: u32,
    pub font_size: u16,
    pub draw_grid: bool,
    pub grid: TextureId,
}

/// What drawing the debug overlay takes.
pub struct DebugFrame {
    /// The part of the grid texture to show on the whole screen, when the grid is on.
    pub grid: Option<Rect>,
    /// Where the panel goes, when there is text.
    pub background: Option<Rect>,
    /// For each line drawn, the copies from the font map that draw it.
    pub lines: Vec<Vec<(Rect, Rect)>>,
    /// Where the font map is shown below the text, when there is text.
    pub font_map_y: Option<i32>,
}

/// The line `i` of the grid: first the horizontal lines, one every `case_size` pixels
/// from the top, then the vertical ones; each spans the screen plus one case.
pub open spec fn grid_line(width: i32, height: i32, case_size: i32, i: int) -> Rect {
    let rows = height / case_size + 1;
    if i < rows {
        Rect { x: 0, y: (i * case_size) as i32, width: (width + case_size) as u32, height: 1 }
    } else {
        Rect {
            x: ((i - rows) * case_size) as i32,
            y: 0,
            width: 1,
            height: (height + case_size) as u32,
        }
    }
}

/// The absolute value of `v`.
pub open spec fn magnitude(v: i64) -> int {
    if v < 0 {
        -v
    } else {
        v as int
    }
}

/// The height the font map of `system` gives to `line` (0 when there is no such map).
pub open spec fn line_height<C, F>(system: &System<C, F>, font_size: u16, line: Seq<char>) -> int {
    match font_map_index(system.font_maps@, font_size, Color { r: 255, g: 255, b: 255, a: 255 }) {
        Some(i) => text_height(system.font_maps@[i].inner@, line),
        None => 0,
    }
}

/// The copies that draw `line` at height `y`, three pixels from the left (none for an
/// empty line, or when `system` has no white font map of that size).
pub open spec fn line_copies<C, F>(system: &System<C, F>, font_size: u16, line: Seq<char>, y: int) -> Seq<
    (Rect, Rect),
> {
    if line.len() == 0 {
        Seq::empty()
    } else {
        match font_map_index(system.font_maps@, font_size, Color { r: 255, g: 255, b: 255, a: 255 }) {
            Some(i) => {
                let inner = system.font_maps@[i].inner@;
                text_copies(inner, line, start_x(inner, line, 3, false), start_y(inner, line, y as i32, false) as i32)
            },
            None => Seq::empty(),
        }
    }
}

/// Where the line after `lines` starts, the first one starting at 2: a line takes its
/// height plus one pixel, an empty one the font size plus one.
pub open spec fn line_top<C, F>(system: &System<C, F>, font_size: u16, lines: Seq<Seq<char>>) -> int
    decreases lines.len(),
{
    if lines.len() == 0 {
        2
    } else {
        let last = lines.last();
        line_top(system, font_size, lines.drop_last()) + if last.len() == 0 {
            font_size + 1
        } else {
            (line_height(system, font_size, last) as u32 as i32) + 1
        }
    }
}

/// How many of `lines` are drawn: the first always is, and each next one as long as the
/// previous ones end within the panel of `height` pixels.
pub open spec fn lines_drawn<C, F>(system: &System<C, F>, font_size: u16, height: u32, lines: Seq<Seq<char>>) -> int
    decreases lines.len(),
{
    if lines.len() == 0 {
        0
    } else {
        let before = lines_drawn(system, font_size, height, lines.drop_last());
        if before < lines.len() - 1 {
            before
        } else if lines.len() > 1 && (line_top(system, font_size, lines.drop_last()) as u32) > height {
            before
        } else {
            lines.len() as int
        }
    }
}

/// Every line that is drawn of `lines` ends at a height that an `i32` holds (and the
/// sum before its last `+ 1` too).
pub open spec fn line_tops_fit<C, F>(system: &System<C, F>, font_size: u16, height: u32, lines: Seq<Seq<char>>) -> bool {
    forall|k: int|
        0 <= k < lines.len() && #[trigger] lines_drawn(system, font_size, height, lines.subrange(0, k + 1))
            == k + 1 ==> i32::MIN < line_top(system, font_size, lines.subrange(0, k + 1)) <= i32::MAX
}

/// Once a line ends below the panel, no later line is drawn.
proof fn lemma_lines_drawn_stop<C, F>(
    system: &System<C, F>,
    font_size: u16,
    height: u32,
    texts: Seq<Seq<char>>,
    k: int,
    m: int,
)
    requires
        1 <= k <= m <= texts.len(),
        lines_drawn(system, font_size, height, texts.subrange(0, k)) == k,
        (line_top(system, font_size, texts.subrange(0, k)) as u32) > height,
    ensures
        lines_drawn(system, font_size, height, texts.subrange(0, m)) == k,
    decreases m - k,
{
    if m > k {
        lemma_lines_drawn_stop(system, font_size, height, texts, k, m - 1);
        assert(texts.subrange(0, m).drop_last() == texts.subrange(0, m - 1));
        if m - 1 == k {
        }
    }
}

impl DebugDisplay {
    /// The lines that draw the debug grid on a texture of `width + case_size` x
    /// `height + case_size` pixels.
    pub fn grid_lines(width: i32, height: i32, case_size: i32) -> (r: Vec<Rect>)
        requires
            case_size > 0,
            width >= 0,
            height >= 0,
            width + case_size <= i32::MAX,
            height + case_size <= i32::MAX,
        ensures
            r@.len() == (height / case_size + 1) + (width / case_size + 1),
            forall|i: int| 0 <= i < r@.len() ==> #[trigger] r@[i] == grid_line(width, height, case_size, i),
    {
        let mut r: Vec<Rect> = Vec::new();
        let rows = height / case_size + 1;
        let cols = width / case_size + 1;
        let mut y: i32 = 0;
        while y < rows
            invariant
                0 <= y <= rows,
                rows == height / case_size + 1,
                case_size > 0,
                height >= 0,
                width >= 0,
                width + case_size <= i32::MAX,
                height + case_size <= i32::MAX,
                r@.len() == y,
                forall|i: int| 0 <= i < y ==> #[trigger] r@[i] == grid_line(width, height, case_size, i),
            decreases rows - y,
        {
            assert(y * case_size <= height) by (nonlinear_arith)
                requires
                    y < rows,
                    rows == height / case_size + 1,
                    case_size > 0,
                    height >= 0,
                    y >= 0,
            ;
            assert(y * case_size >= 0) by (nonlinear_arith)
                requires
                    y >= 0,
                    case_size > 0,
            ;
            r.push(Rect::new(0, y * case_size, (width + case_size) as u32, 1));
            y = y + 1;
        }
        let mut x: i32 = 0;
        while x < cols
            invariant
                0 <= x <= cols,
                rows == height / case_size + 1,
                cols == width / case_size + 1,
                case_size > 0,
                height >= 0,
                width >= 0,
                width + case_size <= i32::MAX,
                height + case_size <= i32::MAX,
                r@.len() == rows + x,
                forall|i: int|
                    0 <= i < rows + x ==> #[trigger] r@[i] == grid_line(width, height, case_size, i),
            decreases cols - x,
        {
            assert(x * case_size <= width) by (nonlinear_arith)
                requires
                    x < cols,
                    cols == width / case_size + 1,
                    case_size > 0,
                    width >= 0,
                    x >= 0,
            ;
            assert(x * case_size >= 0) by (nonlinear_arith)
                requires
                    x >= 0,
                    case_size > 0,
            ;
            r.push(Rect::new(x * case_size, 0, 1, (height + case_size) as u32));
            x = x + 1;
        }
        r
    }

    /// A debug overlay `width` pixels wide, whose panel and grid textures are stored in
    /// `textures` (panel first), with the grid off.
    pub fn new<T, S>(
        textures: &mut Textures<T, S>,
        background: TextureHolder<T>,
        grid: TextureHolder<T>,
        width: u32,
        font_size: u16,
    ) -> (d: DebugDisplay)
        requires
            old(textures).holders().len() + 2 < usize::MAX,
        ensures
            final(textures).wf() == old(textures).wf(),
            final(textures).holders() == old(textures).holders().push(background).push(grid),
            final(textures).named() == old(textures).named(),
            final(textures).data() == old(textures).data(),
            final(textures).surface_map() == old(textures).surface_map(),
            d.background.index() == old(textures).holders().len(),
            d.background.width == background.width as u16,
            d.background.height == background.height as u16,
            d.grid.index() == old(textures).holders().len() + 1,
            d.grid.width == grid.width as u16,
            d.grid.height == grid.height as u16,
            d.width == width,
            d.height == DEBUG_PANEL_HEIGHT,
            d.font_size == font_size,
            !d.draw_grid,
    {
        let background = textures.add_texture(background);
        let grid = textures.add_texture(grid);
        DebugDisplay { background, width, height: DEBUG_PANEL_HEIGHT, font_size, grid, draw_grid: false }
    }

    /// Switches the grid on or off.
    pub fn switch_draw_grid(&mut self)
        ensures
            *final(self) == (DebugDisplay { draw_grid: !old(self).draw_grid, ..*old(self) }),
    {
        self.draw_grid = !self.draw_grid;
    }

    /// What drawing the overlay takes for the given lines of text, the camera of
    /// `system` being aligned on a grid of `case_size` pixels: the grid, when it is on,
    /// is shifted by the camera's position; the panel and the lines, with the font map
    /// below them, only when there is text.
    pub fn draw<C, F>(&self, system: &System<C, F>, lines: &Vec<&str>, case_size: i64) -> (r: DebugFrame)
        requires
            case_size > 0,
            case_size <= i32::MAX,
            system.x > i64::MIN,
            system.y > i64::MIN,
            lines@.len() > 0 ==> system.font_maps@.len() > 1,
            line_tops_fit(system, self.font_size, self.height, lines@.map_values(|l: &str| l@)),
            forall|k: int|
                0 <= k < lines@.len() ==> match font_map_index(
                    system.font_maps@,
                    self.font_size,
                    Color { r: 255, g: 255, b: 255, a: 255 },
                ) {
                    Some(i) => text_fits(system.font_maps@[i], (#[trigger] lines@[k])@, 3, 0, false, false),
                    None => true,
                },
        ensures
            !self.draw_grid ==> r.grid is None,
            self.draw_grid ==> r.grid == Some(
                Rect {
                    x: (case_size - magnitude(system.x) % (case_size as int)) as i32,
                    y: (case_size - magnitude(system.y) % (case_size as int)) as i32,
                    width: system.width,
                    height: system.height,
                },
            ),
            lines@.len() == 0 ==> r.background is None && r.lines@.len() == 0 && r.font_map_y is None,
            lines@.len() > 0 ==> {
                let texts = lines@.map_values(|l: &str| l@);
                let n = lines_drawn(system, self.font_size, self.height, texts);
                &&& r.background == Some(Rect { x: 0, y: 0, width: self.width, height: self.height })
                &&& r.lines@.len() == n
                &&& forall|j: int|
                    0 <= j < n ==> (#[trigger] r.lines@[j])@ == line_copies(
                        system,
                        self.font_size,
                        texts[j],
                        line_top(system, self.font_size, texts.subrange(0, j)),
                    )
                &&& r.font_map_y == Some(line_top(system, self.font_size, texts.subrange(0, n)) as i32)
            },
    {
        let grid = if self.draw_grid {
            let ax: i64 = if system.x() < 0 { -system.x() } else { system.x() };
            let ay: i64 = if system.y() < 0 { -system.y() } else { system.y() };
            Some(
                Rect::new(
                    (case_size - ax % case_size) as i32,
                    (case_size - ay % case_size) as i32,
                    system.width,
                    system.height,
                ),
            )
        } else {
            None
        };
        if lines.len() == 0 {
            return DebugFrame { grid, background: None, lines: Vec::new(), font_map_y: None };
        }
        let background = Some(Rect::new(0, 0, self.width, self.height));
        let ghost texts = lines@.map_values(|l: &str| l@);
        let mut drawn: Vec<Vec<(Rect, Rect)>> = Vec::new();
        let mut current_pos: i32 = 2;
        let mut k: usize = 0;
        while k < lines.len()
            invariant_except_break
                k <= lines@.len(),
                drawn@.len() == k,
                current_pos == line_top(system, self.font_size, texts.subrange(0, k as int)),
                forall|j: int|
                    0 <= j < k ==> (#[trigger] drawn@[j])@ == line_copies(
                        system,
                        self.font_size,
                        texts[j],
                        line_top(system, self.font_size, texts.subrange(0, j)),
                    ),
                lines_drawn(system, self.font_size, self.height, texts.subrange(0, k as int)) == k,
                k == 0 || (current_pos as u32) <= self.height,
                k == lines@.len() ==> texts.subrange(0, k as int) == texts,
            invariant
                lines@.len() > 0,
                texts.len() == lines@.len(),
                texts == lines@.map_values(|l: &str| l@),
                line_tops_fit(system, self.font_size, self.height, texts),
                forall|j: int|
                    0 <= j < lines@.len() ==> match font_map_index(
                        system.font_maps@,
                        self.font_size,
                        Color { r: 255, g: 255, b: 255, a: 255 },
                    ) {
                        Some(i) => text_fits(system.font_maps@[i], (#[trigger] lines@[j])@, 3, 0, false, false),
                        None => true,
                    },
            ensures
                drawn@.len() == lines_drawn(system, self.font_size, self.height, texts),
                forall|j: int|
                    0 <= j < drawn@.len() ==> (#[trigger] drawn@[j])@ == line_copies(
                        system,
                        self.font_size,
                        texts[j],
                        line_top(system, self.font_size, texts.subrange(0, j)),
                    ),
                current_pos == line_top(
                    system,
                    self.font_size,
                    texts.subrange(0, lines_drawn(system, self.font_size, self.height, texts)),
                ),
            decreases lines@.len() - k,
        {
            let line = lines[k];
            let ghost prefix = texts.subrange(0, k as int);
            let ghost next = texts.subrange(0, k + 1);
            assert(next.drop_last() == prefix);
            assert(next.last() == line@);
            proof {
                assert(lines_drawn(system, self.font_size, self.height, next) == k + 1);
                assert(i32::MIN < line_top(system, self.font_size, next) <= i32::MAX);
            }
            let copies = if !line.is_empty() {
                let (copies, _, h) = system.draw_text(
                    line,
                    self.font_size,
                    Color::rgb(255, 255, 255),
                    3,
                    current_pos,
                    false,
                    false,
                );
                current_pos = current_pos + h as i32 + 1;
                copies
            } else {
                current_pos = current_pos + self.font_size as i32 + 1;
                Vec::new()
            };
            drawn.push(copies);
            k = k + 1;
            proof {
                if k == lines@.len() {
                    assert(texts.subrange(0, k as int) =~= texts);
                }
                assert(current_pos == line_top(system, self.font_size, next));
                assert(lines_drawn(system, self.font_size, self.height, next) == k);
            }
            if current_pos as u32 > self.height {
                proof {
                    lemma_lines_drawn_stop(
                        system,
                        self.font_size,
                        self.height,
                        texts,
                        k as int,
                        texts.len() as int,
                    );
                    assert(texts.subrange(0, texts.len() as int) == texts);
                }
                break;
            }
        }
        proof {
            if k == lines@.len() {
                assert(texts.subrange(0, k as int) == texts);
            }
        }
        DebugFrame { grid, background, lines: drawn, font_map_y: Some(current_pos) }
    }
}

} // verus!
