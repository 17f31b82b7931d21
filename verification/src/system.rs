use vstd::prelude::*;

use crate::font_handler::{pen_fits, start_x, start_y, text_copies, text_height, text_width, FontHandler};
use crate::geometry::{half_toward_zero, Color, Rect};
use crate::health_bar::HealthBar;

verus! {

/// What is drawn on: the canvas, the camera (its top-left corner in the world, and
/// the screen size), the health bar and the font maps.
pub struct System<C, F> {
    pub canvas: C,
    pub x: i64,
    pub y: i64,
    pub width: u32,
    pub height: u32,
    pub health_bar: HealthBar<F>,
    pub font_maps: Vec<FontHandler<F>>,
}

/// The position of the first font map of `maps` with the given size and colour.
pub open spec fn font_map_index<F>(maps: Seq<FontHandler<F>>, size: u16, color: Color) -> Option<
    int,
>
    decreases maps.len(),
{
    if maps.len() == 0 {
        None
    } else {
        match font_map_index(maps.drop_last(), size, color) {
            Some(i) => Some(i),
            None => if maps.last().size == size && maps.last().color == color {
                Some(maps.len() - 1)
            } else {
                None
            },
        }
    }
}

proof fn lemma_font_map_index<F>(maps: Seq<FontHandler<F>>, size: u16, color: Color, i: int)
    requires
        0 <= i <= maps.len(),
        forall|j: int| 0 <= j < i ==> !(maps[j].size == size && maps[j].color == color),
    ensures
        i == maps.len() ==> font_map_index(maps, size, color) is None,
        i < maps.len() && maps[i].size == size && maps[i].color == color ==> font_map_index(
            maps,
            size,
            color,
        ) == Some(i),
    decreases maps.len(),
{
    if maps.len() > 0 {
        if i == maps.len() {
            lemma_font_map_index(maps.drop_last(), size, color, i - 1);
        } else if maps[i].size == size && maps[i].color == color {
            lemma_font_map_index(maps.drop_last(), size, color, i);
            if i < maps.len() - 1 {
                assert(maps.drop_last()[i] == maps[i]);
            }
        }
    }
}

/// The font map found for a size and a colour is one of the maps.
pub proof fn lemma_font_map_index_in_range<F>(maps: Seq<FontHandler<F>>, size: u16, color: Color)
    ensures
        font_map_index(maps, size, color) matches Some(i) ==> 0 <= i < maps.len(),
    decreases maps.len(),
{
    if maps.len() > 0 {
        lemma_font_map_index_in_range(maps.drop_last(), size, color);
    }
}

/// Drawing `text` with `font` at `x` / `y` stays within machine integers.
pub open spec fn text_fits<F>(font: FontHandler<F>, text: Seq<char>, x: i32, y: i32, x_centered: bool, y_centered: bool) -> bool {
    &&& text_width(font.inner@, text) <= u32::MAX
    &&& i32::MIN <= start_x(font.inner@, text, x, x_centered) <= i32::MAX
    &&& i32::MIN <= start_y(font.inner@, text, y, y_centered) <= i32::MAX
    &&& pen_fits(font.inner@, text, start_x(font.inner@, text, x, x_centered))
}

impl<C, F> System<C, F> {
    /// A system whose camera is at the origin, without font maps.
    pub fn new(canvas: C, width: u32, height: u32, health_bar: HealthBar<F>) -> (r: System<C, F>)
        ensures
            r.canvas == canvas,
            r.x == 0 && r.y == 0,
            r.width == width && r.height == height,
            r.health_bar == health_bar,
            r.font_maps@.len() == 0,
    {
        System { canvas, x: 0, y: 0, width, height, health_bar, font_maps: Vec::new() }
    }

    /// The position of the font map with the given size and colour, if there is one.
    pub fn font_map_position(&self, font_size: u16, color: Color) -> (r: Option<usize>)
        ensures
            r matches Some(i) ==> font_map_index(self.font_maps@, font_size, color) == Some(i as int),
            r is None ==> font_map_index(self.font_maps@, font_size, color) is None,
    {
        let mut i: usize = 0;
        while i < self.font_maps.len()
            invariant
                i <= self.font_maps@.len(),
                forall|j: int|
                    0 <= j < i ==> !(self.font_maps@[j].size == font_size && self.font_maps@[j].color
                        == color),
            decreases self.font_maps@.len() - i,
        {
            if self.font_maps[i].size == font_size && self.font_maps[i].color == color {
                proof {
                    lemma_font_map_index(self.font_maps@, font_size, color, i as int);
                }
                return Some(i);
            }
            i = i + 1;
        }
        proof {
            lemma_font_map_index(self.font_maps@, font_size, color, i as int);
        }
        None
    }

    /// Adds `font_map` unless a font map of the same size and colour is already there.
    pub fn create_new_font_map(&mut self, font_map: FontHandler<F>)
        ensures
            final(self).x == old(self).x && final(self).y == old(self).y,
            final(self).width == old(self).width && final(self).height == old(self).height,
            final(self).canvas == old(self).canvas,
            final(self).health_bar == old(self).health_bar,
            font_map_index(old(self).font_maps@, font_map.size, font_map.color) is Some
                ==> final(self).font_maps@ == old(self).font_maps@,
            font_map_index(old(self).font_maps@, font_map.size, font_map.color) is None
                ==> final(self).font_maps@ == old(self).font_maps@.push(font_map),
    {
        if self.font_map_position(font_map.size, font_map.color).is_some() {
            return ;
        }
        self.font_maps.push(font_map);
    }

    /// The screen width.
    /// Centres the camera on the player standing at `player_x` / `player_y`.
    pub fn set_screen_position(&mut self, player_x: i64, player_y: i64)
        requires
            i64::MIN <= player_x - half_toward_zero((old(self).width as i32) as int) <= i64::MAX,
            i64::MIN <= player_y - half_toward_zero((old(self).height as i32) as int) <= i64::MAX,
        ensures
            final(self).x == player_x - half_toward_zero((old(self).width as i32) as int),
            final(self).y == player_y - half_toward_zero((old(self).height as i32) as int),
            final(self).width == old(self).width,
            final(self).height == old(self).height,
            final(self).canvas == old(self).canvas,
            final(self).health_bar == old(self).health_bar,
            final(self).font_maps@ == old(self).font_maps@,
    {
        self.x = player_x - self.width() as i64 / 2;
        self.y = player_y - self.height() as i64 / 2;
    }

    pub fn width(&self) -> (r: i32)
        ensures
            r == self.width as i32,
    {
        self.width as i32
    }

    /// The screen height.
    pub fn height(&self) -> (r: i32)
        ensures
            r == self.height as i32,
    {
        self.height as i32
    }

    /// The camera position (left edge) in the world.
    pub fn x(&self) -> (r: i64)
        ensures
            r == self.x,
    {
        self.x
    }

    /// The camera position (top edge) in the world.
    pub fn y(&self) -> (r: i64)
        ensures
            r == self.y,
    {
        self.y
    }

    /// The copies that draw `text` with the font map of the given size and colour,
    /// with the width and height the text takes; nothing when no such font map exists.
    pub fn draw_text(
        &self,
        text: &str,
        font_size: u16,
        color: Color,
        x: i32,
        y: i32,
        x_centered: bool,
        y_centered: bool,
    ) -> (r: (Vec<(Rect, Rect)>, u32, u32))
        requires
            font_map_index(self.font_maps@, font_size, color) matches Some(i) ==> text_fits(
                self.font_maps@[i],
                text@,
                x,
                y,
                x_centered,
                y_centered,
            ),
        ensures
            font_map_index(self.font_maps@, font_size, color) is None ==> r.0@.len() == 0 && r.1
                == 0 && r.2 == 0,
            font_map_index(self.font_maps@, font_size, color) matches Some(i) ==> {
                let inner = self.font_maps@[i].inner@;
                &&& r.0@ == text_copies(
                    inner,
                    text@,
                    start_x(inner, text@, x, x_centered),
                    start_y(inner, text@, y, y_centered) as i32,
                )
                &&& r.1 == text_width(inner, text@)
                &&& r.2 == text_height(inner, text@)
            },
    {
        proof {
            lemma_font_map_index_in_range(self.font_maps@, font_size, color);
        }
        match self.font_map_position(font_size, color) {
            Some(pos) => self.font_maps[pos].draw(text, x, y, x_centered, y_centered),
            None => (Vec::new(), 0, 0),
        }
    }

    /// Where the second font map is shown, whole, with its top-left corner at `x` / `y`.
    pub fn full_draw_text(&self, x: i32, y: i32) -> (r: Rect)
        requires
            self.font_maps@.len() > 1,
        ensures
            r == (Rect {
                x,
                y,
                width: self.font_maps@[1].texture.width,
                height: self.font_maps@[1].texture.height,
            }),
    {
        Rect::new(x, y, self.font_maps[1].texture.width, self.font_maps[1].texture.height)
    }
}

} // verus!
