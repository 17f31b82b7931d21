use vstd::prelude::*;

use crate::direction::Direction;
use crate::geometry::Rect;
use crate::texture_holder::TextureId;

verus! {

/// The place of one sprite in a sprite sheet, and how far the next frame of the same
/// animation is.
#[derive(Clone, Copy, PartialEq, Eq, Debug, Structural)]
pub struct Dimension {
    pub rect: Rect,
    pub incr_to_next: i32,
}

impl Dimension {
    pub fn new(rect: Rect, incr_to_next: i32) -> (r: Dimension)
        ensures
            r == (Dimension { rect, incr_to_next }),
    {
        Dimension { rect, incr_to_next }
    }

    pub fn width(&self) -> (r: u32)
        ensures
            r == self.rect.width,
    {
        self.rect.width
    }

    pub fn height(&self) -> (r: u32)
        ensures
            r == self.rect.height,
    {
        self.rect.height
    }
}

/// The sprites of a character: one standing sprite and one moving animation (with its
/// number of frames) per direction, in the order up, down, left, right.
pub struct TextureHandler {
    /// The name of the surface kept for collision checks.
    pub surface: &'static str,
    pub texture: TextureId,
    pub actions_standing: Vec<Dimension>,
    pub actions_moving: Vec<(Dimension, i32)>,
    /// When set, the size the sprites are drawn at, whatever their size in the sheet.
    pub forced_size: Option<(u32, u32)>,
}

impl TextureHandler {
    pub fn new(
        surface: &'static str,
        texture: TextureId,
        actions_standing: Vec<Dimension>,
        actions_moving: Vec<(Dimension, i32)>,
        forced_size: Option<(u32, u32)>,
    ) -> (r: TextureHandler)
        ensures
            r.surface == surface,
            r.texture == texture,
            r.actions_standing == actions_standing,
            r.actions_moving == actions_moving,
            r.forced_size == forced_size,
    {
        TextureHandler { surface, texture, actions_standing, actions_moving, forced_size }
    }

    /// The size of the hitbox of a character facing `dir`: its forced size when there is
    /// one, else the size of the moving or standing sprite.
    pub fn hitbox_size(&self, dir: Direction, is_moving: bool) -> (r: (i32, i32))
        requires
            is_moving ==> dir.spec_index() < self.actions_moving@.len(),
            !is_moving ==> dir.spec_index() < self.actions_standing@.len(),
        ensures
            r == (match self.forced_size {
                Some(s) => (s.0 as i32, s.1 as i32),
                None => if is_moving {
                    (
                        self.actions_moving@[dir.spec_index()].0.rect.width as i32,
                        self.actions_moving@[dir.spec_index()].0.rect.height as i32,
                    )
                } else {
                    (
                        self.actions_standing@[dir.spec_index()].rect.width as i32,
                        self.actions_standing@[dir.spec_index()].rect.height as i32,
                    )
                },
            }),
    {
        let (mut tile_width, mut tile_height) = if is_moving {
            let tmp = &self.actions_moving[dir.index()].0;
            (tmp.width() as i32, tmp.height() as i32)
        } else {
            let tmp = &self.actions_standing[dir.index()];
            (tmp.width() as i32, tmp.height() as i32)
        };
        if let Some(s) = self.forced_size {
            tile_width = s.0 as i32;
            tile_height = s.1 as i32;
        }
        (tile_width, tile_height)
    }
}

} // verus!
