use vstd::prelude::*;

use crate::animation::{DEATH_SPRITE_HEIGHT, DEATH_SPRITE_WIDTH};
use crate::geometry::Rect;
use crate::system::System;

verus! {

/// A death animation with its own texture, whose frames sit side by side.
pub struct DeathAnimation<T> {
    pub texture: T,
    pub nb_animations: u32,
    pub duration: u64,
    pub max_duration: u64,
}

/// The frame shown after `duration` of `max_duration` (both read as `u32`), out of
/// `nb_animations`.
pub open spec fn death_frame(duration: u64, max_duration: u64, nb_animations: u32) -> int {
    ((duration as u32) * 100 / ((max_duration as u32) as int)) * nb_animations / 100
}

/// Where the sprite's top-left corner would be on the screen, for an animation centred
/// on world position `x` / `y` (the offset from the camera read as `i32`).
pub open spec fn death_corner(v: i64, camera: i64, half: int) -> int {
    ((v - camera) as i32) - half
}

/// The arithmetic of drawing fits in machine integers.
pub open spec fn death_draw_fits<T, C, F>(a: DeathAnimation<T>, system: &System<C, F>, x: i64, y: i64) -> bool {
    &&& i64::MIN <= x - system.x <= i64::MAX
    &&& i64::MIN <= y - system.y <= i64::MAX
    &&& i32::MIN <= death_corner(x, system.x, 15) <= i32::MAX - 30
    &&& i32::MIN <= death_corner(y, system.y, 11) <= i32::MAX - 22
    &&& (a.max_duration as u32) > 0
    &&& (a.duration as u32) * 100 <= u32::MAX
    &&& ((a.duration as u32) * 100 / ((a.max_duration as u32) as int)) * a.nb_animations <= u32::MAX
    &&& death_frame(a.duration, a.max_duration, a.nb_animations) * 30 <= i32::MAX
}

impl<T> DeathAnimation<T> {
    /// A death animation of `duration`, drawn from `texture`, `image_width` pixels wide.
    pub fn new(texture: T, image_width: u32, duration: u64) -> (a: DeathAnimation<T>)
        ensures
            a.texture == texture,
            a.nb_animations == image_width / DEATH_SPRITE_WIDTH,
            a.duration == 0,
            a.max_duration == duration,
    {
        DeathAnimation { texture, nb_animations: image_width / DEATH_SPRITE_WIDTH, duration: 0, max_duration: duration }
    }

    /// Advances the animation by `elapsed`.
    pub fn update(&mut self, elapsed: u64)
        requires
            old(self).duration + elapsed <= u64::MAX,
        ensures
            *final(self) == (DeathAnimation { duration: (old(self).duration + elapsed) as u64, ..*old(self) }),
    {
        self.duration = self.duration + elapsed;
    }

    /// Whether the animation has played to its end.
    pub fn is_done(&self) -> (r: bool)
        ensures
            r == (self.duration >= self.max_duration),
    {
        self.duration >= self.max_duration
    }

    /// What drawing the animation centred on world position `x` / `y` takes: the part of
    /// the texture (the current frame) and where it goes on the screen; nothing once it
    /// is done or out of sight.
    pub fn draw<C, F>(&self, system: &System<C, F>, x: i64, y: i64) -> (r: Option<(Rect, Rect)>)
        requires
            !(self.duration >= self.max_duration) ==> death_draw_fits(*self, system, x, y),
        ensures
            ({
                let sx = death_corner(x, system.x, 15);
                let sy = death_corner(y, system.y, 11);
                if self.duration >= self.max_duration || 30 + sx < 0 || sx > system.width as i32 || 22 + sy < 0
                    || sy > system.height as i32 {
                    r is None
                } else {
                    r == Some(
                        (
                            Rect {
                                x: (death_frame(self.duration, self.max_duration, self.nb_animations) * 30) as i32,
                                y: 0,
                                width: DEATH_SPRITE_WIDTH,
                                height: DEATH_SPRITE_HEIGHT,
                            },
                            Rect {
                                x: (sx + 15) as i32,
                                y: (sy + 11) as i32,
                                width: DEATH_SPRITE_WIDTH,
                                height: DEATH_SPRITE_HEIGHT,
                            },
                        ),
                    )
                }
            }),
    {
        if self.is_done() {
            return None;
        }
        let half_width: i32 = DEATH_SPRITE_WIDTH as i32 / 2;
        let half_height: i32 = DEATH_SPRITE_HEIGHT as i32 / 2;
        let sx: i32 = (x - system.x()) as i32 - half_width;
        let sy: i32 = (y - system.y()) as i32 - half_height;
        if DEATH_SPRITE_WIDTH as i32 + sx < 0 || sx > system.width() || DEATH_SPRITE_HEIGHT as i32 + sy < 0
            || sy > system.height() {
            return None;
        }
        let current_animation = (self.duration as u32 * 100 / self.max_duration as u32) * self.nb_animations
            / 100;
        let tile_x = current_animation * DEATH_SPRITE_WIDTH;
        Some(
            (
                Rect::new(tile_x as i32, 0, DEATH_SPRITE_WIDTH, DEATH_SPRITE_HEIGHT),
                Rect::new(sx + half_width, sy + half_height, DEATH_SPRITE_WIDTH, DEATH_SPRITE_HEIGHT),
            ),
        )
    }
}

} // verus!
