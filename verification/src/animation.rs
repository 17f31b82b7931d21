use vstd::prelude::*;

use crate::geometry::Rect;
use crate::system::System;
use crate::texture_holder::{TextureHolder, TextureId, Textures};
use crate::ONE_SECOND;

verus! {

pub const DEATH_SPRITE_WIDTH: u32 = 30;
pub const DEATH_SPRITE_HEIGHT: u32 = 22;
pub const LEVEL_UP_SPRITE_WIDTH: u32 = 82;
pub const LEVEL_UP_SPRITE_HEIGHT: u32 = 36;

/// Registers the texture of the death animation under the name "death".
pub fn create_death_animation_texture<T, S>(textures: &mut Textures<T, S>, texture: TextureHolder<T>)
    requires
        old(textures).wf(),
        old(textures).holders().len() < usize::MAX,
        !old(textures).named().dom().contains("death"@),
    ensures
        final(textures).wf(),
        final(textures).holders() == old(textures).holders().push(texture),
        final(textures).named().dom() == old(textures).named().dom().insert("death"@),
        final(textures).named()["death"@].index() == old(textures).holders().len(),
        final(textures).named()["death"@].width == texture.width as u16,
        final(textures).named()["death"@].height == texture.height as u16,
        final(textures).named().remove("death"@) == old(textures).named(),
        final(textures).data() == old(textures).data(),
        final(textures).surface_map() == old(textures).surface_map(),
{
    textures.add_named_texture("death", texture);
}

/// Registers the texture of the level-up animation under the name "level-up".
pub fn create_level_up_animation_texture<T, S>(textures: &mut Textures<T, S>, texture: TextureHolder<T>)
    requires
        old(textures).wf(),
        old(textures).holders().len() < usize::MAX,
        !old(textures).named().dom().contains("level-up"@),
    ensures
        final(textures).wf(),
        final(textures).holders() == old(textures).holders().push(texture),
        final(textures).named().dom() == old(textures).named().dom().insert("level-up"@),
        final(textures).named()["level-up"@].index() == old(textures).holders().len(),
        final(textures).named()["level-up"@].width == texture.width as u16,
        final(textures).named()["level-up"@].height == texture.height as u16,
        final(textures).named().remove("level-up"@) == old(textures).named(),
        final(textures).data() == old(textures).data(),
        final(textures).surface_map() == old(textures).surface_map(),
{
    textures.add_named_texture("level-up", texture);
}

/// A one-second animation played from a sprite sheet whose frames sit side by side.
pub struct Animation {
    pub texture: TextureId,
    pub nb_animations: u32,
    pub duration: u32,
    pub max_duration: u32,
    pub sprite_width: u32,
    pub sprite_height: u32,
    pub sprite_display_width: u32,
    pub sprite_display_height: u32,
}

/// The texture named `name` is registered and stored.
pub open spec fn has_texture<T, S>(textures: Textures<T, S>, name: Seq<char>) -> bool {
    &&& textures.wf()
    &&& textures.named().dom().contains(name)
    &&& textures.named()[name].index() < textures.holders().len()
}

/// The width of the texture registered under `name`.
pub open spec fn texture_width<T, S>(textures: Textures<T, S>, name: Seq<char>) -> u32 {
    textures.holders()[textures.named()[name].index() as int].width
}

/// The frame to show after `duration` of an animation of `max_duration` with
/// `nb_animations` frames.
pub open spec fn current_frame(duration: u32, max_duration: u32, nb_animations: u32) -> int {
    (duration * 100 / (max_duration as int)) * nb_animations / 100
}

impl Animation {
    /// The death animation: 30 x 22 frames from the texture named "death".
    pub fn new_death<T, S>(textures: &Textures<T, S>) -> (r: Self)
        requires
            has_texture(*textures, "death"@),
        ensures
            r.texture == textures.named()["death"@],
            r.nb_animations == texture_width(*textures, "death"@) / DEATH_SPRITE_WIDTH,
            r.duration == 0,
            r.max_duration == ONE_SECOND,
            r.sprite_width == DEATH_SPRITE_WIDTH && r.sprite_height == DEATH_SPRITE_HEIGHT,
            r.sprite_display_width == DEATH_SPRITE_WIDTH,
            r.sprite_display_height == DEATH_SPRITE_HEIGHT,
    {
        let texture = textures.get_texture_id_from_name("death");
        let nb_animations = textures.get(texture).width / DEATH_SPRITE_WIDTH;
        Animation {
            texture,
            nb_animations,
            duration: 0,
            max_duration: ONE_SECOND,
            sprite_width: DEATH_SPRITE_WIDTH,
            sprite_height: DEATH_SPRITE_HEIGHT,
            sprite_display_width: DEATH_SPRITE_WIDTH,
            sprite_display_height: DEATH_SPRITE_HEIGHT,
        }
    }

    /// The level-up animation: 82 x 36 frames from the texture named "level-up", shown
    /// at 38 x 16.
    pub fn new_level_up<T, S>(textures: &Textures<T, S>) -> (r: Self)
        requires
            has_texture(*textures, "level-up"@),
        ensures
            r.texture == textures.named()["level-up"@],
            r.nb_animations == texture_width(*textures, "level-up"@) / LEVEL_UP_SPRITE_WIDTH,
            r.duration == 0,
            r.max_duration == ONE_SECOND,
            r.sprite_width == LEVEL_UP_SPRITE_WIDTH && r.sprite_height == LEVEL_UP_SPRITE_HEIGHT,
            r.sprite_display_width == 38,
            r.sprite_display_height == 16,
    {
        let texture = textures.get_texture_id_from_name("level-up");
        let nb_animations = textures.get(texture).width / LEVEL_UP_SPRITE_WIDTH;
        Animation {
            texture,
            nb_animations,
            duration: 0,
            max_duration: ONE_SECOND,
            sprite_width: LEVEL_UP_SPRITE_WIDTH,
            sprite_height: LEVEL_UP_SPRITE_HEIGHT,
            sprite_display_width: 38,
            sprite_display_height: 16,
        }
    }

    /// Advances the animation by `elapsed` microseconds.
    pub fn update(&mut self, elapsed: u32)
        requires
            old(self).duration + elapsed <= u32::MAX,
        ensures
            *final(self) == (Animation { duration: (old(self).duration + elapsed) as u32, ..*old(self) }),
    {
        self.duration = self.duration + elapsed;
    }

    /// The animation has played completely.
    pub fn is_done(&self) -> (r: bool)
        ensures
            r == (self.duration >= self.max_duration),
    {
        self.duration >= self.max_duration
    }

    /// The copy (frame of the sprite sheet, place on the screen) that shows the
    /// animation centred on world position `x` / `y`; `None` once it is done or when it
    /// is out of sight.
    pub fn draw<C, F>(&self, system: &System<C, F>, x: i64, y: i64) -> (r: Option<(TextureId, Rect, Rect)>)
        requires
            i64::MIN <= x - system.x <= i64::MAX,
            i64::MIN <= y - system.y <= i64::MAX,
            i32::MIN <= ((x - system.x) as i32) - ((self.sprite_display_width / 2) as i32) <= i32::MAX,
            i32::MIN <= ((y - system.y) as i32) - ((self.sprite_display_height / 2) as i32) <= i32::MAX,
            i32::MIN <= (self.sprite_display_width as i32) + (((x - system.x) as i32) - ((self.sprite_display_width / 2) as i32)) <= i32::MAX,
            i32::MIN <= (self.sprite_display_height as i32) + (((y - system.y) as i32) - ((self.sprite_display_height / 2) as i32)) <= i32::MAX,
            self.duration < self.max_duration ==> self.duration * 100 <= u32::MAX,
            self.duration < self.max_duration ==> (self.duration * 100 / (self.max_duration as int)) * self.nb_animations <= u32::MAX,
            self.duration < self.max_duration ==> current_frame(self.duration, self.max_duration, self.nb_animations) * self.sprite_width <= u32::MAX,
        ensures
            self.duration >= self.max_duration ==> r is None,
            self.duration < self.max_duration ==> {
                let dx = ((x - system.x) as i32) - ((self.sprite_display_width / 2) as i32);
                let dy = ((y - system.y) as i32) - ((self.sprite_display_height / 2) as i32);
                if (self.sprite_display_width as i32) + dx < 0 || dx > (system.width as i32)
                    || (self.sprite_display_height as i32) + dy < 0 || dy > (system.height as i32) {
                    r is None
                } else {
                    r == Some((
                        self.texture,
                        Rect {
                            x: (current_frame(self.duration, self.max_duration, self.nb_animations) * self.sprite_width) as u32 as i32,
                            y: 0,
                            width: self.sprite_width,
                            height: self.sprite_height,
                        },
                        Rect { x: dx as i32, y: dy as i32, width: self.sprite_display_width, height: self.sprite_display_height },
                    ))
                }
            },
    {
        if self.is_done() {
            return None;
        }
        let dx = (x - system.x()) as i32 - (self.sprite_display_width / 2) as i32;
        let dy = (y - system.y()) as i32 - (self.sprite_display_height / 2) as i32;
        if self.sprite_display_width as i32 + dx < 0 || dx > system.width()
            || self.sprite_display_height as i32 + dy < 0 || dy > system.height() {
            return None;
        }
        let current_animation = (self.duration * 100 / self.max_duration) * self.nb_animations / 100;
        let tile_x = current_animation * self.sprite_width;
        Some((
            self.texture,
            Rect::new(tile_x as i32, 0, self.sprite_width, self.sprite_height),
            Rect::new(dx, dy, self.sprite_display_width, self.sprite_display_height),
        ))
    }
}

} // verus!
