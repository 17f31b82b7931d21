use vstd::prelude::*;

use crate::direction::Direction;
use crate::texture_holder::{TextureHolder, TextureId, Textures};

verus! {

/// Reach of a bare-handed attack, in pixels.
pub const RANGE: i32 = 15;

/// How an attack in progress moves.
#[derive(Clone, Copy, PartialEq, Eq, Debug, Structural)]
pub enum WeaponActionKind {
    /// The attacker lunges toward a point, relative to itself.
    AttackByMove { target_x: i32, target_y: i32 },
    /// The weapon sweeps `total_angle` degrees starting at `start_angle`.
    AttackBySlash { start_angle: i32, total_angle: i32 },
}

/// An attack in progress.
#[derive(Clone, Copy, PartialEq, Eq, Debug, Structural)]
pub struct WeaponAction {
    pub duration: u32,
    pub total_duration: u32,
    pub x_add: i32,
    pub y_add: i32,
    pub kind: WeaponActionKind,
}

/// Fighting bare-handed.
#[derive(Clone, Copy, PartialEq, Eq, Debug, Structural)]
pub struct Nothing;

impl Nothing {
    /// A lunge of `RANGE` pixels in `direction`.
    pub fn use_it(&mut self, direction: Direction, total_duration: u32) -> (r: Option<WeaponAction>)
        ensures
            *final(self) == *old(self),
            r == Some(WeaponAction {
                duration: 0,
                total_duration,
                x_add: 0,
                y_add: 0,
                kind: WeaponActionKind::AttackByMove {
                    target_x: match direction {
                        Direction::Left => (-RANGE) as i32,
                        Direction::Right => RANGE,
                        _ => 0,
                    },
                    target_y: match direction {
                        Direction::Up => (-RANGE) as i32,
                        Direction::Down => RANGE,
                        _ => 0,
                    },
                },
            }),
    {
        let (target_x, target_y) = match direction {
            Direction::Up => (0, -RANGE),
            Direction::Down => (0, RANGE),
            Direction::Left => (-RANGE, 0),
            Direction::Right => (RANGE, 0),
        };
        Some(WeaponAction {
            duration: 0,
            total_duration,
            x_add: 0,
            y_add: 0,
            kind: WeaponActionKind::AttackByMove { target_x, target_y },
        })
    }

    pub fn weight(&self) -> (r: u32)
        ensures
            r == 1,
    {
        1
    }

    /// Fists are not drawn.
    pub fn get_texture(&self) -> (r: Option<TextureId>)
        ensures
            r is None,
    {
        None
    }

    pub fn width(&self) -> (r: u32)
        ensures
            r == RANGE,
    {
        RANGE as u32
    }

    pub fn height(&self) -> (r: u32)
        ensures
            r == RANGE,
    {
        RANGE as u32
    }
}

/// The mask of a surface's opaque pixels: 1 where the alpha channel (the lowest byte
/// of an RGBA8888 pixel) is above 220, 0 elsewhere.
pub fn get_surface_data(pixels: &Vec<u32>) -> (data: Vec<u8>)
    ensures
        data@.len() == pixels@.len(),
        forall|i: int|
            0 <= i < pixels@.len() ==> #[trigger] data@[i] == (if pixels@[i] & 255 > 220 {
                1u8
            } else {
                0u8
            }),
{
    let mut data: Vec<u8> = Vec::new();
    let mut i: usize = 0;
    while i < pixels.len()
        invariant
            i <= pixels@.len(),
            data@.len() == i,
            forall|j: int|
                0 <= j < i ==> #[trigger] data@[j] == (if pixels@[j] & 255 > 220 {
                    1u8
                } else {
                    0u8
                }),
        decreases pixels@.len() - i,
    {
        let alpha = pixels[i] & 255;
        data.push(if alpha > 220 { 1 } else { 0 });
        i = i + 1;
    }
    data
}

/// A sword, drawn with its own texture.
#[derive(Clone, Copy, PartialEq, Eq, Debug, Structural)]
pub struct Sword {
    pub texture: TextureId,
}

impl Sword {
    /// Registers the sword texture and the mask of its opaque pixels (from `pixels`,
    /// the texture's RGBA8888 pixels), both under the name "sword".
    pub fn init_textures<T, S>(textures: &mut Textures<T, S>, texture: TextureHolder<T>, pixels: &Vec<u32>)
        requires
            old(textures).wf(),
            old(textures).holders().len() < usize::MAX,
            !old(textures).named().dom().contains("sword"@),
            !old(textures).data().dom().contains("sword"@),
        ensures
            final(textures).wf(),
            final(textures).holders() == old(textures).holders().push(texture),
            final(textures).named().dom() == old(textures).named().dom().insert("sword"@),
            final(textures).named()["sword"@].index() == old(textures).holders().len(),
            final(textures).named()["sword"@].width == texture.width as u16,
            final(textures).named()["sword"@].height == texture.height as u16,
            final(textures).named().remove("sword"@) == old(textures).named(),
            final(textures).data().remove("sword"@) == old(textures).data(),
            final(textures).surface_map() == old(textures).surface_map(),
            final(textures).data().dom() == old(textures).data().dom().insert("sword"@),
            final(textures).data()["sword"@].len() == pixels@.len(),
            forall|i: int|
                0 <= i < pixels@.len() ==> #[trigger] final(textures).data()["sword"@][i] == (if pixels@[i]
                    & 255 > 220 {
                    1u8
                } else {
                    0u8
                }),
    {
        let data = get_surface_data(pixels);
        textures.add_surface_data("sword", data);
        textures.add_named_texture("sword", texture);
    }

    /// A sword using the texture named "sword".
    pub fn new<T, S>(textures: &Textures<T, S>) -> (r: Sword)
        requires
            textures.wf(),
            textures.named().dom().contains("sword"@),
        ensures
            r.texture == textures.named()["sword"@],
    {
        Sword { texture: textures.get_texture_id_from_name("sword") }
    }

    /// A 90-degree slash starting on the side of `direction`, anchored at the bottom
    /// of the sword (and at its middle when facing up or down).
    pub fn use_it(&mut self, direction: Direction, total_duration: u32) -> (r: Option<WeaponAction>)
        ensures
            *final(self) == *old(self),
            r == Some(WeaponAction {
                duration: 0,
                total_duration,
                x_add: match direction {
                    Direction::Up | Direction::Down => ((old(self).texture.width as i32) / 2) as i32,
                    _ => 0,
                },
                y_add: old(self).texture.height as i32,
                kind: WeaponActionKind::AttackBySlash {
                    start_angle: match direction {
                        Direction::Up => -45i32,
                        Direction::Down => 135,
                        Direction::Left => 225,
                        Direction::Right => 45,
                    },
                    total_angle: 90,
                },
            }),
    {
        let w = self.width() as i32;
        let h = self.height() as i32;
        let (start_angle, x_add, y_add) = match direction {
            Direction::Up => (-45, w / 2, h),
            Direction::Down => (135, w / 2, h),
            Direction::Left => (225, 0, h),
            Direction::Right => (45, 0, h),
        };
        Some(WeaponAction {
            duration: 0,
            total_duration,
            x_add,
            y_add,
            kind: WeaponActionKind::AttackBySlash { start_angle, total_angle: 90 },
        })
    }

    pub fn weight(&self) -> (r: u32)
        ensures
            r == 10,
    {
        10
    }

    pub fn get_texture(&self) -> (r: Option<TextureId>)
        ensures
            r == Some(self.texture),
    {
        Some(self.texture)
    }

    pub fn width(&self) -> (r: u32)
        ensures
            r == self.texture.width,
    {
        self.texture.width as u32
    }

    pub fn height(&self) -> (r: u32)
        ensures
            r == self.texture.height,
    {
        self.texture.height as u32
    }
}

} // verus!
