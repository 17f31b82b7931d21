use vstd::prelude::*;

use crate::character::{Character, CharacterKind, CharacterPoints};
use crate::geometry::Rect;
use crate::texture_handler::{Dimension, TextureHandler};
use crate::texture_holder::Textures;

verus! {

/// The frame of a skeleton's sheet at column `col`, row `row`, for tiles of
/// `tile_width` x `tile_height` pixels; the next frame is `incr` pixels to the right.
pub open spec fn sheet_frame(tile_width: u32, tile_height: u32, col: int, row: int, incr: i32) -> Dimension {
    Dimension {
        rect: Rect {
            x: (col * (tile_width as i32)) as i32,
            y: (row * (tile_height as i32)) as i32,
            width: tile_width,
            height: tile_height,
        },
        incr_to_next: incr,
    }
}

/// The standing frames of a skeleton, facing up, down, left and right: the second
/// column of the sheet's rows 0, 3, 1 and 2.
pub open spec fn skeleton_standing(tile_width: u32, tile_height: u32) -> Seq<Dimension> {
    seq![
        sheet_frame(tile_width, tile_height, 1, 0, 0),
        sheet_frame(tile_width, tile_height, 1, 3, 0),
        sheet_frame(tile_width, tile_height, 1, 1, 0),
        sheet_frame(tile_width, tile_height, 1, 2, 0),
    ]
}

/// The walking animations of a skeleton, facing up, down, left and right: three frames
/// from the first column of the same rows, one tile apart.
pub open spec fn skeleton_moving(tile_width: u32, tile_height: u32) -> Seq<(Dimension, i32)> {
    seq![
        (sheet_frame(tile_width, tile_height, 0, 0, tile_width as i32), 3i32),
        (sheet_frame(tile_width, tile_height, 0, 3, tile_width as i32), 3i32),
        (sheet_frame(tile_width, tile_height, 0, 1, tile_width as i32), 3i32),
        (sheet_frame(tile_width, tile_height, 0, 2, tile_width as i32), 3i32),
    ]
}

/// The points of a skeleton: one in every attribute.
pub open spec fn skeleton_points() -> CharacterPoints {
    CharacterPoints {
        strength: 1,
        constitution: 1,
        intelligence: 1,
        wisdom: 1,
        stamina: 1,
        agility: 1,
        dexterity: 1,
    }
}

/// The sprites of a skeleton whose sheet "skeleton" of `textures` is cut in tiles of
/// `tile_width` x `tile_height` pixels, drawn at 24 x 24 pixels.
pub fn skeleton_texture_handler<T, S>(textures: &Textures<T, S>, tile_width: u32, tile_height: u32) -> (r:
    TextureHandler)
    requires
        textures.wf(),
        textures.named().dom().contains("skeleton"@),
        (tile_height as i32) * 3 <= i32::MAX,
        (tile_height as i32) * 3 >= i32::MIN,
    ensures
        r.surface@ == "skeleton"@,
        r.texture == textures.named()["skeleton"@],
        r.actions_standing@ == skeleton_standing(tile_width, tile_height),
        r.actions_moving@ == skeleton_moving(tile_width, tile_height),
        r.forced_size == Some((24u32, 24u32)),
{
    let tw = tile_width as i32;
    let th = tile_height as i32;
    let mut standing: Vec<Dimension> = Vec::new();
    standing.push(Dimension::new(Rect::new(tw, 0, tile_width, tile_height), 0));
    standing.push(Dimension::new(Rect::new(tw, th * 3, tile_width, tile_height), 0));
    standing.push(Dimension::new(Rect::new(tw, th, tile_width, tile_height), 0));
    standing.push(Dimension::new(Rect::new(tw, th * 2, tile_width, tile_height), 0));
    let mut moving: Vec<(Dimension, i32)> = Vec::new();
    moving.push((Dimension::new(Rect::new(0, 0, tile_width, tile_height), tw), 3));
    moving.push((Dimension::new(Rect::new(0, th * 3, tile_width, tile_height), tw), 3));
    moving.push((Dimension::new(Rect::new(0, th, tile_width, tile_height), tw), 3));
    moving.push((Dimension::new(Rect::new(0, th * 2, tile_width, tile_height), tw), 3));
    assert(standing@ =~= skeleton_standing(tile_width, tile_height));
    assert(moving@ =~= skeleton_moving(tile_width, tile_height));
    TextureHandler::new(
        "skeleton",
        textures.get_texture_id_from_name("skeleton"),
        standing,
        moving,
        Some((24, 24)),
    )
}

/// A new skeleton: a level 1 monster with one point in every attribute, 100 experience
/// out of 1000 to the next level, and no point left to spend.
pub fn skeleton_character() -> (c: Character)
    ensures
        c.kind == CharacterKind::Monster,
        c.level == 1,
        c.points == skeleton_points(),
        c.stats == skeleton_points().spec_stats(1),
        c.xp_to_next_level == 1000,
        c.xp == 100,
        c.unused_points == 0,
        !c.is_attacking,
{
    let points = CharacterPoints {
        strength: 1,
        constitution: 1,
        intelligence: 1,
        wisdom: 1,
        stamina: 1,
        agility: 1,
        dexterity: 1,
    };
    let stats = points.generate_stats(1);
    Character {
        kind: CharacterKind::Monster,
        xp_to_next_level: 1000,
        xp: 100,
        level: 1,
        stats,
        points,
        unused_points: 0,
        is_attacking: false,
    }
}

} // verus!
