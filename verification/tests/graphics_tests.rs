use toy_game::animation::{create_death_animation_texture, create_level_up_animation_texture, Animation};
use toy_game::death_animation::DeathAnimation;
use toy_game::debug_display::DebugDisplay;
use toy_game::font_handler::{font_glyphs, FontHandler, FONT_CHARACTERS};
use toy_game::geometry::{half_i32, Color, Rect};
use toy_game::health_bar::HealthBar;
use toy_game::system::System;
use toy_game::text_outline::outline_text;
use toy_game::texture_holder::{TextureHolder, Textures};
use toy_game::ONE_SECOND;

fn system(width: u32, height: u32) -> System<(), u32> {
    System::new((), width, height, HealthBar::new(1, 2, 10, 4))
}

fn white() -> Color {
    Color::rgb(255, 255, 255)
}

#[test]
fn halving_rounds_toward_zero() {
    assert_eq!(half_i32(7), 3);
    assert_eq!(half_i32(-7), -3);
    assert_eq!(half_i32(0), 0);
}

#[test]
fn textures_are_found_back_by_name() {
    let mut t: Textures<u32, &'static str> = Textures::new();
    let plain = t.add_texture(TextureHolder { texture: 10, width: 4, height: 5 });
    t.add_named_texture("hero", TextureHolder { texture: 11, width: 40, height: 50 });
    t.add_named_texture("heroine", TextureHolder { texture: 12, width: 41, height: 51 });
    assert_eq!(plain.id, 0);
    let id = t.get_texture_id_from_name("hero");
    assert_eq!(id.id, 1);
    assert_eq!((id.width, id.height), (40, 50));
    assert_eq!(t.get(id).texture, 11);
    let id2 = t.get_texture_id_from_name("heroine");
    assert_eq!(t.get(id2).texture, 12);
    t.add_surface_data("mask", vec![1, 0, 1]);
    assert_eq!(t.get_data("mask"), &[1, 0, 1]);
    t.add_surface("ground", "surface");
    assert_eq!(*t.get_surface("ground"), "surface");
}

#[test]
fn texture_handles_truncate_sizes() {
    let mut t: Textures<u32, ()> = Textures::new();
    let id = t.add_texture(TextureHolder { texture: 1, width: 70000, height: 3 });
    assert_eq!(id.width, (70000u32 & 0xffff) as u16);
    assert_eq!(id.height, 3);
}

#[test]
fn textures_shrink_to_a_maximum_size() {
    let h = TextureHolder { texture: 1u32, width: 400, height: 100 }.with_max_size(100);
    assert_eq!((h.width, h.height), (100, 25));
    let h = TextureHolder { texture: 1u32, width: 30, height: 90 }.with_max_size(30);
    assert_eq!((h.width, h.height), (10, 30));
    let h = TextureHolder { texture: 1u32, width: 150, height: 149 }.with_max_size(100);
    assert_eq!((h.width, h.height), (100, 100));
}

#[test]
fn texture_drawing_and_visibility() {
    let mut s = system(800, 600);
    s.x = 100;
    s.y = 50;
    let h = TextureHolder { texture: 1u32, width: 20, height: 10 };
    assert_eq!(h.draw(&s, 150, 60), Some(Rect { x: 50, y: 10, width: 20, height: 10 }));
    assert_eq!(h.draw(&s, 79, 60), None);
    assert_eq!(h.draw(&s, 80, 60), Some(Rect { x: -20, y: 10, width: 20, height: 10 }));
    assert_eq!(h.draw(&s, 900, 60), Some(Rect { x: 800, y: 10, width: 20, height: 10 }));
    assert_eq!(h.draw(&s, 901, 60), None);
}

#[test]
fn camera_follows_the_player() {
    let mut s = system(801, 600);
    s.set_screen_position(1000, -20);
    assert_eq!((s.x(), s.y()), (600, -320));
    assert_eq!((s.width(), s.height()), (801, 600));
}

fn font(size: u16, color: Color) -> FontHandler<u32> {
    FontHandler::new(
        TextureHolder { texture: 3, width: 15, height: 10 },
        size,
        color,
        &vec![('a', 5, 8), ('b', 6, 10), ('c', 4, 7)],
    )
}

#[test]
fn font_map_layout() {
    let f = font(16, white());
    assert_eq!(f.inner.len(), 3);
    assert_eq!((f.inner[0].x, f.inner[1].x, f.inner[2].x), (0, 5, 11));
    assert!(f.inner.iter().all(|c| c.height == 10));
    assert_eq!(FontHandler::<u32>::atlas_size(&vec![('a', 5, 8), ('b', 6, 10)]), (11, 10));
    let rects = FontHandler::<u32>::glyph_rects(&vec![('a', 5, 8), ('b', 6, 10), ('c', 4, 7)]);
    assert_eq!(rects[0], Rect { x: 0, y: 2, width: 5, height: 8 });
    assert_eq!(rects[1], Rect { x: 5, y: 0, width: 6, height: 10 });
    assert_eq!(rects[2], Rect { x: 11, y: 3, width: 4, height: 7 });
    assert_eq!(FontHandler::<u32>::max_glyph_height(&vec![('a', 5, 8), ('c', 4, 7)]), 8);
}

#[test]
fn measuring_and_drawing_text() {
    let f = font(16, white());
    // Unknown characters take no room; each known one its width plus one pixel.
    assert_eq!(f.measure("abz"), (13, 10));
    assert_eq!(f.measure(""), (0, 0));
    let (copies, w, h) = f.draw("ab", 10, 20, false, false);
    assert_eq!((w, h), (13, 10));
    assert_eq!(copies.len(), 2);
    assert_eq!(copies[0], (Rect { x: 0, y: 0, width: 5, height: 10 }, Rect { x: 10, y: 20, width: 5, height: 10 }));
    assert_eq!(copies[1], (Rect { x: 5, y: 0, width: 6, height: 10 }, Rect { x: 16, y: 20, width: 6, height: 10 }));
    let (copies, _, _) = f.draw("ab", 10, 20, true, true);
    assert_eq!(copies[0].1, Rect { x: 4, y: 15, width: 5, height: 10 });
}

#[test]
fn system_text_uses_the_matching_font_map() {
    let mut s = system(800, 600);
    s.create_new_font_map(font(16, white()));
    s.create_new_font_map(font(16, white()));
    assert_eq!(s.font_maps.len(), 1);
    s.create_new_font_map(font(12, white()));
    assert_eq!(s.font_maps.len(), 2);
    assert_eq!(s.font_map_position(12, white()), Some(1));
    assert_eq!(s.font_map_position(12, Color::rgb(0, 0, 0)), None);
    let (copies, w, h) = s.draw_text("c", 16, white(), 0, 0, false, false);
    assert_eq!((copies.len(), w, h), (1, 5, 10));
    let (copies, w, h) = s.draw_text("c", 20, white(), 0, 0, false, false);
    assert_eq!((copies.len(), w, h), (0, 0, 0));
    assert_eq!(s.full_draw_text(3, 4), Rect { x: 3, y: 4, width: 15, height: 10 });
}

#[test]
fn health_bar_filling() {
    let bar = HealthBar::new(1u32, 2, 52, 6);
    assert_eq!(bar.fill_width(50), 25);
    assert_eq!(bar.fill_width(0), 0);
    let s = system(800, 600);
    let (frame, fill) = bar.draw(10, 20, 100, &s).unwrap();
    assert_eq!(frame, Rect { x: 10, y: 20, width: 52, height: 6 });
    assert_eq!(fill, Some((Rect { x: 0, y: 0, width: 50, height: 4 }, Rect { x: 11, y: 21, width: 50, height: 4 })));
    assert_eq!(bar.draw(10, 20, 1, &s).unwrap().1, None);
    assert_eq!(bar.draw(-60, 20, 1, &s), None);
}

fn animation_textures() -> Textures<u32, ()> {
    let mut t: Textures<u32, ()> = Textures::new();
    create_death_animation_texture(&mut t, TextureHolder { texture: 1, width: 300, height: 22 });
    create_level_up_animation_texture(&mut t, TextureHolder { texture: 2, width: 820, height: 36 });
    t
}

#[test]
fn death_animation_frames() {
    let t = animation_textures();
    let mut a = Animation::new_death(&t);
    assert_eq!(a.nb_animations, 10);
    assert_eq!(a.max_duration, ONE_SECOND);
    let s = system(800, 600);
    let (id, src, dst) = a.draw(&s, 100, 100).unwrap();
    assert_eq!(id.id, 0);
    assert_eq!(src, Rect { x: 0, y: 0, width: 30, height: 22 });
    assert_eq!(dst, Rect { x: 85, y: 89, width: 30, height: 22 });
    a.update(500_000);
    let (_, src, _) = a.draw(&s, 100, 100).unwrap();
    assert_eq!(src.x, 150);
    assert!(!a.is_done());
    a.update(500_000);
    assert!(a.is_done());
    assert!(a.draw(&s, 100, 100).is_none());
}

#[test]
fn level_up_animation() {
    let t = animation_textures();
    let a = Animation::new_level_up(&t);
    assert_eq!(a.nb_animations, 10);
    assert_eq!((a.sprite_display_width, a.sprite_display_height), (38, 16));
    let s = system(800, 600);
    assert!(a.draw(&s, -100, 100).is_none());
}

#[test]
fn death_animation_with_its_own_texture() {
    let mut d = DeathAnimation::new(7u32, 120, 1000);
    assert_eq!(d.nb_animations, 4);
    let s = system(800, 600);
    let (src, dst) = d.draw(&s, 50, 50).unwrap();
    assert_eq!(src, Rect { x: 0, y: 0, width: 30, height: 22 });
    assert_eq!(dst, Rect { x: 50, y: 50, width: 30, height: 22 });
    d.update(600);
    // 600 * 100 / 1000 * 4 / 100 = 2
    assert_eq!(d.draw(&s, 50, 50).unwrap().0.x, 60);
    d.update(400);
    assert!(d.is_done());
    assert!(d.draw(&s, 50, 50).is_none());
}

#[test]
fn debug_grid_lines() {
    let lines = DebugDisplay::grid_lines(16, 8, 8);
    assert_eq!(lines.len(), 2 + 3);
    assert_eq!(lines[0], Rect { x: 0, y: 0, width: 24, height: 1 });
    assert_eq!(lines[1], Rect { x: 0, y: 8, width: 24, height: 1 });
    assert_eq!(lines[2], Rect { x: 0, y: 0, width: 1, height: 16 });
    assert_eq!(lines[4], Rect { x: 16, y: 0, width: 1, height: 16 });
}

#[test]
fn debug_overlay_layout() {
    let mut textures: Textures<u32, ()> = Textures::new();
    let mut d = DebugDisplay::new(
        &mut textures,
        TextureHolder { texture: 1, width: 800, height: 200 },
        TextureHolder { texture: 2, width: 808, height: 608 },
        800,
        16,
    );
    let mut s = system(800, 600);
    s.create_new_font_map(font(16, white()));
    s.create_new_font_map(font(12, white()));
    s.x = -13;
    s.y = 20;
    let frame = d.draw(&s, &vec![], 8);
    assert!(frame.grid.is_none());
    assert!(frame.background.is_none());
    assert!(frame.font_map_y.is_none());
    d.switch_draw_grid();
    let frame = d.draw(&s, &vec!["ab", "", "c"], 8);
    assert_eq!(frame.grid, Some(Rect { x: 3, y: 4, width: 800, height: 600 }));
    assert_eq!(frame.background, Some(Rect { x: 0, y: 0, width: 800, height: 200 }));
    assert_eq!(frame.lines.len(), 3);
    assert_eq!(frame.lines[0].len(), 2);
    assert_eq!(frame.lines[0][0].1, Rect { x: 3, y: 2, width: 5, height: 10 });
    assert_eq!(frame.lines[1].len(), 0);
    // 2 + (10 + 1) + (16 + 1)
    assert_eq!(frame.lines[2][0].1.y, 30);
    assert_eq!(frame.font_map_y, Some(41));
}

#[test]
fn debug_overlay_stops_below_the_panel() {
    let mut textures: Textures<u32, ()> = Textures::new();
    let d = DebugDisplay::new(
        &mut textures,
        TextureHolder { texture: 1, width: 800, height: 200 },
        TextureHolder { texture: 2, width: 808, height: 608 },
        800,
        16,
    );
    let mut s = system(800, 600);
    s.create_new_font_map(font(16, white()));
    s.create_new_font_map(font(12, white()));
    let lines: Vec<&str> = vec![""; 20];
    let frame = d.draw(&s, &lines, 8);
    // Each empty line takes 17 pixels: after 12 lines the pen is at 206, below 200.
    assert_eq!(frame.lines.len(), 12);
    assert_eq!(frame.font_map_y, Some(206));
}

fn pixel(d: &[u8], pitch: usize, x: usize, y: usize) -> [u8; 4] {
    let p = y * pitch + x * 4;
    [d[p], d[p + 1], d[p + 2], d[p + 3]]
}

#[test]
fn text_outline_surrounds_the_text() {
    // A 3 x 3 image with one text pixel in the middle; rows have 2 bytes of padding.
    let pitch = 14;
    let mut data = vec![0u8; pitch * 3];
    let c = 4 + pitch;
    data[c] = 255;
    data[c + 1] = 255;
    data[c + 2] = 255;
    data[c + 3] = 255;
    data[12] = 7;
    outline_text(&mut data, pitch, 3, 3, white(), Color::rgb(1, 2, 3));
    assert_eq!(pixel(&data, pitch, 1, 1), [255, 255, 255, 255]);
    for (x, y) in [(0, 1), (2, 1), (1, 0), (1, 2)] {
        assert_eq!(pixel(&data, pitch, x, y), [1, 2, 3, 255]);
    }
    for (x, y) in [(0, 0), (2, 0), (0, 2), (2, 2)] {
        assert_eq!(pixel(&data, pitch, x, y), [0, 0, 0, 0]);
    }
    // The padding is left alone.
    assert_eq!(data[12], 7);
}

#[test]
fn text_outline_in_the_text_colour_spreads() {
    // With the outline in the text colour, painted pixels count as text for the pixels
    // visited after them.
    let pitch = 16;
    let mut data = vec![0u8; pitch];
    data[0] = 9;
    data[1] = 9;
    data[2] = 9;
    outline_text(&mut data, pitch, 4, 1, Color::rgb(9, 9, 9), Color::rgb(9, 9, 9));
    for x in 0..4 {
        assert_eq!(pixel(&data, pitch, x, 0)[0], 9);
    }
}

#[test]
fn a_texture_takes_the_size_of_its_surface() {
    let h = TextureHolder::surface_to_texture(7u32, 64, 32);
    assert_eq!(h.texture, 7);
    assert_eq!(h.width, 64);
    assert_eq!(h.height, 32);
}

#[test]
fn font_glyphs_follow_the_character_set() {
    let n = FONT_CHARACTERS.chars().count();
    let sizes: Vec<(u32, u32)> = (0..n as u32).map(|i| (i + 1, 10 + i % 3)).collect();
    let glyphs = font_glyphs(&sizes);
    assert_eq!(glyphs.len(), n);
    assert_eq!(glyphs[0], ('A', 1, 10));
    assert_eq!(glyphs[26], (' ', 27, 12));
    assert_eq!(glyphs[n - 1], ('!', n as u32, 10 + (n as u32 - 1) % 3));
    assert!(FONT_CHARACTERS.contains('\u{c7}'));
    let (w, h) = FontHandler::<u32>::atlas_size(&glyphs);
    let f = FontHandler::new(TextureHolder { texture: 0u32, width: w, height: h }, 12, white(), &glyphs);
    assert_eq!(f.inner.len(), n);
    assert_eq!(f.texture.width, (n * (n + 1) / 2) as u32);
    assert_eq!(f.texture.height, 12);
}
