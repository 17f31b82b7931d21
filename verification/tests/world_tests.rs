use toy_game::skeleton::{skeleton_character, skeleton_texture_handler};
use toy_game::building::{
    carpet_tiles, FurniturePlacement, Building, BuildingKind, CarpetColor, CarpetDimension, Furniture, SheetRect, Statue,
};
use toy_game::character::{CharacterAnimationType, CharacterKind};
use toy_game::collisions::{collision_hit, hit_from, interaction_partner, Fighter, GrassEffect, Hit, WeaponEntity};
use toy_game::direction::Direction;
use toy_game::enemy::EnemyAction;
use toy_game::environment::{
    bush_positions, forest_layout, generate_grass_grid, grass_grid_from_bytes, grass_tiles, random_bytes,
    GrassTile, Tree,
};
use toy_game::game::{door_sprite_index, enter_area, handle_input, DebugState, GameInfo, GameState, ReleasedKeys};
use toy_game::geometry::Rect;
use toy_game::menu::{button_look, menu_action, setting_button, ButtonInteraction, ButtonLook, MenuButtonAction, MenuState};
use toy_game::player::{player_movement_step, MovementKeys, Player};
use toy_game::player_stats::{DamageStats, PlayerStats};
use toy_game::registry::{str_eq, Named};
use toy_game::reward::RewardInfo;
use toy_game::status::{Status, STATUS_UPDATE_TIME};
use toy_game::texture_handler::{Dimension, TextureHandler};
use toy_game::texture_holder::{TextureHolder, Textures};
use toy_game::weapons::{get_surface_data, Nothing, Sword, WeaponActionKind, RANGE};
use toy_game::geometry::Color;

#[test]
fn same_seed_same_bytes() {
    let a = random_bytes("world;1.0;2.0", 64);
    let b = random_bytes("world;1.0;2.0", 64);
    assert_eq!(a.len(), 64);
    assert_eq!(a, b);
    let c = random_bytes("world;1.0;2.5", 64);
    assert_ne!(a, c);
}

#[test]
fn longer_draws_extend_shorter_ones() {
    let short = random_bytes("forest", 10);
    let long = random_bytes("forest", 30);
    assert_eq!(&long[..10], &short[..]);
}

#[test]
fn grass_grid_from_given_bytes() {
    let grid = grass_grid_from_bytes(&vec![0, 1, 2, 3, 9, 12, 13, 40], 2, 4);
    assert_eq!(grid, vec![vec![false, false, false, true], vec![true, false, true, false]]);
}

#[test]
fn grass_grid_from_a_seed() {
    let grid = generate_grass_grid("meadow", 3, 5);
    let bytes = random_bytes("meadow", 15);
    assert_eq!(grid, grass_grid_from_bytes(&bytes, 3, 5));
    assert_eq!(grid, generate_grass_grid("meadow", 3, 5));
}

#[test]
fn grass_sprites() {
    let grid = vec![vec![true, true, false, true], vec![true, false, false, true]];
    let tiles = grass_tiles(&grid);
    assert_eq!(
        tiles,
        vec![
            GrassTile { row: 0, col: 0, index: 0 },
            GrassTile { row: 0, col: 1, index: 6 },
            GrassTile { row: 0, col: 3, index: 2 },
            GrassTile { row: 1, col: 0, index: 5 },
            GrassTile { row: 1, col: 3, index: 6 },
        ]
    );
}

#[test]
fn grass_sprites_cycle_through_five_tufts() {
    let grid = vec![vec![true; 7]];
    let tiles = grass_tiles(&grid);
    let indices: Vec<usize> = tiles.iter().map(|t| t.index).collect();
    assert_eq!(indices, vec![5, 6, 7, 8, 9, 5, 6]);
}

#[test]
fn trees_and_bushes() {
    assert_eq!(Tree::from(2), Tree::Scary);
    assert_eq!(Tree::Dead.index(), 3);
    let forest = forest_layout();
    assert_eq!(forest.len(), 6);
    assert_eq!(forest[0], (Tree::Normal, -100, 380));
    assert_eq!(forest[2], (Tree::Scary, 100, 380));
    assert_eq!(forest[3], (Tree::Dead, -100, 480));
    assert_eq!(forest[4], (Tree::Normal, 0, 480));
    let bushes = bush_positions();
    assert_eq!(bushes.len(), 8);
    assert_eq!(bushes[0], (0, 100));
    assert_eq!(bushes[7], (280, 380));
}

#[test]
fn buildings() {
    assert_eq!(Building::GeneralShop.get_start_index(), 0);
    assert_eq!(Building::WeaponShop.get_start_index(), 2);
    assert!(!Building::House.is_shop());
    assert!(Building::WeaponShop.is_shop());
    assert_eq!(BuildingKind::WeaponShop.sprite_size(), (108, 110));
    assert_eq!(Statue::Knight.atlas_indices(), (2, 3));
    assert_eq!(Statue::Magus.dimensions(), (54, -2));
    assert_eq!(Statue::Archer.dimensions(), (46, 0));
}

#[test]
fn furniture_in_the_sheet() {
    assert_eq!(Furniture::Desk.pos_in_image(), SheetRect { min_x: 0, min_y: 0, max_x: 80, max_y: 24 });
    assert_eq!(Furniture::LongTable.pos_in_image(), SheetRect { min_x: 219, min_y: 63, max_x: 267, max_y: 227 });
    assert_eq!(Furniture::Desk.get_collider(), Some((40, 9)));
    assert_eq!(Furniture::LongTable.get_collider(), Some((24, 79)));
    assert_eq!(Furniture::Crate.get_collider(), Some((8, 8)));
    assert_eq!(Furniture::MuralSwords.get_collider(), None);
    assert_eq!(Furniture::Carpet.get_collider(), None);
}

#[test]
fn carpet_of_one_tile() {
    let tiles = carpet_tiles(CarpetDimension { width: 1, height: 1 }, CarpetColor::Green);
    assert_eq!(tiles.len(), 9);
    assert_eq!(tiles[0].source, (0, 72, 16, 88));
    assert_eq!(tiles[0].offset, (0, 0));
    assert_eq!(tiles[1].source, (16, 72, 32, 88));
    assert_eq!(tiles[1].offset, (16, 0));
    assert_eq!(tiles[2].offset, (32, 0));
    assert_eq!(tiles[8].offset, (32, -32));
}

#[test]
fn carpet_tile_count() {
    for (w, h) in [(0u8, 0u8), (2, 3), (5, 1)] {
        let tiles = carpet_tiles(CarpetDimension { width: w, height: h }, CarpetColor::Violet);
        assert_eq!(tiles.len(), (w as usize + 2) * (h as usize + 2));
    }
}

#[test]
fn interface_keys() {
    let mut info = GameInfo::new();
    let keys = ReleasedKeys { c: true, i: false, escape: false, f5: false };
    let fx = handle_input(&mut info, keys, DebugState::Disabled);
    assert!(info.show_character_window);
    assert!(!fx.open_main_menu);
    assert_eq!(fx.next_debug_state, None);
    let esc = ReleasedKeys { c: false, i: false, escape: true, f5: false };
    handle_input(&mut info, esc, DebugState::Disabled);
    assert!(!info.show_character_window);
    let fx = handle_input(&mut info, esc, DebugState::Disabled);
    assert!(fx.open_main_menu);
    let f5 = ReleasedKeys { c: false, i: false, escape: false, f5: true };
    assert_eq!(handle_input(&mut info, f5, DebugState::Enabled).next_debug_state, Some(DebugState::Disabled));
    assert_eq!(handle_input(&mut info, f5, DebugState::Disabled).next_debug_state, Some(DebugState::Enabled));
}

#[test]
fn escape_closes_the_character_window_before_the_inventory() {
    let mut info = GameInfo::new();
    let keys = ReleasedKeys { c: true, i: true, escape: true, f5: false };
    let fx = handle_input(&mut info, keys, DebugState::Disabled);
    assert!(!info.show_character_window);
    assert!(info.show_inventory_window);
    assert!(!fx.open_main_menu);
}

#[test]
fn entering_and_leaving_buildings() {
    let mut info = GameInfo::new();
    info.building_hash = 12;
    assert_eq!(enter_area(&mut info, GameState::Outside, Building::House), GameState::InsideHouse);
    assert_eq!(info.building, Some(Building::House));
    assert_eq!(info.building_hash, 0);
    assert_eq!(enter_area(&mut info, GameState::InsideHouse, Building::House), GameState::Outside);
    assert_eq!(info.building, None);
    assert_eq!(door_sprite_index(true), 1);
    assert_eq!(door_sprite_index(false), 0);
}

#[test]
fn walking_and_running() {
    let mut player = Player { is_running: false, waiting_for_rerun: false };
    let mut anim = CharacterAnimationType::ForwardIdle;
    let mut attacking = true;
    let keys = MovementKeys { up: false, down: false, left: true, right: false, run: true };
    let step = player_movement_step(&mut player, &mut anim, &mut attacking, keys, true);
    assert_eq!((step.x_axis, step.y_axis), (-1, 0));
    assert!(step.turned);
    assert!(step.update_sprite);
    assert!(!attacking);
    assert_eq!(anim, CharacterAnimationType::LeftMove);
    assert!(player.is_running);
    // Same direction, same pace: the animation goes on.
    let step = player_movement_step(&mut player, &mut anim, &mut attacking, keys, true);
    assert!(!step.turned);
    assert!(!step.update_sprite);
    // Out of stamina: the run stops until the key is released.
    let step = player_movement_step(&mut player, &mut anim, &mut attacking, keys, false);
    assert!(step.update_sprite);
    assert_eq!(player, Player { is_running: false, waiting_for_rerun: true });
    player_movement_step(&mut player, &mut anim, &mut attacking, keys, true);
    assert!(!player.is_running);
    let released = MovementKeys { run: false, ..keys };
    player_movement_step(&mut player, &mut anim, &mut attacking, released, true);
    assert!(!player.waiting_for_rerun);
}

#[test]
fn stopping_the_player() {
    let mut player = Player { is_running: true, waiting_for_rerun: true };
    let mut anim = CharacterAnimationType::RightMove;
    let mut attacking = true;
    let keys = MovementKeys { up: true, down: true, left: false, right: false, run: false };
    let step = player_movement_step(&mut player, &mut anim, &mut attacking, keys, true);
    assert_eq!((step.x_axis, step.y_axis), (0, 0));
    assert_eq!(anim, CharacterAnimationType::RightIdle);
    assert_eq!(player, Player { is_running: false, waiting_for_rerun: false });
    assert!(attacking);
}

fn fighters() -> (Vec<Fighter>, Vec<WeaponEntity>) {
    let hero = Fighter { id: 1, is_attacking: true, attack: 6, kind: CharacterKind::Player, children: vec![10, 11] };
    let skeleton = Fighter { id: 2, is_attacking: false, attack: 4, kind: CharacterKind::Monster, children: vec![20, 21] };
    let bat = Fighter { id: 3, is_attacking: true, attack: 2, kind: CharacterKind::Monster, children: vec![30] };
    (vec![hero, skeleton, bat], vec![WeaponEntity { id: 21, attack: 3 }, WeaponEntity { id: 11, attack: 10 }])
}

#[test]
fn finding_who_hits_whom() {
    let (f, w) = fighters();
    let hit = Hit { attack: 16, attacker: 1, receiver: 20, attacker_kind: CharacterKind::Player };
    assert_eq!(hit_from(&f, &w, 11, 20), Some(hit));
    assert_eq!(collision_hit(&f, &w, 11, 20), Some(hit));
    assert_eq!(collision_hit(&f, &w, 20, 11), Some(hit));
    // Not attacking, or attacking without a weapon: no hit.
    assert_eq!(collision_hit(&f, &w, 21, 40), None);
    assert_eq!(collision_hit(&f, &w, 30, 40), None);
}

#[test]
fn meeting_a_character() {
    let player_parts = vec![5, 6];
    assert_eq!(interaction_partner(5, 9, &player_parts), Some(9));
    assert_eq!(interaction_partner(9, 6, &player_parts), Some(9));
    assert_eq!(interaction_partner(8, 9, &player_parts), None);
}

#[test]
fn grass_effect_shows_while_in_grass() {
    let mut e = GrassEffect { count: 0 };
    assert!(e.update(true));
    assert!(e.update(true));
    assert!(e.update(false));
    assert!(!e.update(false));
    assert_eq!(e.count, 0);
    assert!(!e.update(false));
    assert_eq!(e.count, -1);
}

#[test]
fn menu_screens() {
    let go = |s, a| menu_action(s, false, Some(a));
    assert_eq!(go(MenuState::Main, MenuButtonAction::Settings).menu_state, MenuState::Settings);
    assert_eq!(go(MenuState::Settings, MenuButtonAction::SettingsSound).menu_state, MenuState::SettingsSound);
    assert_eq!(go(MenuState::SettingsSound, MenuButtonAction::BackToSettings).menu_state, MenuState::Settings);
    assert_eq!(go(MenuState::Settings, MenuButtonAction::BackToMainMenu).menu_state, MenuState::Main);
    let play = go(MenuState::Main, MenuButtonAction::Play);
    assert_eq!(play.menu_state, MenuState::Disabled);
    assert!(play.pop_app_state);
    let quit = go(MenuState::Main, MenuButtonAction::Quit);
    assert!(quit.exit);
    assert_eq!(quit.menu_state, MenuState::Main);
    let esc = menu_action(MenuState::Settings, true, Some(MenuButtonAction::Quit));
    assert_eq!(esc.menu_state, MenuState::Disabled);
    assert!(esc.pop_app_state && !esc.exit);
    let idle = menu_action(MenuState::Disabled, true, None);
    assert_eq!(idle.menu_state, MenuState::Disabled);
    assert!(!idle.pop_app_state && !idle.exit);
}

#[test]
fn menu_buttons_and_settings() {
    assert_eq!(button_look(ButtonInteraction::Clicked, false), ButtonLook::Pressed);
    assert_eq!(button_look(ButtonInteraction::Idle, true), ButtonLook::Pressed);
    assert_eq!(button_look(ButtonInteraction::Hovered, true), ButtonLook::HoveredPressed);
    assert_eq!(button_look(ButtonInteraction::Hovered, false), ButtonLook::Hovered);
    assert_eq!(button_look(ButtonInteraction::Idle, false), ButtonLook::Normal);
    assert_eq!(setting_button(ButtonInteraction::Clicked, 7, 3), Some(3));
    assert_eq!(setting_button(ButtonInteraction::Clicked, 3, 3), None);
    assert_eq!(setting_button(ButtonInteraction::Hovered, 7, 3), None);
}

#[test]
fn bare_handed_attacks() {
    let mut n = Nothing;
    let a = n.use_it(Direction::Left, 100).unwrap();
    assert_eq!(a.kind, WeaponActionKind::AttackByMove { target_x: -RANGE, target_y: 0 });
    assert_eq!(a.total_duration, 100);
    let a = n.use_it(Direction::Down, 100).unwrap();
    assert_eq!(a.kind, WeaponActionKind::AttackByMove { target_x: 0, target_y: RANGE });
    assert_eq!(n.weight(), 1);
    assert!(n.get_texture().is_none());
    assert_eq!((n.width(), n.height()), (15, 15));
}

#[test]
fn sword_slashes() {
    let mut t: Textures<u32, ()> = Textures::new();
    Sword::init_textures(&mut t, TextureHolder { texture: 4, width: 7, height: 20 }, &vec![0xffffff00, 0xff, 0xdd, 0xdc]);
    assert_eq!(t.get_data("sword"), &[0, 1, 1, 0]);
    let mut s = Sword::new(&t);
    let a = s.use_it(Direction::Up, 50).unwrap();
    assert_eq!((a.x_add, a.y_add), (3, 20));
    assert_eq!(a.kind, WeaponActionKind::AttackBySlash { start_angle: -45, total_angle: 90 });
    let a = s.use_it(Direction::Left, 50).unwrap();
    assert_eq!((a.x_add, a.y_add), (0, 20));
    assert_eq!(a.kind, WeaponActionKind::AttackBySlash { start_angle: 225, total_angle: 90 });
    assert_eq!(s.weight(), 10);
    assert_eq!(s.get_texture().unwrap().id, 0);
}

#[test]
fn opaque_pixel_mask() {
    assert_eq!(get_surface_data(&vec![221, 220, 0x12345678, 0]), vec![1, 0, 0, 0]);
}

#[test]
fn rising_status_text() {
    let mut s = Status::new("-5".to_string(), Color::rgb(255, 0, 0));
    assert_eq!((s.y_pos, s.y_limit, s.duration), (0, 30, 0));
    s.update(STATUS_UPDATE_TIME);
    assert_eq!(s.y_pos, 0);
    s.update(1);
    assert_eq!((s.y_pos, s.duration), (1, 1));
    s.update(STATUS_UPDATE_TIME * 100);
    assert_eq!(s.y_pos, 30);
    assert!(s.should_be_removed());
    s.update(STATUS_UPDATE_TIME * 2);
    assert_eq!(s.y_pos, 30);
}

#[test]
fn named_values_are_found_back() {
    let mut n: Named<u32> = Named::new();
    n.insert_new("one", 1);
    n.insert_new("two", 2);
    assert!(n.contains("two"));
    assert!(!n.contains("three"));
    assert_eq!(*n.get("one"), 1);
    assert_eq!(*n.get("two"), 2);
    assert!(str_eq("abc", "abc"));
    assert!(!str_eq("abc", "abd"));
}

#[test]
fn sprite_hitbox() {
    let d = |w, h| Dimension::new(Rect { x: 0, y: 0, width: w, height: h }, 10);
    let handler = TextureHandler::new(
        "hero",
        toy_game::texture_holder::TextureId { id: 0, height: 1, width: 1 },
        vec![d(10, 20), d(11, 21), d(12, 22), d(13, 23)],
        vec![(d(20, 30), 3), (d(21, 31), 3), (d(22, 32), 3), (d(23, 33), 3)],
        None,
    );
    assert_eq!(handler.hitbox_size(Direction::Left, false), (12, 22));
    assert_eq!(handler.hitbox_size(Direction::Right, true), (23, 33));
    let forced = TextureHandler::new("hero", handler.texture, vec![], vec![(d(1, 1), 1)], Some((24, 24)));
    assert_eq!(forced.hitbox_size(Direction::Up, true), (24, 24));
}

#[test]
fn walked_distance_in_centimetres() {
    let mut stats = PlayerStats::new();
    assert_eq!(stats.get_total_walked(), 0);
    stats.total_walked = 64;
    assert_eq!(stats.get_total_walked(), 200);
    stats.total_walked = 33;
    assert_eq!(stats.get_total_walked(), 103);
    assert_eq!(stats.total_damages, DamageStats::default());
    assert_eq!(RewardInfo { gold: 3 }.gold, 3);
}

#[test]
fn enemy_actions() {
    let a: EnemyAction<(i32, i32)> = EnemyAction::MoveToPlayer(1, vec![(0, 0)]);
    assert!(a.is_move_to_player());
    assert!(!a.is_attack());
    let b: EnemyAction<(i32, i32)> = EnemyAction::Attack(Direction::Up);
    assert!(b.is_attack());
    let c: EnemyAction<(i32, i32)> = EnemyAction::Idle;
    assert!(!c.is_attack() && !c.is_move_to_player());
}

#[test]
fn named_values_can_be_replaced() {
    let mut n: Named<u32> = Named::new();
    n.insert("one", 1);
    n.insert("two", 2);
    n.insert("one", 11);
    assert_eq!(*n.get("one"), 11);
    assert_eq!(*n.get("two"), 2);
}

#[test]
fn furniture_inside_buildings() {
    let house = Building::House.inside_furniture();
    assert_eq!(
        house,
        vec![
            FurniturePlacement { furniture: Furniture::Bed, x_halves: -146, y_halves: -40, flip: false },
            FurniturePlacement { furniture: Furniture::DoorCarpet, x_halves: 0, y_halves: -82, flip: false },
        ]
    );
    let shop = Building::WeaponShop.inside_furniture();
    assert_eq!(shop.len(), 3);
    assert_eq!(shop[1], FurniturePlacement { furniture: Furniture::MuralSwords, x_halves: 205, y_halves: 14, flip: false });
    assert_eq!(shop[2], FurniturePlacement { furniture: Furniture::MuralSwords, x_halves: -213, y_halves: 14, flip: true });
    assert_eq!(Building::GeneralShop.inside_furniture().len(), 1);
    assert_eq!(Building::GeneralShop.vendor_position(), Some((0, 58)));
    assert_eq!(Building::House.vendor_position(), None);
}

#[test]
fn status_rise_depends_only_on_total_time() {
    let mut a = Status::new("x".to_string(), Color::rgb(1, 1, 1));
    let mut b = Status::new("x".to_string(), Color::rgb(1, 1, 1));
    a.update(20_000);
    a.update(30_000);
    b.update(50_000);
    assert_eq!((a.y_pos, a.duration), (b.y_pos, b.duration));
    assert_eq!((b.y_pos, b.duration), (3, 2));
}

#[test]
fn skeleton_sprites_and_stats() {
    let mut t: Textures<u32, &'static str> = Textures::new();
    t.add_texture(TextureHolder { texture: 1, width: 4, height: 4 });
    t.add_named_texture("skeleton", TextureHolder { texture: 2, width: 96, height: 128 });
    let h = skeleton_texture_handler(&t, 32, 32);
    assert_eq!(h.surface, "skeleton");
    assert_eq!(h.texture.id, 1);
    assert_eq!(h.forced_size, Some((24, 24)));
    let standing: Vec<(i32, i32)> = h.actions_standing.iter().map(|d| (d.rect.x, d.rect.y)).collect();
    assert_eq!(standing, vec![(32, 0), (32, 96), (32, 32), (32, 64)]);
    let moving: Vec<(i32, i32, i32, i32)> =
        h.actions_moving.iter().map(|(d, n)| (d.rect.x, d.rect.y, d.incr_to_next, *n)).collect();
    assert_eq!(moving, vec![(0, 0, 32, 3), (0, 96, 32, 3), (0, 32, 32, 3), (0, 64, 32, 3)]);
    assert!(h.actions_standing.iter().all(|d| d.rect.width == 32 && d.rect.height == 32 && d.incr_to_next == 0));
    let c = skeleton_character();
    assert_eq!(c.kind, CharacterKind::Monster);
    assert_eq!((c.level, c.xp, c.xp_to_next_level, c.unused_points), (1, 100, 1000, 0));
    assert_eq!(c.stats.max_health, 114);
    assert_eq!(c.stats.attack, 6);
    assert_eq!(c.stats.defense, 3);
}
