use toy_game::debug_display::DebugDisplay;
use toy_game::direction::Direction;
use toy_game::env::{
    EguiWindow, Env, EnvAction, EventKind, GamePad, InputEvent, Keycode, MenuEvent, MenuOutcome, PadAxis,
    PadButton, PlayerCommand,
};
use toy_game::texture_holder::{TextureHolder, Textures};

type Event = InputEvent<u8>;

fn key_down(k: Keycode, timestamp: u32) -> Event {
    InputEvent::KeyDown { keycode: Some(k), timestamp }
}

fn key_up(k: Keycode, timestamp: u32) -> Event {
    InputEvent::KeyUp { keycode: Some(k), timestamp }
}

fn axis(which: u32, axis: PadAxis, value: i16, timestamp: u32) -> Event {
    InputEvent::AxisMotion { which, timestamp, axis, value }
}

fn is_key(ev: &Event, down: bool, k: Keycode, t: u32) -> bool {
    match ev {
        InputEvent::KeyDown { keycode: Some(c), timestamp } => down && *c == k && *timestamp == t,
        InputEvent::KeyUp { keycode: Some(c), timestamp } => !down && *c == k && *timestamp == t,
        _ => false,
    }
}

#[test]
fn directions_map_to_arrow_keys() {
    assert_eq!(Direction::Up.into_sdl_keycode(), Keycode::Up);
    assert_eq!(Direction::Down.into_sdl_keycode(), Keycode::Down);
    assert_eq!(Direction::Left.into_sdl_keycode(), Keycode::Left);
    assert_eq!(Direction::Right.into_sdl_keycode(), Keycode::Right);
}

#[test]
fn new_pad_is_at_rest() {
    let pad = GamePad::new((), 7);
    assert_eq!(pad.instance_id, 7);
    assert_eq!(pad.left_stick_last_event_x, (EventKind::Release, Direction::Up));
    assert_eq!(pad.right_trigger_last_event, EventKind::Release);
}

#[test]
fn stick_pushed_and_released() {
    let mut pad = GamePad::new((), 7);
    let out = pad.convert_event(axis(7, PadAxis::LeftX, 20000, 1));
    assert_eq!(out.len(), 1);
    assert!(is_key(&out[0], true, Keycode::Right, 1));
    // Held still: nothing new.
    assert!(pad.convert_event(axis(7, PadAxis::LeftX, 25000, 2)).is_empty());
    let out = pad.convert_event(axis(7, PadAxis::LeftX, 100, 3));
    assert_eq!(out.len(), 1);
    assert!(is_key(&out[0], false, Keycode::Right, 3));
    assert!(pad.convert_event(axis(7, PadAxis::LeftX, 0, 4)).is_empty());
}

#[test]
fn stick_swung_from_one_side_to_the_other() {
    let mut pad = GamePad::new((), 7);
    pad.convert_event(axis(7, PadAxis::LeftY, -9000, 1));
    // Up is pressed; pushing down releases it and presses down.
    let out = pad.convert_event(axis(7, PadAxis::LeftY, 9000, 2));
    assert_eq!(out.len(), 2);
    assert!(is_key(&out[0], false, Keycode::Up, 2));
    assert!(is_key(&out[1], true, Keycode::Down, 2));
    // Back up: the key released is that of the negative side, not the one pressed.
    let out = pad.convert_event(axis(7, PadAxis::LeftY, -9000, 3));
    assert_eq!(out.len(), 2);
    assert!(is_key(&out[0], false, Keycode::Up, 3));
    assert!(is_key(&out[1], true, Keycode::Up, 3));
}

#[test]
fn dead_zone_boundaries() {
    let mut pad = GamePad::new((), 7);
    assert!(pad.convert_event(axis(7, PadAxis::RightX, 7500, 1)).is_empty());
    assert!(pad.convert_event(axis(7, PadAxis::RightX, -7500, 1)).is_empty());
    let out = pad.convert_event(axis(7, PadAxis::RightX, 7501, 1));
    assert!(is_key(&out[0], true, Keycode::Right, 1));
}

#[test]
fn triggers_press_and_release_keys() {
    let mut pad = GamePad::new((), 7);
    let out = pad.convert_event(axis(7, PadAxis::TriggerRight, 31, 5));
    assert_eq!(out.len(), 1);
    assert!(is_key(&out[0], true, Keycode::LCtrl, 5));
    assert!(pad.convert_event(axis(7, PadAxis::TriggerRight, 200, 6)).is_empty());
    let out = pad.convert_event(axis(7, PadAxis::TriggerRight, 30, 7));
    assert!(is_key(&out[0], false, Keycode::LCtrl, 7));
    let out = pad.convert_event(axis(7, PadAxis::TriggerLeft, 100, 8));
    assert!(is_key(&out[0], true, Keycode::LShift, 8));
    assert!(pad.convert_event(axis(7, PadAxis::TriggerLeft, 0, 9)).len() == 1);
    assert!(pad.convert_event(axis(7, PadAxis::TriggerLeft, 0, 10)).is_empty());
}

#[test]
fn events_of_other_pads_vanish() {
    let mut pad = GamePad::new((), 7);
    assert!(pad.convert_event(axis(8, PadAxis::LeftX, 20000, 1)).is_empty());
    assert!(pad.convert_event(InputEvent::<u8>::ButtonDown { which: 8, timestamp: 1, button: PadButton::A }).is_empty());
    assert_eq!(pad.left_stick_last_event_x, (EventKind::Release, Direction::Up));
}

#[test]
fn removals_become_controller_removals() {
    let mut pad = GamePad::new((), 7);
    let out = pad.convert_event(InputEvent::<u8>::JoyDeviceRemoved { which: 7, timestamp: 3 });
    assert_eq!(out.len(), 1);
    assert!(matches!(out[0], InputEvent::ControllerDeviceRemoved { which: 7, timestamp: 3 }));
}

#[test]
fn other_events_pass_through() {
    let mut pad = GamePad::new((), 7);
    let out = pad.convert_event(InputEvent::Other(42u8));
    assert!(matches!(out[0], InputEvent::Other(42)));
    let out = pad.convert_event(key_down(Keycode::Space, 1));
    assert!(is_key(&out[0], true, Keycode::Space, 1));
}

fn new_env() -> Env<()> {
    let mut textures: Textures<u32, ()> = Textures::new();
    textures.add_named_texture("reward-text", TextureHolder { texture: 1, width: 50, height: 10 });
    Env::new(&mut textures, TextureHolder { texture: 2, width: 1600, height: 200 }, TextureHolder { texture: 3, width: 1608, height: 908 }, 1600)
}

fn player_command(a: &EnvAction<u8>) -> Option<PlayerCommand> {
    match a {
        EnvAction::Player(c) => Some(*c),
        _ => None,
    }
}

#[test]
fn new_environment() {
    let env = new_env();
    assert!(!env.display_menu);
    assert!(env.controller.is_none());
    assert_eq!(env.debug_display.font_size, 16);
    assert_eq!(env.debug_display.background.id, 1);
    assert_eq!(env.debug_display.grid.id, 2);
    assert_eq!(env.reward_text.id, 0);
    assert!(!env.draw());
}

#[test]
fn movement_keys_move_the_player() {
    let mut env = new_env();
    assert_eq!(player_command(&env.handle_event(key_down(Keycode::Q, 0))), Some(PlayerCommand::Move(Direction::Left)));
    assert_eq!(player_command(&env.handle_event(key_down(Keycode::Right, 0))), Some(PlayerCommand::Move(Direction::Right)));
    assert_eq!(player_command(&env.handle_event(key_up(Keycode::Z, 0))), Some(PlayerCommand::Release(Direction::Up)));
    assert_eq!(player_command(&env.handle_event(key_up(Keycode::S, 0))), Some(PlayerCommand::Release(Direction::Down)));
}

#[test]
fn attack_key_attacks_once_per_press() {
    let mut env = new_env();
    assert_eq!(player_command(&env.handle_event(key_down(Keycode::Space, 0))), Some(PlayerCommand::Attack));
    assert!(matches!(env.handle_event(key_down(Keycode::Space, 1)), EnvAction::Nothing));
    assert!(matches!(env.handle_event(key_up(Keycode::Space, 2)), EnvAction::Nothing));
    assert_eq!(player_command(&env.handle_event(key_down(Keycode::Space, 3))), Some(PlayerCommand::Attack));
}

#[test]
fn blocking_keys() {
    let mut env = new_env();
    assert_eq!(player_command(&env.handle_event(key_down(Keycode::LCtrl, 0))), Some(PlayerCommand::StopAttackAndBlock));
    assert_eq!(
        player_command(&env.handle_event(key_up(Keycode::LCtrl, 0))),
        Some(PlayerCommand::StopBlock { attack_again: false })
    );
    env.handle_event(key_down(Keycode::Space, 0));
    assert_eq!(
        player_command(&env.handle_event(key_up(Keycode::LCtrl, 0))),
        Some(PlayerCommand::StopBlock { attack_again: true })
    );
    assert_eq!(player_command(&env.handle_event(key_down(Keycode::LShift, 0))), Some(PlayerCommand::StartRunning));
    assert_eq!(player_command(&env.handle_event(key_up(Keycode::LShift, 0))), Some(PlayerCommand::StopRunning));
}

#[test]
fn window_and_debug_toggles() {
    let mut env = new_env();
    env.handle_event(key_down(Keycode::I, 0));
    assert!(env.inventory_window.is_displayed);
    env.handle_event(key_down(Keycode::C, 0));
    assert!(env.character_window.is_displayed);
    env.handle_event(key_down(Keycode::F3, 0));
    assert!(env.debug);
    env.handle_event(key_down(Keycode::F5, 0));
    assert!(env.debug_display.draw_grid);
    env.handle_event(key_down(Keycode::F5, 0));
    assert!(!env.debug_display.draw_grid);
    env.handle_event(key_down(Keycode::I, 0));
    assert!(!env.inventory_window.is_displayed);
}

#[test]
fn escape_closes_windows_then_pauses() {
    let mut env = new_env();
    env.handle_event(key_down(Keycode::C, 0));
    env.handle_event(key_down(Keycode::I, 0));
    assert!(matches!(env.handle_event(key_down(Keycode::Escape, 0)), EnvAction::Nothing));
    assert!(!env.character_window.is_displayed);
    assert!(env.inventory_window.is_displayed);
    assert!(matches!(env.handle_event(key_down(Keycode::Escape, 0)), EnvAction::Nothing));
    assert!(!env.inventory_window.is_displayed);
    assert!(matches!(env.handle_event(key_down(Keycode::Escape, 0)), EnvAction::OpenPauseMenu { hover_at_mouse: true }));
    assert!(env.display_menu);
    assert!(env.draw());
}

#[test]
fn menu_takes_the_events_while_shown() {
    let mut env = new_env();
    env.show_death_screen();
    assert!(env.display_menu);
    assert!(matches!(env.handle_event(key_down(Keycode::Q, 5)), EnvAction::Menu(InputEvent::KeyDown { keycode: Some(Keycode::Q), timestamp: 5 })));
    let a = env.handle_event::<u8>(InputEvent::ButtonDown { which: 0, timestamp: 6, button: PadButton::A });
    assert!(matches!(a, EnvAction::Menu(InputEvent::KeyDown { keycode: Some(Keycode::Return), timestamp: 6 })));
    let b = env.handle_event::<u8>(InputEvent::ButtonDown { which: 0, timestamp: 7, button: PadButton::Start });
    assert!(matches!(b, EnvAction::Menu(InputEvent::KeyDown { keycode: Some(Keycode::Escape), timestamp: 7 })));
    assert!(matches!(env.handle_event::<u8>(InputEvent::ButtonDown { which: 0, timestamp: 7, button: PadButton::DPadUp }), EnvAction::Nothing));
}

#[test]
fn menu_answers() {
    let mut env = new_env();
    env.show_death_screen();
    assert_eq!(env.apply_menu_event(MenuEvent::Nothing), MenuOutcome::Continue);
    assert!(env.display_menu);
    assert_eq!(env.apply_menu_event(MenuEvent::Resurrect), MenuOutcome::ResurrectPlayer);
    assert!(!env.display_menu);
    env.show_death_screen();
    assert_eq!(env.apply_menu_event(MenuEvent::Resume), MenuOutcome::Continue);
    assert!(!env.display_menu);
    assert_eq!(env.apply_menu_event(MenuEvent::Quit), MenuOutcome::Quit);
}

#[test]
fn pad_buttons_during_the_game() {
    let mut env = new_env();
    let a = env.handle_event::<u8>(InputEvent::ButtonDown { which: 0, timestamp: 0, button: PadButton::DPadLeft });
    assert_eq!(player_command(&a), Some(PlayerCommand::Move(Direction::Left)));
    let a = env.handle_event::<u8>(InputEvent::ButtonUp { which: 0, timestamp: 0, button: PadButton::DPadLeft });
    assert_eq!(player_command(&a), Some(PlayerCommand::Release(Direction::Left)));
    let a = env.handle_event::<u8>(InputEvent::ButtonUp { which: 0, timestamp: 0, button: PadButton::Start });
    assert!(matches!(a, EnvAction::OpenPauseMenu { hover_at_mouse: false }));
    assert!(env.display_menu);
}

#[test]
fn taking_the_closest_reward() {
    let mut env = new_env();
    assert!(matches!(env.handle_event(key_up(Keycode::Return, 0)), EnvAction::Nothing));
    env.closest_reward = Some((12, 3));
    assert!(matches!(env.handle_event(key_up(Keycode::Return, 0)), EnvAction::RemoveReward(3)));
    assert!(env.closest_reward.is_none());
    assert!(env.need_sort_rewards);
}

#[test]
fn quitting_and_unhandled_events() {
    let mut env = new_env();
    assert!(matches!(env.handle_event::<u8>(InputEvent::Quit), EnvAction::Quit));
    assert!(matches!(env.handle_event(InputEvent::Other(3)), EnvAction::Egui(InputEvent::Other(3))));
    assert!(matches!(env.handle_event::<u8>(InputEvent::KeyDown { keycode: None, timestamp: 1 }), EnvAction::Egui(_)));
    assert!(matches!(env.handle_event(key_down(Keycode::Unhandled, 0)), EnvAction::Nothing));
    assert!(matches!(env.handle_event::<u8>(InputEvent::ControllerDeviceAdded { which: 2 }), EnvAction::UpdateController));
}

#[test]
fn controller_removal() {
    let mut env = new_env();
    env.controller = Some(GamePad::new((), 4));
    env.show_death_screen();
    env.handle_event::<u8>(InputEvent::ControllerDeviceRemoved { which: 5, timestamp: 0 });
    assert!(env.controller.is_some());
    env.handle_event::<u8>(InputEvent::ControllerDeviceRemoved { which: 4, timestamp: 0 });
    assert!(env.controller.is_none());
}

#[test]
fn conversion_goes_through_the_pad() {
    let mut env = new_env();
    let out = env.convert_event(axis(4, PadAxis::LeftX, 20000, 1));
    assert_eq!(out.len(), 1);
    assert!(matches!(out[0], InputEvent::AxisMotion { .. }));
    env.controller = Some(GamePad::new((), 4));
    let out = env.convert_event(axis(4, PadAxis::LeftX, 20000, 1));
    assert!(is_key(&out[0], true, Keycode::Right, 1));
}

#[test]
fn default_interface_window() {
    let w = EguiWindow::default();
    assert!(!w.is_displayed && !w.has_focus);
}

#[test]
fn debug_display_grid_switch() {
    let mut textures: Textures<u32, ()> = Textures::new();
    let mut d = DebugDisplay::new(&mut textures, TextureHolder { texture: 1, width: 10, height: 10 }, TextureHolder { texture: 2, width: 20, height: 20 }, 1600, 16);
    assert!(!d.draw_grid);
    d.switch_draw_grid();
    assert!(d.draw_grid);
    assert_eq!(d.height, 200);
}
