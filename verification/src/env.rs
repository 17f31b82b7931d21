use vstd::prelude::*;

use crate::debug_display::DebugDisplay;
use crate::direction::Direction;
use crate::texture_holder::{TextureHolder, TextureId, Textures};

verus! {

/// Whether a stick or a trigger was last pushed or let go.
#[derive(Clone, Copy, PartialEq, Eq, Debug, Structural)]
pub enum EventKind {
    Press,
    Release,
}

/// An analog input of a game pad.
#[derive(Clone, Copy, PartialEq, Eq, Debug, Structural)]
pub enum PadAxis {
    LeftX,
    LeftY,
    RightX,
    RightY,
    TriggerLeft,
    TriggerRight,
}

/// A button of a game pad.
#[derive(Clone, Copy, PartialEq, Eq, Debug, Structural)]
pub enum PadButton {
    A,
    B,
    Start,
    DPadUp,
    DPadDown,
    DPadLeft,
    DPadRight,
    /// Any other button.
    Other,
}

/// A key of the keyboard.
#[derive(Clone, Copy, PartialEq, Eq, Debug, Structural)]
pub enum Keycode {
    Left,
    Right,
    Up,
    Down,
    Q,
    D,
    Z,
    S,
    Space,
    LCtrl,
    LShift,
    F3,
    F5,
    I,
    C,
    Escape,
    Return,
    /// Any other key.
    Unhandled,
}

/// An input event; `Other` carries an event nothing here reacts to.
#[derive(Debug)]
pub enum InputEvent<E> {
    AxisMotion { which: u32, timestamp: u32, axis: PadAxis, value: i16 },
    ButtonDown { which: u32, timestamp: u32, button: PadButton },
    ButtonUp { which: u32, timestamp: u32, button: PadButton },
    ControllerDeviceAdded { which: u32 },
    ControllerDeviceRemoved { which: u32, timestamp: u32 },
    JoyDeviceRemoved { which: u32, timestamp: u32 },
    KeyDown { keycode: Option<Keycode>, timestamp: u32 },
    KeyUp { keycode: Option<Keycode>, timestamp: u32 },
    Quit,
    Other(E),
}

impl Direction {
    /// The arrow key of the direction.
    pub open spec fn keycode(self) -> Keycode {
        match self {
            Direction::Right => Keycode::Right,
            Direction::Left => Keycode::Left,
            Direction::Up => Keycode::Up,
            Direction::Down => Keycode::Down,
        }
    }

    /// The arrow key of the direction.
    pub fn into_sdl_keycode(self) -> (k: Keycode)
        ensures
            k == self.keycode(),
    {
        match self {
            Direction::Right => Keycode::Right,
            Direction::Left => Keycode::Left,
            Direction::Up => Keycode::Up,
            Direction::Down => Keycode::Down,
        }
    }
}

/// A game pad, whose sticks and triggers are turned into key presses.
pub struct GamePad<C> {
    pub controller: C,
    /// The identifier the events of this pad carry.
    pub instance_id: u32,
    pub left_stick_last_event_x: (EventKind, Direction),
    pub left_stick_last_event_y: (EventKind, Direction),
    pub right_stick_last_event_x: (EventKind, Direction),
    pub right_stick_last_event_y: (EventKind, Direction),
    pub left_trigger_last_event: EventKind,
    pub right_trigger_last_event: EventKind,
}

/// How far a stick must lean before it counts as a key press.
pub const STICK_DEAD_ZONE: i16 = 7500;

/// How far a trigger must be pulled before it counts as a key press.
pub const TRIGGER_DEAD_ZONE: i16 = 30;

/// A key press or release made up by the pad.
pub open spec fn key_event<E>(down: bool, keycode: Keycode, timestamp: u32) -> InputEvent<E> {
    if down {
        InputEvent::KeyDown { keycode: Some(keycode), timestamp }
    } else {
        InputEvent::KeyUp { keycode: Some(keycode), timestamp }
    }
}

/// The state of a stick axis after it moved to `value`, and the key events that makes:
/// leaning toward `dir1` (positive) or `dir2` (negative) presses that direction's key,
/// first releasing the key of `dir2` if one was pressed; coming back to the centre
/// releases the key last pressed. Nothing happens when the state does not change.
pub open spec fn axis_after<E>(
    last: (EventKind, Direction),
    value: i16,
    dir1: Direction,
    dir2: Direction,
    timestamp: u32,
) -> ((EventKind, Direction), Seq<InputEvent<E>>) {
    let is_pressed = last.0 == EventKind::Press;
    if value > STICK_DEAD_ZONE {
        if last == (EventKind::Press, dir1) {
            (last, Seq::empty())
        } else if is_pressed {
            (
                (EventKind::Press, dir1),
                seq![key_event(false, dir2.keycode(), timestamp), key_event(true, dir1.keycode(), timestamp)],
            )
        } else {
            ((EventKind::Press, dir1), seq![key_event(true, dir1.keycode(), timestamp)])
        }
    } else if value < -STICK_DEAD_ZONE {
        if last == (EventKind::Press, dir2) {
            (last, Seq::empty())
        } else if is_pressed {
            (
                (EventKind::Press, dir2),
                seq![key_event(false, dir2.keycode(), timestamp), key_event(true, dir2.keycode(), timestamp)],
            )
        } else {
            ((EventKind::Press, dir2), seq![key_event(true, dir2.keycode(), timestamp)])
        }
    } else if last.0 == EventKind::Release {
        (last, Seq::empty())
    } else {
        ((EventKind::Release, last.1), seq![key_event(false, last.1.keycode(), timestamp)])
    }
}

/// The state of a trigger after it moved to `value`, and the key event that makes:
/// pulling it presses `keycode`, letting it go releases it.
pub open spec fn trigger_after<E>(last: EventKind, value: i16, keycode: Keycode, timestamp: u32) -> (
    EventKind,
    Seq<InputEvent<E>>,
) {
    if value > TRIGGER_DEAD_ZONE {
        if last != EventKind::Press {
            (EventKind::Press, seq![key_event(true, keycode, timestamp)])
        } else {
            (last, Seq::empty())
        }
    } else {
        if last == EventKind::Press {
            (EventKind::Release, seq![key_event(false, keycode, timestamp)])
        } else {
            (last, Seq::empty())
        }
    }
}

/// The pad the event comes from, for the events that come from a pad.
pub open spec fn event_source<E>(ev: InputEvent<E>) -> Option<u32> {
    match ev {
        InputEvent::AxisMotion { which, .. } => Some(which),
        InputEvent::ButtonDown { which, .. } => Some(which),
        InputEvent::ButtonUp { which, .. } => Some(which),
        InputEvent::ControllerDeviceRemoved { which, .. } => Some(which),
        InputEvent::JoyDeviceRemoved { which, .. } => Some(which),
        _ => None,
    }
}

/// The pad after `ev`, and the events `ev` becomes: events of other pads vanish, stick
/// and trigger motions become key events, both kinds of removal become a controller
/// removal, everything else passes unchanged.
pub open spec fn pad_after<C, E>(pad: GamePad<C>, ev: InputEvent<E>) -> (GamePad<C>, Seq<InputEvent<E>>) {
    if event_source(ev) matches Some(w) && w != pad.instance_id {
        (pad, Seq::empty())
    } else {
        match ev {
            InputEvent::AxisMotion { timestamp, axis, value, .. } => match axis {
                PadAxis::LeftX => {
                    let (s, out) = axis_after(pad.left_stick_last_event_x, value, Direction::Right, Direction::Left, timestamp);
                    (GamePad { left_stick_last_event_x: s, ..pad }, out)
                },
                PadAxis::LeftY => {
                    let (s, out) = axis_after(pad.left_stick_last_event_y, value, Direction::Down, Direction::Up, timestamp);
                    (GamePad { left_stick_last_event_y: s, ..pad }, out)
                },
                PadAxis::RightX => {
                    let (s, out) = axis_after(pad.right_stick_last_event_x, value, Direction::Right, Direction::Left, timestamp);
                    (GamePad { right_stick_last_event_x: s, ..pad }, out)
                },
                PadAxis::RightY => {
                    let (s, out) = axis_after(pad.right_stick_last_event_y, value, Direction::Down, Direction::Up, timestamp);
                    (GamePad { right_stick_last_event_y: s, ..pad }, out)
                },
                PadAxis::TriggerRight => {
                    let (s, out) = trigger_after(pad.right_trigger_last_event, value, Keycode::LCtrl, timestamp);
                    (GamePad { right_trigger_last_event: s, ..pad }, out)
                },
                PadAxis::TriggerLeft => {
                    let (s, out) = trigger_after(pad.left_trigger_last_event, value, Keycode::LShift, timestamp);
                    (GamePad { left_trigger_last_event: s, ..pad }, out)
                },
            },
            InputEvent::ControllerDeviceRemoved { which, timestamp } => (
                pad,
                seq![InputEvent::ControllerDeviceRemoved { which, timestamp }],
            ),
            InputEvent::JoyDeviceRemoved { which, timestamp } => (
                pad,
                seq![InputEvent::ControllerDeviceRemoved { which, timestamp }],
            ),
            _ => (pad, seq![ev]),
        }
    }
}

/// Appends the key press (or release) of `keycode` to `out`.
fn push_key<E>(out: &mut Vec<InputEvent<E>>, down: bool, keycode: Keycode, timestamp: u32)
    ensures
        final(out)@ == old(out)@.push(key_event(down, keycode, timestamp)),
{
    if down {
        out.push(InputEvent::KeyDown { keycode: Some(keycode), timestamp });
    } else {
        out.push(InputEvent::KeyUp { keycode: Some(keycode), timestamp });
    }
}

/// Moves a stick axis to `value`; returns the key events that makes.
fn update_axis<E>(
    last: &mut (EventKind, Direction),
    value: i16,
    dir1: Direction,
    dir2: Direction,
    timestamp: u32,
) -> (out: Vec<InputEvent<E>>)
    ensures
        (*final(last), out@) == axis_after::<E>(*old(last), value, dir1, dir2, timestamp),
{
    let mut out: Vec<InputEvent<E>> = Vec::new();
    let is_pressed = last.0 == EventKind::Press;
    if value > STICK_DEAD_ZONE {
        if last.0 == EventKind::Press && last.1 == dir1 {
            return out;
        }
        *last = (EventKind::Press, dir1);
        if is_pressed {
            push_key(&mut out, false, dir2.into_sdl_keycode(), timestamp);
        }
        push_key(&mut out, true, dir1.into_sdl_keycode(), timestamp);
    } else if value < -STICK_DEAD_ZONE {
        if last.0 == EventKind::Press && last.1 == dir2 {
            return out;
        }
        *last = (EventKind::Press, dir2);
        if is_pressed {
            push_key(&mut out, false, dir2.into_sdl_keycode(), timestamp);
        }
        push_key(&mut out, true, dir2.into_sdl_keycode(), timestamp);
    } else {
        if last.0 == EventKind::Release {
            return out;
        }
        last.0 = EventKind::Release;
        push_key(&mut out, false, last.1.into_sdl_keycode(), timestamp);
    }
    out
}

/// Moves a trigger to `value`; returns the key event that makes.
fn update_trigger<E>(last: &mut EventKind, value: i16, keycode: Keycode, timestamp: u32) -> (out: Vec<
    InputEvent<E>,
>)
    ensures
        (*final(last), out@) == trigger_after::<E>(*old(last), value, keycode, timestamp),
{
    let mut out: Vec<InputEvent<E>> = Vec::new();
    if value > TRIGGER_DEAD_ZONE {
        if *last != EventKind::Press {
            *last = EventKind::Press;
            push_key(&mut out, true, keycode, timestamp);
        }
    } else {
        if *last == EventKind::Press {
            *last = EventKind::Release;
            push_key(&mut out, false, keycode, timestamp);
        }
    }
    out
}

impl<C> GamePad<C> {
    /// A pad with its sticks centred and its triggers let go.
    pub fn new(controller: C, instance_id: u32) -> (pad: GamePad<C>)
        ensures
            pad.controller == controller,
            pad.instance_id == instance_id,
            pad.left_stick_last_event_x == (EventKind::Release, Direction::Up),
            pad.left_stick_last_event_y == (EventKind::Release, Direction::Up),
            pad.right_stick_last_event_x == (EventKind::Release, Direction::Up),
            pad.right_stick_last_event_y == (EventKind::Release, Direction::Up),
            pad.left_trigger_last_event == EventKind::Release,
            pad.right_trigger_last_event == EventKind::Release,
    {
        GamePad {
            controller,
            instance_id,
            left_stick_last_event_x: (EventKind::Release, Direction::Up),
            left_stick_last_event_y: (EventKind::Release, Direction::Up),
            right_stick_last_event_x: (EventKind::Release, Direction::Up),
            right_stick_last_event_y: (EventKind::Release, Direction::Up),
            left_trigger_last_event: EventKind::Release,
            right_trigger_last_event: EventKind::Release,
        }
    }

    /// The events `event` becomes once the pad's sticks and triggers are read as keys.
    pub fn convert_event<E>(&mut self, event: InputEvent<E>) -> (out: Vec<InputEvent<E>>)
        ensures
            (*final(self), out@) == pad_after(*old(self), event),
    {
        let source = match event {
            InputEvent::AxisMotion { which, .. } => Some(which),
            InputEvent::ButtonDown { which, .. } => Some(which),
            InputEvent::ButtonUp { which, .. } => Some(which),
            InputEvent::ControllerDeviceRemoved { which, .. } => Some(which),
            InputEvent::JoyDeviceRemoved { which, .. } => Some(which),
            _ => None,
        };
        if let Some(which) = source {
            if which != self.instance_id {
                return Vec::new();
            }
        }
        match event {
            InputEvent::AxisMotion { timestamp, axis, value, .. } => match axis {
                PadAxis::LeftX => update_axis(
                    &mut self.left_stick_last_event_x,
                    value,
                    Direction::Right,
                    Direction::Left,
                    timestamp,
                ),
                PadAxis::LeftY => update_axis(
                    &mut self.left_stick_last_event_y,
                    value,
                    Direction::Down,
                    Direction::Up,
                    timestamp,
                ),
                PadAxis::RightX => update_axis(
                    &mut self.right_stick_last_event_x,
                    value,
                    Direction::Right,
                    Direction::Left,
                    timestamp,
                ),
                PadAxis::RightY => update_axis(
                    &mut self.right_stick_last_event_y,
                    value,
                    Direction::Down,
                    Direction::Up,
                    timestamp,
                ),
                PadAxis::TriggerRight => update_trigger(
                    &mut self.right_trigger_last_event,
                    value,
                    Keycode::LCtrl,
                    timestamp,
                ),
                PadAxis::TriggerLeft => update_trigger(
                    &mut self.left_trigger_last_event,
                    value,
                    Keycode::LShift,
                    timestamp,
                ),
            },
            InputEvent::ControllerDeviceRemoved { which, timestamp } | InputEvent::JoyDeviceRemoved {
                which,
                timestamp,
            } => {
                let mut out: Vec<InputEvent<E>> = Vec::new();
                out.push(InputEvent::ControllerDeviceRemoved { which, timestamp });
                out
            },
            ev => {
                let mut out: Vec<InputEvent<E>> = Vec::new();
                out.push(ev);
                out
            },
        }
    }
}

/// A window of the immediate-mode interface, and whether it shows.
pub struct EguiWindow {
    pub has_focus: bool,
    pub is_displayed: bool,
}

impl Default for EguiWindow {
    fn default() -> (w: Self)
        ensures
            !w.has_focus,
            !w.is_displayed,
    {
        EguiWindow { has_focus: false, is_displayed: false }
    }
}

/// What the player character is asked to do.
#[derive(Clone, Copy, PartialEq, Eq, Debug, Structural)]
pub enum PlayerCommand {
    /// Start moving (or keep moving) toward the direction.
    Move(Direction),
    /// Stop moving toward the direction.
    Release(Direction),
    Attack,
    /// Stop attacking and raise the shield.
    StopAttackAndBlock,
    StartRunning,
    StopRunning,
    /// Lower the shield, and attack again when the attack key is still held.
    StopBlock { attack_again: bool },
}

/// What the game does after an input event.
pub enum EnvAction<E> {
    Nothing,
    /// Leave the game.
    Quit,
    /// Look for a newly plugged game pad.
    UpdateController,
    Player(PlayerCommand),
    /// Show the pause menu; with the buttons under the mouse hovered when `hover_at_mouse`.
    OpenPauseMenu { hover_at_mouse: bool },
    /// Hand the reward at that index to the player and remove it.
    RemoveReward(usize),
    /// Hand the event to the menu.
    Menu(InputEvent<E>),
    /// Hand the event to the immediate-mode interface.
    Egui(InputEvent<E>),
}

/// What the menu answered to an event.
#[derive(Clone, Copy, PartialEq, Eq, Debug, Structural)]
pub enum MenuEvent {
    Quit,
    Resume,
    Resurrect,
    Nothing,
    Other,
}

/// What the game does after the menu answered.
#[derive(Clone, Copy, PartialEq, Eq, Debug, Structural)]
pub enum MenuOutcome {
    Continue,
    Quit,
    /// Bring the dead player back.
    ResurrectPlayer,
}

/// The state of the game around the world: menu, debug display, reward selection, game
/// pad and interface windows.
pub struct Env<C> {
    pub display_menu: bool,
    pub is_attack_pressed: bool,
    pub debug: bool,
    pub fps_str: String,
    pub debug_display: DebugDisplay,
    pub need_sort_rewards: bool,
    pub closest_reward: Option<(i32, usize)>,
    pub controller: Option<GamePad<C>>,
    pub character_window: EguiWindow,
    pub inventory_window: EguiWindow,
    pub reward_text: TextureId,
}

/// The direction a movement key stands for, if it is one (arrows, or Z Q S D).
pub open spec fn key_direction(k: Keycode) -> Option<Direction> {
    match k {
        Keycode::Left | Keycode::Q => Some(Direction::Left),
        Keycode::Right | Keycode::D => Some(Direction::Right),
        Keycode::Up | Keycode::Z => Some(Direction::Up),
        Keycode::Down | Keycode::S => Some(Direction::Down),
        _ => None,
    }
}

/// The direction a pad button stands for, if it is one of the directional pad.
pub open spec fn button_direction(b: PadButton) -> Option<Direction> {
    match b {
        PadButton::DPadUp => Some(Direction::Up),
        PadButton::DPadDown => Some(Direction::Down),
        PadButton::DPadLeft => Some(Direction::Left),
        PadButton::DPadRight => Some(Direction::Right),
        _ => None,
    }
}

/// The environment after `ev` while the menu shows, and what to do: pad buttons become
/// the keys the menu knows (A is Enter, B and Start are Escape; others are dropped), and
/// every other event but pad arrivals and removals goes to the menu.
pub open spec fn menu_step<C, E>(env: Env<C>, ev: InputEvent<E>) -> (Env<C>, EnvAction<E>) {
    match ev {
        InputEvent::ControllerDeviceAdded { .. } => (env, EnvAction::UpdateController),
        InputEvent::ControllerDeviceRemoved { which, .. } => {
            if env.controller matches Some(c) && c.instance_id == which {
                (Env { controller: None, ..env }, EnvAction::Nothing)
            } else {
                (env, EnvAction::Nothing)
            }
        },
        InputEvent::ButtonDown { button, timestamp, .. } => match button {
            PadButton::A => (
                env,
                EnvAction::Menu(InputEvent::KeyDown { keycode: Some(Keycode::Return), timestamp }),
            ),
            PadButton::B | PadButton::Start => (
                env,
                EnvAction::Menu(InputEvent::KeyDown { keycode: Some(Keycode::Escape), timestamp }),
            ),
            _ => (env, EnvAction::Nothing),
        },
        _ => (env, EnvAction::Menu(ev)),
    }
}

/// The environment after a key press in the game, and what to do.
pub open spec fn key_down_step<C, E>(env: Env<C>, k: Keycode) -> (Env<C>, EnvAction<E>) {
    if let Some(d) = key_direction(k) {
        (env, EnvAction::Player(PlayerCommand::Move(d)))
    } else {
        match k {
            Keycode::Escape => {
                if !env.character_window.is_displayed && !env.inventory_window.is_displayed {
                    (Env { display_menu: true, ..env }, EnvAction::OpenPauseMenu { hover_at_mouse: true })
                } else if env.character_window.is_displayed {
                    (
                        Env { character_window: EguiWindow { is_displayed: false, ..env.character_window }, ..env },
                        EnvAction::Nothing,
                    )
                } else {
                    (
                        Env { inventory_window: EguiWindow { is_displayed: false, ..env.inventory_window }, ..env },
                        EnvAction::Nothing,
                    )
                }
            },
            Keycode::Space => {
                if !env.is_attack_pressed {
                    (Env { is_attack_pressed: true, ..env }, EnvAction::Player(PlayerCommand::Attack))
                } else {
                    (env, EnvAction::Nothing)
                }
            },
            Keycode::LCtrl => (env, EnvAction::Player(PlayerCommand::StopAttackAndBlock)),
            Keycode::LShift => (env, EnvAction::Player(PlayerCommand::StartRunning)),
            Keycode::F3 => (Env { debug: !env.debug, ..env }, EnvAction::Nothing),
            Keycode::F5 => (
                Env { debug_display: DebugDisplay { draw_grid: !env.debug_display.draw_grid, ..env.debug_display }, ..env },
                EnvAction::Nothing,
            ),
            Keycode::I => (
                Env { inventory_window: EguiWindow { is_displayed: !env.inventory_window.is_displayed, ..env.inventory_window }, ..env },
                EnvAction::Nothing,
            ),
            Keycode::C => (
                Env { character_window: EguiWindow { is_displayed: !env.character_window.is_displayed, ..env.character_window }, ..env },
                EnvAction::Nothing,
            ),
            _ => (env, EnvAction::Nothing),
        }
    }
}

/// The environment after a key release in the game, and what to do.
pub open spec fn key_up_step<C, E>(env: Env<C>, k: Keycode) -> (Env<C>, EnvAction<E>) {
    if let Some(d) = key_direction(k) {
        (env, EnvAction::Player(PlayerCommand::Release(d)))
    } else {
        match k {
            Keycode::LShift => (env, EnvAction::Player(PlayerCommand::StopRunning)),
            Keycode::LCtrl => (
                env,
                EnvAction::Player(PlayerCommand::StopBlock { attack_again: env.is_attack_pressed }),
            ),
            Keycode::Space => (Env { is_attack_pressed: false, ..env }, EnvAction::Nothing),
            Keycode::Return => match env.closest_reward {
                Some((_, reward)) => (
                    Env { closest_reward: None, need_sort_rewards: true, ..env },
                    EnvAction::RemoveReward(reward),
                ),
                None => (env, EnvAction::Nothing),
            },
            _ => (env, EnvAction::Nothing),
        }
    }
}

/// The environment after `ev` during the game, and what to do.
pub open spec fn game_step<C, E>(env: Env<C>, ev: InputEvent<E>) -> (Env<C>, EnvAction<E>) {
    match ev {
        InputEvent::ControllerDeviceAdded { .. } => (env, EnvAction::UpdateController),
        InputEvent::ControllerDeviceRemoved { .. } => (Env { controller: None, ..env }, EnvAction::Nothing),
        InputEvent::ButtonDown { button, .. } => {
            if let Some(d) = button_direction(button) {
                (env, EnvAction::Player(PlayerCommand::Move(d)))
            } else if button == PadButton::A && !env.is_attack_pressed {
                (Env { is_attack_pressed: true, ..env }, EnvAction::Player(PlayerCommand::Attack))
            } else {
                (env, EnvAction::Nothing)
            }
        },
        InputEvent::ButtonUp { button, .. } => {
            if let Some(d) = button_direction(button) {
                (env, EnvAction::Player(PlayerCommand::Release(d)))
            } else if button == PadButton::A {
                (Env { is_attack_pressed: false, ..env }, EnvAction::Nothing)
            } else if button == PadButton::Start {
                (Env { display_menu: true, ..env }, EnvAction::OpenPauseMenu { hover_at_mouse: false })
            } else {
                (env, EnvAction::Nothing)
            }
        },
        InputEvent::Quit => (env, EnvAction::Quit),
        InputEvent::KeyDown { keycode: Some(k), .. } => key_down_step(env, k),
        InputEvent::KeyUp { keycode: Some(k), .. } => key_up_step(env, k),
        _ => (env, EnvAction::Egui(ev)),
    }
}

/// The environment after `ev`, and what to do: the menu takes the events while it shows.
pub open spec fn env_step<C, E>(env: Env<C>, ev: InputEvent<E>) -> (Env<C>, EnvAction<E>) {
    if env.display_menu {
        menu_step(env, ev)
    } else {
        game_step(env, ev)
    }
}

impl<C> Env<C> {
    /// An environment with its debug display (whose panel and grid textures go to
    /// `textures`), the texture named `reward-text` to show over the closest reward, no
    /// game pad yet, and everything off.
    pub fn new<T, S>(
        textures: &mut Textures<T, S>,
        background: TextureHolder<T>,
        grid: TextureHolder<T>,
        width: u32,
    ) -> (env: Env<C>)
        requires
            old(textures).wf(),
            old(textures).holders().len() + 2 < usize::MAX,
            old(textures).named().dom().contains("reward-text"@),
        ensures
            final(textures).wf(),
            final(textures).holders() == old(textures).holders().push(background).push(grid),
            final(textures).named() == old(textures).named(),
            env.debug_display.background.index() == old(textures).holders().len(),
            env.debug_display.grid.index() == old(textures).holders().len() + 1,
            env.debug_display.width == width,
            env.debug_display.font_size == 16,
            !env.debug_display.draw_grid,
            env.reward_text == old(textures).named()["reward-text"@],
            !env.display_menu && !env.is_attack_pressed && !env.debug,
            env.fps_str@ == Seq::<char>::empty(),
            !env.need_sort_rewards,
            env.closest_reward is None,
            env.controller is None,
            !env.character_window.is_displayed && !env.character_window.has_focus,
            !env.inventory_window.is_displayed && !env.inventory_window.has_focus,
    {
        let debug_display = DebugDisplay::new(textures, background, grid, width, 16);
        let reward_text = textures.get_texture_id_from_name("reward-text");
        Env {
            display_menu: false,
            is_attack_pressed: false,
            debug: false,
            fps_str: String::new(),
            debug_display,
            need_sort_rewards: false,
            closest_reward: None,
            controller: None,
            character_window: EguiWindow::default(),
            inventory_window: EguiWindow::default(),
            reward_text,
        }
    }

    /// The events `event` becomes: through the game pad when there is one.
    pub fn convert_event<E>(&mut self, event: InputEvent<E>) -> (out: Vec<InputEvent<E>>)
        ensures
            old(self).controller is None ==> *final(self) == *old(self) && out@ == seq![event],
            old(self).controller matches Some(pad) ==> {
                let (next, events) = pad_after(pad, event);
                &&& out@ == events
                &&& *final(self) == (Env { controller: Some(next), ..*old(self) })
            },
    {
        match &mut self.controller {
            Some(c) => c.convert_event(event),
            None => {
                let mut out: Vec<InputEvent<E>> = Vec::new();
                out.push(event);
                out
            },
        }
    }

    /// Reacts to one (converted) input event; returns what the game must do.
    pub fn handle_event<E>(&mut self, ev: InputEvent<E>) -> (action: EnvAction<E>)
        ensures
            (*final(self), action) == env_step(*old(self), ev),
    {
        if self.display_menu {
            match ev {
                InputEvent::ControllerDeviceAdded { .. } => EnvAction::UpdateController,
                InputEvent::ControllerDeviceRemoved { which, .. } => {
                    let same = match &self.controller {
                        Some(c) => c.instance_id == which,
                        None => false,
                    };
                    if same {
                        self.controller = None;
                    }
                    EnvAction::Nothing
                },
                InputEvent::ButtonDown { button, timestamp, .. } => match button {
                    PadButton::A => EnvAction::Menu(
                        InputEvent::KeyDown { keycode: Some(Keycode::Return), timestamp },
                    ),
                    PadButton::B | PadButton::Start => EnvAction::Menu(
                        InputEvent::KeyDown { keycode: Some(Keycode::Escape), timestamp },
                    ),
                    _ => EnvAction::Nothing,
                },
                e => EnvAction::Menu(e),
            }
        } else {
            match ev {
                InputEvent::ControllerDeviceAdded { .. } => EnvAction::UpdateController,
                InputEvent::ControllerDeviceRemoved { .. } => {
                    self.controller = None;
                    EnvAction::Nothing
                },
                InputEvent::ButtonDown { button, .. } => match button {
                    PadButton::DPadUp => EnvAction::Player(PlayerCommand::Move(Direction::Up)),
                    PadButton::DPadDown => EnvAction::Player(PlayerCommand::Move(Direction::Down)),
                    PadButton::DPadLeft => EnvAction::Player(PlayerCommand::Move(Direction::Left)),
                    PadButton::DPadRight => EnvAction::Player(PlayerCommand::Move(Direction::Right)),
                    PadButton::A => {
                        if !self.is_attack_pressed {
                            self.is_attack_pressed = true;
                            EnvAction::Player(PlayerCommand::Attack)
                        } else {
                            EnvAction::Nothing
                        }
                    },
                    _ => EnvAction::Nothing,
                },
                InputEvent::ButtonUp { button, .. } => match button {
                    PadButton::DPadUp => EnvAction::Player(PlayerCommand::Release(Direction::Up)),
                    PadButton::DPadDown => EnvAction::Player(PlayerCommand::Release(Direction::Down)),
                    PadButton::DPadLeft => EnvAction::Player(PlayerCommand::Release(Direction::Left)),
                    PadButton::DPadRight => EnvAction::Player(PlayerCommand::Release(Direction::Right)),
                    PadButton::A => {
                        self.is_attack_pressed = false;
                        EnvAction::Nothing
                    },
                    PadButton::Start => {
                        self.display_menu = true;
                        EnvAction::OpenPauseMenu { hover_at_mouse: false }
                    },
                    _ => EnvAction::Nothing,
                },
                InputEvent::Quit => EnvAction::Quit,
                InputEvent::KeyDown { keycode: Some(x), .. } => match x {
                    Keycode::Escape => {
                        let all_hidden = !self.character_window.is_displayed
                            && !self.inventory_window.is_displayed;
                        if all_hidden {
                            self.display_menu = true;
                            EnvAction::OpenPauseMenu { hover_at_mouse: true }
                        } else if self.character_window.is_displayed {
                            self.character_window.is_displayed = false;
                            EnvAction::Nothing
                        } else {
                            self.inventory_window.is_displayed = false;
                            EnvAction::Nothing
                        }
                    },
                    Keycode::Left | Keycode::Q => EnvAction::Player(PlayerCommand::Move(Direction::Left)),
                    Keycode::Right | Keycode::D => EnvAction::Player(PlayerCommand::Move(Direction::Right)),
                    Keycode::Up | Keycode::Z => EnvAction::Player(PlayerCommand::Move(Direction::Up)),
                    Keycode::Down | Keycode::S => EnvAction::Player(PlayerCommand::Move(Direction::Down)),
                    Keycode::Space => {
                        if !self.is_attack_pressed {
                            self.is_attack_pressed = true;
                            EnvAction::Player(PlayerCommand::Attack)
                        } else {
                            EnvAction::Nothing
                        }
                    },
                    Keycode::LCtrl => EnvAction::Player(PlayerCommand::StopAttackAndBlock),
                    Keycode::LShift => EnvAction::Player(PlayerCommand::StartRunning),
                    Keycode::F3 => {
                        self.debug = !self.debug;
                        EnvAction::Nothing
                    },
                    Keycode::F5 => {
                        self.debug_display.switch_draw_grid();
                        EnvAction::Nothing
                    },
                    Keycode::I => {
                        self.inventory_window.is_displayed = !self.inventory_window.is_displayed;
                        EnvAction::Nothing
                    },
                    Keycode::C => {
                        self.character_window.is_displayed = !self.character_window.is_displayed;
                        EnvAction::Nothing
                    },
                    _ => EnvAction::Nothing,
                },
                InputEvent::KeyUp { keycode: Some(x), .. } => match x {
                    Keycode::Left | Keycode::Q => EnvAction::Player(PlayerCommand::Release(Direction::Left)),
                    Keycode::Right | Keycode::D => EnvAction::Player(PlayerCommand::Release(Direction::Right)),
                    Keycode::Up | Keycode::Z => EnvAction::Player(PlayerCommand::Release(Direction::Up)),
                    Keycode::Down | Keycode::S => EnvAction::Player(PlayerCommand::Release(Direction::Down)),
                    Keycode::LShift => EnvAction::Player(PlayerCommand::StopRunning),
                    Keycode::LCtrl => EnvAction::Player(
                        PlayerCommand::StopBlock { attack_again: self.is_attack_pressed },
                    ),
                    Keycode::Space => {
                        self.is_attack_pressed = false;
                        EnvAction::Nothing
                    },
                    Keycode::Return => match self.closest_reward.take() {
                        Some((_, reward)) => {
                            self.need_sort_rewards = true;
                            EnvAction::RemoveReward(reward)
                        },
                        None => EnvAction::Nothing,
                    },
                    _ => EnvAction::Nothing,
                },
                e => EnvAction::Egui(e),
            }
        }
    }

    /// Reacts to what the menu answered: it can quit the game, or close the menu,
    /// bringing the dead player back when asked to.
    pub fn apply_menu_event(&mut self, ev: MenuEvent) -> (outcome: MenuOutcome)
        ensures
            outcome == (match ev {
                MenuEvent::Quit => MenuOutcome::Quit,
                MenuEvent::Resurrect => MenuOutcome::ResurrectPlayer,
                _ => MenuOutcome::Continue,
            }),
            *final(self) == (if ev == MenuEvent::Resume || ev == MenuEvent::Resurrect {
                Env { display_menu: false, ..*old(self) }
            } else {
                *old(self)
            }),
    {
        match ev {
            MenuEvent::Quit => MenuOutcome::Quit,
            MenuEvent::Resume => {
                self.display_menu = false;
                MenuOutcome::Continue
            },
            MenuEvent::Resurrect => {
                self.display_menu = false;
                MenuOutcome::ResurrectPlayer
            },
            _ => MenuOutcome::Continue,
        }
    }

    /// Shows the menu on the death screen.
    pub fn show_death_screen(&mut self)
        ensures
            *final(self) == (Env { display_menu: true, ..*old(self) }),
    {
        self.display_menu = true;
    }

    /// Whether the menu is to be drawn.
    pub fn draw(&self) -> (r: bool)
        ensures
            r == self.display_menu,
    {
        self.display_menu
    }
}

/// A stick held still makes no new key events: reading the same position twice in a
/// row gives nothing the second time.
pub proof fn lemma_stick_held_still<E>(
    last: (EventKind, Direction),
    value: i16,
    dir1: Direction,
    dir2: Direction,
    t1: u32,
    t2: u32,
)
    ensures
        ({
            let (state, _) = axis_after::<E>(last, value, dir1, dir2, t1);
            let (again, events) = axis_after::<E>(state, value, dir1, dir2, t2);
            again == state && events.len() == 0
        }),
{
}

/// A trigger held still makes no new key events.
pub proof fn lemma_trigger_held_still<E>(last: EventKind, value: i16, keycode: Keycode, t1: u32, t2: u32)
    ensures
        ({
            let (state, _) = trigger_after::<E>(last, value, keycode, t1);
            let (again, events) = trigger_after::<E>(state, value, keycode, t2);
            again == state && events.len() == 0
        }),
{
}

/// Pulling a trigger and letting it go presses and then releases its key, and leaves it
/// as it was.
pub proof fn lemma_trigger_press_release<E>(pulled: i16, released: i16, keycode: Keycode, t1: u32, t2: u32)
    requires
        pulled > TRIGGER_DEAD_ZONE,
        released <= TRIGGER_DEAD_ZONE,
    ensures
        ({
            let (state, down) = trigger_after::<E>(EventKind::Release, pulled, keycode, t1);
            let (back, up) = trigger_after::<E>(state, released, keycode, t2);
            &&& down == seq![key_event::<E>(true, keycode, t1)]
            &&& up == seq![key_event::<E>(false, keycode, t2)]
            &&& back == EventKind::Release
        }),
{
}

/// Pushing a centred stick to one side and bringing it back presses and then releases
/// the key of that side.
pub proof fn lemma_stick_push_and_back<E>(
    side: Direction,
    pushed: i16,
    centre: i16,
    dir1: Direction,
    dir2: Direction,
    t1: u32,
    t2: u32,
)
    requires
        pushed > STICK_DEAD_ZONE,
        -STICK_DEAD_ZONE <= centre <= STICK_DEAD_ZONE,
    ensures
        ({
            let (state, down) = axis_after::<E>((EventKind::Release, side), pushed, dir1, dir2, t1);
            let (back, up) = axis_after::<E>(state, centre, dir1, dir2, t2);
            &&& down == seq![key_event::<E>(true, dir1.keycode(), t1)]
            &&& up == seq![key_event::<E>(false, dir1.keycode(), t2)]
            &&& back == (EventKind::Release, dir1)
        }),
{
}

/// Both sticks of a pad read as arrow keys: leaning one past the dead zone from the
/// centre presses Right (positive X), Left (negative X), Down (positive Y) or Up
/// (negative Y), and nothing else.
pub proof fn lemma_stick_directions<C, E>(pad: GamePad<C>, value: i16, timestamp: u32)
    ensures
        ({
            let motion = |axis: PadAxis|
                InputEvent::<E>::AxisMotion { which: pad.instance_id, timestamp, axis, value };
            let down = |k: Keycode| seq![InputEvent::<E>::KeyDown { keycode: Some(k), timestamp }];
            &&& pad.left_stick_last_event_x.0 == EventKind::Release && value > STICK_DEAD_ZONE
                ==> pad_after(pad, motion(PadAxis::LeftX)).1 == down(Keycode::Right)
            &&& pad.left_stick_last_event_x.0 == EventKind::Release && value < -STICK_DEAD_ZONE
                ==> pad_after(pad, motion(PadAxis::LeftX)).1 == down(Keycode::Left)
            &&& pad.left_stick_last_event_y.0 == EventKind::Release && value > STICK_DEAD_ZONE
                ==> pad_after(pad, motion(PadAxis::LeftY)).1 == down(Keycode::Down)
            &&& pad.left_stick_last_event_y.0 == EventKind::Release && value < -STICK_DEAD_ZONE
                ==> pad_after(pad, motion(PadAxis::LeftY)).1 == down(Keycode::Up)
            &&& pad.right_stick_last_event_x.0 == EventKind::Release && value > STICK_DEAD_ZONE
                ==> pad_after(pad, motion(PadAxis::RightX)).1 == down(Keycode::Right)
            &&& pad.right_stick_last_event_x.0 == EventKind::Release && value < -STICK_DEAD_ZONE
                ==> pad_after(pad, motion(PadAxis::RightX)).1 == down(Keycode::Left)
            &&& pad.right_stick_last_event_y.0 == EventKind::Release && value > STICK_DEAD_ZONE
                ==> pad_after(pad, motion(PadAxis::RightY)).1 == down(Keycode::Down)
            &&& pad.right_stick_last_event_y.0 == EventKind::Release && value < -STICK_DEAD_ZONE
                ==> pad_after(pad, motion(PadAxis::RightY)).1 == down(Keycode::Up)
        }),
{
}

/// The two sticks are read alike: the same motion on the same axis of either stick,
/// from the same state, gives the same key events.
pub proof fn lemma_sticks_agree<C, E>(pad: GamePad<C>, value: i16, timestamp: u32)
    ensures
        pad.left_stick_last_event_x == pad.right_stick_last_event_x ==> pad_after(
            pad,
            InputEvent::<E>::AxisMotion { which: pad.instance_id, timestamp, axis: PadAxis::LeftX, value },
        ).1 == pad_after(
            pad,
            InputEvent::<E>::AxisMotion { which: pad.instance_id, timestamp, axis: PadAxis::RightX, value },
        ).1,
        pad.left_stick_last_event_y == pad.right_stick_last_event_y ==> pad_after(
            pad,
            InputEvent::<E>::AxisMotion { which: pad.instance_id, timestamp, axis: PadAxis::LeftY, value },
        ).1 == pad_after(
            pad,
            InputEvent::<E>::AxisMotion { which: pad.instance_id, timestamp, axis: PadAxis::RightY, value },
        ).1,
{
}

/// During the game the directional pad moves the player like the arrow keys: pressing
/// (releasing) DPadUp, DPadDown, DPadLeft or DPadRight asks the player to move toward
/// (stop moving toward) Up, Down, Left or Right, and changes nothing else.
pub proof fn lemma_dpad_moves_toward_its_direction<C, E>(env: Env<C>, which: u32, timestamp: u32)
    requires
        !env.display_menu,
    ensures
        env_step(env, InputEvent::<E>::ButtonDown { which, timestamp, button: PadButton::DPadUp })
            == (env, EnvAction::<E>::Player(PlayerCommand::Move(Direction::Up))),
        env_step(env, InputEvent::<E>::ButtonDown { which, timestamp, button: PadButton::DPadDown })
            == (env, EnvAction::<E>::Player(PlayerCommand::Move(Direction::Down))),
        env_step(env, InputEvent::<E>::ButtonDown { which, timestamp, button: PadButton::DPadLeft })
            == (env, EnvAction::<E>::Player(PlayerCommand::Move(Direction::Left))),
        env_step(env, InputEvent::<E>::ButtonDown { which, timestamp, button: PadButton::DPadRight })
            == (env, EnvAction::<E>::Player(PlayerCommand::Move(Direction::Right))),
        env_step(env, InputEvent::<E>::ButtonUp { which, timestamp, button: PadButton::DPadUp })
            == (env, EnvAction::<E>::Player(PlayerCommand::Release(Direction::Up))),
        env_step(env, InputEvent::<E>::ButtonUp { which, timestamp, button: PadButton::DPadDown })
            == (env, EnvAction::<E>::Player(PlayerCommand::Release(Direction::Down))),
        env_step(env, InputEvent::<E>::ButtonUp { which, timestamp, button: PadButton::DPadLeft })
            == (env, EnvAction::<E>::Player(PlayerCommand::Release(Direction::Left))),
        env_step(env, InputEvent::<E>::ButtonUp { which, timestamp, button: PadButton::DPadRight })
            == (env, EnvAction::<E>::Player(PlayerCommand::Release(Direction::Right))),
        env_step(env, InputEvent::<E>::ButtonDown { which, timestamp, button: PadButton::DPadUp })
            == env_step(env, InputEvent::<E>::KeyDown { keycode: Some(Keycode::Up), timestamp }),
        env_step(env, InputEvent::<E>::ButtonDown { which, timestamp, button: PadButton::DPadDown })
            == env_step(env, InputEvent::<E>::KeyDown { keycode: Some(Keycode::Down), timestamp }),
        env_step(env, InputEvent::<E>::ButtonDown { which, timestamp, button: PadButton::DPadLeft })
            == env_step(env, InputEvent::<E>::KeyDown { keycode: Some(Keycode::Left), timestamp }),
        env_step(env, InputEvent::<E>::ButtonDown { which, timestamp, button: PadButton::DPadRight })
            == env_step(env, InputEvent::<E>::KeyDown { keycode: Some(Keycode::Right), timestamp }),
{
}

/// Pressing the key of a window (I or C), or of a debug switch (F3, F5), twice during
/// the game leaves everything as it was.
pub proof fn lemma_toggle_twice<C, E>(env: Env<C>, k: Keycode)
    requires
        k == Keycode::I || k == Keycode::C || k == Keycode::F3 || k == Keycode::F5,
    ensures
        key_down_step::<C, E>(key_down_step::<C, E>(env, k).0, k).0 == env,
{
}

/// Holding the attack key attacks once: a second press before the release does nothing,
/// a press after the release attacks again.
pub proof fn lemma_attack_once_per_press<C, E>(env: Env<C>)
    requires
        !env.display_menu,
        !env.is_attack_pressed,
    ensures
        ({
            let (pressed, first) = key_down_step::<C, E>(env, Keycode::Space);
            let (_, second) = key_down_step::<C, E>(pressed, Keycode::Space);
            let (released, _) = key_up_step::<C, E>(pressed, Keycode::Space);
            let (_, third) = key_down_step::<C, E>(released, Keycode::Space);
            &&& first == EnvAction::<E>::Player(PlayerCommand::Attack)
            &&& second == EnvAction::<E>::Nothing
            &&& third == EnvAction::<E>::Player(PlayerCommand::Attack)
        }),
{
}

} // verus!
