use vstd::prelude::*;

verus! {

/// The screen the menu shows: the main screen, the settings, the sound settings, or no
/// menu at all.
#[derive(Clone, Copy, PartialEq, Eq, Debug, Structural)]
pub enum MenuState {
    Main,
    Settings,
    SettingsSound,
    Disabled,
}

/// What a menu button does when clicked.
#[derive(Clone, Copy, PartialEq, Eq, Debug, Structural)]
pub enum MenuButtonAction {
    Play,
    Settings,
    SettingsSound,
    BackToMainMenu,
    BackToSettings,
    Quit,
}

/// How the mouse is on a button.
#[derive(Clone, Copy, PartialEq, Eq, Debug, Structural)]
pub enum ButtonInteraction {
    Clicked,
    Hovered,
    Idle,
}

/// The colour a button is drawn with.
#[derive(Clone, Copy, PartialEq, Eq, Debug, Structural)]
pub enum ButtonLook {
    Normal,
    Hovered,
    HoveredPressed,
    Pressed,
}

/// What the menu asks after a frame: the screen to show, whether to leave the menu's
/// application state (back to the one under it), and whether to quit the game.
#[derive(Clone, Copy, PartialEq, Eq, Debug, Structural)]
pub struct MenuChange {
    pub menu_state: MenuState,
    pub pop_app_state: bool,
    pub exit: bool,
}

/// The screen a button leads to (the game itself, for Play); `None` for Quit.
pub open spec fn button_target(action: MenuButtonAction) -> Option<MenuState> {
    match action {
        MenuButtonAction::Play => Some(MenuState::Disabled),
        MenuButtonAction::Settings => Some(MenuState::Settings),
        MenuButtonAction::SettingsSound => Some(MenuState::SettingsSound),
        MenuButtonAction::BackToMainMenu => Some(MenuState::Main),
        MenuButtonAction::BackToSettings => Some(MenuState::Settings),
        MenuButtonAction::Quit => None,
    }
}

/// The colour of a button: pressed while clicked or while it is the selected option,
/// lighter when hovered.
pub fn button_look(interaction: ButtonInteraction, selected: bool) -> (look: ButtonLook)
    ensures
        look == (match interaction {
            ButtonInteraction::Clicked => ButtonLook::Pressed,
            ButtonInteraction::Hovered => if selected {
                ButtonLook::HoveredPressed
            } else {
                ButtonLook::Hovered
            },
            ButtonInteraction::Idle => if selected {
                ButtonLook::Pressed
            } else {
                ButtonLook::Normal
            },
        }),
{
    match (interaction, selected) {
        (ButtonInteraction::Clicked, _) | (ButtonInteraction::Idle, true) => ButtonLook::Pressed,
        (ButtonInteraction::Hovered, true) => ButtonLook::HoveredPressed,
        (ButtonInteraction::Hovered, false) => ButtonLook::Hovered,
        (ButtonInteraction::Idle, false) => ButtonLook::Normal,
    }
}

/// The value a setting takes after a click on the button of `button_setting`: the
/// button's value when it was clicked and differs; `None` when nothing changes.
pub fn setting_button(interaction: ButtonInteraction, setting: u32, button_setting: u32) -> (r: Option<u32>)
    ensures
        r == (if interaction == ButtonInteraction::Clicked && setting != button_setting {
            Some(button_setting)
        } else {
            None
        }),
{
    if interaction == ButtonInteraction::Clicked && setting != button_setting {
        Some(button_setting)
    } else {
        None
    }
}

/// Reacts to a frame of the menu: releasing Escape leaves the menu (back to the game);
/// otherwise a clicked button moves to its screen (Play leaves the menu) or quits.
pub fn menu_action(state: MenuState, escape_released: bool, clicked: Option<MenuButtonAction>) -> (change: MenuChange)
    requires
        !(state != MenuState::Disabled && escape_released) ==> (clicked matches Some(a) ==> button_target(a)
            != Some(state)),
    ensures
        state != MenuState::Disabled && escape_released ==> change == (MenuChange {
            menu_state: MenuState::Disabled,
            pop_app_state: true,
            exit: false,
        }),
        !(state != MenuState::Disabled && escape_released) ==> change == (match clicked {
            Some(a) => match button_target(a) {
                Some(target) => MenuChange {
                    menu_state: target,
                    pop_app_state: a == MenuButtonAction::Play,
                    exit: false,
                },
                None => MenuChange { menu_state: state, pop_app_state: false, exit: true },
            },
            None => MenuChange { menu_state: state, pop_app_state: false, exit: false },
        }),
{
    if state != MenuState::Disabled && escape_released {
        return MenuChange { menu_state: MenuState::Disabled, pop_app_state: true, exit: false };
    }
    match clicked {
        Some(MenuButtonAction::Quit) => MenuChange { menu_state: state, pop_app_state: false, exit: true },
        Some(MenuButtonAction::Play) => MenuChange {
            menu_state: MenuState::Disabled,
            pop_app_state: true,
            exit: false,
        },
        Some(MenuButtonAction::Settings) => MenuChange {
            menu_state: MenuState::Settings,
            pop_app_state: false,
            exit: false,
        },
        Some(MenuButtonAction::SettingsSound) => MenuChange {
            menu_state: MenuState::SettingsSound,
            pop_app_state: false,
            exit: false,
        },
        Some(MenuButtonAction::BackToMainMenu) => MenuChange {
            menu_state: MenuState::Main,
            pop_app_state: false,
            exit: false,
        },
        Some(MenuButtonAction::BackToSettings) => MenuChange {
            menu_state: MenuState::Settings,
            pop_app_state: false,
            exit: false,
        },
        None => MenuChange { menu_state: state, pop_app_state: false, exit: false },
    }
}

} // verus!
