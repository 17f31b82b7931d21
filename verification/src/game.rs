use vstd::prelude::*;

use crate::building::Building;

verus! {

/// Where the game runs: in the menu or in the world.
#[derive(Clone, Copy, PartialEq, Eq, Debug, Structural)]
pub enum AppState {
    Menu,
    Game,
}

/// Whether the debug display is on.
#[derive(Clone, Copy, PartialEq, Eq, Debug, Structural)]
pub enum DebugState {
    Disabled,
    Enabled,
}

/// Where the player is.
#[derive(Clone, Copy, PartialEq, Eq, Debug, Structural)]
pub enum GameState {
    Outside,
    InsideHouse,
    InsideDungeon,
}

/// What the game keeps about the interface and the building the player is in.
#[derive(Clone, Copy, PartialEq, Eq, Debug, Structural)]
pub struct GameInfo {
    pub show_character_window: bool,
    pub show_inventory_window: bool,
    pub building_hash: u32,
    pub building: Option<Building>,
}

/// The keys released during the last frame.
#[derive(Clone, Copy, PartialEq, Eq, Debug, Structural)]
pub struct ReleasedKeys {
    /// Toggles the character window.
    pub c: bool,
    /// Toggles the inventory window.
    pub i: bool,
    pub escape: bool,
    /// Toggles the debug display.
    pub f5: bool,
}

/// What the keys ask beyond the windows.
#[derive(Clone, Copy, PartialEq, Eq, Debug, Structural)]
pub struct InputEffects {
    pub open_main_menu: bool,
    pub next_debug_state: Option<DebugState>,
}

impl GameInfo {
    /// Nothing shown, outside.
    pub fn new() -> (r: GameInfo)
        ensures
            r == (GameInfo {
                show_character_window: false,
                show_inventory_window: false,
                building_hash: 0,
                building: None,
            }),
    {
        GameInfo {
            show_character_window: false,
            show_inventory_window: false,
            building_hash: 0,
            building: None,
        }
    }
}

/// Handles the interface keys: C and I toggle their window; Escape closes the
/// character window, else the inventory window, else opens the main menu; F5 toggles
/// the debug display.
pub fn handle_input(info: &mut GameInfo, keys: ReleasedKeys, debug_state: DebugState) -> (r: InputEffects)
    ensures
        ({
            let c = old(info).show_character_window != keys.c;
            let i = old(info).show_inventory_window != keys.i;
            &&& final(info).show_character_window == (c && !(keys.escape))
            &&& final(info).show_inventory_window == (i && !(keys.escape && !c))
            &&& r.open_main_menu == (keys.escape && !c && !i)
        }),
        final(info).building_hash == old(info).building_hash,
        final(info).building == old(info).building,
        r.next_debug_state == (if keys.f5 {
            Some(if debug_state == DebugState::Enabled {
                DebugState::Disabled
            } else {
                DebugState::Enabled
            })
        } else {
            None
        }),
{
    let mut open_main_menu = false;
    let mut next_debug_state = None;
    if keys.c {
        info.show_character_window = !info.show_character_window;
    }
    if keys.i {
        info.show_inventory_window = !info.show_inventory_window;
    }
    if keys.escape {
        if info.show_character_window {
            info.show_character_window = false;
        } else if info.show_inventory_window {
            info.show_inventory_window = false;
        } else {
            open_main_menu = true;
        }
    }
    if keys.f5 {
        if debug_state == DebugState::Enabled {
            next_debug_state = Some(DebugState::Disabled);
        } else {
            next_debug_state = Some(DebugState::Enabled);
        }
    }
    InputEffects { open_main_menu, next_debug_state }
}

/// The player walked into the entrance of `building`: from outside it enters the
/// building, from inside it goes back out. Returns the next game state.
pub fn enter_area(info: &mut GameInfo, game_state: GameState, building: Building) -> (r: GameState)
    ensures
        final(info).building_hash == 0,
        final(info).show_character_window == old(info).show_character_window,
        final(info).show_inventory_window == old(info).show_inventory_window,
        game_state == GameState::Outside ==> r == GameState::InsideHouse && final(info).building
            == Some(building),
        game_state != GameState::Outside ==> r == GameState::Outside && final(info).building
            is None,
{
    info.building_hash = 0;
    if game_state == GameState::Outside {
        info.building = Some(building);
        GameState::InsideHouse
    } else {
        info.building = None;
        GameState::Outside
    }
}

/// The sprite of a door: open (1) while the player stands in front of it.
pub fn door_sprite_index(player_in_front: bool) -> (r: usize)
    ensures
        r == (if player_in_front { 1usize } else { 0usize }),
{
    if player_in_front {
        1
    } else {
        0
    }
}

} // verus!
