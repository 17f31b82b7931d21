use vstd::prelude::*;

use std::collections::HashMap;

use crate::character::CharacterKind;

verus! {

/// Damage counters.
#[derive(Clone, Copy, PartialEq, Eq, Debug, Structural)]
pub struct DamageStats {
    pub total_inflicted_damages: u64,
    pub total_received_damages: u64,
    pub total_kills: u64,
    pub total_deaths: u64,
    pub total_healed: u64,
}

impl Default for DamageStats {
    fn default() -> (s: Self)
        ensures
            s == (DamageStats {
                total_inflicted_damages: 0,
                total_received_damages: 0,
                total_kills: 0,
                total_deaths: 0,
                total_healed: 0,
            }),
    {
        DamageStats {
            total_inflicted_damages: 0,
            total_received_damages: 0,
            total_kills: 0,
            total_deaths: 0,
            total_healed: 0,
        }
    }
}

/// What a player did during the game.
pub struct PlayerStats {
    /// In pixels: 8 pixels make a grid case and 4 grid cases make a metre, so a metre is
    /// 32 pixels.
    pub total_walked: u64,
    pub total_damages: DamageStats,
    pub max_inflicted_damage: u64,
    pub max_received_damage: u64,
    pub total_healed: u64,
    pub enemies: HashMap<CharacterKind, DamageStats>,
}

impl PlayerStats {
    /// Statistics with every counter at zero.
    pub fn new() -> (s: PlayerStats)
        ensures
            s.total_walked == 0,
            s.total_damages == (DamageStats {
                total_inflicted_damages: 0,
                total_received_damages: 0,
                total_kills: 0,
                total_deaths: 0,
                total_healed: 0,
            }),
            s.max_inflicted_damage == 0,
            s.max_received_damage == 0,
            s.total_healed == 0,
            s.enemies@ == Map::<CharacterKind, DamageStats>::empty(),
    {
        PlayerStats {
            total_walked: 0,
            total_damages: DamageStats::default(),
            max_inflicted_damage: 0,
            max_received_damage: 0,
            total_healed: 0,
            enemies: HashMap::new(),
        }
    }

    /// The distance walked, in centimetres (rounded down).
    pub fn get_total_walked(&self) -> (cm: u64)
        requires
            self.total_walked * 100 <= u64::MAX,
        ensures
            cm == self.total_walked * 100 / 32,
    {
        self.total_walked * 100 / 32
    }
}

} // verus!
