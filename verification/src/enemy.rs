use vstd::prelude::*;

use crate::direction::Direction;

verus! {

/// What an enemy is doing; `P` is a position on its way.
pub enum EnemyAction<P> {
    /// Not doing anything for the moment.
    Idle,
    Attack(Direction),
    MoveTo(Vec<P>),
    /// Going after the player with that identifier.
    MoveToPlayer(u64, Vec<P>),
}

impl<P> EnemyAction<P> {
    /// Whether the enemy goes after a player.
    pub fn is_move_to_player(&self) -> (r: bool)
        ensures
            r == (*self is MoveToPlayer),
    {
        match self {
            EnemyAction::MoveToPlayer(_, _) => true,
            _ => false,
        }
    }

    /// Whether the enemy attacks.
    pub fn is_attack(&self) -> (r: bool)
        ensures
            r == (*self is Attack),
    {
        match self {
            EnemyAction::Attack(_) => true,
            _ => false,
        }
    }
}

} // verus!
