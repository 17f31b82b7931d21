use vstd::prelude::*;

use crate::character::CharacterAnimationType;

verus! {

/// The running state of the player.
#[derive(Clone, Copy, PartialEq, Eq, Debug, Structural)]
pub struct Player {
    pub is_running: bool,
    /// Once stamina is completely consumed, the run key must be released before
    /// running again.
    pub waiting_for_rerun: bool,
}

/// The movement keys held down, and the run key.
#[derive(Clone, Copy, PartialEq, Eq, Debug, Structural)]
pub struct MovementKeys {
    pub up: bool,
    pub down: bool,
    pub left: bool,
    pub right: bool,
    pub run: bool,
}

/// What a movement step decided.
#[derive(Clone, Copy, PartialEq, Eq, Debug, Structural)]
pub struct MovementStep {
    /// -1 (left), 0 or 1 (right).
    pub x_axis: i8,
    /// -1 (down the screen), 0 or 1 (up the screen).
    pub y_axis: i8,
    /// The player turned toward a new direction (the interaction box must follow).
    pub turned: bool,
    /// The sprite must be reset to the first frame of the animation (and the animation
    /// timer restarted).
    pub update_sprite: bool,
}

/// The axis value of two opposite keys.
pub open spec fn axis(negative: bool, positive: bool) -> i8 {
    ((if positive { 1int } else { 0int }) - (if negative { 1int } else { 0int })) as i8
}

/// The running state after the run-key handling of a movement step, before the move.
pub open spec fn spec_run_state(p: Player, run: bool, has_stamina_to_run: bool) -> Player {
    if run {
        if !p.waiting_for_rerun {
            Player {
                is_running: has_stamina_to_run,
                waiting_for_rerun: p.is_running && !has_stamina_to_run,
            }
        } else {
            Player { is_running: false, ..p }
        }
    } else {
        Player { waiting_for_rerun: false, ..p }
    }
}

/// One step of the player's movement: handles the run key (`has_stamina_to_run` says
/// whether the stamina covers running for this step), computes the axes from the
/// keys, stops or starts the walking animation, and stops an attack when the player
/// turns.
pub fn player_movement_step(
    player: &mut Player,
    animation: &mut CharacterAnimationType,
    is_attacking: &mut bool,
    keys: MovementKeys,
    has_stamina_to_run: bool,
) -> (r: MovementStep)
    ensures
        r.x_axis == axis(keys.left, keys.right),
        r.y_axis == axis(keys.down, keys.up),
        ({
            let p = spec_run_state(*old(player), keys.run, has_stamina_to_run);
            if r.x_axis == 0 && r.y_axis == 0 {
                &&& *final(player) == (Player { is_running: false, waiting_for_rerun: false })
                &&& *final(animation) == old(animation).spec_stopped()
                &&& *final(is_attacking) == *old(is_attacking)
                &&& !r.turned
                &&& r.update_sprite
            } else {
                let equal = old(animation).spec_is_equal(r.x_axis, r.y_axis);
                &&& *final(player) == p
                &&& r.turned == !equal
                &&& *final(is_attacking) == (*old(is_attacking) && equal)
                &&& (old(animation).spec_is_idle() || !equal) ==> *final(animation)
                    == CharacterAnimationType::spec_moving(r.x_axis, r.y_axis)
                &&& !(old(animation).spec_is_idle() || !equal) ==> *final(animation)
                    == *old(animation)
                &&& r.update_sprite == (old(animation).spec_is_idle() || !equal || p.is_running
                    != old(player).is_running)
            }
        }),
{
    let was_running = player.is_running;
    if keys.run {
        if !player.waiting_for_rerun {
            player.is_running = has_stamina_to_run;
            if was_running && !player.is_running {
                player.waiting_for_rerun = true;
            }
        } else if player.is_running {
            player.is_running = false;
        }
    } else if player.waiting_for_rerun {
        player.waiting_for_rerun = false;
    }
    let x_axis: i8 = (if keys.right { 1i8 } else { 0i8 }) - (if keys.left { 1i8 } else { 0i8 });
    let y_axis: i8 = (if keys.up { 1i8 } else { 0i8 }) - (if keys.down { 1i8 } else { 0i8 });
    let mut skip_animation_update = false;
    let mut turned = false;
    if x_axis == 0 && y_axis == 0 {
        animation.stop_movement();
        player.is_running = false;
        player.waiting_for_rerun = false;
    } else {
        let is_equal = animation.is_equal(x_axis, y_axis);
        if animation.is_idle() || !is_equal {
            if !is_equal {
                *is_attacking = false;
            }
            animation.set_move(x_axis, y_axis);
        } else if player.is_running == was_running {
            skip_animation_update = true;
        }
        turned = !is_equal;
    }
    MovementStep { x_axis, y_axis, turned, update_sprite: !skip_animation_update }
}

} // verus!
