use toy_game::character::{
    attack_damage, attack_strength, compute_total_nb_points, compute_xp_to_next_level,
    next_animation_frame, Character, CharacterAnimationType, CharacterKind, CharacterPoints,
    STAT_POINTS_PER_LEVEL, xp_to_next_fits,
};

#[test]
fn level_1_points_are_one_each() {
    let p = CharacterPoints::level_1();
    assert_eq!(p.strength, 1);
    assert_eq!(p.constitution, 1);
    assert_eq!(p.intelligence, 1);
    assert_eq!(p.wisdom, 1);
    assert_eq!(p.stamina, 1);
    assert_eq!(p.agility, 1);
    assert_eq!(p.dexterity, 1);
    assert_eq!(p.assigned_points(), 7);
}

#[test]
fn stats_of_a_level_1_character() {
    let s = CharacterPoints::level_1().generate_stats(1);
    assert_eq!(s.max_health, 114);
    assert_eq!(s.health_regen, 2);
    assert_eq!(s.max_mana, 34);
    assert_eq!(s.mana_regen_halves, 3);
    assert_eq!(s.max_stamina, 51);
    assert_eq!(s.stamina_regen_halves, 9);
    assert_eq!(s.defense, 3);
    assert_eq!(s.attack, 6);
    assert_eq!(s.attack_speed, 4);
    assert_eq!(s.magical_attack, 4);
    assert_eq!(s.magical_defense, 1);
    assert_eq!(s.dodge_change, 2);
    assert_eq!(s.critical_attack_chance, 4);
    assert_eq!(s.move_speed_bonus, 0);
}

#[test]
fn stats_follow_the_points() {
    let p = CharacterPoints {
        strength: 4,
        constitution: 3,
        intelligence: 5,
        wisdom: 2,
        stamina: 6,
        agility: 7,
        dexterity: 9,
    };
    let s = p.generate_stats(10);
    // 95 + 50 + 30 + 8 + 12
    assert_eq!(s.max_health, 195);
    assert_eq!(s.health_regen, 4);
    // 16 + 40 + 50 + 8
    assert_eq!(s.max_mana, 114);
    assert_eq!(s.mana_regen_halves, 8);
    assert_eq!(s.max_stamina, 56);
    assert_eq!(s.stamina_regen_halves, 14);
    assert_eq!(s.defense, 42);
    // 10 + 20 + 1 + 4
    assert_eq!(s.attack, 35);
    assert_eq!(s.attack_speed, 24);
    assert_eq!(s.magical_attack, 19);
    assert_eq!(s.magical_defense, 9);
    assert_eq!(s.dodge_change, 17);
    assert_eq!(s.critical_attack_chance, 35);
    assert_eq!(s.move_speed_bonus, 9);
}

#[test]
fn xp_needed_per_level() {
    assert_eq!(compute_xp_to_next_level(0), 100);
    assert_eq!(compute_xp_to_next_level(1), 150);
    assert_eq!(compute_xp_to_next_level(2), 225);
    assert_eq!(compute_xp_to_next_level(3), 338);
    assert_eq!(compute_xp_to_next_level(4), 507);
}

#[test]
fn xp_needed_grows_with_the_level() {
    let mut previous = compute_xp_to_next_level(0);
    for level in 1..20u16 {
        let x = compute_xp_to_next_level(level);
        assert!(x >= previous);
        previous = x;
    }
}

#[test]
fn stat_points_earned_per_level() {
    assert_eq!(compute_total_nb_points(0), 0);
    assert_eq!(compute_total_nb_points(1), 0);
    assert_eq!(compute_total_nb_points(2), 3);
    assert_eq!(compute_total_nb_points(5), 12);
    assert_eq!(STAT_POINTS_PER_LEVEL, 3);
}

#[test]
fn new_character() {
    let c = Character::new(1, 0, CharacterPoints::level_1(), CharacterKind::Player);
    assert_eq!(c.level, 1);
    assert_eq!(c.xp, 0);
    assert_eq!(c.xp_to_next_level, 150);
    assert_eq!(c.unused_points, 7);
    assert!(!c.is_attacking);
    assert_eq!(c.kind, CharacterKind::Player);
    assert_eq!(c.stats, CharacterPoints::level_1().generate_stats(1));
}

#[test]
fn gaining_experience_below_the_threshold() {
    let mut c = Character::new(1, 0, CharacterPoints::level_1(), CharacterKind::Player);
    c.increase_xp(100);
    assert_eq!(c.level, 1);
    assert_eq!(c.xp, 100);
    assert_eq!(c.xp_to_next_level, 150);
    assert_eq!(c.unused_points, 7);
}

#[test]
fn gaining_a_level() {
    let mut c = Character::new(1, 0, CharacterPoints::level_1(), CharacterKind::Player);
    c.increase_xp(100);
    c.increase_xp(60);
    assert_eq!(c.level, 2);
    assert_eq!(c.xp, 10);
    assert_eq!(c.xp_to_next_level, 225);
    assert_eq!(c.unused_points, 10);
    assert_eq!(c.stats, CharacterPoints::level_1().generate_stats(2));
}

#[test]
fn reaching_the_threshold_exactly_gains_a_level() {
    let mut c = Character::new(1, 0, CharacterPoints::level_1(), CharacterKind::Human);
    c.increase_xp(150);
    assert_eq!(c.level, 2);
    assert_eq!(c.xp, 0);
}

#[test]
fn level_up_threshold_rounds_down_unlike_the_table() {
    // From level 2 the threshold grows by half rounded down (225 + 112), while the
    // table for level 3 rounds the half up (225 + 113).
    let mut c = Character::new(2, 0, CharacterPoints::level_1(), CharacterKind::Player);
    assert_eq!(c.xp_to_next_level, 225);
    c.increase_xp(225);
    assert_eq!(c.level, 3);
    assert_eq!(c.xp_to_next_level, 337);
    assert_eq!(compute_xp_to_next_level(3), 338);
}

#[test]
fn level_up_threshold_matches_the_table_from_level_1() {
    let mut c = Character::new(1, 0, CharacterPoints::level_1(), CharacterKind::Player);
    c.increase_xp(150);
    assert_eq!(c.xp_to_next_level, compute_xp_to_next_level(2));
}

#[test]
fn using_stat_points_with_three_or_more_assigned() {
    let mut c = Character::new(2, 0, CharacterPoints::level_1(), CharacterKind::Player);
    c.use_stat_point();
    assert_eq!(c.unused_points, 0);
    assert_eq!(c.stats, CharacterPoints::level_1().generate_stats(2));
}

#[test]
fn using_stat_points_with_few_assigned() {
    let p = CharacterPoints {
        strength: 1,
        constitution: 0,
        intelligence: 0,
        wisdom: 0,
        stamina: 0,
        agility: 0,
        dexterity: 0,
    };
    let mut c = Character::new(4, 0, p, CharacterKind::Player);
    c.use_stat_point();
    // 4 * (3 - 1)
    assert_eq!(c.unused_points, 8);
}

#[test]
fn spending_points_from_the_character_window() {
    let mut c = Character::new(1, 0, CharacterPoints::level_1(), CharacterKind::Player);
    c.spend_points(&vec![0, 0, 6, 4]);
    assert_eq!(c.points.strength, 3);
    assert_eq!(c.points.dexterity, 2);
    assert_eq!(c.points.stamina, 2);
    assert_eq!(c.points.constitution, 1);
    assert_eq!(c.unused_points, 0);
    // The statistics are those of the points before the spending.
    assert_eq!(c.stats, CharacterPoints::level_1().generate_stats(1));
}

#[test]
fn spending_no_points() {
    let mut c = Character::new(3, 5, CharacterPoints::level_1(), CharacterKind::Monster);
    c.spend_points(&vec![]);
    assert_eq!(c.points, CharacterPoints::level_1());
    assert_eq!(c.xp, 5);
    assert_eq!(c.level, 3);
}

#[test]
fn animation_indices() {
    assert_eq!(CharacterAnimationType::ForwardMove.get_index(3), 0);
    assert_eq!(CharacterAnimationType::BackwardMove.get_index(3), 3);
    assert_eq!(CharacterAnimationType::LeftMove.get_index(3), 6);
    assert_eq!(CharacterAnimationType::RightMove.get_index(3), 9);
    assert_eq!(CharacterAnimationType::ForwardIdle.get_index(3), 12);
    assert_eq!(CharacterAnimationType::BackwardIdle.get_index(3), 13);
    assert_eq!(CharacterAnimationType::LeftIdle.get_index(3), 14);
    assert_eq!(CharacterAnimationType::RightIdle.get_index(3), 15);
}

#[test]
fn animation_indices_are_distinct() {
    let all = [
        CharacterAnimationType::ForwardIdle,
        CharacterAnimationType::BackwardIdle,
        CharacterAnimationType::LeftIdle,
        CharacterAnimationType::RightIdle,
        CharacterAnimationType::ForwardMove,
        CharacterAnimationType::BackwardMove,
        CharacterAnimationType::LeftMove,
        CharacterAnimationType::RightMove,
    ];
    for (i, a) in all.iter().enumerate() {
        for (j, b) in all.iter().enumerate() {
            if i != j {
                assert_ne!(a.get_index(4), b.get_index(4));
            }
        }
    }
}

#[test]
fn idle_animations() {
    assert!(CharacterAnimationType::ForwardIdle.is_idle());
    assert!(CharacterAnimationType::RightIdle.is_idle());
    assert!(!CharacterAnimationType::LeftMove.is_idle());
    assert!(!CharacterAnimationType::BackwardMove.is_idle());
}

#[test]
fn stopping_keeps_the_direction() {
    let mut a = CharacterAnimationType::LeftMove;
    a.stop_movement();
    assert_eq!(a, CharacterAnimationType::LeftIdle);
    let mut b = CharacterAnimationType::BackwardIdle;
    b.stop_movement();
    assert_eq!(b, CharacterAnimationType::BackwardIdle);
}

#[test]
fn moving_faces_the_move() {
    let mut a = CharacterAnimationType::ForwardIdle;
    a.set_move(-1, 1);
    assert_eq!(a, CharacterAnimationType::LeftMove);
    assert!(a.is_equal(-1, 1));
    a.set_move(1, 0);
    assert_eq!(a, CharacterAnimationType::RightMove);
    a.set_move(0, -1);
    assert_eq!(a, CharacterAnimationType::ForwardMove);
    a.set_move(0, 1);
    assert_eq!(a, CharacterAnimationType::BackwardMove);
    assert!(!a.is_equal(0, -1));
}

#[test]
fn next_frame_of_a_looping_animation() {
    // Walking right with 3 frames: frames 9, 10, 11 then back to 9.
    assert_eq!(next_animation_frame(CharacterAnimationType::RightMove, 3, 0, false, 9), (1 + 9 + 0, false));
    assert_eq!(next_animation_frame(CharacterAnimationType::ForwardMove, 3, 0, false, 2), (0, false));
}

#[test]
fn next_frame_of_an_animation_played_once() {
    assert_eq!(next_animation_frame(CharacterAnimationType::ForwardMove, 4, 2, true, 5), (2, true));
    assert_eq!(next_animation_frame(CharacterAnimationType::ForwardMove, 4, 2, true, 3), (4, false));
}

#[test]
fn damage_of_an_attack() {
    assert_eq!(attack_damage(10, false, CharacterKind::Player, CharacterKind::Monster, 3), Some(7));
    assert_eq!(attack_damage(3, false, CharacterKind::Player, CharacterKind::Monster, 10), Some(1));
    assert_eq!(attack_damage(5, false, CharacterKind::Monster, CharacterKind::Human, 5), Some(1));
    assert_eq!(attack_damage(0, false, CharacterKind::Monster, CharacterKind::Human, 0), Some(1));
}

#[test]
fn no_damage_to_oneself_or_to_ones_kind() {
    assert_eq!(attack_damage(10, true, CharacterKind::Player, CharacterKind::Monster, 3), None);
    assert_eq!(attack_damage(10, false, CharacterKind::Monster, CharacterKind::Monster, 3), None);
}

#[test]
fn attack_strength_adds_the_weapon() {
    assert_eq!(attack_strength(6, 10), 16);
}

#[test]
fn checked_character_creation() {
    let p = CharacterPoints::level_1();
    assert_eq!(
        Character::try_new(1, 5, p, CharacterKind::Player),
        Some(Character::new(1, 5, p, CharacterKind::Player))
    );
    assert!(p.stats_fit_level(1));
    assert!(!p.stats_fit_level(0));
    assert_eq!(Character::try_new(0, 0, p, CharacterKind::Player), None);
    let huge = CharacterPoints { constitution: u32::MAX, ..p };
    assert!(!huge.stats_fit_level(1));
    assert_eq!(Character::try_new(1, 0, huge, CharacterKind::Monster), None);
    assert!(xp_to_next_fits(90));
    assert!(!xp_to_next_fits(120));
    assert_eq!(Character::try_new(120, 0, p, CharacterKind::Human), None);
}
