use vstd::prelude::*;

verus! {

/// Stat points a character earns every time it gains a level.
pub const STAT_POINTS_PER_LEVEL: u32 = 3;

/// Who a character is; attacks never hurt a character of the attacker's own kind.
#[derive(Clone, Copy, PartialEq, Eq, Debug, Structural)]
pub enum CharacterKind {
    Player,
    Human,
    Monster,
}

/// The points a character assigned to each of its attributes.
#[derive(Clone, Copy, PartialEq, Eq, Debug, Structural)]
pub struct CharacterPoints {
    pub strength: u32,
    pub constitution: u32,
    pub intelligence: u32,
    pub wisdom: u32,
    pub stamina: u32,
    pub agility: u32,
    pub dexterity: u32,
}

/// The statistics a character derives from its level and points.
///
/// Regeneration rates and the move speed are fractional; they are kept exactly, as the
/// numerator over a fixed denominator: the health regeneration is in points per
/// second, mana and stamina regeneration in half points per second, and the move speed
/// is `100 + move_speed_bonus / 8` pixels per second (1% more every eight levels).
#[derive(Clone, Copy, PartialEq, Eq, Debug, Structural)]
pub struct CharacterStats {
    pub max_health: u32,
    pub health_regen: u32,
    pub max_mana: u32,
    pub mana_regen_halves: u32,
    pub max_stamina: u32,
    pub stamina_regen_halves: u32,
    pub defense: u32,
    pub attack: u32,
    /// The higher it is, the less time it takes to perform an attack.
    pub attack_speed: u32,
    pub magical_attack: u32,
    pub magical_defense: u32,
    /// It also takes into account the opponent level, agility and dexterity.
    pub dodge_change: u32,
    /// It also takes into account the opponent level, agility and dexterity.
    pub critical_attack_chance: u32,
    pub move_speed_bonus: u32,
}

impl CharacterPoints {
    /// The sum of all attribute points.
    pub open spec fn total(self) -> int {
        self.strength + self.constitution + self.intelligence + self.wisdom + self.stamina
            + self.agility + self.dexterity
    }

    /// The statistics of a character of `level` with these points, computed over the
    /// integers.
    pub open spec fn spec_stats(self, level: int) -> CharacterStats {
        CharacterStats {
            max_health: (95 + 5 * level + 10 * self.constitution + 2 * self.strength + 2
                * self.stamina) as u32,
            health_regen: (1 + self.constitution) as u32,
            max_mana: (16 + 4 * level + 10 * self.intelligence + 4 * self.wisdom) as u32,
            mana_regen_halves: (1 + self.intelligence + self.wisdom) as u32,
            max_stamina: (50 + self.stamina) as u32,
            stamina_regen_halves: (8 + self.stamina) as u32,
            defense: ((2 * self.constitution + 1) * self.stamina) as u32,
            attack: (level + 5 * self.strength + self.constitution / 2 + self.dexterity
                / 2) as u32,
            attack_speed: (1 + 2 * self.agility + self.dexterity) as u32,
            magical_attack: (level + 2 * self.wisdom + self.intelligence) as u32,
            magical_defense: (level / 2 + self.wisdom + self.intelligence / 2) as u32,
            dodge_change: (level + self.agility) as u32,
            critical_attack_chance: (level + 2 * self.dexterity + self.agility) as u32,
            move_speed_bonus: (level - 1) as u32,
        }
    }

    /// Computing the statistics for `level` stays within `u32`.
    pub open spec fn stats_fit(self, level: int) -> bool {
        &&& level >= 1
        &&& 95 + 5 * level + 10 * self.constitution + 2 * self.strength + 2 * self.stamina
            <= u32::MAX
        &&& 1 + self.constitution <= u32::MAX
        &&& 16 + 4 * level + 10 * self.intelligence + 4 * self.wisdom <= u32::MAX
        &&& 1 + self.intelligence + self.wisdom <= u32::MAX
        &&& 50 + self.stamina <= u32::MAX
        &&& 8 + self.stamina <= u32::MAX
        &&& (2 * self.constitution + 1) * self.stamina <= u32::MAX
        &&& 2 * self.constitution + 1 <= u32::MAX
        &&& level + 5 * self.strength + self.constitution / 2 + self.dexterity / 2 <= u32::MAX
        &&& 1 + 2 * self.agility + self.dexterity <= u32::MAX
        &&& level + 2 * self.wisdom + self.intelligence <= u32::MAX
        &&& level / 2 + self.wisdom + self.intelligence / 2 <= u32::MAX
        &&& level + self.agility <= u32::MAX
        &&& level + 2 * self.dexterity + self.agility <= u32::MAX
    }

    /// Whether the statistics of a character of `level` with these points fit their
    /// integer types.
    pub fn stats_fit_level(&self, level: u16) -> (r: bool)
        ensures
            r == self.stats_fit(level as int),
    {
        let l = level as u128;
        let st = self.strength as u128;
        let co = self.constitution as u128;
        let it = self.intelligence as u128;
        let wi = self.wisdom as u128;
        let sa = self.stamina as u128;
        let ag = self.agility as u128;
        let de = self.dexterity as u128;
        let max: u128 = 0xffff_ffff;
        assert((2 * co + 1) * sa <= 0x3_0000_0000 * 0x1_0000_0000) by (nonlinear_arith)
            requires
                co <= 0xffff_ffff,
                sa <= 0xffff_ffff,
        ;
        l >= 1 && 95 + 5 * l + 10 * co + 2 * st + 2 * sa <= max && 1 + co <= max && 16 + 4 * l + 10
            * it + 4 * wi <= max && 1 + it + wi <= max && 50 + sa <= max && 8 + sa <= max && (2 * co
            + 1) * sa <= max && 2 * co + 1 <= max && l + 5 * st + co / 2 + de / 2 <= max && 1 + 2
            * ag + de <= max && l + 2 * wi + it <= max && l / 2 + wi + it / 2 <= max && l + ag <= max
            && l + 2 * de + ag <= max
    }

    /// One point in every attribute.
    pub fn level_1() -> (points: Self)
        ensures
            points == (CharacterPoints {
                strength: 1,
                constitution: 1,
                intelligence: 1,
                wisdom: 1,
                stamina: 1,
                agility: 1,
                dexterity: 1,
            }),
    {
        Self {
            strength: 1,
            constitution: 1,
            intelligence: 1,
            wisdom: 1,
            stamina: 1,
            agility: 1,
            dexterity: 1,
        }
    }

    /// The number of points assigned over all attributes.
    pub fn assigned_points(&self) -> (total: u32)
        requires
            self.total() <= u32::MAX,
        ensures
            total == self.total(),
    {
        self.strength + self.constitution + self.intelligence + self.wisdom + self.stamina
            + self.agility + self.dexterity
    }

    /// The statistics of a character of `level` with these points.
    ///
    /// At each level health and mana rise a bit; strength raises attack (and health a
    /// bit), constitution health, its regeneration and defense, intelligence mana and
    /// magic, wisdom magic (and mana a bit), stamina endurance and defense, agility
    /// attack speed, dodging and critical hits, dexterity critical hits and attack.
    pub fn generate_stats(&self, level: u16) -> (stats: CharacterStats)
        requires
            self.stats_fit(level as int),
        ensures
            stats == self.spec_stats(level as int),
    {
        let level = level as u32;
        assert((2 * self.constitution + 1) * self.stamina <= u32::MAX);
        CharacterStats {
            max_health: 95 + 5 * level + 10 * self.constitution + 2 * self.strength + 2
                * self.stamina,
            health_regen: 1 + self.constitution,
            max_mana: 16 + 4 * level + 10 * self.intelligence + 4 * self.wisdom,
            mana_regen_halves: 1 + self.intelligence + self.wisdom,
            max_stamina: 50 + self.stamina,
            stamina_regen_halves: 8 + self.stamina,
            defense: (2 * self.constitution + 1) * self.stamina,
            attack: level + 5 * self.strength + self.constitution / 2 + self.dexterity / 2,
            attack_speed: 1 + 2 * self.agility + self.dexterity,
            magical_attack: level + 2 * self.wisdom + self.intelligence,
            magical_defense: level / 2 + self.wisdom + self.intelligence / 2,
            dodge_change: level + self.agility,
            critical_attack_chance: level + 2 * self.dexterity + self.agility,
            move_speed_bonus: level - 1,
        }
    }
}

/// The experience needed to leave `level`: 100 at level 0, then half as much again
/// (rounded up) at every level.
pub open spec fn xp_to_next(level: nat) -> int
    decreases level,
{
    if level == 0 {
        100
    } else {
        let p = xp_to_next((level - 1) as nat);
        p + (p - p / 2)
    }
}

proof fn lemma_xp_to_next_at_least_100(n: nat)
    ensures
        100 <= xp_to_next(n),
    decreases n,
{
    if n > 0 {
        lemma_xp_to_next_at_least_100((n - 1) as nat);
    }
}

/// `xp_to_next` grows with the level.
pub proof fn lemma_xp_to_next_monotonic(a: nat, b: nat)
    requires
        a <= b,
    ensures
        100 <= xp_to_next(a) <= xp_to_next(b),
    decreases b,
{
    lemma_xp_to_next_at_least_100(a);
    if b > a {
        lemma_xp_to_next_monotonic(a, (b - 1) as nat);
    }
}

/// Gaining a level multiplies the experience threshold by one and a half; when the
/// threshold is even, the threshold a character gets on levelling up (`xp_to_next_level
/// + xp_to_next_level / 2`) is the one a new character of the next level starts with.
pub proof fn lemma_level_up_threshold(level: nat)
    requires
        xp_to_next(level) % 2 == 0,
    ensures
        xp_to_next(level) + xp_to_next(level) / 2 == xp_to_next(level + 1),
{
    assert(xp_to_next(level + 1) == xp_to_next(level) + (xp_to_next(level) - xp_to_next(level) / 2));
}

/// The experience a character of `level` needs to reach the next level.
pub fn compute_xp_to_next_level(level: u16) -> (x: u64)
    requires
        xp_to_next(level as nat) <= u64::MAX,
    ensures
        x == xp_to_next(level as nat),
{
    let mut x: u64 = 100;
    let mut i: u16 = 0;
    while i < level
        invariant
            i <= level,
            xp_to_next(level as nat) <= u64::MAX,
            x == xp_to_next(i as nat),
        decreases level - i,
    {
        proof {
            lemma_xp_to_next_monotonic((i + 1) as nat, level as nat);
        }
        x = x + (x - x / 2);
        i = i + 1;
    }
    x
}

/// Whether the experience needed to leave `level` fits a `u64`.
pub fn xp_to_next_fits(level: u16) -> (r: bool)
    ensures
        r == (xp_to_next(level as nat) <= u64::MAX),
{
    let mut x: u64 = 100;
    let mut i: u16 = 0;
    while i < level
        invariant
            i <= level,
            x == xp_to_next(i as nat),
        decreases level - i,
    {
        let inc = x - x / 2;
        if x > u64::MAX - inc {
            proof {
                lemma_xp_to_next_monotonic((i + 1) as nat, level as nat);
            }
            return false;
        }
        x = x + inc;
        i = i + 1;
    }
    true
}

/// The stat points a character earns by reaching `level`: 3 per level after the first.
pub open spec fn total_nb_points(level: int) -> int {
    if level <= 1 {
        0
    } else {
        STAT_POINTS_PER_LEVEL * (level - 1)
    }
}

/// The stat points a character earns by reaching `level`.
pub fn compute_total_nb_points(level: u16) -> (n: u32)
    ensures
        n == total_nb_points(level as int),
{
    let mut nb_points: u32 = 0;
    let mut i: u16 = 1;
    while i < level
        invariant
            STAT_POINTS_PER_LEVEL == 3,
            1 <= i,
            i <= level || (level == 0 && i == 1),
            nb_points == STAT_POINTS_PER_LEVEL * (i - 1),
        decreases level - i,
    {
        nb_points = nb_points + STAT_POINTS_PER_LEVEL;
        i = i + 1;
    }
    nb_points
}

/// The game-logic side of a character: progression and points.
#[derive(Clone, Copy, PartialEq, Eq, Debug, Structural)]
pub struct Character {
    pub kind: CharacterKind,
    pub xp_to_next_level: u64,
    pub xp: u64,
    pub level: u16,
    pub stats: CharacterStats,
    pub points: CharacterPoints,
    pub unused_points: u32,
    pub is_attacking: bool,
}

/// The points after one point was added to the attribute at position `i` (strength,
/// constitution, intelligence, wisdom, stamina, agility, dexterity).
pub open spec fn add_point(p: CharacterPoints, i: int) -> CharacterPoints {
    if i == 0 {
        CharacterPoints { strength: (p.strength + 1) as u32, ..p }
    } else if i == 1 {
        CharacterPoints { constitution: (p.constitution + 1) as u32, ..p }
    } else if i == 2 {
        CharacterPoints { intelligence: (p.intelligence + 1) as u32, ..p }
    } else if i == 3 {
        CharacterPoints { wisdom: (p.wisdom + 1) as u32, ..p }
    } else if i == 4 {
        CharacterPoints { stamina: (p.stamina + 1) as u32, ..p }
    } else if i == 5 {
        CharacterPoints { agility: (p.agility + 1) as u32, ..p }
    } else {
        CharacterPoints { dexterity: (p.dexterity + 1) as u32, ..p }
    }
}

/// The points after adding one point for each entry of `updates`, in order.
pub open spec fn add_points(p: CharacterPoints, updates: Seq<usize>) -> CharacterPoints
    decreases updates.len(),
{
    if updates.len() == 0 {
        p
    } else {
        add_point(add_points(p, updates.drop_last()), updates.last() as int)
    }
}

/// The attribute at position `i` can take one more point.
pub open spec fn can_add_point(p: CharacterPoints, i: int) -> bool {
    &&& 0 <= i < 7
    &&& i == 0 ==> p.strength < u32::MAX
    &&& i == 1 ==> p.constitution < u32::MAX
    &&& i == 2 ==> p.intelligence < u32::MAX
    &&& i == 3 ==> p.wisdom < u32::MAX
    &&& i == 4 ==> p.stamina < u32::MAX
    &&& i == 5 ==> p.agility < u32::MAX
    &&& i == 6 ==> p.dexterity < u32::MAX
}

/// Every entry of `updates` can take its point, in order.
pub open spec fn can_add_points(p: CharacterPoints, updates: Seq<usize>) -> bool
    decreases updates.len(),
{
    if updates.len() == 0 {
        true
    } else {
        can_add_points(p, updates.drop_last()) && can_add_point(
            add_points(p, updates.drop_last()),
            updates.last() as int,
        )
    }
}

/// The character `Character::new` makes.
pub open spec fn new_character(level: u16, xp: u64, points: CharacterPoints, kind: CharacterKind) -> Character {
    Character {
        kind,
        xp_to_next_level: xp_to_next(level as nat) as u64,
        xp,
        level,
        stats: points.spec_stats(level as int),
        points,
        unused_points: (points.total() + total_nb_points(level as int)) as u32,
        is_attacking: false,
    }
}

/// The numbers of a character of `level` with these points fit their integer types.
pub open spec fn character_fits(level: u16, points: CharacterPoints) -> bool {
    &&& points.stats_fit(level as int)
    &&& xp_to_next(level as nat) <= u64::MAX
    &&& points.total() + total_nb_points(level as int) <= u32::MAX
}

impl Character {
    /// `Character::new` where its numbers fit their integer types; `None` where they
    /// would overflow.
    pub fn try_new(level: u16, xp: u64, points: CharacterPoints, kind: CharacterKind) -> (r: Option<Self>)
        ensures
            r is Some <==> character_fits(level, points),
            r matches Some(c) ==> c == new_character(level, xp, points, kind),
    {
        if !points.stats_fit_level(level) || !xp_to_next_fits(level) {
            return None;
        }
        let total: u64 = points.strength as u64 + points.constitution as u64 + points.intelligence as u64
            + points.wisdom as u64 + points.stamina as u64 + points.agility as u64 + points.dexterity as u64;
        let earned = compute_total_nb_points(level);
        if total + earned as u64 > 0xffff_ffff {
            return None;
        }
        Some(Self::new(level, xp, points, kind))
    }

    /// A character of `level` with `xp` experience and the given points; its unused
    /// points are its assigned points plus the points earned by its level.
    pub fn new(level: u16, xp: u64, points: CharacterPoints, kind: CharacterKind) -> (c: Self)
        requires
            points.stats_fit(level as int),
            xp_to_next(level as nat) <= u64::MAX,
            points.total() + total_nb_points(level as int) <= u32::MAX,
        ensures
            c.kind == kind,
            c.xp == xp,
            c.level == level,
            c.points == points,
            c.stats == points.spec_stats(level as int),
            c.xp_to_next_level == xp_to_next(level as nat),
            c.unused_points == points.total() + total_nb_points(level as int),
            !c.is_attacking,
    {
        let stats = points.generate_stats(level);
        let unassigned = points.assigned_points();
        Self {
            xp_to_next_level: compute_xp_to_next_level(level),
            xp,
            level,
            stats,
            points,
            unused_points: unassigned + compute_total_nb_points(level),
            is_attacking: false,
            kind,
        }
    }

    /// Adds experience; reaching the threshold gains one level: the threshold is taken
    /// from the experience and grows by half (rounded down), the statistics are
    /// recomputed for the new level and 3 stat points are earned.
    pub fn increase_xp(&mut self, xp_to_add: u64)
        requires
            old(self).xp + xp_to_add <= u64::MAX,
            old(self).xp + xp_to_add >= old(self).xp_to_next_level ==> {
                &&& old(self).level < u16::MAX
                &&& old(self).xp_to_next_level + old(self).xp_to_next_level / 2 <= u64::MAX
                &&& old(self).points.stats_fit(old(self).level + 1)
                &&& old(self).unused_points + STAT_POINTS_PER_LEVEL <= u32::MAX
            },
        ensures
            final(self).kind == old(self).kind,
            final(self).points == old(self).points,
            final(self).is_attacking == old(self).is_attacking,
            old(self).xp + xp_to_add < old(self).xp_to_next_level ==> {
                &&& final(self).xp == old(self).xp + xp_to_add
                &&& final(self).level == old(self).level
                &&& final(self).xp_to_next_level == old(self).xp_to_next_level
                &&& final(self).stats == old(self).stats
                &&& final(self).unused_points == old(self).unused_points
            },
            old(self).xp + xp_to_add >= old(self).xp_to_next_level ==> {
                &&& final(self).xp == old(self).xp + xp_to_add - old(self).xp_to_next_level
                &&& final(self).level == old(self).level + 1
                &&& final(self).xp_to_next_level == old(self).xp_to_next_level
                    + old(self).xp_to_next_level / 2
                &&& final(self).stats == old(self).points.spec_stats(old(self).level + 1)
                &&& final(self).unused_points == old(self).unused_points + STAT_POINTS_PER_LEVEL
            },
    {
        self.xp = self.xp + xp_to_add;
        if self.xp >= self.xp_to_next_level {
            self.level = self.level + 1;
            self.xp = self.xp - self.xp_to_next_level;
            self.xp_to_next_level = self.xp_to_next_level + self.xp_to_next_level / 2;
            self.stats = self.points.generate_stats(self.level);
            self.unused_points = self.unused_points + STAT_POINTS_PER_LEVEL;
        }
    }

    /// Recomputes the unused points and the statistics after the points changed.
    ///
    /// The unused points become the level times what remains of 3 once the assigned
    /// points are taken away (0 as soon as 3 or more points are assigned).
    pub fn use_stat_point(&mut self)
        requires
            old(self).points.total() <= u32::MAX,
            old(self).points.stats_fit(old(self).level as int),
        ensures
            *final(self) == (Character {
                unused_points: (old(self).level * (if old(self).points.total() >= STAT_POINTS_PER_LEVEL {
                    0
                } else {
                    STAT_POINTS_PER_LEVEL - old(self).points.total()
                })) as u32,
                stats: old(self).points.spec_stats(old(self).level as int),
                ..*old(self)
            }),
            final(self).unused_points <= STAT_POINTS_PER_LEVEL * old(self).level,
    {
        let remaining = STAT_POINTS_PER_LEVEL.saturating_sub(self.points.assigned_points());
        assert(self.level * remaining <= STAT_POINTS_PER_LEVEL * self.level) by (nonlinear_arith)
            requires
                remaining <= STAT_POINTS_PER_LEVEL,
        ;
        self.unused_points = self.level as u32 * remaining;
        self.stats = self.points.generate_stats(self.level);
    }

    /// Spends points from the character window: the unused points and statistics are
    /// first recomputed (see `use_stat_point`), then one point is added to the
    /// attribute at each position of `updates` (strength, constitution, intelligence,
    /// wisdom, stamina, agility, dexterity).
    pub fn spend_points(&mut self, updates: &Vec<usize>)
        requires
            old(self).points.total() <= u32::MAX,
            old(self).points.stats_fit(old(self).level as int),
            can_add_points(old(self).points, updates@),
        ensures
            final(self).points == add_points(old(self).points, updates@),
            final(self).unused_points == (old(self).level * (if old(self).points.total()
                >= STAT_POINTS_PER_LEVEL {
                0
            } else {
                STAT_POINTS_PER_LEVEL - old(self).points.total()
            })) as u32,
            final(self).stats == old(self).points.spec_stats(old(self).level as int),
            final(self).level == old(self).level,
            final(self).xp == old(self).xp,
            final(self).xp_to_next_level == old(self).xp_to_next_level,
            final(self).kind == old(self).kind,
            final(self).is_attacking == old(self).is_attacking,
    {
        self.use_stat_point();
        let ghost p0 = self.points;
        let mut i: usize = 0;
        while i < updates.len()
            invariant
                i <= updates@.len(),
                p0 == old(self).points,
                can_add_points(p0, updates@),
                self.points == add_points(p0, updates@.take(i as int)),
                self.unused_points == (old(self).level * (if old(self).points.total()
                    >= STAT_POINTS_PER_LEVEL {
                    0
                } else {
                    STAT_POINTS_PER_LEVEL - old(self).points.total()
                })) as u32,
                self.stats == old(self).points.spec_stats(old(self).level as int),
                self.level == old(self).level,
                self.xp == old(self).xp,
                self.xp_to_next_level == old(self).xp_to_next_level,
                self.kind == old(self).kind,
                self.is_attacking == old(self).is_attacking,
            decreases updates@.len() - i,
        {
            proof {
                assert(updates@.take(i + 1).drop_last() =~= updates@.take(i as int));
                lemma_can_add_points_prefix(p0, updates@, i + 1);
            }
            let u = updates[i];
            if u == 0 {
                self.points.strength = self.points.strength + 1;
            } else if u == 1 {
                self.points.constitution = self.points.constitution + 1;
            } else if u == 2 {
                self.points.intelligence = self.points.intelligence + 1;
            } else if u == 3 {
                self.points.wisdom = self.points.wisdom + 1;
            } else if u == 4 {
                self.points.stamina = self.points.stamina + 1;
            } else if u == 5 {
                self.points.agility = self.points.agility + 1;
            } else {
                self.points.dexterity = self.points.dexterity + 1;
            }
            i = i + 1;
        }
        proof {
            assert(updates@.take(updates@.len() as int) =~= updates@);
        }
    }
}

proof fn lemma_can_add_points_prefix(p: CharacterPoints, updates: Seq<usize>, k: int)
    requires
        0 <= k <= updates.len(),
        can_add_points(p, updates),
    ensures
        can_add_points(p, updates.take(k)),
    decreases updates.len(),
{
    if k == updates.len() {
        assert(updates.take(k) =~= updates);
    } else {
        assert(updates.take(k) =~= updates.drop_last().take(k));
        lemma_can_add_points_prefix(p, updates.drop_last(), k);
    }
}

/// Which animation of a character's sprite sheet plays: facing or walking in one of four
/// directions (forward is toward the bottom of the screen).
#[derive(Clone, Copy, PartialEq, Eq, Debug, Structural)]
pub enum CharacterAnimationType {
    ForwardIdle,
    BackwardIdle,
    LeftIdle,
    RightIdle,
    ForwardMove,
    BackwardMove,
    LeftMove,
    RightMove,
}

impl CharacterAnimationType {
    pub open spec fn spec_is_idle(self) -> bool {
        match self {
            CharacterAnimationType::ForwardIdle | CharacterAnimationType::BackwardIdle
            | CharacterAnimationType::LeftIdle | CharacterAnimationType::RightIdle => true,
            _ => false,
        }
    }

    pub open spec fn spec_get_index(self, nb_animations: int) -> int {
        match self {
            CharacterAnimationType::ForwardMove => 0,
            CharacterAnimationType::BackwardMove => nb_animations,
            CharacterAnimationType::LeftMove => nb_animations * 2,
            CharacterAnimationType::RightMove => nb_animations * 3,
            CharacterAnimationType::ForwardIdle => nb_animations * 4,
            CharacterAnimationType::BackwardIdle => nb_animations * 4 + 1,
            CharacterAnimationType::LeftIdle => nb_animations * 4 + 2,
            CharacterAnimationType::RightIdle => nb_animations * 4 + 3,
        }
    }

    pub open spec fn spec_is_equal(self, x_axis: i8, y_axis: i8) -> bool {
        match self {
            CharacterAnimationType::ForwardMove | CharacterAnimationType::ForwardIdle => y_axis < 0,
            CharacterAnimationType::BackwardMove | CharacterAnimationType::BackwardIdle => y_axis
                > 0,
            CharacterAnimationType::LeftMove | CharacterAnimationType::LeftIdle => x_axis < 0,
            CharacterAnimationType::RightMove | CharacterAnimationType::RightIdle => x_axis > 0,
        }
    }

    /// The animation that stands still in the same direction.
    pub open spec fn spec_stopped(self) -> Self {
        match self {
            CharacterAnimationType::ForwardMove => CharacterAnimationType::ForwardIdle,
            CharacterAnimationType::BackwardMove => CharacterAnimationType::BackwardIdle,
            CharacterAnimationType::LeftMove => CharacterAnimationType::LeftIdle,
            CharacterAnimationType::RightMove => CharacterAnimationType::RightIdle,
            other => other,
        }
    }

    /// The walking animation for a move along the axes: horizontal moves win.
    pub open spec fn spec_moving(x_axis: i8, y_axis: i8) -> Self {
        if x_axis < 0 {
            CharacterAnimationType::LeftMove
        } else if x_axis > 0 {
            CharacterAnimationType::RightMove
        } else if y_axis < 0 {
            CharacterAnimationType::ForwardMove
        } else {
            CharacterAnimationType::BackwardMove
        }
    }

    /// The character stands still.
    pub fn is_idle(self) -> (r: bool)
        ensures
            r == self.spec_is_idle(),
    {
        match self {
            CharacterAnimationType::ForwardIdle | CharacterAnimationType::BackwardIdle
            | CharacterAnimationType::LeftIdle | CharacterAnimationType::RightIdle => true,
            _ => false,
        }
    }

    /// The first frame of this animation in a sheet with `nb_animations` frames per
    /// walking animation: the four walking rows come first, then one frame per idle
    /// direction.
    pub fn get_index(self, nb_animations: usize) -> (r: usize)
        requires
            nb_animations * 4 + 3 <= usize::MAX,
        ensures
            r == self.spec_get_index(nb_animations as int),
    {
        match self {
            CharacterAnimationType::ForwardMove => 0,
            CharacterAnimationType::BackwardMove => nb_animations,
            CharacterAnimationType::LeftMove => nb_animations * 2,
            CharacterAnimationType::RightMove => nb_animations * 3,
            CharacterAnimationType::ForwardIdle => nb_animations * 4,
            CharacterAnimationType::BackwardIdle => nb_animations * 4 + 1,
            CharacterAnimationType::LeftIdle => nb_animations * 4 + 2,
            CharacterAnimationType::RightIdle => nb_animations * 4 + 3,
        }
    }

    /// Stops walking, keeping the direction.
    pub fn stop_movement(&mut self)
        ensures
            *final(self) == old(self).spec_stopped(),
            final(self).spec_is_idle(),
    {
        match *self {
            CharacterAnimationType::ForwardMove => *self = CharacterAnimationType::ForwardIdle,
            CharacterAnimationType::BackwardMove => *self = CharacterAnimationType::BackwardIdle,
            CharacterAnimationType::LeftMove => *self = CharacterAnimationType::LeftIdle,
            CharacterAnimationType::RightMove => *self = CharacterAnimationType::RightIdle,
            _ => {},
        }
    }

    /// The animation faces the direction of the move along the axes (negative `y_axis`
    /// is forward, down the screen, as the axes are computed from the keys).
    pub fn is_equal(self, x_axis: i8, y_axis: i8) -> (r: bool)
        ensures
            r == self.spec_is_equal(x_axis, y_axis),
    {
        match self {
            CharacterAnimationType::ForwardMove | CharacterAnimationType::ForwardIdle => y_axis < 0,
            CharacterAnimationType::BackwardMove | CharacterAnimationType::BackwardIdle => y_axis
                > 0,
            CharacterAnimationType::LeftMove | CharacterAnimationType::LeftIdle => x_axis < 0,
            CharacterAnimationType::RightMove | CharacterAnimationType::RightIdle => x_axis > 0,
        }
    }

    /// Starts walking along the axes.
    pub fn set_move(&mut self, x_axis: i8, y_axis: i8)
        ensures
            *final(self) == Self::spec_moving(x_axis, y_axis),
            !final(self).spec_is_idle(),
    {
        if x_axis < 0 {
            *self = CharacterAnimationType::LeftMove;
        } else if x_axis > 0 {
            *self = CharacterAnimationType::RightMove;
        } else if y_axis < 0 {
            *self = CharacterAnimationType::ForwardMove;
        } else {
            *self = CharacterAnimationType::BackwardMove;
        }
    }
}

/// After starting to walk along non-zero axes, the animation faces that move.
pub proof fn lemma_set_move_faces_move(x_axis: i8, y_axis: i8)
    requires
        x_axis != 0 || y_axis != 0,
    ensures
        CharacterAnimationType::spec_moving(x_axis, y_axis).spec_is_equal(x_axis, y_axis),
{
}

/// Stopping keeps the direction the animation faces, and stopping twice is stopping once.
pub proof fn lemma_stop_keeps_direction(t: CharacterAnimationType, x_axis: i8, y_axis: i8)
    ensures
        t.spec_stopped().spec_is_equal(x_axis, y_axis) == t.spec_is_equal(x_axis, y_axis),
        t.spec_stopped().spec_stopped() == t.spec_stopped(),
        t.spec_stopped().spec_is_idle(),
{
}

/// The frames of the eight animations do not overlap: each walking animation owns a
/// row of `nb_animations` frames, and the idle frames come after the four rows.
pub proof fn lemma_animation_indices_distinct(
    a: CharacterAnimationType,
    b: CharacterAnimationType,
    nb_animations: int,
)
    requires
        nb_animations >= 4,
        a != b,
    ensures
        a.spec_get_index(nb_animations) != b.spec_get_index(nb_animations),
        a.spec_is_idle() ==> 4 * nb_animations <= a.spec_get_index(nb_animations) < 4
            * nb_animations + 4,
        !a.spec_is_idle() ==> 0 <= a.spec_get_index(nb_animations) <= 3 * nb_animations
            && a.spec_get_index(nb_animations) % nb_animations == 0,
{
    assert((nb_animations * 2) % nb_animations == 0) by (nonlinear_arith)
        requires nb_animations >= 4;
    assert((nb_animations * 3) % nb_animations == 0) by (nonlinear_arith)
        requires nb_animations >= 4;
    assert(nb_animations % nb_animations == 0) by (nonlinear_arith)
        requires nb_animations >= 4;
    assert(0int % nb_animations == 0) by (nonlinear_arith)
        requires nb_animations >= 4;
}

/// What the frame counter of a playing animation does when its timer fires: the
/// frame that shows next and whether the animation stops (a play-once animation
/// stops once its last frame is reached).
pub open spec fn spec_next_frame(
    animation_type: CharacterAnimationType,
    nb_animations: int,
    start_index: int,
    play_once: bool,
    index: int,
) -> (int, bool) {
    (
        (index + 1 - start_index) % nb_animations + animation_type.spec_get_index(nb_animations)
            + start_index,
        play_once && index + 1 - start_index >= nb_animations,
    )
}

/// Steps the animation of a character whose timer fired: returns the next frame of the
/// sprite sheet and whether the timer must pause.
pub fn next_animation_frame(
    animation_type: CharacterAnimationType,
    nb_animations: usize,
    start_index: usize,
    play_once: bool,
    index: usize,
) -> (r: (usize, bool))
    requires
        nb_animations > 0,
        index + 1 <= usize::MAX,
        start_index <= index + 1,
        nb_animations * 4 + 3 <= usize::MAX,
        (index + 1 - start_index) % (nb_animations as int) + animation_type.spec_get_index(
            nb_animations as int,
        ) + start_index <= usize::MAX,
    ensures
        r.0 == spec_next_frame(
            animation_type,
            nb_animations as int,
            start_index as int,
            play_once,
            index as int,
        ).0,
        r.1 == spec_next_frame(
            animation_type,
            nb_animations as int,
            start_index as int,
            play_once,
            index as int,
        ).1,
{
    let pause = play_once && index + 1 - start_index >= nb_animations;
    let next = (index + 1 - start_index) % nb_animations + animation_type.get_index(nb_animations)
        + start_index;
    (next, pause)
}

/// The damage an attack of strength `attack` does to a character with `defense`:
/// what the defense does not stop, and at least 1.
pub open spec fn spec_damage(attack: u32, defense: u32) -> u32 {
    if attack > defense && attack - defense >= 1 {
        (attack - defense) as u32
    } else {
        1
    }
}

/// The damage an attack does, or `None` when it hurts nobody: a character never hurts
/// itself (`same_entity`), and characters of the same kind never hurt each other.
pub fn attack_damage(
    attack: u32,
    same_entity: bool,
    attacker_kind: CharacterKind,
    receiver_kind: CharacterKind,
    receiver_defense: u32,
) -> (r: Option<u32>)
    ensures
        r == (if !same_entity && attacker_kind != receiver_kind {
            Some(spec_damage(attack, receiver_defense))
        } else {
            None
        }),
        r matches Some(d) ==> 1 <= d <= if attack > 1 { attack } else { 1 },
{
    if !same_entity && attacker_kind != receiver_kind {
        let mut damage = attack.saturating_sub(receiver_defense);
        if damage < 1 {
            damage = 1;
        }
        Some(damage)
    } else {
        None
    }
}

/// The defense takes its whole value off the attack, and every hit does at least 1:
/// above the defense, the damage and the defense add up to the attack; otherwise the
/// damage is 1. So one more point of attack above the defense is one more point of
/// damage, and more defense never lets more damage through.
pub proof fn lemma_defense_stops_its_value(attack: u32, defense: u32)
    ensures
        attack > defense ==> spec_damage(attack, defense) + defense == attack,
        attack <= defense ==> spec_damage(attack, defense) == 1,
        spec_damage(attack, defense) >= 1,
        attack >= defense && attack < u32::MAX ==> spec_damage((attack + 1) as u32, defense)
            == if attack == defense { 1 } else { spec_damage(attack, defense) + 1 },
        forall|more: u32| more >= defense ==> spec_damage(attack, more) <= spec_damage(attack, defense),
        forall|weaker: u32| weaker <= attack ==> spec_damage(weaker, defense) <= spec_damage(attack, defense),
{
}

/// An attack that hurts hurts by what the defense lets through: between two different
/// characters of different kinds, the damage is the attack minus the defense when the
/// attack is above it, and 1 otherwise; there is none otherwise.
pub proof fn lemma_attack_damage_value(
    attack: u32,
    same_entity: bool,
    attacker_kind: CharacterKind,
    receiver_kind: CharacterKind,
    defense: u32,
)
    ensures
        ({
            let r = if !same_entity && attacker_kind != receiver_kind {
                Some(spec_damage(attack, defense))
            } else {
                None
            };
            &&& (!same_entity && attacker_kind != receiver_kind && attack > defense) ==> r == Some(
                (attack - defense) as u32,
            )
            &&& (!same_entity && attacker_kind != receiver_kind && attack <= defense) ==> r == Some(1u32)
            &&& (same_entity || attacker_kind == receiver_kind) ==> r is None
        }),
{
}

/// The strength of an attack: the attacker's attack plus its weapon's.
pub fn attack_strength(character_attack: u32, weapon_attack: u32) -> (r: u32)
    requires
        character_attack + weapon_attack <= u32::MAX,
    ensures
        r == character_attack + weapon_attack,
{
    character_attack + weapon_attack
}

} // verus!
