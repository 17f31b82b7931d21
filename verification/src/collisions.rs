use vstd::prelude::*;

use crate::character::CharacterKind;

verus! {

/// A character as the collision handlers see it: its entity, whether it is attacking,
/// its attack, its kind and the entities attached to it (hit boxes, weapon, effects).
pub struct Fighter {
    pub id: u64,
    pub is_attacking: bool,
    pub attack: u32,
    pub kind: CharacterKind,
    pub children: Vec<u64>,
}

/// A weapon entity and its attack.
#[derive(Clone, Copy, PartialEq, Eq, Debug, Structural)]
pub struct WeaponEntity {
    pub id: u64,
    pub attack: u32,
}

/// Who attacks whom after a collision: the attack (the attacker's plus its weapon's), the
/// attacker's entity, the entity that was hit and the attacker's kind.
#[derive(Clone, Copy, PartialEq, Eq, Debug, Structural)]
pub struct Hit {
    pub attack: u32,
    pub attacker: u64,
    pub receiver: u64,
    pub attacker_kind: CharacterKind,
}

/// The position of the first of the first `n` fighters that attacks and owns `x`.
pub open spec fn attacker_index(fighters: Seq<Fighter>, x: u64, n: int) -> Option<int>
    decreases n,
{
    if n <= 0 {
        None
    } else {
        match attacker_index(fighters, x, n - 1) {
            Some(i) => Some(i),
            None => if fighters[n - 1].is_attacking && fighters[n - 1].children@.contains(x) {
                Some(n - 1)
            } else {
                None
            },
        }
    }
}

/// The position of the first of the first `n` weapons attached to `children`.
pub open spec fn weapon_index(weapons: Seq<WeaponEntity>, children: Seq<u64>, n: int) -> Option<int>
    decreases n,
{
    if n <= 0 {
        None
    } else {
        match weapon_index(weapons, children, n - 1) {
            Some(j) => Some(j),
            None => if children.contains(weapons[n - 1].id) {
                Some(n - 1)
            } else {
                None
            },
        }
    }
}

/// The attacker and weapon a collision between `x` (part of the attacker) and `y` comes
/// from: the first attacking fighter owning `x`, with the first weapon it carries.
pub open spec fn attack_source(fighters: Seq<Fighter>, weapons: Seq<WeaponEntity>, x: u64) -> Option<(int, int)> {
    match attacker_index(fighters, x, fighters.len() as int) {
        Some(i) => match weapon_index(weapons, fighters[i].children@, weapons.len() as int) {
            Some(j) => Some((i, j)),
            None => None,
        },
        None => None,
    }
}

/// The attack of a collision where `x` is part of the attacker and `y` was hit.
pub open spec fn spec_hit(fighters: Seq<Fighter>, weapons: Seq<WeaponEntity>, x: u64, y: u64) -> Option<Hit> {
    match attack_source(fighters, weapons, x) {
        Some((i, j)) => Some(
            Hit {
                attack: (fighters[i].attack + weapons[j].attack) as u32,
                attacker: fighters[i].id,
                receiver: y,
                attacker_kind: fighters[i].kind,
            },
        ),
        None => None,
    }
}

/// The attack of a collision between `x` and `y`, whichever of them belongs to the
/// attacker (`x` is tried first).
pub open spec fn spec_collision_hit(fighters: Seq<Fighter>, weapons: Seq<WeaponEntity>, x: u64, y: u64) -> Option<
    Hit,
> {
    match spec_hit(fighters, weapons, x, y) {
        Some(h) => Some(h),
        None => spec_hit(fighters, weapons, y, x),
    }
}

/// The attack and weapon found for `x` add up without overflow.
pub open spec fn attack_fits(fighters: Seq<Fighter>, weapons: Seq<WeaponEntity>, x: u64) -> bool {
    attack_source(fighters, weapons, x) matches Some((i, j)) ==> fighters[i].attack + weapons[j].attack
        <= u32::MAX
}

/// Whether `children` holds `x`.
fn holds(children: &Vec<u64>, x: u64) -> (r: bool)
    ensures
        r == children@.contains(x),
{
    let mut k: usize = 0;
    while k < children.len()
        invariant
            k <= children@.len(),
            forall|j: int| 0 <= j < k ==> children@[j] != x,
        decreases children@.len() - k,
    {
        if children[k] == x {
            return true;
        }
        k = k + 1;
    }
    false
}

proof fn lemma_attacker_index_stable(fighters: Seq<Fighter>, x: u64, m: int, n: int)
    requires
        m <= n,
        attacker_index(fighters, x, m) is Some,
    ensures
        attacker_index(fighters, x, n) == attacker_index(fighters, x, m),
    decreases n - m,
{
    if n > m {
        lemma_attacker_index_stable(fighters, x, m, n - 1);
    }
}

proof fn lemma_weapon_index_stable(weapons: Seq<WeaponEntity>, children: Seq<u64>, m: int, n: int)
    requires
        m <= n,
        weapon_index(weapons, children, m) is Some,
    ensures
        weapon_index(weapons, children, n) == weapon_index(weapons, children, m),
    decreases n - m,
{
    if n > m {
        lemma_weapon_index_stable(weapons, children, m, n - 1);
    }
}

/// The first attacking fighter owning `x`.
fn find_attacker(fighters: &Vec<Fighter>, x: u64) -> (r: Option<usize>)
    ensures
        r matches Some(i) ==> attacker_index(fighters@, x, fighters@.len() as int) == Some(i as int),
        r is None ==> attacker_index(fighters@, x, fighters@.len() as int) is None,
{
    let mut k: usize = 0;
    while k < fighters.len()
        invariant
            k <= fighters@.len(),
            attacker_index(fighters@, x, k as int) is None,
        decreases fighters@.len() - k,
    {
        if fighters[k].is_attacking && holds(&fighters[k].children, x) {
            proof {
                lemma_attacker_index_stable(fighters@, x, k + 1, fighters@.len() as int);
            }
            return Some(k);
        }
        k = k + 1;
    }
    None
}

/// The first weapon attached to `children`.
fn find_weapon(weapons: &Vec<WeaponEntity>, children: &Vec<u64>) -> (r: Option<usize>)
    ensures
        r matches Some(j) ==> weapon_index(weapons@, children@, weapons@.len() as int) == Some(j as int),
        r is None ==> weapon_index(weapons@, children@, weapons@.len() as int) is None,
{
    let mut k: usize = 0;
    while k < weapons.len()
        invariant
            k <= weapons@.len(),
            weapon_index(weapons@, children@, k as int) is None,
        decreases weapons@.len() - k,
    {
        if holds(children, weapons[k].id) {
            proof {
                lemma_weapon_index_stable(weapons@, children@, k + 1, weapons@.len() as int);
            }
            return Some(k);
        }
        k = k + 1;
    }
    None
}

proof fn lemma_attacker_index_range(fighters: Seq<Fighter>, x: u64, n: int)
    requires
        n <= fighters.len(),
    ensures
        attacker_index(fighters, x, n) matches Some(i) ==> 0 <= i < n,
    decreases n,
{
    if n > 0 {
        lemma_attacker_index_range(fighters, x, n - 1);
    }
}

proof fn lemma_weapon_index_range(weapons: Seq<WeaponEntity>, children: Seq<u64>, n: int)
    requires
        n <= weapons.len(),
    ensures
        weapon_index(weapons, children, n) matches Some(j) ==> 0 <= j < n,
    decreases n,
{
    if n > 0 {
        lemma_weapon_index_range(weapons, children, n - 1);
    }
}

/// The attack of a collision where `x` is part of the attacker and `y` was hit, if `x`
/// belongs to an attacking fighter that carries a weapon.
pub fn hit_from(fighters: &Vec<Fighter>, weapons: &Vec<WeaponEntity>, x: u64, y: u64) -> (r: Option<Hit>)
    requires
        attack_fits(fighters@, weapons@, x),
    ensures
        r == spec_hit(fighters@, weapons@, x, y),
{
    proof {
        lemma_attacker_index_range(fighters@, x, fighters@.len() as int);
    }
    match find_attacker(fighters, x) {
        Some(i) => {
            proof {
                lemma_weapon_index_range(weapons@, fighters@[i as int].children@, weapons@.len() as int);
            }
            match find_weapon(weapons, &fighters[i].children) {
                Some(j) => Some(
                    Hit {
                        attack: fighters[i].attack + weapons[j].attack,
                        attacker: fighters[i].id,
                        receiver: y,
                        attacker_kind: fighters[i].kind,
                    },
                ),
                None => None,
            }
        },
        None => None,
    }
}

/// The attack of a collision between `x` and `y`: first as if `x` belonged to the
/// attacker, then as if `y` did; `None` when neither is an attacking fighter's part.
pub fn collision_hit(fighters: &Vec<Fighter>, weapons: &Vec<WeaponEntity>, x: u64, y: u64) -> (r: Option<Hit>)
    requires
        attack_fits(fighters@, weapons@, x),
        spec_hit(fighters@, weapons@, x, y) is None ==> attack_fits(fighters@, weapons@, y),
    ensures
        r == spec_collision_hit(fighters@, weapons@, x, y),
{
    match hit_from(fighters, weapons, x, y) {
        Some(h) => Some(h),
        None => hit_from(fighters, weapons, y, x),
    }
}

/// The entity the player meets in a collision between `x` and `y`: the one that is not
/// part of the player (`player_parts`); `None` when neither is.
pub fn interaction_partner(x: u64, y: u64, player_parts: &Vec<u64>) -> (r: Option<u64>)
    ensures
        player_parts@.contains(x) ==> r == Some(y),
        !player_parts@.contains(x) && player_parts@.contains(y) ==> r == Some(x),
        !player_parts@.contains(x) && !player_parts@.contains(y) ==> r is None,
{
    if holds(player_parts, x) {
        Some(y)
    } else if holds(player_parts, y) {
        Some(x)
    } else {
        None
    }
}

/// How many grass sensors a character stands in, which decides whether its grass effect
/// shows.
#[derive(Clone, Copy, PartialEq, Eq, Debug, Structural)]
pub struct GrassEffect {
    pub count: i64,
}

impl GrassEffect {
    /// Counts one more sensor entered (`started`) or left; returns whether the effect now
    /// shows, that is whether the character stands in some grass.
    pub fn update(&mut self, started: bool) -> (visible: bool)
        requires
            i64::MIN < old(self).count < i64::MAX,
        ensures
            final(self).count == old(self).count + (if started {
                1int
            } else {
                -1int
            }),
            visible == (final(self).count > 0),
    {
        if started {
            self.count = self.count + 1;
        } else {
            self.count = self.count - 1;
        }
        self.count > 0
    }
}

} // verus!
