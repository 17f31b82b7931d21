use vstd::prelude::*;

verus! {

/// How many inventory slots stand on one row of the inventory window.
pub const INVENTORY_LINE_SIZE: usize = 5;

/// The equipment slot that holds the weapon.
pub const WEAPON_SLOT: usize = 1;

/// What an inventory slot can hold.
pub enum InventoryItem<W> {
    Weapon(W),
    Collectible { quantity: u16 },
}

/// Where a dragged item was picked up.
#[derive(Clone, Copy, PartialEq, Eq, Debug, Structural)]
pub enum DragOrigin {
    /// An equipment slot (its index travels with the drag).
    Equipped,
    /// An inventory slot (its index travels with the drag).
    Inventory,
}

/// The items a character carries, its gold and its equipped weapon.
pub struct Inventory<W> {
    pub items: Vec<Option<InventoryItem<W>>>,
    pub gold: u32,
    pub equipped_weapon: Option<W>,
}

/// Whether an inventory slot holds a weapon.
pub open spec fn holds_weapon<W>(slot: Option<InventoryItem<W>>) -> bool {
    slot matches Some(InventoryItem::Weapon(_))
}

/// The weapon an inventory slot holds (meaningful when `holds_weapon(slot)`).
pub open spec fn weapon_of<W>(slot: Option<InventoryItem<W>>) -> W
    recommends
        holds_weapon(slot),
{
    slot->Some_0->Weapon_0
}

/// The slots after an item picked up at `origin`/`dragged_pos` is dropped on inventory
/// slot `index`, before a weapon is equipped: the equipped weapon moves to an empty slot;
/// two inventory slots trade their contents.
pub open spec fn moved_slots<W>(
    items: Seq<Option<InventoryItem<W>>>,
    equipped: Option<W>,
    origin: DragOrigin,
    dragged_pos: int,
    index: int,
) -> (Seq<Option<InventoryItem<W>>>, Option<W>) {
    match origin {
        DragOrigin::Equipped => {
            if items[index] is None && dragged_pos == WEAPON_SLOT {
                (
                    items.update(
                        index,
                        match equipped {
                            Some(w) => Some(InventoryItem::Weapon(w)),
                            None => None,
                        },
                    ),
                    None,
                )
            } else {
                (items, equipped)
            }
        },
        DragOrigin::Inventory => {
            (items.update(dragged_pos, items[index]).update(index, items[dragged_pos]), equipped)
        },
    }
}

/// Whether the drop ends by equipping the weapon now lying in the weapon slot's twin,
/// inventory slot `WEAPON_SLOT`: that happens when the drop target is that slot and the
/// slot the drag came from now holds a weapon.
pub open spec fn drop_equips<W>(
    moved: Seq<Option<InventoryItem<W>>>,
    dragged_pos: int,
    index: int,
) -> bool {
    index == WEAPON_SLOT && 0 <= dragged_pos < moved.len() && holds_weapon(moved[dragged_pos])
}

/// Whether a drop is a drop of a slot on itself, which changes nothing.
pub open spec fn drop_on_itself(origin: DragOrigin, dragged_pos: int, index: int) -> bool {
    origin == DragOrigin::Inventory && dragged_pos == index
}

/// Whether a drop on inventory slot `index` can be made: the slots are there, and when
/// the drop ends by equipping, what lies in slot `index` is a weapon.
pub open spec fn drop_allowed<W>(
    items: Seq<Option<InventoryItem<W>>>,
    equipped: Option<W>,
    origin: DragOrigin,
    dragged_pos: int,
    index: int,
) -> bool {
    let moved = moved_slots(items, equipped, origin, dragged_pos, index);
    &&& 0 <= index < items.len()
    &&& 0 <= dragged_pos
    &&& origin == DragOrigin::Inventory ==> dragged_pos < items.len()
    &&& !drop_on_itself(origin, dragged_pos, index) && drop_equips(moved.0, dragged_pos, index)
        ==> holds_weapon(moved.0[index])
}

/// The slots and the equipped weapon after a drop on inventory slot `index`, and whether
/// a weapon got equipped.
pub open spec fn drop_result<W>(
    items: Seq<Option<InventoryItem<W>>>,
    equipped: Option<W>,
    origin: DragOrigin,
    dragged_pos: int,
    index: int,
) -> (Seq<Option<InventoryItem<W>>>, Option<W>, bool) {
    let moved = moved_slots(items, equipped, origin, dragged_pos, index);
    if drop_on_itself(origin, dragged_pos, index) {
        (items, equipped, false)
    } else if drop_equips(moved.0, dragged_pos, index) {
        (moved.0.update(index, None), Some(weapon_of(moved.0[index])), true)
    } else {
        (moved.0, moved.1, false)
    }
}

impl<W> Inventory<W> {
    /// An inventory of `nb_slots` empty slots.
    pub fn new(nb_slots: usize, gold: u32, equipped_weapon: Option<W>) -> (inv: Self)
        ensures
            inv.items@.len() == nb_slots,
            forall|i: int| 0 <= i < nb_slots ==> #[trigger] inv.items@[i] is None,
            inv.gold == gold,
            inv.equipped_weapon == equipped_weapon,
    {
        let mut items: Vec<Option<InventoryItem<W>>> = Vec::with_capacity(nb_slots);
        let mut k: usize = 0;
        while k < nb_slots
            invariant
                k <= nb_slots,
                items@.len() == k,
                forall|i: int| 0 <= i < k ==> #[trigger] items@[i] is None,
            decreases nb_slots - k,
        {
            items.push(None);
            k = k + 1;
        }
        Inventory { items, gold, equipped_weapon }
    }

    /// Drops the item picked up at `origin`/`pos` on equipment slot `slot`.
    ///
    /// Only the weapon slot takes anything, and only a weapon from the inventory: it
    /// leaves its inventory slot and becomes the equipped weapon, replacing the one that
    /// was equipped. Returns whether a weapon was equipped.
    pub fn drop_on_equipment_slot(&mut self, slot: usize, origin: DragOrigin, pos: usize) -> (equipped: bool)
        ensures
            equipped == (slot == WEAPON_SLOT && origin == DragOrigin::Inventory && pos
                < old(self).items@.len() && holds_weapon(old(self).items@[pos as int])),
            equipped ==> final(self).items@ == old(self).items@.update(pos as int, None),
            equipped ==> final(self).equipped_weapon == Some(
                weapon_of(old(self).items@[pos as int]),
            ),
            !equipped ==> final(self).items@ == old(self).items@,
            !equipped ==> final(self).equipped_weapon == old(self).equipped_weapon,
            final(self).gold == old(self).gold,
    {
        if slot != WEAPON_SLOT || origin != DragOrigin::Inventory || pos >= self.items.len() {
            return false;
        }
        let is_weapon = match &self.items[pos] {
            Some(InventoryItem::Weapon(_)) => true,
            _ => false,
        };
        if !is_weapon {
            return false;
        }
        let taken = self.items[pos].take();
        match taken {
            Some(InventoryItem::Weapon(w)) => {
                self.equipped_weapon = Some(w);
                true
            },
            _ => {
                proof {
                    assert(false);
                }
                false
            },
        }
    }

    /// Drops the item picked up at `origin`/`dragged_pos` on inventory slot `index`.
    ///
    /// The equipped weapon (dragged from the weapon slot) only goes to an empty slot; an
    /// inventory item trades places with what the target slot holds. Then, when the
    /// target is inventory slot `WEAPON_SLOT` and the slot the drag came from holds a
    /// weapon, the weapon in slot `WEAPON_SLOT` is equipped. Dropping a slot on itself
    /// changes nothing. Returns whether a weapon was equipped.
    pub fn drop_on_inventory_slot(
        &mut self,
        origin: DragOrigin,
        dragged_pos: usize,
        index: usize,
    ) -> (equipped: bool)
        requires
            drop_allowed(old(self).items@, old(self).equipped_weapon, origin, dragged_pos as int, index as int),
        ensures
            (final(self).items@, final(self).equipped_weapon, equipped) == drop_result(
                old(self).items@,
                old(self).equipped_weapon,
                origin,
                dragged_pos as int,
                index as int,
            ),
            final(self).gold == old(self).gold,
    {
        if origin == DragOrigin::Inventory && dragged_pos == index {
            return false;
        }
        match origin {
            DragOrigin::Equipped => {
                if self.items[index].is_none() && dragged_pos == WEAPON_SLOT {
                    let weapon = self.equipped_weapon.take();
                    self.items[index] = match weapon {
                        Some(w) => Some(InventoryItem::Weapon(w)),
                        None => None,
                    };
                }
            },
            DragOrigin::Inventory => {
                let a = self.items[dragged_pos].take();
                let b = self.items[index].take();
                self.items[dragged_pos] = b;
                self.items[index] = a;
            },
        }
        if index == WEAPON_SLOT && dragged_pos < self.items.len() {
            let dragged_is_weapon = match &self.items[dragged_pos] {
                Some(InventoryItem::Weapon(_)) => true,
                _ => false,
            };
            if dragged_is_weapon {
                let taken = self.items[index].take();
                match taken {
                    Some(InventoryItem::Weapon(w)) => {
                        self.equipped_weapon = Some(w);
                        return true;
                    },
                    _ => {
                        proof {
                            assert(false);
                        }
                        return false;
                    },
                }
            }
        }
        false
    }
}

/// Dragging an inventory item onto another inventory slot and then dragging it back
/// restores every slot and the equipped weapon.
pub proof fn lemma_drag_back_restores<W>(
    items: Seq<Option<InventoryItem<W>>>,
    equipped: Option<W>,
    a: int,
    b: int,
)
    requires
        0 <= a < items.len(),
        0 <= b < items.len(),
    ensures
        ({
            let first = moved_slots(items, equipped, DragOrigin::Inventory, a, b);
            moved_slots(first.0, first.1, DragOrigin::Inventory, b, a) == (items, equipped)
        }),
{
    let first = moved_slots(items, equipped, DragOrigin::Inventory, a, b);
    let second = moved_slots(first.0, first.1, DragOrigin::Inventory, b, a);
    assert(second.0 =~= items);
}

/// Equipping the weapon of inventory slot `p` and dragging it from the weapon slot back
/// onto slot `p` puts it back where it was and leaves the weapon slot empty: no weapon
/// is lost or duplicated on the way.
pub proof fn lemma_equip_then_unequip<W>(items: Seq<Option<InventoryItem<W>>>, p: int)
    requires
        0 <= p < items.len(),
        p != WEAPON_SLOT,
        holds_weapon(items[p]),
    ensures
        ({
            let equipped_items = items.update(p, None);
            let moved = moved_slots(
                equipped_items,
                Some(weapon_of(items[p])),
                DragOrigin::Equipped,
                WEAPON_SLOT as int,
                p,
            );
            &&& !drop_on_itself(DragOrigin::Equipped, WEAPON_SLOT as int, p)
            &&& !drop_equips(moved.0, WEAPON_SLOT as int, p)
            &&& moved == (items, None::<W>)
        }),
{
    let equipped_items = items.update(p, None);
    let moved = moved_slots(
        equipped_items,
        Some(weapon_of(items[p])),
        DragOrigin::Equipped,
        WEAPON_SLOT as int,
        p,
    );
    assert(moved.0 =~= items);
}

/// How many slots of `items` hold `x`.
pub open spec fn count_in<W>(items: Seq<Option<InventoryItem<W>>>, x: InventoryItem<W>) -> nat
    decreases items.len(),
{
    if items.len() == 0 {
        0
    } else {
        count_in(items.drop_last(), x) + if items.last() == Some(x) {
            1nat
        } else {
            0nat
        }
    }
}

/// How many times `x` is carried: in the slots, or as the equipped weapon.
pub open spec fn carried<W>(items: Seq<Option<InventoryItem<W>>>, equipped: Option<W>, x: InventoryItem<W>) -> nat {
    count_in(items, x) + match equipped {
        Some(w) => if x == InventoryItem::Weapon(w) {
            1nat
        } else {
            0nat
        },
        None => 0nat,
    }
}

proof fn lemma_count_update<W>(
    s: Seq<Option<InventoryItem<W>>>,
    i: int,
    v: Option<InventoryItem<W>>,
    x: InventoryItem<W>,
)
    requires
        0 <= i < s.len(),
    ensures
        count_in(s.update(i, v), x) + (if s[i] == Some(x) {
            1int
        } else {
            0int
        }) == count_in(s, x) + (if v == Some(x) {
            1int
        } else {
            0int
        }),
    decreases s.len(),
{
    if i == s.len() - 1 {
        assert(s.update(i, v).drop_last() =~= s.drop_last());
    } else {
        lemma_count_update(s.drop_last(), i, v, x);
        assert(s.update(i, v).drop_last() =~= s.drop_last().update(i, v));
    }
}

/// Dragging never duplicates anything, and loses nothing but a replaced weapon: after a
/// drop on an inventory slot every item is carried as many times as before, except the
/// weapon that was equipped when a weapon landing in slot `WEAPON_SLOT` gets equipped in
/// its place.
pub proof fn lemma_drop_never_duplicates<W>(
    items: Seq<Option<InventoryItem<W>>>,
    equipped: Option<W>,
    origin: DragOrigin,
    dragged_pos: int,
    index: int,
    x: InventoryItem<W>,
)
    requires
        drop_allowed(items, equipped, origin, dragged_pos, index),
    ensures
        ({
            let (after, now_equipped, equips) = drop_result(items, equipped, origin, dragged_pos, index);
            let replaced = moved_slots(items, equipped, origin, dragged_pos, index).1;
            &&& carried(after, now_equipped, x) <= carried(items, equipped, x)
            &&& carried(after, now_equipped, x) + (if equips && (x matches InventoryItem::Weapon(w)
                && replaced == Some(w)) {
                1int
            } else {
                0int
            }) == carried(items, equipped, x)
        }),
{
    let moved = moved_slots(items, equipped, origin, dragged_pos, index);
    if !drop_on_itself(origin, dragged_pos, index) {
        match origin {
            DragOrigin::Equipped => {
                if items[index] is None && dragged_pos == WEAPON_SLOT {
                    let v = match equipped {
                        Some(w) => Some(InventoryItem::Weapon(w)),
                        None => None,
                    };
                    lemma_count_update(items, index, v, x);
                }
            },
            DragOrigin::Inventory => {
                let first = items.update(dragged_pos, items[index]);
                lemma_count_update(items, dragged_pos, items[index], x);
                lemma_count_update(first, index, items[dragged_pos], x);
                if dragged_pos != index {
                    assert(first[index] == items[index]);
                }
            },
        }
        assert(carried(moved.0, moved.1, x) == carried(items, equipped, x));
        if drop_equips(moved.0, dragged_pos, index) {
            lemma_count_update(moved.0, index, None, x);
        }
    }
}

/// Equipping from the inventory never duplicates anything either, and loses only the
/// weapon equipped before.
pub proof fn lemma_equip_never_duplicates<W>(
    items: Seq<Option<InventoryItem<W>>>,
    equipped: Option<W>,
    pos: int,
    x: InventoryItem<W>,
)
    requires
        0 <= pos < items.len(),
        holds_weapon(items[pos]),
    ensures
        carried(items.update(pos, None), Some(weapon_of(items[pos])), x) + (if equipped matches Some(e)
            && x == InventoryItem::Weapon(e) {
            1int
        } else {
            0int
        }) == carried(items, equipped, x),
{
    lemma_count_update(items, pos, None, x);
}

} // verus!
