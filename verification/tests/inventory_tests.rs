use toy_game::inventory::{DragOrigin, Inventory, InventoryItem, INVENTORY_LINE_SIZE, WEAPON_SLOT};

fn is_weapon(slot: &Option<InventoryItem<&'static str>>, name: &str) -> bool {
    matches!(slot, Some(InventoryItem::Weapon(w)) if *w == name)
}

fn is_collectible(slot: &Option<InventoryItem<&'static str>>, quantity: u16) -> bool {
    matches!(slot, Some(InventoryItem::Collectible { quantity: q }) if *q == quantity)
}

#[test]
fn new_inventory_is_empty() {
    let inv: Inventory<&'static str> = Inventory::new(10, 25, Some("sword"));
    assert_eq!(inv.items.len(), 10);
    assert!(inv.items.iter().all(|s| s.is_none()));
    assert_eq!(inv.gold, 25);
    assert_eq!(inv.equipped_weapon, Some("sword"));
    assert_eq!(INVENTORY_LINE_SIZE, 5);
}

#[test]
fn equipping_a_weapon_from_the_inventory() {
    let mut inv: Inventory<&'static str> = Inventory::new(4, 0, Some("stick"));
    inv.items[2] = Some(InventoryItem::Weapon("axe"));
    assert!(inv.drop_on_equipment_slot(WEAPON_SLOT, DragOrigin::Inventory, 2));
    assert_eq!(inv.equipped_weapon, Some("axe"));
    assert!(inv.items[2].is_none());
}

#[test]
fn only_weapons_go_to_the_weapon_slot() {
    let mut inv: Inventory<&'static str> = Inventory::new(4, 0, None);
    inv.items[0] = Some(InventoryItem::Collectible { quantity: 3 });
    assert!(!inv.drop_on_equipment_slot(WEAPON_SLOT, DragOrigin::Inventory, 0));
    assert!(is_collectible(&inv.items[0], 3));
    assert_eq!(inv.equipped_weapon, None);
}

#[test]
fn other_equipment_slots_take_nothing() {
    let mut inv: Inventory<&'static str> = Inventory::new(4, 0, None);
    inv.items[0] = Some(InventoryItem::Weapon("axe"));
    assert!(!inv.drop_on_equipment_slot(0, DragOrigin::Inventory, 0));
    assert!(!inv.drop_on_equipment_slot(WEAPON_SLOT, DragOrigin::Equipped, 0));
    assert!(!inv.drop_on_equipment_slot(WEAPON_SLOT, DragOrigin::Inventory, 9));
    assert!(is_weapon(&inv.items[0], "axe"));
}

#[test]
fn moving_an_item_to_another_slot_swaps_them() {
    let mut inv: Inventory<&'static str> = Inventory::new(6, 0, None);
    inv.items[0] = Some(InventoryItem::Weapon("axe"));
    inv.items[3] = Some(InventoryItem::Collectible { quantity: 2 });
    assert!(!inv.drop_on_inventory_slot(DragOrigin::Inventory, 0, 3));
    assert!(is_collectible(&inv.items[0], 2));
    assert!(is_weapon(&inv.items[3], "axe"));
}

#[test]
fn dragging_back_restores_the_slots() {
    let mut inv: Inventory<&'static str> = Inventory::new(6, 0, Some("stick"));
    inv.items[0] = Some(InventoryItem::Weapon("axe"));
    inv.items[4] = Some(InventoryItem::Collectible { quantity: 9 });
    inv.drop_on_inventory_slot(DragOrigin::Inventory, 0, 4);
    inv.drop_on_inventory_slot(DragOrigin::Inventory, 4, 0);
    assert!(is_weapon(&inv.items[0], "axe"));
    assert!(is_collectible(&inv.items[4], 9));
    assert_eq!(inv.equipped_weapon, Some("stick"));
}

#[test]
fn dropping_a_slot_on_itself_changes_nothing() {
    let mut inv: Inventory<&'static str> = Inventory::new(3, 0, None);
    inv.items[1] = Some(InventoryItem::Weapon("axe"));
    assert!(!inv.drop_on_inventory_slot(DragOrigin::Inventory, 1, 1));
    assert!(is_weapon(&inv.items[1], "axe"));
    assert_eq!(inv.equipped_weapon, None);
}

#[test]
fn unequipping_into_an_empty_slot() {
    let mut inv: Inventory<&'static str> = Inventory::new(6, 0, Some("sword"));
    assert!(!inv.drop_on_inventory_slot(DragOrigin::Equipped, WEAPON_SLOT, 3));
    assert!(is_weapon(&inv.items[3], "sword"));
    assert_eq!(inv.equipped_weapon, None);
}

#[test]
fn unequipping_needs_an_empty_slot() {
    let mut inv: Inventory<&'static str> = Inventory::new(6, 0, Some("sword"));
    inv.items[3] = Some(InventoryItem::Collectible { quantity: 1 });
    assert!(!inv.drop_on_inventory_slot(DragOrigin::Equipped, WEAPON_SLOT, 3));
    assert!(is_collectible(&inv.items[3], 1));
    assert_eq!(inv.equipped_weapon, Some("sword"));
}

#[test]
fn equip_then_unequip_puts_the_weapon_back() {
    let mut inv: Inventory<&'static str> = Inventory::new(6, 0, None);
    inv.items[4] = Some(InventoryItem::Weapon("axe"));
    assert!(inv.drop_on_equipment_slot(WEAPON_SLOT, DragOrigin::Inventory, 4));
    assert!(!inv.drop_on_inventory_slot(DragOrigin::Equipped, WEAPON_SLOT, 4));
    assert!(is_weapon(&inv.items[4], "axe"));
    assert_eq!(inv.equipped_weapon, None);
}

#[test]
fn unequipping_onto_the_weapon_slot_twin_equips_again() {
    // Inventory slot 1 shares its index with the weapon slot: the weapon dropped there
    // is equipped again.
    let mut inv: Inventory<&'static str> = Inventory::new(6, 0, Some("sword"));
    assert!(inv.drop_on_inventory_slot(DragOrigin::Equipped, WEAPON_SLOT, 1));
    assert!(inv.items[1].is_none());
    assert_eq!(inv.equipped_weapon, Some("sword"));
}

#[test]
fn moving_a_weapon_to_slot_1_equips_what_lands_there() {
    let mut inv: Inventory<&'static str> = Inventory::new(6, 0, Some("stick"));
    inv.items[1] = Some(InventoryItem::Weapon("axe"));
    inv.items[3] = Some(InventoryItem::Weapon("bow"));
    assert!(inv.drop_on_inventory_slot(DragOrigin::Inventory, 3, 1));
    assert_eq!(inv.equipped_weapon, Some("bow"));
    assert!(inv.items[1].is_none());
    assert!(is_weapon(&inv.items[3], "axe"));
}

#[test]
fn gold_never_changes_when_dragging() {
    let mut inv: Inventory<&'static str> = Inventory::new(6, 42, None);
    inv.items[0] = Some(InventoryItem::Weapon("axe"));
    inv.drop_on_inventory_slot(DragOrigin::Inventory, 0, 5);
    inv.drop_on_equipment_slot(WEAPON_SLOT, DragOrigin::Inventory, 5);
    assert_eq!(inv.gold, 42);
}
