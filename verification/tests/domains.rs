//! The three example actor kinds working together.

use capactor::cap::{make_actor, Actor, Snapshot};
use capactor::item::{Item, ItemCmd, ItemData};
use capactor::mob::{Mob, MobCmd, MobData};
use capactor::room::{Room, RoomCmd, RoomData};
use capactor::text::decimal;

#[test]
fn decimal_renders_exact_digits() {
    assert_eq!(decimal(0), "0");
    assert_eq!(decimal(7), "7");
    assert_eq!(decimal(10), "10");
    assert_eq!(decimal(105), "105");
    assert_eq!(decimal(1234567890), "1234567890");
    assert_eq!(decimal(u64::MAX), "18446744073709551615");
}

#[test]
fn mob_takes_items_into_inventory() {
    let zombie = Mob::make(MobData {
        title: "Zombie".to_string(),
        desc: "Shuffling aimlessly.".to_string(),
    });
    assert_eq!(zombie.render(), "Mob Zombie[0]");
    let mut zombie_set = make_actor(zombie);
    let sword = make_actor(Item::make(ItemData));
    assert!(zombie_set.send_cmd(MobCmd::Give(sword)).is_ok());
    match zombie_set.snapshot() {
        Snapshot::Rendered(text) => assert_eq!(text, "Mob Zombie[1]"),
        _ => panic!("a direct handle renders synchronously"),
    }
}

#[test]
fn room_hosts_mobs_and_items() {
    let hall = Room::make(RoomData {
        title: "Hall".to_string(),
        desc: "A draughty hall.".to_string(),
    });
    assert_eq!(hall.render(), "Room Hall[0,0]");
    let mut hall_set = make_actor(hall);
    let zombie = make_actor(Mob::make(MobData {
        title: "Zombie".to_string(),
        desc: "Shuffling aimlessly.".to_string(),
    }));
    assert!(hall_set.send_cmd(RoomCmd::GiveMob(zombie)).is_ok());
    let torch = make_actor(Item::make(ItemData));
    assert!(hall_set.send_cmd(RoomCmd::GiveItem(torch)).is_ok());
    let crate_set = make_actor(Item::make(ItemData));
    assert!(hall_set.send_cmd(RoomCmd::GiveItem(crate_set)).is_ok());
    match hall_set.snapshot() {
        Snapshot::Rendered(text) => assert_eq!(text, "Room Hall[1,2]"),
        _ => panic!("a direct handle renders synchronously"),
    }
}

#[test]
fn nested_items_render_their_own_counts() {
    let mut outer = make_actor(Item::make(ItemData));
    let mut inner = make_actor(Item::make(ItemData));
    assert!(inner.send_cmd(ItemCmd::Give(vec![make_actor(Item::make(ItemData))])).is_ok());
    assert!(outer.send_cmd(ItemCmd::Give(vec![inner])).is_ok());
    match outer.snapshot() {
        Snapshot::Rendered(text) => assert_eq!(text, "Item[1]"),
        _ => panic!("a direct handle renders synchronously"),
    }
}
