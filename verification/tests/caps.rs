//! Capability checking, narrowing and direct hosting.

use capactor::cap::{make_actor, Actor, CapType, Snapshot, Trans};
use capactor::item::{Item, ItemCap, ItemCapSet, ItemCmd, ItemData};
use capactor::mask::{CapMask, READ_LOCK_BIT, WRITE_LOCK_BIT};

fn fresh_item_set() -> ItemCapSet {
    make_actor(Item::make(ItemData))
}

#[test]
fn mask_contains_inserted_bits() {
    let m = CapMask::empty().insert(0).insert(5);
    assert!(m.contains(0));
    assert!(m.contains(5));
    assert!(!m.contains(1));
    assert!(!m.contains(63));
}

#[test]
fn mask_intersection_keeps_common_bits() {
    let a = CapMask::empty().insert(0).insert(3).insert(7);
    let b = CapMask::empty().insert(3).insert(7).insert(9);
    let c = a.intersect(&b);
    assert!(c.contains(3));
    assert!(c.contains(7));
    assert!(!c.contains(0));
    assert!(!c.contains(9));
}

#[test]
fn full_mask_holds_reserved_bits() {
    let m = <ItemCap as CapType>::all();
    assert!(m.contains(0));
    assert!(m.contains(READ_LOCK_BIT));
    assert!(m.contains(WRITE_LOCK_BIT));
    let r = <ItemCap as CapType>::read_lock();
    assert!(r.contains(READ_LOCK_BIT));
    assert!(!r.contains(WRITE_LOCK_BIT));
    let w = <ItemCap as CapType>::write_lock();
    assert!(w.contains(WRITE_LOCK_BIT));
    assert!(!w.contains(READ_LOCK_BIT));
}

#[test]
fn direct_offer_mutates_actor_exactly_once() {
    let mut s = fresh_item_set();
    assert!(s.send_cmd(ItemCmd::Give(vec![fresh_item_set()])).is_ok());
    assert!(s.send_cmd(ItemCmd::Give(vec![fresh_item_set()])).is_ok());
    match s.snapshot() {
        Snapshot::Rendered(text) => assert_eq!(text, "Item[2]"),
        _ => panic!("a direct handle renders synchronously"),
    }
}

#[test]
fn empty_mask_rejects_and_leaves_actor_untouched() {
    let full = fresh_item_set();
    let mut narrowed = full.narrow(&CapMask::empty());
    let r = narrowed.send_cmd(ItemCmd::Give(vec![fresh_item_set()]));
    match r {
        Err(ItemCmd::Give(given)) => assert_eq!(given.len(), 1),
        Ok(()) => panic!("an empty mask must reject every command"),
    }
    match narrowed.snapshot() {
        Snapshot::Rendered(text) => assert_eq!(text, "Item[0]"),
        _ => panic!("a direct handle renders synchronously"),
    }
}

#[test]
fn narrowing_is_monotonic() {
    let full = fresh_item_set();
    assert!(full.has_cap(0));
    assert!(full.has_cap(READ_LOCK_BIT));
    let narrowed = full.narrow(&CapMask::empty().insert(0));
    assert!(narrowed.has_cap(0));
    assert!(!narrowed.has_cap(READ_LOCK_BIT));
    assert!(!narrowed.has_cap(WRITE_LOCK_BIT));
    // narrowing can only shrink: asking for more than the handle holds
    // yields no new bits
    let again = narrowed.narrow(&<ItemCap as CapType>::all());
    assert!(again.has_cap(0));
    assert!(!again.has_cap(READ_LOCK_BIT));
}

#[test]
fn rejected_command_comes_back_intact() {
    let full = fresh_item_set();
    let mut no_transfer = full.narrow(&CapMask::empty().insert(READ_LOCK_BIT));
    let mut inner = fresh_item_set();
    assert!(inner.send_cmd(ItemCmd::Give(vec![fresh_item_set()])).is_ok());
    let r = no_transfer.send_cmd(ItemCmd::Give(vec![inner]));
    match r {
        Err(ItemCmd::Give(mut given)) => {
            // the payload still holds the untouched inner handle
            assert_eq!(given.len(), 1);
            let inner = given.pop().unwrap();
            match inner.snapshot() {
                Snapshot::Rendered(text) => assert_eq!(text, "Item[1]"),
                _ => panic!("a direct handle renders synchronously"),
            }
        },
        Ok(()) => panic!("the transfer bit was narrowed away"),
    }
}

#[test]
fn direct_read_lock_succeeds_trivially() {
    let s = fresh_item_set();
    let t = Trans::new();
    match s.read_lock(t) {
        Ok(t) => assert!(t.actor.is_none()),
        Err(_) => panic!("a direct handle with the read-lock bit succeeds"),
    }
}

#[test]
fn direct_read_lock_without_bit_returns_both() {
    let s = fresh_item_set().narrow(&CapMask::empty().insert(0).insert(WRITE_LOCK_BIT));
    let t = Trans::new();
    match s.read_lock(t) {
        Err((t, s)) => {
            assert!(t.actor.is_none());
            assert!(s.has_cap(0));
            assert!(s.has_cap(WRITE_LOCK_BIT));
            assert!(!s.has_cap(READ_LOCK_BIT));
        },
        Ok(_) => panic!("the read-lock bit was narrowed away"),
    }
}

#[test]
fn item_render_counts_contents() {
    let item = Item::make(ItemData);
    assert_eq!(item.render(), "Item[0]");
}

#[test]
fn direct_read_lock_succeeds_even_without_write_bit() {
    // The Unlocked/Locked state matters only to task handles; a direct
    // handle has no concurrency to guard against.
    let s = fresh_item_set().narrow(&CapMask::empty().insert(0).insert(READ_LOCK_BIT));
    match s.read_lock(Trans::new()) {
        Ok(t) => assert!(t.actor.is_none()),
        Err(_) => panic!("a direct handle with the read-lock bit succeeds"),
    }
}
