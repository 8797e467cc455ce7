//! An inventory-holding item: the simplest actor kind. Items may contain
//! other items, transferred by handing over the capability set that reaches
//! them.

use vstd::prelude::*;

use crate::cap::Actor;
use crate::cap::CapSet;
use crate::cap::CapType;
use crate::cap::Command;
use crate::mask::CapMask;
use crate::mask::READ_LOCK_BIT;
use crate::mask::WRITE_LOCK_BIT;
use crate::text::decimal;
use crate::text::spec_decimal;

verus! {

/// The capability vocabulary of items.
pub enum ItemCap {
    /// Authorizes transferring something into the item.
    CapTransfer,
    /// Reserved: authorizes beginning a transaction.
    CapReadLock,
    /// Reserved: records that a transaction may still begin.
    CapWriteLock,
}

impl CapType for ItemCap {
    open spec fn spec_bit(&self) -> u64 {
        match self {
            ItemCap::CapTransfer => 0,
            ItemCap::CapReadLock => READ_LOCK_BIT,
            ItemCap::CapWriteLock => WRITE_LOCK_BIT,
        }
    }

    open spec fn spec_all() -> Set<u64> {
        Set::<u64>::empty().insert(0).insert(READ_LOCK_BIT).insert(WRITE_LOCK_BIT)
    }

    fn bit(&self) -> (b: u64) {
        match self {
            ItemCap::CapTransfer => 0,
            ItemCap::CapReadLock => READ_LOCK_BIT,
            ItemCap::CapWriteLock => WRITE_LOCK_BIT,
        }
    }

    fn all() -> (m: CapMask) {
        CapMask::empty().insert(0).insert(READ_LOCK_BIT).insert(WRITE_LOCK_BIT)
    }
}

/// A capability set reaching an item.
pub type ItemCapSet = CapSet<ItemCmd, Item>;

/// The commands an item accepts.
// The payload is a batch: with a single `ItemCapSet` the command type would
// mention itself with no ground variant (an item command carries handles to
// items, whose mailboxes carry item commands), which the verifier rejects as
// not well-founded; under `Vec` the type is well-founded, and one handle is
// the batch of one.
pub enum ItemCmd {
    /// Transfer the items behind the given capability sets into this one.
    Give(Vec<ItemCapSet>),
}

impl Command for ItemCmd {
    type Cap = ItemCap;

    open spec fn spec_cap_type(&self) -> ItemCap {
        match self {
            ItemCmd::Give(_) => ItemCap::CapTransfer,
        }
    }

    fn cap_type(&self) -> (t: ItemCap) {
        match self {
            ItemCmd::Give(_) => ItemCap::CapTransfer,
        }
    }
}

/// The intrinsic data of an item.
pub struct ItemData;

/// An item: intrinsic data plus the capability sets of its contents.
///
/// Viewed as the sequence of contained capability sets, oldest first.
pub struct Item {
    data: ItemData,
    contents: Vec<ItemCapSet>,
}

impl View for Item {
    type V = Seq<ItemCapSet>;

    closed spec fn view(&self) -> Seq<ItemCapSet> {
        self.contents@
    }
}

impl Item {
    /// A fresh item with empty contents.
    pub fn make(data: ItemData) -> (it: Item)
        ensures
            it@ == Seq::<ItemCapSet>::empty(),
    {
        let contents = Vec::new();
        let it = Item { data, contents };
        proof {
            assert(it@ =~= Seq::<ItemCapSet>::empty());
        }
        it
    }
}

impl Actor<ItemCmd> for Item {
    open spec fn spec_handle(pre: Seq<ItemCapSet>, cmd: ItemCmd) -> Seq<ItemCapSet> {
        match cmd {
            ItemCmd::Give(given) => pre + given@,
        }
    }

    open spec fn spec_render(v: Seq<ItemCapSet>) -> Seq<char> {
        "Item["@ + spec_decimal(v.len()) + "]"@
    }

    fn handle(&mut self, cmd: ItemCmd) {
        match cmd {
            ItemCmd::Give(given) => {
                let mut given = given;
                self.contents.append(&mut given);
            },
        }
    }

    fn render(&self) -> (s: String) {
        let mut s = "Item[".to_owned();
        s.append(decimal(self.contents.len() as u64).as_str());
        s.append("]");
        proof {
            assert(s@ =~= Self::spec_render(self@));
        }
        s
    }
}

} // verus!
