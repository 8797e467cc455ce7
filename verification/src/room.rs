//! A location: an actor with a title and a description that hosts mobile
//! characters and items.

use vstd::prelude::*;

use crate::cap::Actor;
use crate::cap::CapSet;
use crate::cap::CapType;
use crate::cap::Command;
use crate::item::ItemCapSet;
use crate::mask::CapMask;
use crate::mask::READ_LOCK_BIT;
use crate::mask::WRITE_LOCK_BIT;
use crate::mob::MobCapSet;
use crate::text::decimal;
use crate::text::spec_decimal;

verus! {

/// The capability vocabulary of locations.
pub enum RoomCap {
    /// Authorizes transferring a character or an item into the location.
    CapTransfer,
    /// Reserved: authorizes beginning a transaction.
    CapReadLock,
    /// Reserved: records that a transaction may still begin.
    CapWriteLock,
}

impl CapType for RoomCap {
    open spec fn spec_bit(&self) -> u64 {
        match self {
            RoomCap::CapTransfer => 0,
            RoomCap::CapReadLock => READ_LOCK_BIT,
            RoomCap::CapWriteLock => WRITE_LOCK_BIT,
        }
    }

    open spec fn spec_all() -> Set<u64> {
        Set::<u64>::empty().insert(0).insert(READ_LOCK_BIT).insert(WRITE_LOCK_BIT)
    }

    fn bit(&self) -> (b: u64) {
        match self {
            RoomCap::CapTransfer => 0,
            RoomCap::CapReadLock => READ_LOCK_BIT,
            RoomCap::CapWriteLock => WRITE_LOCK_BIT,
        }
    }

    fn all() -> (m: CapMask) {
        CapMask::empty().insert(0).insert(READ_LOCK_BIT).insert(WRITE_LOCK_BIT)
    }
}

/// The commands a location accepts.
pub enum RoomCmd {
    /// Transfer the character behind the given capability set into the
    /// location.
    GiveMob(MobCapSet),
    /// Transfer the item behind the given capability set into the location.
    GiveItem(ItemCapSet),
}

impl Command for RoomCmd {
    type Cap = RoomCap;

    open spec fn spec_cap_type(&self) -> RoomCap {
        match self {
            RoomCmd::GiveMob(_) => RoomCap::CapTransfer,
            RoomCmd::GiveItem(_) => RoomCap::CapTransfer,
        }
    }

    fn cap_type(&self) -> (t: RoomCap) {
        match self {
            RoomCmd::GiveMob(_) => RoomCap::CapTransfer,
            RoomCmd::GiveItem(_) => RoomCap::CapTransfer,
        }
    }
}

/// The intrinsic data of a location.
pub struct RoomData {
    /// The location's title.
    pub title: String,
    /// The location's description.
    pub desc: String,
}

/// A location: intrinsic data plus the characters and items present.
///
/// Viewed as the quadruple of title, description, characters and items,
/// each roster oldest first.
pub struct Room {
    data: RoomData,
    mobs: Vec<MobCapSet>,
    items: Vec<ItemCapSet>,
}

/// A capability set reaching a location.
pub type RoomCapSet = CapSet<RoomCmd, Room>;

impl View for Room {
    type V = (Seq<char>, Seq<char>, Seq<MobCapSet>, Seq<ItemCapSet>);

    closed spec fn view(&self) -> (Seq<char>, Seq<char>, Seq<MobCapSet>, Seq<ItemCapSet>) {
        (self.data.title@, self.data.desc@, self.mobs@, self.items@)
    }
}

impl Room {
    /// A fresh location with nobody and nothing in it.
    pub fn make(data: RoomData) -> (r: Room)
        ensures
            r@ == (data.title@, data.desc@, Seq::<MobCapSet>::empty(), Seq::<
                ItemCapSet,
            >::empty()),
    {
        let r = Room { data, mobs: Vec::new(), items: Vec::new() };
        proof {
            assert(r@.2 =~= Seq::<MobCapSet>::empty());
            assert(r@.3 =~= Seq::<ItemCapSet>::empty());
        }
        r
    }
}

impl Actor<RoomCmd> for Room {
    open spec fn spec_handle(
        pre: (Seq<char>, Seq<char>, Seq<MobCapSet>, Seq<ItemCapSet>),
        cmd: RoomCmd,
    ) -> (Seq<char>, Seq<char>, Seq<MobCapSet>, Seq<ItemCapSet>) {
        match cmd {
            RoomCmd::GiveMob(given) => (pre.0, pre.1, pre.2.push(given), pre.3),
            RoomCmd::GiveItem(given) => (pre.0, pre.1, pre.2, pre.3.push(given)),
        }
    }

    open spec fn spec_render(v: (Seq<char>, Seq<char>, Seq<MobCapSet>, Seq<ItemCapSet>)) -> Seq<
        char,
    > {
        "Room "@ + v.0 + "["@ + spec_decimal(v.2.len()) + ","@ + spec_decimal(v.3.len()) + "]"@
    }

    fn handle(&mut self, cmd: RoomCmd) {
        match cmd {
            RoomCmd::GiveMob(given) => {
                self.mobs.push(given);
            },
            RoomCmd::GiveItem(given) => {
                self.items.push(given);
            },
        }
    }

    fn render(&self) -> (s: String) {
        let mut s = "Room ".to_owned();
        s.append(self.data.title.as_str());
        s.append("[");
        s.append(decimal(self.mobs.len() as u64).as_str());
        s.append(",");
        s.append(decimal(self.items.len() as u64).as_str());
        s.append("]");
        proof {
            assert(s@ =~= Self::spec_render(self@));
        }
        s
    }
}

} // verus!
