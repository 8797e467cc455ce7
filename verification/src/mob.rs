//! A mobile character: an actor with a title and a description that carries
//! an inventory of items.

use vstd::prelude::*;

use crate::cap::Actor;
use crate::cap::CapSet;
use crate::cap::CapType;
use crate::cap::Command;
use crate::item::ItemCapSet;
use crate::mask::CapMask;
use crate::mask::READ_LOCK_BIT;
use crate::mask::WRITE_LOCK_BIT;
use crate::text::decimal;
use crate::text::spec_decimal;

verus! {

/// The capability vocabulary of mobile characters.
pub enum MobCap {
    /// Authorizes transferring something into the character's inventory.
    CapTransfer,
    /// Reserved: authorizes beginning a transaction.
    CapReadLock,
    /// Reserved: records that a transaction may still begin.
    CapWriteLock,
}

impl CapType for MobCap {
    open spec fn spec_bit(&self) -> u64 {
        match self {
            MobCap::CapTransfer => 0,
            MobCap::CapReadLock => READ_LOCK_BIT,
            MobCap::CapWriteLock => WRITE_LOCK_BIT,
        }
    }

    open spec fn spec_all() -> Set<u64> {
        Set::<u64>::empty().insert(0).insert(READ_LOCK_BIT).insert(WRITE_LOCK_BIT)
    }

    fn bit(&self) -> (b: u64) {
        match self {
            MobCap::CapTransfer => 0,
            MobCap::CapReadLock => READ_LOCK_BIT,
            MobCap::CapWriteLock => WRITE_LOCK_BIT,
        }
    }

    fn all() -> (m: CapMask) {
        CapMask::empty().insert(0).insert(READ_LOCK_BIT).insert(WRITE_LOCK_BIT)
    }
}

/// The commands a mobile character accepts.
pub enum MobCmd {
    /// Transfer the item behind the given capability set into the
    /// character's inventory.
    Give(ItemCapSet),
}

impl Command for MobCmd {
    type Cap = MobCap;

    open spec fn spec_cap_type(&self) -> MobCap {
        match self {
            MobCmd::Give(_) => MobCap::CapTransfer,
        }
    }

    fn cap_type(&self) -> (t: MobCap) {
        match self {
            MobCmd::Give(_) => MobCap::CapTransfer,
        }
    }
}

/// The intrinsic data of a mobile character.
pub struct MobData {
    /// The character's title.
    pub title: String,
    /// The character's description.
    pub desc: String,
}

/// A mobile character: intrinsic data plus an inventory of item capability
/// sets.
///
/// Viewed as the triple of title, description and inventory, the inventory
/// oldest first.
pub struct Mob {
    data: MobData,
    inv: Vec<ItemCapSet>,
}

/// A capability set reaching a mobile character.
pub type MobCapSet = CapSet<MobCmd, Mob>;

impl View for Mob {
    type V = (Seq<char>, Seq<char>, Seq<ItemCapSet>);

    closed spec fn view(&self) -> (Seq<char>, Seq<char>, Seq<ItemCapSet>) {
        (self.data.title@, self.data.desc@, self.inv@)
    }
}

impl Mob {
    /// A fresh character with an empty inventory.
    pub fn make(data: MobData) -> (m: Mob)
        ensures
            m@ == (data.title@, data.desc@, Seq::<ItemCapSet>::empty()),
    {
        let m = Mob { data, inv: Vec::new() };
        proof {
            assert(m@.2 =~= Seq::<ItemCapSet>::empty());
        }
        m
    }
}

impl Actor<MobCmd> for Mob {
    open spec fn spec_handle(
        pre: (Seq<char>, Seq<char>, Seq<ItemCapSet>),
        cmd: MobCmd,
    ) -> (Seq<char>, Seq<char>, Seq<ItemCapSet>) {
        match cmd {
            MobCmd::Give(given) => (pre.0, pre.1, pre.2.push(given)),
        }
    }

    open spec fn spec_render(v: (Seq<char>, Seq<char>, Seq<ItemCapSet>)) -> Seq<char> {
        "Mob "@ + v.0 + "["@ + spec_decimal(v.2.len()) + "]"@
    }

    fn handle(&mut self, cmd: MobCmd) {
        match cmd {
            MobCmd::Give(given) => {
                self.inv.push(given);
            },
        }
    }

    fn render(&self) -> (s: String) {
        let mut s = "Mob ".to_owned();
        s.append(self.data.title.as_str());
        s.append("[");
        s.append(decimal(self.inv.len() as u64).as_str());
        s.append("]");
        proof {
            assert(s@ =~= Self::spec_render(self@));
        }
        s
    }
}

} // verus!
