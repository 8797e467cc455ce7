//! A capability-secured actor runtime.
//!
//! A stateful entity (an actor) is exposed to callers only through
//! capability sets: handles pairing a permitted-bit mask with a backing
//! reference. The backing either owns the actor in place, invoking its
//! handler synchronously, or reaches it through the mailbox of a dedicated
//! hosting context that processes frames in FIFO order and shuts down
//! gracefully once every outstanding handle has been released.
//!
//! - [`cap`] holds the core: the capability, command and actor contracts,
//!   the capability-set handle, the mailbox protocol and the transaction
//!   lock protocol.
//! - [`mask`] holds the capability bit masks.
//! - [`item`], [`mob`] and [`room`] are three example actor kinds.
//! - [`text`] renders counters for diagnostic snapshots.

pub mod cap;
pub mod item;
pub mod mask;
pub mod mob;
pub mod room;
pub mod text;
