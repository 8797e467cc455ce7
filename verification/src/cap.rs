//! The capability-secured actor core.
//!
//! An actor is a unit of encapsulated mutable state reached only through
//! command handling. Callers hold a [`CapSet`]: a permitted-bit mask paired
//! with a backing reference that either owns the actor in place or reaches
//! it through the mailbox of a dedicated hosting context.

use vstd::prelude::*;
use vstd::rwlock::RwLock;
use vstd::rwlock::RwLockPredicate;
use std::sync::Arc;

use crate::mask::CapMask;
use crate::mask::READ_LOCK_BIT;
use crate::mask::WRITE_LOCK_BIT;

verus! {

/// The capability vocabulary of one actor kind.
///
/// For a given kind this exposes the full permission mask and the two
/// reserved singleton masks used by the transaction protocol. All three are
/// pure and identical across calls; the vocabulary is fixed once, statically.
pub trait CapType: Sized {
    /// The bit index this capability stands for.
    spec fn spec_bit(&self) -> u64;

    /// The set of bit indices every handle of this kind starts out with.
    spec fn spec_all() -> Set<u64>;

    /// The bit index this capability stands for.
    fn bit(&self) -> (b: u64)
        ensures
            b == self.spec_bit(),
            b < 64,
    ;

    /// The full mask for this actor kind, reserved bits included.
    fn all() -> (m: CapMask)
        ensures
            m@ == Self::spec_all(),
            Self::spec_all().contains(READ_LOCK_BIT),
            Self::spec_all().contains(WRITE_LOCK_BIT),
    ;

    /// The singleton mask holding only the read-lock bit.
    fn read_lock() -> (m: CapMask)
        ensures
            m@ == Set::<u64>::empty().insert(READ_LOCK_BIT),
    {
        CapMask::empty().insert(READ_LOCK_BIT)
    }

    /// The singleton mask holding only the write-lock bit.
    fn write_lock() -> (m: CapMask)
        ensures
            m@ == Set::<u64>::empty().insert(WRITE_LOCK_BIT),
    {
        CapMask::empty().insert(WRITE_LOCK_BIT)
    }
}

/// A value that can be offered to an actor through a capability set.
///
/// Every command advertises exactly one capability bit, fixed by its variant
/// at construction; the bit is checked against the holder's mask at offer
/// time, so a handler may assume every command it receives was authorized.
/// Application commands never claim the two reserved lock bits.
pub trait Command: Sized {
    /// The capability vocabulary this command belongs to.
    type Cap: CapType;

    /// The capability this command requires.
    spec fn spec_cap_type(&self) -> Self::Cap;

    /// The capability this command requires.
    fn cap_type(&self) -> (t: Self::Cap)
        ensures
            t == self.spec_cap_type(),
            t.spec_bit() < READ_LOCK_BIT,
    ;
}

/// The contract every hosted entity implements: a single command handler
/// over its own state, plus a textual rendering for diagnostics. The state
/// is specified through the actor's mathematical view.
pub trait Actor<C: Command>: View + Sized {
    /// What handling a command does to the state, on views.
    spec fn spec_handle(pre: Self::V, cmd: C) -> Self::V;

    /// The diagnostic rendering of a state, on views.
    spec fn spec_render(v: Self::V) -> Seq<char>;

    /// Handle one command, mutating the state accordingly.
    fn handle(&mut self, cmd: C)
        ensures
            final(self)@ == Self::spec_handle(old(self)@, cmd),
    ;

    /// Render the state for diagnostics.
    fn render(&self) -> (s: String)
        ensures
            s@ == Self::spec_render(self@),
    ;
}

/// One entry in a hosted actor's mailbox: an application command, or one of
/// the control frames that only this module can produce.
pub(crate) enum Frame<C> {
    /// An application command, to be handed to the actor's handler.
    Cmd(C),
    /// One holder's goodbye; the hosting context exits when the last
    /// outstanding one arrives.
    Terminate,
    /// A request to render the actor's state into the reply cell.
    Snapshot(SnapCell),
}

/// The mailbox feeding one hosted actor, processed in FIFO order, together
/// with the count of outstanding lock grants that gate shutdown.
pub(crate) struct Mailbox<C> {
    /// Pending frames, oldest first.
    pub queue: Vec<Frame<C>>,
    /// How many lock-capable references are outstanding beyond the original
    /// handle; each must say goodbye before the hosting context may exit.
    pub grants: u64,
    /// Set by the hosting context when it exits; no frame is accepted after.
    pub done: bool,
}

/// The (trivial) lock predicate for a mailbox.
pub(crate) struct MailPred {}

impl<C> RwLockPredicate<Mailbox<C>> for MailPred {
    open spec fn inv(self, v: Mailbox<C>) -> bool {
        true
    }
}

/// The (trivial) lock predicate for a snapshot reply cell.
pub(crate) struct SnapPred {}

impl RwLockPredicate<Option<String>> for SnapPred {
    open spec fn inv(self, v: Option<String>) -> bool {
        true
    }
}

/// A reply cell a snapshot is rendered into.
pub(crate) type SnapCell = Arc<RwLock<Option<String>, SnapPred>>;

/// A pending snapshot of a task-hosted actor. The rendering appears once
/// the hosting context has processed the snapshot frame.
pub struct SnapTicket {
    cell: SnapCell,
}

impl SnapTicket {
    /// The rendering, if the hosting context has produced it yet.
    pub fn try_read(&self) -> Option<String> {
        let read_handle = self.cell.acquire_read();
        let r = match read_handle.borrow() {
            Some(s) => Some(s.clone()),
            None => None,
        };
        read_handle.release_read();
        r
    }
}

/// A shared reference to one hosted actor's mailbox.
pub struct ChanRef<C> {
    shared: Arc<RwLock<Mailbox<C>, MailPred>>,
}

impl<C> ChanRef<C> {
    /// Another reference to the same mailbox.
    pub(crate) fn dup(&self) -> (r: ChanRef<C>) {
        ChanRef { shared: Arc::clone(&self.shared) }
    }

    /// Place a command in the mailbox. Fails only if the hosting context has
    /// already exited; the command is then handed back unconsumed.
    pub(crate) fn send_cmd(&self, cmd: C) -> (r: Result<(), C>)
        ensures
            r is Err ==> r->Err_0 == cmd,
    {
        let (mut mb, wh) = self.shared.acquire_write();
        if mb.done {
            wh.release_write(mb);
            Err(cmd)
        } else {
            mb.queue.push(Frame::Cmd(cmd));
            wh.release_write(mb);
            Ok(())
        }
    }

    /// Place one holder's terminate frame in the mailbox. After the hosting
    /// context has exited there is nothing left to notify.
    pub(crate) fn send_terminate(&self) {
        let (mut mb, wh) = self.shared.acquire_write();
        if !mb.done {
            mb.queue.push(Frame::Terminate);
        }
        wh.release_write(mb);
    }

    /// Account for one new lock-capable reference. Fails if the hosting
    /// context has exited, or if the grant counter cannot track another
    /// grant (a machine limit).
    pub(crate) fn grant_lock(&self) -> (r: Result<(), ()>) {
        let (mut mb, wh) = self.shared.acquire_write();
        if mb.done || mb.grants == u64::MAX {
            wh.release_write(mb);
            Err(())
        } else {
            mb.grants = mb.grants + 1;
            wh.release_write(mb);
            Ok(())
        }
    }

    /// Place a snapshot frame in the mailbox and hand back the ticket its
    /// reply will appear on. Fails if the hosting context has exited.
    pub(crate) fn request_snapshot(&self) -> Option<SnapTicket> {
        let (mut mb, wh) = self.shared.acquire_write();
        if mb.done {
            wh.release_write(mb);
            None
        } else {
            let cell: SnapCell = Arc::new(RwLock::new(None, Ghost(SnapPred {})));
            mb.queue.push(Frame::Snapshot(Arc::clone(&cell)));
            wh.release_write(mb);
            Some(SnapTicket { cell })
        }
    }

    /// Whether the hosting context has exited.
    pub(crate) fn is_done(&self) -> bool {
        let read_handle = self.shared.acquire_read();
        let r = read_handle.borrow().done;
        read_handle.release_read();
        r
    }
}


/// The strategy by which a capability set reaches its actor: direct
/// synchronous invocation on the caller's own execution context, or a
/// mailbox shared with a dedicated hosting context.
pub enum CapRef<C, A> {
    /// The actor state itself, owned by this handle and invoked in place.
    Mem(A),
    /// A reference to the mailbox of a hosting context that owns the actor.
    Task(ChanRef<C>),
}

/// The handle callers hold on an actor: a permitted-bit mask paired with a
/// backing reference. Deliberately not `Clone`: a capability set is a
/// distinct, non-replicated grant, and sharing one takes an explicit
/// shared-ownership wrapper outside this core.
pub struct CapSet<C, A> {
    permitted: CapMask,
    // The single backing sits in an `Option` so that command types may carry
    // capability sets of their own kind without forming an unbounded type.
    backing: Option<CapRef<C, A>>,
}

/// A transaction handle: a private view onto a locked actor for a sequence
/// of copy-on-write edits. Produced empty by the caller and populated by a
/// successful read-lock with a lock-capable reference onto the actor's
/// mailbox. Releasing it without a commit discards any pending edits.
pub struct Trans<C> {
    /// The lock-capable reference, present once a read-lock succeeded.
    pub actor: Option<ChanRef<C>>,
}

impl<C> Trans<C> {
    /// An empty transaction handle, ready to be populated by a read-lock.
    pub fn new() -> (t: Trans<C>)
        ensures
            t.actor is None,
    {
        Trans { actor: None }
    }

    /// Release the transaction, discarding any pending edits. The
    /// lock-capable reference, if one was granted, says goodbye so the
    /// hosting context can account for it.
    pub fn release(self) {
        match self.actor {
            Some(chan) => chan.send_terminate(),
            None => (),
        }
    }
}

impl<C, A> CapSet<C, A> {
    /// The set of capability bits this handle holds.
    pub closed spec fn permits(self) -> Set<u64> {
        self.permitted@
    }

    /// Whether this handle reaches its actor by direct invocation.
    pub closed spec fn is_direct(self) -> bool {
        self.backing matches Some(CapRef::Mem(_))
    }

    /// Whether this handle reaches its actor through a hosting context's
    /// mailbox.
    pub closed spec fn is_task(self) -> bool {
        self.backing matches Some(CapRef::Task(_))
    }

    /// The actor state owned by a direct handle.
    pub closed spec fn direct_actor(self) -> A {
        self.backing->Some_0->Mem_0
    }

    /// Whether this handle holds the given capability bit.
    pub fn has_cap(&self, bit: u64) -> (r: bool)
        requires
            bit < 64,
        ensures
            r == self.permits().contains(bit),
    {
        self.permitted.contains(bit)
    }

    /// Release this handle. A task-backed handle says goodbye to its hosting
    /// context, which exits once every outstanding handle has done so; a
    /// direct handle simply gives up the actor state it owns.
    pub fn release(self) {
        match self.backing {
            Some(CapRef::Task(chan)) => chan.send_terminate(),
            _ => (),
        }
    }
}

impl<C: Command, A: Actor<C>> CapSet<C, A> {
    /// Offer a command through this handle.
    ///
    /// If the command's required bit is missing from the permitted mask, the
    /// command is handed back unconsumed and the backing reference is never
    /// touched. Otherwise a direct handle invokes the handler exactly once
    /// and succeeds; a task handle enqueues the command, failing (command
    /// handed back unchanged) only if the hosting context has exited.
    pub fn send_cmd(&mut self, cmd: C) -> (r: Result<(), C>)
        ensures
            final(self).permits() == old(self).permits(),
            final(self).is_direct() == old(self).is_direct(),
            final(self).is_task() == old(self).is_task(),
            !old(self).permits().contains(cmd.spec_cap_type().spec_bit()) ==> {
                &&& r == Err::<(), C>(cmd)
                &&& *final(self) == *old(self)
            },
            old(self).permits().contains(cmd.spec_cap_type().spec_bit()) && old(
                self,
            ).is_direct() ==> {
                &&& r is Ok
                &&& final(self).direct_actor()@ == A::spec_handle(old(self).direct_actor()@, cmd)
            },
            old(self).permits().contains(cmd.spec_cap_type().spec_bit()) && old(
                self,
            ).is_task() ==> {
                &&& *final(self) == *old(self)
                &&& (r is Ok || r == Err::<(), C>(cmd))
            },
            !old(self).is_direct() && !old(self).is_task() ==> {
                &&& r == Err::<(), C>(cmd)
                &&& *final(self) == *old(self)
            },
    {
        let required = cmd.cap_type().bit();
        if !self.permitted.contains(required) {
            return Err(cmd);
        }
        match &mut self.backing {
            Some(CapRef::Mem(actor)) => {
                actor.handle(cmd);
                Ok(())
            },
            Some(CapRef::Task(chan)) => chan.send_cmd(cmd),
            None => Err(cmd),
        }
    }

    /// Derive a handle with a strictly smaller permitted mask, for delegation
    /// to a less-trusted holder. Narrowing is monotonic: the derived mask is
    /// the intersection of the old mask with `allowed`, never wider.
    pub fn narrow(self, allowed: &CapMask) -> (s: Self)
        ensures
            s.permits() == self.permits().intersect(allowed@),
            s.permits().subset_of(self.permits()),
            s.is_direct() == self.is_direct(),
            s.is_task() == self.is_task(),
            s.is_direct() ==> s.direct_actor() == self.direct_actor(),
    {
        let CapSet { permitted, backing } = self;
        CapSet { permitted: permitted.intersect(allowed), backing }
    }

    /// Begin a transaction by requesting a read-lock.
    ///
    /// Requesting is authorized by the read-lock bit, checked before the
    /// backing reference is involved at all; an unauthorized request hands
    /// both the transaction and the untouched handle back. A direct handle
    /// has no concurrency to guard against and succeeds trivially. A task
    /// handle must also still be unlocked, shown by the write-lock bit: a
    /// handle without it presents as already locked and is refused, and
    /// since a successful read-lock consumes the handle and no operation
    /// ever widens a mask, each handle read-locks at most once. On success
    /// the transaction is populated with a fresh lock-capable reference, the
    /// reference it may have held before is released, and the consumed
    /// handle says goodbye. On failure (unauthorized, locked, hosting
    /// context exited, or its grant counter exhausted) transaction and
    /// handle come back unchanged.
    pub fn read_lock(self, trans: Trans<C>) -> (r: Result<Trans<C>, (Trans<C>, CapSet<C, A>)>)
        ensures
            !self.permits().contains(READ_LOCK_BIT) ==> r == Err::<Trans<C>, (Trans<C>, CapSet<
                C,
                A,
            >)>((trans, self)),
            self.permits().contains(READ_LOCK_BIT) && self.is_direct() ==> r == Ok::<Trans<C>, (
                Trans<C>,
                CapSet<C, A>,
            )>(trans),
            self.permits().contains(READ_LOCK_BIT) && self.is_task() && !self.permits().contains(
                WRITE_LOCK_BIT,
            ) ==> r == Err::<Trans<C>, (Trans<C>, CapSet<C, A>)>((trans, self)),
            self.permits().contains(READ_LOCK_BIT) && self.is_task() && self.permits().contains(
                WRITE_LOCK_BIT,
            ) ==> match r {
                Ok(t) => t.actor is Some,
                Err(back) => back == (trans, self),
            },
            !self.is_direct() && !self.is_task() ==> r == Err::<Trans<C>, (Trans<C>, CapSet<
                C,
                A,
            >)>((trans, self)),
    {
        if !self.permitted.contains(READ_LOCK_BIT) {
            return Err((trans, self));
        }
        match &self.backing {
            Some(CapRef::Mem(_)) => Ok(trans),
            Some(CapRef::Task(chan)) => {
                if !self.permitted.contains(WRITE_LOCK_BIT) {
                    return Err((trans, self));
                }
                match chan.grant_lock() {
                    Ok(()) => {
                        let fresh = chan.dup();
                        // The transaction handle is populated before the
                        // consumed handle says its goodbye, so no window
                        // exists in which the grant is accounted for but
                        // unreachable.
                        let populated = Trans { actor: Some(fresh) };
                        trans.release();
                        chan.send_terminate();
                        Ok(populated)
                    },
                    Err(()) => Err((trans, self)),
                }
            },
            None => Err((trans, self)),
        }
    }

    /// A textual snapshot of the actor's state.
    ///
    /// A direct handle renders the state it owns, synchronously. A task
    /// handle places a snapshot frame in the mailbox and hands back the
    /// ticket the hosting context will render into once the frames ahead of
    /// it are processed; a caller that waits on the ticket from the hosting
    /// context itself deadlocks, a documented caller hazard. [`Snapshot::Closed`]
    /// when the hosting context has already exited.
    pub fn snapshot(&self) -> (r: Snapshot)
        ensures
            self.is_direct() ==> (r matches Snapshot::Rendered(s) && s@
                == A::spec_render(self.direct_actor()@)),
            self.is_task() ==> (r is Pending || r is Closed),
            !self.is_direct() && !self.is_task() ==> r is Closed,
    {
        match &self.backing {
            Some(CapRef::Mem(actor)) => Snapshot::Rendered(actor.render()),
            Some(CapRef::Task(chan)) => {
                match chan.request_snapshot() {
                    None => Snapshot::Closed,
                    Some(ticket) => Snapshot::Pending(ticket),
                }
            },
            None => Snapshot::Closed,
        }
    }
}

/// What asking a capability set for a textual snapshot produces.
pub enum Snapshot {
    /// The rendering, produced synchronously by a direct handle.
    Rendered(String),
    /// A ticket the hosting context of a task handle will render into.
    Pending(SnapTicket),
    /// Nothing: the hosting context has already exited.
    Closed,
}

/// Host an actor in place: the returned handle owns the actor state and
/// carries the full permission mask of its kind.
pub fn make_actor<C: Command, A: Actor<C>>(actor: A) -> (s: CapSet<C, A>)
    ensures
        s.permits() == <C::Cap as CapType>::spec_all(),
        s.is_direct(),
        s.direct_actor() == actor,
{
    CapSet { permitted: <C::Cap as CapType>::all(), backing: Some(CapRef::Mem(actor)) }
}


/// Write a snapshot reply into its cell.
fn reply_snapshot(cell: &SnapCell, s: String) {
    let (_, wh) = cell.acquire_write();
    wh.release_write(Some(s));
}

/// Apply one mailbox frame to a hosted actor's state.
///
/// This is the hosting context's whole decision procedure. An application
/// command is handed to the handler exactly once. A terminate frame ends
/// the loop only when no lock grants are outstanding, and otherwise pays
/// one grant back. A snapshot renders the state into its reply cell without
/// touching it.
fn apply_frame<C: Command, A: Actor<C>>(actor: &mut A, grants: &mut u64, frame: Frame<C>) -> (quit:
    bool)
    ensures
        frame matches Frame::Cmd(c) ==> {
            &&& (*final(actor))@ == A::spec_handle((*old(actor))@, c)
            &&& *final(grants) == *old(grants)
            &&& !quit
        },
        frame is Terminate ==> {
            &&& *final(actor) == *old(actor)
            &&& (if *old(grants) == 0 {
                quit && *final(grants) == 0
            } else {
                !quit && *final(grants) == *old(grants) - 1
            })
        },
        frame is Snapshot ==> {
            &&& *final(actor) == *old(actor)
            &&& *final(grants) == *old(grants)
            &&& !quit
        },
{
    match frame {
        Frame::Cmd(cmd) => {
            actor.handle(cmd);
            false
        },
        Frame::Terminate => {
            if *grants == 0 {
                true
            } else {
                *grants = *grants - 1;
                false
            }
        },
        Frame::Snapshot(cell) => {
            let rendered = actor.render();
            reply_snapshot(&cell, rendered);
            false
        },
    }
}

/// The state an actor view reaches after handling each of a sequence of
/// commands in turn, oldest first.
pub open spec fn fold_handles<C: Command, A: Actor<C>>(pre: A::V, cmds: Seq<C>) -> A::V
    decreases cmds.len(),
{
    if cmds.len() == 0 {
        pre
    } else {
        A::spec_handle(fold_handles::<C, A>(pre, cmds.drop_last()), cmds.last())
    }
}

/// The hosting context's half of a task-hosted actor: exclusive ownership
/// of the actor state, plus the shared mailbox that feeds it. A dedicated
/// execution context drives it by calling [`TaskHost::pump`] until it
/// reports shutdown.
pub struct TaskHost<C, A> {
    shared: Arc<RwLock<Mailbox<C>, MailPred>>,
    actor: A,
}

impl<C: Command, A: Actor<C>> TaskHost<C, A> {
    /// The actor state as the hosting context last left it.
    pub closed spec fn actor_state(self) -> A {
        self.actor
    }

    /// Process every frame currently in the mailbox, in FIFO order.
    ///
    /// The mailbox stays locked for the whole batch, so offers made
    /// meanwhile wait rather than being abandoned. Reports `true` once a
    /// terminate frame arrives with no lock grants outstanding: the mailbox
    /// is then marked done, later offers fail, and the hosting context may
    /// stop pumping. Frames queued behind that final terminate are
    /// discarded unprocessed.
    ///
    /// Whatever the mailbox held, the actor ends up in the state reached by
    /// handling some sequence of commands in order, each exactly once: no
    /// command is applied twice, and no other operation touches the state.
    pub fn pump(&mut self) -> (quit: bool)
        ensures
            exists|cmds: Seq<C>|
                final(self).actor_state()@ == fold_handles::<C, A>(
                    old(self).actor_state()@,
                    cmds,
                ),
    {
        let ghost pre = self.actor@;
        let ghost mut handled: Seq<C> = Seq::empty();
        let (mut mb, wh) = self.shared.acquire_write();
        if mb.done {
            wh.release_write(mb);
            proof {
                assert(self.actor@ == fold_handles::<C, A>(old(self).actor_state()@, handled));
            }
            return true;
        }
        let mut quit = false;
        while !quit && mb.queue.len() > 0
            invariant
                self.actor@ == fold_handles::<C, A>(pre, handled),
            decreases mb.queue.len(),
        {
            let frame = mb.queue.remove(0);
            let ghost entry = frame;
            quit = apply_frame(&mut self.actor, &mut mb.grants, frame);
            proof {
                match entry {
                    Frame::Cmd(c) => {
                        let prior = handled;
                        handled = handled.push(c);
                        assert(handled.drop_last() =~= prior);
                    },
                    _ => {},
                }
            }
        }
        if quit {
            // Frames behind the final terminate are discarded unprocessed.
            mb.queue.clear();
            mb.done = true;
        }
        wh.release_write(mb);
        proof {
            assert(self.actor@ == fold_handles::<C, A>(old(self).actor_state()@, handled));
        }
        quit
    }

    /// Give up hosting and hand the actor state back. The mailbox is marked
    /// done first, so handles still outstanding see their offers fail
    /// rather than disappear.
    pub fn into_actor(self) -> (a: A)
        ensures
            a == self.actor_state(),
    {
        let TaskHost { shared, actor } = self;
        let (mut mb, wh) = shared.acquire_write();
        mb.done = true;
        wh.release_write(mb);
        actor
    }
}

/// Host an actor behind a mailbox: the returned handle carries the full
/// permission mask of its kind and reaches the actor only through frames;
/// the returned [`TaskHost`] owns the actor state exclusively and is to be
/// driven by a dedicated execution context.
pub fn host_as_task<C: Command, A: Actor<C>>(actor: A) -> (r: (CapSet<C, A>, TaskHost<C, A>))
    ensures
        r.0.permits() == <C::Cap as CapType>::spec_all(),
        r.0.is_task(),
        r.1.actor_state() == actor,
{
    let mb = Mailbox { queue: Vec::new(), grants: 0, done: false };
    let shared = Arc::new(RwLock::new(mb, Ghost(MailPred {})));
    let chan = ChanRef { shared: Arc::clone(&shared) };
    (
        CapSet { permitted: <C::Cap as CapType>::all(), backing: Some(CapRef::Task(chan)) },
        TaskHost { shared, actor },
    )
}

/// Narrowing is monotonic: a derived capability set can only reject
/// commands; whatever command a derived set accepts, the set it was derived
/// from would have accepted too.
pub proof fn lemma_narrow_monotonic<C: Command, A: Actor<C>>(
    original: CapSet<C, A>,
    derived: CapSet<C, A>,
    cmd: C,
)
    requires
        derived.permits().subset_of(original.permits()),
        derived.permits().contains(cmd.spec_cap_type().spec_bit()),
    ensures
        original.permits().contains(cmd.spec_cap_type().spec_bit()),
{
}

/// A handle narrowed away from a command's required bit is left without
/// it, whatever the handle held before: offering that command through the
/// narrowed handle hands it back unconsumed.
pub proof fn lemma_narrow_excludes<C: Command, A: Actor<C>>(
    s: CapSet<C, A>,
    allowed: Set<u64>,
    cmd: C,
)
    requires
        !allowed.contains(cmd.spec_cap_type().spec_bit()),
    ensures
        !s.permits().intersect(allowed).contains(cmd.spec_cap_type().spec_bit()),
{
}

} // verus!
