//! Locks, their guards, and the wait operations that consume a guard.
//!
//! A wait names the lock to release while blocked and to take back when
//! woken, so it is a method of the guard. The guard is consumed when the wait
//! begins; a new one comes back only when the thread was woken and holds the
//! lock again. On every error the lock stays released.
//!
//! Blocking is split in two steps: [`Guard::wait`] (or `wait_to`,
//! `wait_unintr`) puts the thread in the wait queue and hands back a
//! [`Waiting`]; [`Waiting::resume`] then reports whether the thread is still
//! blocked, woken with the lock, or failed.

use vstd::prelude::*;

use crate::cond::{Cond, CondError, CondView, index_of, lemma_index_absent, lemma_index_found};
use crate::thd::{Kernel, KernelView, ThdD};

verus! {

/// The flavours of lock that a condition variable can wait with.
#[derive(Clone, Copy, Debug, PartialEq, Eq, Structural)]
pub enum LockKind {
    /// A mutex: taking it back after a wake may block.
    Mutex,
    /// A spinlock.
    Spinlock,
    /// The write side of a sequence lock.
    SeqlockWrite,
    /// The exclusive read side of a sequence lock.
    SeqlockReadEx,
}

/// The abstract state of a lock: its identity, its flavour, and the thread
/// holding it, if any.
pub struct LockView {
    pub id: u64,
    pub kind: LockKind,
    pub holder: Option<ThdD>,
}

/// A lock.
pub struct Lock {
    id: u64,
    kind: LockKind,
    holder: Option<ThdD>,
}

/// Proof that a thread holds a lock. Only [`Lock::lock`] and a successful
/// wait make one.
pub struct Guard {
    lock_id: u64,
    kind: LockKind,
    holder: ThdD,
}

impl View for Lock {
    type V = LockView;

    closed spec fn view(&self) -> LockView {
        LockView { id: self.id, kind: self.kind, holder: self.holder }
    }
}

impl Guard {
    pub closed spec fn lock_id_spec(&self) -> u64 {
        self.lock_id
    }

    pub closed spec fn kind_spec(&self) -> LockKind {
        self.kind
    }

    pub closed spec fn holder_spec(&self) -> ThdD {
        self.holder
    }

    /// The guard belongs to lock `l`, which its thread holds.
    pub open spec fn guards(&self, l: LockView) -> bool {
        &&& self.lock_id_spec() == l.id
        &&& self.kind_spec() == l.kind
        &&& l.holder == Some(self.holder_spec())
    }

    /// The thread holding the lock.
    pub fn holder(&self) -> (r: ThdD)
        ensures
            r == self.holder_spec(),
    {
        self.holder
    }

    /// The flavour of the lock held.
    pub fn kind(&self) -> (r: LockKind)
        ensures
            r == self.kind_spec(),
    {
        self.kind
    }
}

impl Lock {
    /// A free lock of flavour `kind`, told apart from other locks by `id`.
    pub fn new(id: u64, kind: LockKind) -> (l: Lock)
        ensures
            l@ == (LockView { id, kind, holder: None }),
    {
        Lock { id, kind, holder: None }
    }

    /// Takes the lock for thread `by`. When another holds it the call would
    /// block: nothing changes and no guard comes back.
    pub fn lock(&mut self, by: ThdD) -> (r: Option<Guard>)
        ensures
            r is Some <==> old(self)@.holder is None,
            r is Some ==> r->0.guards(final(self)@) && r->0.holder_spec() == by,
            final(self)@ == (if old(self)@.holder is None {
                LockView { holder: Some(by), ..old(self)@ }
            } else {
                old(self)@
            }),
    {
        if self.holder.is_some() {
            return None;
        }
        self.holder = Some(by);
        Some(Guard { lock_id: self.id, kind: self.kind, holder: by })
    }

    /// Releases the lock held through `g`.
    pub fn unlock(&mut self, g: Guard)
        requires
            g.guards(old(self)@),
        ensures
            final(self)@ == (LockView { holder: None, ..old(self)@ }),
    {
        self.holder = None;
    }

    /// The thread holding the lock, if any.
    pub fn holder(&self) -> (r: Option<ThdD>)
        ensures
            r == self@.holder,
    {
        self.holder
    }
}

/// How a wait may end besides a wake.
#[derive(Clone, Copy, Debug, PartialEq, Eq, Structural)]
pub enum WaitMode {
    /// An interrupt ends the wait.
    Interruptible,
    /// An interrupt ends the wait, and so does reaching the deadline.
    Timed(u64),
    /// Only a wake ends the wait, and taking the lock back cannot be
    /// interrupted either.
    Uninterruptible,
}

/// A thread blocked on a condition variable, with the lock that it released.
pub struct Waiting {
    thd: ThdD,
    lock_id: u64,
    kind: LockKind,
    mode: WaitMode,
}

/// What a blocked thread finds when it resumes.
pub enum WaitPoll {
    /// Still blocked: on the condition, or on taking the lock back.
    Blocked(Waiting),
    /// Woken, and the lock is held again.
    Woken(Guard),
    /// The wait failed; the lock stays released.
    Failed(CondError),
}

/// How a resumed wait ends.
#[derive(PartialEq, Eq, Structural)]
pub enum Resumed {
    Blocked,
    Woken,
    Interrupted,
    TimedOut,
    /// The condition variable was torn down under the waiter.
    Gone,
}

/// How a wait of thread `t` in mode `mode` ends when it resumes on condition
/// state `c` at time `now`, where `free` says that its lock is free and
/// `intr` that an interrupt is pending for it.
pub open spec fn resume_result(
    c: CondView,
    t: ThdD,
    mode: WaitMode,
    free: bool,
    intr: bool,
    now: u64,
) -> Resumed {
    let interrupted = mode != WaitMode::Uninterruptible && intr;
    let expired = match mode {
        WaitMode::Timed(d) => d <= now,
        _ => false,
    };
    if index_of(c.woken, t) >= 0 {
        if free {
            Resumed::Woken
        } else if interrupted {
            Resumed::Interrupted
        } else if expired {
            Resumed::TimedOut
        } else {
            Resumed::Blocked
        }
    } else if index_of(c.queue, t) >= 0 {
        if interrupted {
            Resumed::Interrupted
        } else if expired {
            Resumed::TimedOut
        } else {
            Resumed::Blocked
        }
    } else {
        Resumed::Gone
    }
}

/// The condition state once thread `t` has left it: out of the woken threads
/// if it was there, else out of the wait queue.
pub open spec fn cond_left(c: CondView, t: ThdD) -> CondView {
    if index_of(c.woken, t) >= 0 {
        CondView { woken: c.woken.remove(index_of(c.woken, t)), ..c }
    } else if index_of(c.queue, t) >= 0 {
        CondView { queue: c.queue.remove(index_of(c.queue, t)), ..c }
    } else {
        c
    }
}

impl Waiting {
    pub closed spec fn thd_spec(&self) -> ThdD {
        self.thd
    }

    pub closed spec fn lock_id_spec(&self) -> u64 {
        self.lock_id
    }

    pub closed spec fn kind_spec(&self) -> LockKind {
        self.kind
    }

    pub closed spec fn mode_spec(&self) -> WaitMode {
        self.mode
    }

    /// The waiting thread.
    pub fn thd(&self) -> (r: ThdD)
        ensures
            r == self.thd_spec(),
    {
        self.thd
    }

    /// Resumes the blocked thread at time `now`. It is woken with the lock
    /// once it was signalled and the lock is free. An interrupt pending for
    /// the thread ends an interruptible or timed wait, and is then delivered;
    /// a timed wait also ends at its deadline. An uninterruptible wait ends
    /// only with the lock held, or when the condition variable is gone.
    pub fn resume<R>(self, cond: &mut Cond, lock: &mut Lock, k: &mut Kernel<R>, now: u64) -> (r:
        WaitPoll)
        requires
            old(k)@.wf(),
            old(lock)@.id == self.lock_id_spec(),
            old(lock)@.kind == self.kind_spec(),
        ensures
            final(k)@.wf(),
            resumed(
                self,
                resume_result(
                    old(cond)@,
                    self.thd_spec(),
                    self.mode_spec(),
                    old(lock)@.holder is None,
                    old(k)@.intr_pending(self.thd_spec()),
                    now,
                ),
                r,
                old(cond)@,
                final(cond)@,
                old(lock)@,
                final(lock)@,
                old(k)@,
                final(k)@,
            ),
    {
        let t = self.thd;
        let intr = match self.mode {
            WaitMode::Uninterruptible => false,
            _ => k.is_intr_pending(t),
        };
        let expired = match self.mode {
            WaitMode::Timed(d) => d <= now,
            _ => false,
        };
        match cond.woken_index(t) {
            Some(i) => {
                if lock.holder.is_none() {
                    cond.remove_woken(i);
                    lock.holder = Some(t);
                    WaitPoll::Woken(Guard { lock_id: self.lock_id, kind: self.kind, holder: t })
                } else if intr {
                    cond.remove_woken(i);
                    k.take_intr(t);
                    WaitPoll::Failed(CondError::Interrupt)
                } else if expired {
                    cond.remove_woken(i);
                    WaitPoll::Failed(CondError::Timedout)
                } else {
                    WaitPoll::Blocked(self)
                }
            },
            None => match cond.queue_index(t) {
                Some(i) => {
                    if intr {
                        cond.remove_queued(i);
                        k.take_intr(t);
                        WaitPoll::Failed(CondError::Interrupt)
                    } else if expired {
                        cond.remove_queued(i);
                        WaitPoll::Failed(CondError::Timedout)
                    } else {
                        WaitPoll::Blocked(self)
                    }
                },
                None => WaitPoll::Failed(CondError::NotInit),
            },
        }
    }
}

/// What resuming wait `w` did, given that it ends as `e`: the poll result
/// `r`, and the condition variable, lock and kernel before and after.
pub open spec fn resumed<R>(
    w: Waiting,
    e: Resumed,
    r: WaitPoll,
    c0: CondView,
    c1: CondView,
    l0: LockView,
    l1: LockView,
    k0: KernelView<R>,
    k1: KernelView<R>,
) -> bool {
    let t = w.thd_spec();
    &&& e == Resumed::Blocked ==> (r matches WaitPoll::Blocked(b) && b == w)
    &&& e == Resumed::Woken ==> (r matches WaitPoll::Woken(g) && g.guards(l1) && g.holder_spec() == t)
    &&& e == Resumed::Interrupted ==> r == WaitPoll::Failed(CondError::Interrupt)
    &&& e == Resumed::TimedOut ==> r == WaitPoll::Failed(CondError::Timedout)
    &&& e == Resumed::Gone ==> r == WaitPoll::Failed(CondError::NotInit)
    &&& c1 == (if e == Resumed::Blocked || e == Resumed::Gone { c0 } else { cond_left(c0, t) })
    &&& l1 == (if e == Resumed::Woken { LockView { holder: Some(t), ..l0 } } else { l0 })
    &&& k1 == (if e == Resumed::Interrupted { k0.intr_taken(t) } else { k0 })
}

impl Guard {
    /// Releases the lock and puts the holder at the end of the wait queue.
    /// Fails with `NotInit` when the condition variable is not initialised;
    /// the lock is released either way.
    fn enter(self, cond: &mut Cond, lock: &mut Lock, mode: WaitMode) -> (r: Result<
        Waiting,
        CondError,
    >)
        requires
            self.guards(old(lock)@),
        ensures
            final(lock)@ == (LockView { holder: None, ..old(lock)@ }),
            waited(self, mode, r, old(cond)@, final(cond)@),
    {
        let t = self.holder;
        lock.holder = None;
        if !cond.is_init() {
            return Err(CondError::NotInit);
        }
        cond.enqueue(t);
        Ok(Waiting { thd: t, lock_id: self.lock_id, kind: self.kind, mode })
    }

    /// Waits on `cond`, releasing the lock; an interrupt ends the wait.
    pub fn wait(self, cond: &mut Cond, lock: &mut Lock) -> (r: Result<Waiting, CondError>)
        requires
            self.guards(old(lock)@),
        ensures
            final(lock)@ == (LockView { holder: None, ..old(lock)@ }),
            waited(self, WaitMode::Interruptible, r, old(cond)@, final(cond)@),
    {
        self.enter(cond, lock, WaitMode::Interruptible)
    }

    /// Waits on `cond` until `deadline`, releasing the lock. A deadline that
    /// is not after `now` fails with `Timedout` at once, and the thread never
    /// enters the queue.
    pub fn wait_to(self, cond: &mut Cond, lock: &mut Lock, deadline: u64, now: u64) -> (r:
        Result<Waiting, CondError>)
        requires
            self.guards(old(lock)@),
        ensures
            final(lock)@ == (LockView { holder: None, ..old(lock)@ }),
            old(cond)@.is_init() && deadline <= now ==> r == Err::<Waiting, CondError>(
                CondError::Timedout,
            ) && final(cond)@ == old(cond)@,
            !(old(cond)@.is_init() && deadline <= now) ==> waited(
                self,
                WaitMode::Timed(deadline),
                r,
                old(cond)@,
                final(cond)@,
            ),
    {
        if cond.is_init() && deadline <= now {
            lock.holder = None;
            return Err(CondError::Timedout);
        }
        self.enter(cond, lock, WaitMode::Timed(deadline))
    }

    /// Waits on `cond`, releasing the lock; neither the wait nor taking the
    /// lock back can be interrupted.
    pub fn wait_unintr(self, cond: &mut Cond, lock: &mut Lock) -> (r: Result<Waiting, CondError>)
        requires
            self.guards(old(lock)@),
        ensures
            final(lock)@ == (LockView { holder: None, ..old(lock)@ }),
            waited(self, WaitMode::Uninterruptible, r, old(cond)@, final(cond)@),
    {
        self.enter(cond, lock, WaitMode::Uninterruptible)
    }
}

/// What beginning a wait in mode `mode` with guard `g` did: `NotInit` when
/// the condition variable is not initialised, else the holder joins the end
/// of the wait queue.
pub open spec fn waited(g: Guard, mode: WaitMode, r: Result<Waiting, CondError>, c0: CondView, c1: CondView) -> bool {
    &&& r is Err <==> !c0.is_init()
    &&& r is Err ==> r->Err_0 == CondError::NotInit && c1 == c0
    &&& r is Ok ==> {
        let w = r->Ok_0;
        &&& w.thd_spec() == g.holder_spec()
        &&& w.lock_id_spec() == g.lock_id_spec()
        &&& w.kind_spec() == g.kind_spec()
        &&& w.mode_spec() == mode
        &&& c1 == (CondView { queue: c0.queue.push(g.holder_spec()), ..c0 })
    }
}

/// A thread may wait on a frozen condition variable, and freezing never
/// strands it: once the condition variable is thawed and broadcast, the thread
/// resumes with its lock whenever the lock is free. A unicast does the same
/// for a thread that waits alone.
pub proof fn lemma_frozen_wait_not_stranded(
    g: Guard,
    mode: WaitMode,
    r: Result<Waiting, CondError>,
    c0: CondView,
    c1: CondView,
    intr: bool,
    now: u64,
)
    requires
        c0.is_init(),
        c0.frozen,
        waited(g, mode, r, c0, c1),
    ensures
        r is Ok,
        resume_result(c1.thawed_state().broadcast_state(), g.holder_spec(), mode, true, intr, now)
            == Resumed::Woken,
        c0.queue.len() == 0 ==> resume_result(
            c1.thawed_state().unicast_state(),
            g.holder_spec(),
            mode,
            true,
            intr,
            now,
        ) == Resumed::Woken,
{
    let t = g.holder_spec();
    let c2 = c1.thawed_state();
    assert(c2.is_init() && !c2.frozen);
    assert(c2.queue == c0.queue.push(t));
    let b = c2.broadcast_state();
    let j = (c2.woken.len() + c0.queue.len()) as int;
    assert(b.woken[j] == t);
    lemma_index_found(b.woken, t, 0, j);
    if c0.queue.len() == 0 {
        let u = c2.unicast_state();
        assert(u.woken[c2.woken.len() as int] == t);
        lemma_index_found(u.woken, t, 0, c2.woken.len() as int);
    }
}

/// Any number of threads may enter waits on a frozen condition variable, and
/// none is stranded: once it is thawed, a broadcast succeeds and wakes them
/// all, and each resumes with its lock whenever the lock is free.
pub proof fn lemma_frozen_waiters_all_woken(c0: CondView, ws: Seq<ThdD>, mode: WaitMode, intr: bool, now: u64)
    requires
        c0.is_init(),
        c0.frozen,
    ensures
        ({
            let c1 = CondView { queue: c0.queue + ws, ..c0 };
            &&& c1.thawed_state().signal_result() is Ok
            &&& forall|i: int|
                0 <= i < ws.len() ==> resume_result(
                    c1.thawed_state().broadcast_state(),
                    #[trigger] ws[i],
                    mode,
                    true,
                    intr,
                    now,
                ) == Resumed::Woken
        }),
{
    let c1 = CondView { queue: c0.queue + ws, ..c0 };
    let b = c1.thawed_state().broadcast_state();
    assert(b.woken == c0.woken + (c0.queue + ws));
    assert forall|i: int| 0 <= i < ws.len() implies resume_result(
        b,
        #[trigger] ws[i],
        mode,
        true,
        intr,
        now,
    ) == Resumed::Woken by {
        let j = c0.woken.len() + c0.queue.len() + i;
        assert(b.woken[j] == ws[i]);
        lemma_index_found(b.woken, ws[i], 0, j);
    }
}

/// A timed wait whose deadline has already passed fails with `Timedout` and
/// leaves the condition variable as it was (see [`Guard::wait_to`]). A thread
/// that was not waiting on it before is therefore not woken by a later
/// broadcast: resuming it could never give a guard.
pub proof fn lemma_timed_out_not_woken(c: CondView, t: ThdD, mode: WaitMode, free: bool, intr: bool, now: u64)
    requires
        c.is_init(),
        index_of(c.queue, t) < 0,
        index_of(c.woken, t) < 0,
    ensures
        resume_result(c.broadcast_state(), t, mode, free, intr, now) == Resumed::Gone,
{
    if exists|j: int| 0 <= j < c.queue.len() && c.queue[j] == t {
        let j = choose|j: int| 0 <= j < c.queue.len() && c.queue[j] == t;
        lemma_index_found(c.queue, t, 0, j);
    }
    if exists|j: int| 0 <= j < c.woken.len() && c.woken[j] == t {
        let j = choose|j: int| 0 <= j < c.woken.len() && c.woken[j] == t;
        lemma_index_found(c.woken, t, 0, j);
    }
    let b = c.broadcast_state();
    assert forall|j: int| 0 <= j < b.woken.len() implies b.woken[j] != t by {
        if j < c.woken.len() {
            assert(b.woken[j] == c.woken[j]);
        } else {
            assert(b.woken[j] == c.queue[j - c.woken.len()]);
        }
    }
    lemma_index_absent(b.woken, t, 0);
    lemma_index_absent(b.queue, t, 0);
}

/// An interrupt pending for a thread in an interruptible or timed wait ends
/// the wait with `Interrupt`, whether the thread is still queued or woken and
/// waiting for its lock: no guard comes back and the lock is not taken.
pub proof fn lemma_interrupt_ends_wait<R>(
    w: Waiting,
    r: WaitPoll,
    c0: CondView,
    c1: CondView,
    l0: LockView,
    l1: LockView,
    k0: KernelView<R>,
    k1: KernelView<R>,
    now: u64,
)
    requires
        w.mode_spec() != WaitMode::Uninterruptible,
        k0.intr_pending(w.thd_spec()),
        index_of(c0.woken, w.thd_spec()) >= 0 || index_of(c0.queue, w.thd_spec()) >= 0,
        index_of(c0.woken, w.thd_spec()) >= 0 ==> l0.holder is Some,
        resumed(
            w,
            resume_result(c0, w.thd_spec(), w.mode_spec(), l0.holder is None, k0.intr_pending(w.thd_spec()), now),
            r,
            c0,
            c1,
            l0,
            l1,
            k0,
            k1,
        ),
    ensures
        r == WaitPoll::Failed(CondError::Interrupt),
        l1 == l0,
        c1 == cond_left(c0, w.thd_spec()),
        k1 == k0.intr_taken(w.thd_spec()),
{
}

/// An uninterruptible wait ignores interrupts, from `quit` or from outside:
/// it ends only woken with its lock free, or when the condition variable is
/// gone.
pub proof fn lemma_unintr_ignores_interrupts(c: CondView, t: ThdD, free: bool, intr: bool, now: u64)
    ensures
        resume_result(c, t, WaitMode::Uninterruptible, free, intr, now) == resume_result(
            c,
            t,
            WaitMode::Uninterruptible,
            free,
            false,
            now,
        ),
        resume_result(c, t, WaitMode::Uninterruptible, free, intr, now) == Resumed::Woken <==> (
        index_of(c.woken, t) >= 0 && free),
        resume_result(c, t, WaitMode::Uninterruptible, free, intr, now) != Resumed::Interrupted,
        resume_result(c, t, WaitMode::Uninterruptible, free, intr, now) != Resumed::TimedOut,
{
}

/// `quit` on a thread queued in an interruptible or timed wait ends that wait
/// with `Interrupt`. On a thread queued in an uninterruptible wait it leaves
/// the thread blocked, and the thread's exit check sees the request.
pub proof fn lemma_quit_blocked_thread<R>(k: KernelView<R>, c: CondView, t: ThdD, mode: WaitMode, free: bool, now: u64)
    requires
        k.running(t),
        index_of(c.woken, t) < 0,
        index_of(c.queue, t) >= 0,
    ensures
        k.quitted(t).valid(t),
        k.quitted(t).rec(t).quit,
        mode != WaitMode::Uninterruptible ==> resume_result(
            c,
            t,
            mode,
            free,
            k.quitted(t).intr_pending(t),
            now,
        ) == Resumed::Interrupted,
        resume_result(c, t, WaitMode::Uninterruptible, free, k.quitted(t).intr_pending(t), now)
            == Resumed::Blocked,
{
}

} // verus!
