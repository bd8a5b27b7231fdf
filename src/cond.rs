//! The condition variable: a ticketed kernel object with a freeze gate and a
//! first-in first-out wait queue.

use vstd::prelude::*;

use crate::thd::ThdD;

verus! {

/// Outcome of an operation on a condition variable.
#[derive(Clone, Copy, Debug, PartialEq, Eq, Structural)]
pub enum CondError {
    /// The condition variable is not initialised under the handle's ticket.
    NotInit,
    /// The condition variable is frozen.
    AlreadyFrozen,
    /// The condition variable is not frozen.
    AlreadyThawed,
    /// The wait was interrupted.
    Interrupt,
    /// The wait reached its deadline.
    Timedout,
    /// The caller is not a thread. The kernel modelled here has no caller
    /// outside a thread, so it never reports this.
    NotThreadContext,
    /// An error code that has no kind of its own. The kernel modelled here
    /// reports only the kinds above, so it never gives this.
    Unknown(i32),
}

/// The abstract state of a condition variable: the storage (the ticket of the
/// incarnation living in it, if any, and the last ticket it issued), the
/// ticket that the handle knows, the freeze gate, the threads blocked on it in
/// arrival order, and the threads that were woken and have not yet resumed.
pub struct CondView {
    pub live: Option<u64>,
    pub issued: u64,
    pub tik: u64,
    pub frozen: bool,
    pub queue: Seq<ThdD>,
    pub woken: Seq<ThdD>,
}

impl CondView {
    /// Acquiring the storage with the handle's ticket succeeds.
    pub open spec fn is_init(self) -> bool {
        self.live == Some(self.tik)
    }

    /// A fresh incarnation can still be given a ticket.
    pub open spec fn can_init(self) -> bool {
        self.is_init() || self.issued < u64::MAX
    }

    /// The state after `init`: unchanged when the handle's ticket is valid,
    /// else a newly constructed, thawed object with an empty queue under the
    /// next ticket.
    pub open spec fn initialized(self) -> CondView {
        if self.is_init() {
            self
        } else {
            let t = (self.issued + 1) as u64;
            CondView {
                live: Some(t),
                issued: t,
                tik: t,
                frozen: false,
                queue: Seq::empty(),
                woken: Seq::empty(),
            }
        }
    }

    /// The state after tearing the storage down.
    pub open spec fn finalized(self) -> CondView {
        CondView { live: None, frozen: false, queue: Seq::empty(), woken: Seq::empty(), ..self }
    }

    pub open spec fn freeze_result(self) -> Result<(), CondError> {
        if !self.is_init() {
            Err(CondError::NotInit)
        } else if self.frozen {
            Err(CondError::AlreadyFrozen)
        } else {
            Ok(())
        }
    }

    pub open spec fn frozen_state(self) -> CondView {
        if self.freeze_result() is Ok {
            CondView { frozen: true, ..self }
        } else {
            self
        }
    }

    pub open spec fn thaw_result(self) -> Result<(), CondError> {
        if !self.is_init() {
            Err(CondError::NotInit)
        } else if !self.frozen {
            Err(CondError::AlreadyThawed)
        } else {
            Ok(())
        }
    }

    pub open spec fn thawed_state(self) -> CondView {
        if self.thaw_result() is Ok {
            CondView { frozen: false, ..self }
        } else {
            self
        }
    }

    /// Result of `unicast` and of `broadcast`.
    pub open spec fn signal_result(self) -> Result<(), CondError> {
        if !self.is_init() {
            Err(CondError::NotInit)
        } else if self.frozen {
            Err(CondError::AlreadyFrozen)
        } else {
            Ok(())
        }
    }

    /// After `unicast`: the first thread of the queue, if any, is woken.
    pub open spec fn unicast_state(self) -> CondView {
        if self.signal_result() is Ok && self.queue.len() > 0 {
            CondView {
                queue: self.queue.drop_first(),
                woken: self.woken.push(self.queue[0]),
                ..self
            }
        } else {
            self
        }
    }

    /// After `broadcast`: every queued thread is woken, in arrival order.
    pub open spec fn broadcast_state(self) -> CondView {
        if self.signal_result() is Ok {
            CondView { queue: Seq::empty(), woken: self.woken + self.queue, ..self }
        } else {
            self
        }
    }
}

/// The first index at or after `i` where `s` holds `t`, or -1.
pub open spec fn index_from(s: Seq<ThdD>, t: ThdD, i: int) -> int
    decreases s.len() - i,
{
    if i < 0 || i >= s.len() {
        -1
    } else if s[i] == t {
        i
    } else {
        index_from(s, t, i + 1)
    }
}

/// The first index where `s` holds `t`, or -1.
pub open spec fn index_of(s: Seq<ThdD>, t: ThdD) -> int {
    index_from(s, t, 0)
}

proof fn lemma_index_from_range(s: Seq<ThdD>, t: ThdD, i: int)
    requires
        0 <= i,
    ensures
        index_from(s, t, i) == -1 || (i <= index_from(s, t, i) < s.len() && s[index_from(s, t, i)] == t),
    decreases s.len() - i,
{
    if i < s.len() && s[i] != t {
        lemma_index_from_range(s, t, i + 1);
    }
}

pub(crate) proof fn lemma_index_found(s: Seq<ThdD>, t: ThdD, i: int, j: int)
    requires
        0 <= i <= j < s.len(),
        s[j] == t,
    ensures
        0 <= index_from(s, t, i) <= j,
    decreases j - i,
{
    if s[i] != t {
        lemma_index_found(s, t, i + 1, j);
    }
}

pub(crate) proof fn lemma_index_absent(s: Seq<ThdD>, t: ThdD, i: int)
    requires
        0 <= i,
        forall|j: int| i <= j < s.len() ==> s[j] != t,
    ensures
        index_from(s, t, i) == -1,
    decreases s.len() - i,
{
    if i < s.len() {
        lemma_index_absent(s, t, i + 1);
    }
}

/// Finds the first place of `t` in `v`.
fn find(v: &Vec<ThdD>, t: ThdD) -> (r: Option<usize>)
    ensures
        r is Some <==> index_of(v@, t) >= 0,
        r is Some ==> r->0 == index_of(v@, t) && r->0 < v@.len() && v@[r->0 as int] == t,
{
    proof {
        lemma_index_from_range(v@, t, 0);
    }
    let mut i: usize = 0;
    while i < v.len()
        invariant
            0 <= i <= v@.len(),
            index_from(v@, t, 0) == index_from(v@, t, i as int),
        decreases v@.len() - i,
    {
        if v[i] == t {
            return Some(i);
        }
        i = i + 1;
    }
    None
}

/// The state after `n` calls of `init`.
pub open spec fn inits(v: CondView, n: nat) -> CondView
    decreases n,
{
    if n == 0 {
        v
    } else {
        inits(v, (n - 1) as nat).initialized()
    }
}

/// Any number of `init` calls, from one context or several, constructs the
/// object at most once: the first call constructs it unless the handle's
/// ticket is already valid, and every later call leaves it, and its ticket,
/// as they are.
pub proof fn lemma_init_once(v: CondView, n: nat)
    requires
        v.can_init(),
        n >= 1,
    ensures
        inits(v, n) == v.initialized(),
        inits(v, n).is_init(),
        inits(v, n).tik == v.initialized().tik,
        inits(v, n).issued == (if v.is_init() { v.issued } else { (v.issued + 1) as u64 }),
    decreases n,
{
    assert(inits(v, n) == inits(v, (n - 1) as nat).initialized());
    if n > 1 {
        lemma_init_once(v, (n - 1) as nat);
    } else {
        assert(inits(v, 0) == v);
    }
}

/// On an initialised condition variable: after `freeze`, `unicast` and
/// `broadcast` fail with `AlreadyFrozen` and change nothing, and a second
/// `freeze` fails with `AlreadyFrozen`; `thaw` after `freeze` lets them
/// succeed again; `thaw` on a condition variable that is not frozen, such as
/// a freshly constructed one, fails with `AlreadyThawed`.
pub proof fn lemma_freeze_gate(v: CondView)
    requires
        v.is_init(),
    ensures
        v.frozen_state().signal_result() == Err::<(), CondError>(CondError::AlreadyFrozen),
        v.frozen_state().unicast_state() == v.frozen_state(),
        v.frozen_state().broadcast_state() == v.frozen_state(),
        v.frozen_state().freeze_result() == Err::<(), CondError>(CondError::AlreadyFrozen),
        v.frozen_state().thawed_state().signal_result() is Ok,
        !v.frozen ==> v.thaw_result() == Err::<(), CondError>(CondError::AlreadyThawed),
        v.finalized().can_init() ==> v.finalized().initialized().thaw_result() == Err::<
            (),
            CondError,
        >(CondError::AlreadyThawed),
{
}

/// A condition variable: its storage and the ticket of the incarnation that
/// this handle initialised.
pub struct Cond {
    live: Option<u64>,
    issued: u64,
    tik: u64,
    frozen: bool,
    queue: Vec<ThdD>,
    woken: Vec<ThdD>,
}

impl View for Cond {
    type V = CondView;

    closed spec fn view(&self) -> CondView {
        CondView {
            live: self.live,
            issued: self.issued,
            tik: self.tik,
            frozen: self.frozen,
            queue: self.queue@,
            woken: self.woken@,
        }
    }
}

impl Cond {
    /// A condition variable whose storage holds no object yet.
    pub fn new() -> (c: Cond)
        ensures
            c@ == (CondView {
                live: None,
                issued: 0,
                tik: 0,
                frozen: false,
                queue: Seq::empty(),
                woken: Seq::empty(),
            }),
            !c@.is_init(),
    {
        Cond { live: None, issued: 0, tik: 0, frozen: false, queue: Vec::new(), woken: Vec::new() }
    }

    /// Acquires the storage with the handle's ticket: true when the storage
    /// holds the incarnation that this handle knows.
    fn acquire(&self) -> (r: bool)
        ensures
            r == self@.is_init(),
    {
        match self.live {
            Some(t) => t == self.tik,
            None => false,
        }
    }

    /// Initialises the condition variable. When the storage already holds the
    /// incarnation named by the handle's ticket nothing changes; otherwise the
    /// object is constructed and the handle takes the new ticket.
    pub fn init(&mut self)
        requires
            old(self)@.can_init(),
        ensures
            final(self)@ == old(self)@.initialized(),
            final(self)@.is_init(),
    {
        if !self.acquire() {
            let t = self.issued + 1;
            self.live = Some(t);
            self.issued = t;
            self.tik = t;
            self.frozen = false;
            self.queue = Vec::new();
            self.woken = Vec::new();
        }
    }

    /// Tears the object down. Its waiters are dropped from the queue; a later
    /// resume of theirs reports `NotInit`.
    pub fn fini(&mut self) -> (r: Result<(), CondError>)
        ensures
            r == (if old(self)@.is_init() { Ok(()) } else { Err(CondError::NotInit) }),
            final(self)@ == (if old(self)@.is_init() { old(self)@.finalized() } else { old(self)@ }),
    {
        if self.acquire() {
            self.live = None;
            self.frozen = false;
            self.queue = Vec::new();
            self.woken = Vec::new();
            Ok(())
        } else {
            Err(CondError::NotInit)
        }
    }

    /// Freezes the condition variable: it may still be waited on, but not
    /// signalled.
    pub fn freeze(&mut self) -> (r: Result<(), CondError>)
        ensures
            r == old(self)@.freeze_result(),
            final(self)@ == old(self)@.frozen_state(),
    {
        if !self.acquire() {
            Err(CondError::NotInit)
        } else if self.frozen {
            Err(CondError::AlreadyFrozen)
        } else {
            self.frozen = true;
            Ok(())
        }
    }

    /// Thaws a frozen condition variable.
    pub fn thaw(&mut self) -> (r: Result<(), CondError>)
        ensures
            r == old(self)@.thaw_result(),
            final(self)@ == old(self)@.thawed_state(),
    {
        if !self.acquire() {
            Err(CondError::NotInit)
        } else if !self.frozen {
            Err(CondError::AlreadyThawed)
        } else {
            self.frozen = false;
            Ok(())
        }
    }

    /// Wakes the thread that has waited longest, if any.
    pub fn unicast(&mut self) -> (r: Result<(), CondError>)
        ensures
            r == old(self)@.signal_result(),
            final(self)@ == old(self)@.unicast_state(),
    {
        if !self.acquire() {
            Err(CondError::NotInit)
        } else if self.frozen {
            Err(CondError::AlreadyFrozen)
        } else {
            if self.queue.len() > 0 {
                let t = self.queue.remove(0);
                self.woken.push(t);
            }
            Ok(())
        }
    }

    /// Wakes every waiting thread.
    pub fn broadcast(&mut self) -> (r: Result<(), CondError>)
        ensures
            r == old(self)@.signal_result(),
            final(self)@ == old(self)@.broadcast_state(),
    {
        if !self.acquire() {
            Err(CondError::NotInit)
        } else if self.frozen {
            Err(CondError::AlreadyFrozen)
        } else {
            self.woken.append(&mut self.queue);
            Ok(())
        }
    }

    /// Whether the handle's ticket names the incarnation in the storage.
    pub fn is_init(&self) -> (r: bool)
        ensures
            r == self@.is_init(),
    {
        self.acquire()
    }

    /// Whether the condition variable is frozen.
    pub fn is_frozen(&self) -> (r: bool)
        ensures
            r == self@.frozen,
    {
        self.frozen
    }

    /// The ticket that the handle knows.
    pub fn ticket(&self) -> (r: u64)
        ensures
            r == self@.tik,
    {
        self.tik
    }

    /// Puts thread `t` at the end of the wait queue.
    pub(crate) fn enqueue(&mut self, t: ThdD)
        ensures
            final(self)@ == (CondView { queue: old(self)@.queue.push(t), ..old(self)@ }),
    {
        self.queue.push(t);
    }

    /// Where thread `t` stands among the woken threads.
    pub(crate) fn woken_index(&self, t: ThdD) -> (r: Option<usize>)
        ensures
            r is Some <==> index_of(self@.woken, t) >= 0,
            r is Some ==> r->0 == index_of(self@.woken, t) && r->0 < self@.woken.len(),
    {
        find(&self.woken, t)
    }

    /// Where thread `t` stands in the wait queue.
    pub(crate) fn queue_index(&self, t: ThdD) -> (r: Option<usize>)
        ensures
            r is Some <==> index_of(self@.queue, t) >= 0,
            r is Some ==> r->0 == index_of(self@.queue, t) && r->0 < self@.queue.len(),
    {
        find(&self.queue, t)
    }

    pub(crate) fn remove_woken(&mut self, i: usize)
        requires
            i < old(self)@.woken.len(),
        ensures
            final(self)@ == (CondView { woken: old(self)@.woken.remove(i as int), ..old(self)@ }),
    {
        self.woken.remove(i);
    }

    pub(crate) fn remove_queued(&mut self, i: usize)
        requires
            i < old(self)@.queue.len(),
        ensures
            final(self)@ == (CondView { queue: old(self)@.queue.remove(i as int), ..old(self)@ }),
    {
        self.queue.remove(i);
    }

    /// The threads blocked on the condition variable, in arrival order.
    pub fn waiters(&self) -> (r: &Vec<ThdD>)
        ensures
            r@ == self@.queue,
    {
        &self.queue
    }
}

} // verus!
