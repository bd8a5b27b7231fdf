//! Threads: the builder, the kernel's thread table, and the handle state
//! machine (joinable, joined, detached).
//!
//! The thread table stands for the kernel. A thread's body runs when
//! [`Kernel::run`] is called for it; until then the thread counts as running.
//! A join that would block comes back as a [`Joining`], to be resumed once
//! another context has made the thread exit or interrupted the joiner.

use vstd::prelude::*;

use core::marker::PhantomData;

use crate::errno::{XwEr, XWOK, EINTR, ENODEV, ENOMEM, ENOTTHDCTX, ESRCH};
use cstr_core::{CString, NulError};

verus! {

#[verifier::external_type_specification]
#[verifier::external_body]
pub struct ExCString(CString);

#[verifier::external_type_specification]
#[verifier::external_body]
pub struct ExNulError(NulError);

/// Relies on `cstr_core::CString::new`: it fails exactly when the bytes of
/// the name hold a zero byte, and in UTF-8 that is the character `'\0'`.
#[verifier::external_body]
fn c_string(name: &String) -> (r: Result<CString, NulError>)
    ensures
        r is Ok <==> !name@.contains('\0'),
{
    CString::new(name.as_str())
}

/// Join state of a joined thread: the code of a successful join. A
/// successful join consumes the handle, so no handle keeps this state.
pub const STATE_JOINED: XwEr = 0;

/// Join state of a handle whose thread may still be joined.
pub const STATE_JOINABLE: XwEr = 1;

/// Name given to a thread whose requested name cannot be a C string.
pub open spec fn invalid_name() -> Seq<char> {
    "InvalidName"@
}

/// Descriptor of a kernel thread: the slot in the thread table and the ticket
/// of the incarnation that the descriptor was made for.
#[derive(Clone, Copy, Debug, PartialEq, Eq, Structural)]
pub struct ThdD {
    pub thd: usize,
    pub tik: u64,
}

/// Per-thread data shared by the thread and its handle.
pub struct ThdElement {
    name: Option<String>,
}

impl ThdElement {
    /// The thread's name, if it was given one.
    pub closed spec fn name_spec(&self) -> Option<Seq<char>> {
        match self.name {
            Some(n) => Some(n@),
            None => None,
        }
    }

    /// The thread's name, if it was given one.
    pub fn name(&self) -> (r: Option<&str>)
        ensures
            r is Some <==> self.name_spec() is Some,
            r is Some ==> r->0@ == self.name_spec()->0,
    {
        match &self.name {
            Some(n) => Some(n.as_str()),
            None => None,
        }
    }

    fn copy(&self) -> (r: ThdElement)
        ensures
            r.name_spec() == self.name_spec(),
    {
        match &self.name {
            Some(n) => ThdElement { name: Some(n.clone()) },
            None => ThdElement { name: None },
        }
    }
}

/// The name under which a requested thread name is kept: the name itself
/// when it can be a C string, `InvalidName` when it holds a zero character.
pub open spec fn kept_name(name: Option<Seq<char>>) -> Option<Seq<char>> {
    match name {
        Some(n) => if n.contains('\0') { Some(invalid_name()) } else { Some(n) },
        None => None,
    }
}

/// Thread attributes as the kernel receives them.
pub struct ThdAttr {
    pub stack_size: usize,
    pub privileged: bool,
}

/// Configuration of a new thread. Options that are not set take the system
/// defaults: the kernel's default stack size, and a privileged thread.
pub struct Builder {
    name: Option<String>,
    stack_size: Option<usize>,
    privileged: Option<bool>,
}

impl Builder {
    pub closed spec fn name_spec(&self) -> Option<Seq<char>> {
        match self.name {
            Some(n) => Some(n@),
            None => None,
        }
    }

    pub closed spec fn stack_size_spec(&self) -> Option<usize> {
        self.stack_size
    }

    pub closed spec fn privileged_spec(&self) -> Option<bool> {
        self.privileged
    }

    /// A builder with no option set.
    pub fn new() -> (b: Builder)
        ensures
            b.name_spec() is None,
            b.stack_size_spec() is None,
            b.privileged_spec() is None,
    {
        Builder { name: None, stack_size: None, privileged: None }
    }

    /// Sets the thread's name.
    pub fn name(self, name: String) -> (b: Builder)
        ensures
            b.name_spec() == Some(name@),
            b.stack_size_spec() == self.stack_size_spec(),
            b.privileged_spec() == self.privileged_spec(),
    {
        Builder { name: Some(name), ..self }
    }

    /// Sets the size of the thread's stack in bytes.
    pub fn stack_size(self, size: usize) -> (b: Builder)
        ensures
            b.name_spec() == self.name_spec(),
            b.stack_size_spec() == Some(size),
            b.privileged_spec() == self.privileged_spec(),
    {
        Builder { stack_size: Some(size), ..self }
    }

    /// Sets whether the thread runs privileged.
    pub fn privileged(self, privileged: bool) -> (b: Builder)
        ensures
            b.name_spec() == self.name_spec(),
            b.stack_size_spec() == self.stack_size_spec(),
            b.privileged_spec() == Some(privileged),
    {
        Builder { privileged: Some(privileged), ..self }
    }
}

/// A thread's record in the kernel's thread table.
pub struct KThd<R> {
    /// Ticket of the incarnation in this slot.
    pub tik: u64,
    /// The slot holds a thread that was not yet reclaimed.
    pub live: bool,
    /// The thread's body has returned.
    pub exited: bool,
    /// Someone asked the thread to quit.
    pub quit: bool,
    /// An interrupt waits to be delivered to the thread's next interruptible
    /// blocking point.
    pub intr: bool,
    /// The thread was detached: it is reclaimed as soon as it exits.
    pub detached: bool,
    pub cpu: usize,
    pub stack_size: usize,
    pub privileged: bool,
    pub element: ThdElement,
    /// The value that the body returned, until it is joined.
    pub result: Option<R>,
}

/// The abstract state of the kernel's thread table.
pub struct KernelView<R> {
    pub thds: Seq<KThd<R>>,
    pub issued: u64,
    pub capacity: usize,
    pub ncpus: usize,
    pub default_stack: usize,
}

impl<R> KernelView<R> {
    /// A thread that exited and was not reclaimed holds its result and is not
    /// detached.
    pub open spec fn wf(self) -> bool {
        forall|i: int|
            0 <= i < self.thds.len() && #[trigger] self.thds[i].live && self.thds[i].exited
                ==> self.thds[i].result is Some && !self.thds[i].detached
    }

    /// The descriptor names a thread that was not reclaimed since.
    pub open spec fn valid(self, d: ThdD) -> bool {
        &&& d.thd < self.thds.len()
        &&& self.thds[d.thd as int].live
        &&& self.thds[d.thd as int].tik == d.tik
    }

    pub open spec fn rec(self, d: ThdD) -> KThd<R> {
        self.thds[d.thd as int]
    }

    /// The thread is alive and its body has not returned.
    pub open spec fn running(self, d: ThdD) -> bool {
        self.valid(d) && !self.rec(d).exited
    }

    pub open spec fn intr_pending(self, d: ThdD) -> bool {
        self.valid(d) && self.rec(d).intr
    }

    /// Joining `t` from `j` would block with nothing left to release it.
    pub open spec fn join_blocks(self, t: ThdD, j: ThdD) -> bool {
        self.running(t) && self.valid(j) && !self.rec(j).intr
    }

    /// The error code of a join of `t` from `j` that does not block: a thread
    /// still running is only left by an interrupt of the joiner.
    pub open spec fn join_code(self, t: ThdD, j: ThdD) -> XwEr {
        if !self.valid(t) {
            (-ESRCH) as XwEr
        } else if !self.valid(j) {
            (-ENOTTHDCTX) as XwEr
        } else if !self.rec(t).exited {
            (-EINTR) as XwEr
        } else {
            XWOK
        }
    }

    /// The table with the record of `d` replaced.
    pub open spec fn set(self, d: ThdD, r: KThd<R>) -> KernelView<R> {
        KernelView { thds: self.thds.update(d.thd as int, r), ..self }
    }

    /// The table after `d`'s record is reclaimed.
    pub open spec fn reclaimed(self, d: ThdD) -> KernelView<R> {
        self.set(d, KThd { live: false, result: None, ..self.rec(d) })
    }

    /// The table after the interrupt pending for `d` is delivered.
    pub open spec fn intr_taken(self, d: ThdD) -> KernelView<R> {
        self.set(d, KThd { intr: false, ..self.rec(d) })
    }
}

/// The record of a newly created thread.
pub open spec fn fresh_thd<R>(tik: u64, attr: ThdAttr, element: ThdElement) -> KThd<R> {
    KThd {
        tik: tik,
        live: true,
        exited: false,
        quit: false,
        intr: false,
        detached: false,
        cpu: 0,
        stack_size: attr.stack_size,
        privileged: attr.privileged,
        element: element,
        result: None,
    }
}

/// The kernel's thread table.
pub struct Kernel<R> {
    thds: Vec<KThd<R>>,
    issued: u64,
    capacity: usize,
    ncpus: usize,
    default_stack: usize,
}

impl<R> View for Kernel<R> {
    type V = KernelView<R>;

    closed spec fn view(&self) -> KernelView<R> {
        KernelView {
            thds: self.thds@,
            issued: self.issued,
            capacity: self.capacity,
            ncpus: self.ncpus,
            default_stack: self.default_stack,
        }
    }
}

impl<R> Kernel<R> {
    /// An empty thread table with room for `capacity` threads, on `ncpus`
    /// processors, where a thread's stack is `default_stack` bytes unless it
    /// asks otherwise.
    pub fn new(capacity: usize, ncpus: usize, default_stack: usize) -> (k: Kernel<R>)
        ensures
            k@ == (KernelView::<R> {
                thds: Seq::empty(),
                issued: 0,
                capacity: capacity,
                ncpus: ncpus,
                default_stack: default_stack,
            }),
            k@.wf(),
    {
        Kernel { thds: Vec::new(), issued: 0, capacity, ncpus, default_stack }
    }

    /// The default stack size in bytes.
    pub fn default_stack_size(&self) -> (r: usize)
        ensures
            r == self@.default_stack,
    {
        self.default_stack
    }

    /// Creates a thread in the first free slot, or in a new slot while the
    /// table is under its capacity; fails with `-ENOMEM` when neither exists.
    fn create(&mut self, attr: ThdAttr, element: ThdElement) -> (r: Result<ThdD, XwEr>)
        requires
            old(self)@.wf(),
            old(self)@.issued < u64::MAX,
        ensures
            final(self)@.wf(),
            r is Err <==> (forall|i: int| 0 <= i < old(self)@.thds.len() ==> #[trigger] old(self)@.thds[i].live)
                && old(self)@.thds.len() >= old(self)@.capacity,
            r is Err ==> r->Err_0 == -ENOMEM && final(self)@ == old(self)@,
            r is Ok ==> ({
                let d = r->Ok_0;
                let o = old(self)@;
                &&& d.tik == o.issued + 1
                &&& d.thd <= o.thds.len()
                &&& forall|i: int| 0 <= i < d.thd ==> #[trigger] o.thds[i].live
                &&& d.thd < o.thds.len() ==> !o.thds[d.thd as int].live
                &&& final(self)@ == (KernelView {
                    thds: if d.thd < o.thds.len() {
                        o.thds.update(d.thd as int, fresh_thd(d.tik, attr, element))
                    } else {
                        o.thds.push(fresh_thd(d.tik, attr, element))
                    },
                    issued: d.tik,
                    ..o
                })
            }),
    {
        let n = self.thds.len();
        let mut i: usize = 0;
        while i < n
            invariant
                n == self.thds@.len(),
                0 <= i <= n,
                forall|j: int| 0 <= j < i ==> #[trigger] self.thds@[j].live,
            ensures
                0 <= i <= n,
                i < n ==> !self.thds@[i as int].live,
                forall|j: int| 0 <= j < i ==> #[trigger] self.thds@[j].live,
            decreases n - i,
        {
            if !self.thds[i].live {
                break;
            }
            i = i + 1;
        }
        if i == n && n >= self.capacity {
            return Err(-ENOMEM);
        }
        let tik = self.issued + 1;
        let rec = KThd {
            tik,
            live: true,
            exited: false,
            quit: false,
            intr: false,
            detached: false,
            cpu: 0,
            stack_size: attr.stack_size,
            privileged: attr.privileged,
            element,
            result: None,
        };
        if i < n {
            self.thds.set(i, rec);
        } else {
            self.thds.push(rec);
        }
        self.issued = tik;
        Ok(ThdD { thd: i, tik })
    }

    /// Runs the body of thread `d` until it returns: the body receives the
    /// thread's element, and the value it returns is published for the join.
    /// A detached thread is reclaimed at once and its value dropped.
    pub fn run<F>(&mut self, d: ThdD, f: F)
        where
            F: FnOnce(&ThdElement) -> R,
        requires
            old(self)@.wf(),
            old(self)@.running(d),
            f.requires((&old(self)@.rec(d).element,)),
        ensures
            final(self)@.wf(),
            exists|v: R|
                #[trigger] f.ensures((&old(self)@.rec(d).element,), v) && final(self)@ == (if old(
                    self,
                )@.rec(d).detached {
                    old(self)@.set(d, KThd { exited: true, live: false, ..old(self)@.rec(d) })
                } else {
                    old(self)@.set(d, KThd { exited: true, result: Some(v), ..old(self)@.rec(d) })
                }),
    {
        let i = d.thd;
        let v = f(&self.thds[i].element);
        if self.thds[i].detached {
            self.thds[i].exited = true;
            self.thds[i].live = false;
            proof {
                let o = old(self)@;
                assert(self@.thds =~= o.set(d, KThd { exited: true, live: false, ..o.rec(d) }).thds);
            }
        } else {
            self.thds[i].exited = true;
            self.thds[i].result = Some(v);
            proof {
                let o = old(self)@;
                assert(self@.thds =~= o.set(d, KThd { exited: true, result: Some(v), ..o.rec(d) }).thds);
            }
        }
    }

    /// Delivers an outside interrupt to thread `d`: its next interruptible
    /// blocking point fails with an interruption.
    pub fn interrupt(&mut self, d: ThdD) -> (r: XwEr)
        requires
            old(self)@.wf(),
        ensures
            final(self)@.wf(),
            r == (if old(self)@.valid(d) { XWOK } else { (-ESRCH) as XwEr }),
            final(self)@ == (if old(self)@.running(d) {
                old(self)@.set(d, KThd { intr: true, ..old(self)@.rec(d) })
            } else {
                old(self)@
            }),
    {
        if !self.is_valid(d) {
            return -ESRCH;
        }
        if !self.thds[d.thd].exited {
            self.thds[d.thd].intr = true;
        }
        XWOK
    }

    /// Whether thread `d` was asked to quit: the check that a thread makes to
    /// leave its work cooperatively.
    pub fn exit_requested(&self, d: ThdD) -> (r: bool)
        ensures
            r == (self@.valid(d) && self@.rec(d).quit),
    {
        self.is_valid(d) && self.thds[d.thd].quit
    }

    /// Whether `d` names a thread that was not reclaimed.
    pub fn is_valid(&self, d: ThdD) -> (r: bool)
        ensures
            r == self@.valid(d),
    {
        d.thd < self.thds.len() && self.thds[d.thd].live && self.thds[d.thd].tik == d.tik
    }

    /// Whether thread `d` is alive and its body has not returned.
    pub fn is_running(&self, d: ThdD) -> (r: bool)
        ensures
            r == self@.running(d),
    {
        self.is_valid(d) && !self.thds[d.thd].exited
    }

    /// Whether an interrupt waits to be delivered to thread `d`.
    pub fn is_intr_pending(&self, d: ThdD) -> (r: bool)
        ensures
            r == self@.intr_pending(d),
    {
        self.is_valid(d) && self.thds[d.thd].intr
    }

    /// Delivers the interrupt pending for thread `d`.
    pub(crate) fn take_intr(&mut self, d: ThdD)
        requires
            old(self)@.wf(),
            old(self)@.valid(d),
        ensures
            final(self)@.wf(),
            final(self)@ == old(self)@.intr_taken(d),
    {
        self.thds[d.thd].intr = false;
    }

    /// Takes the result of exited thread `d` and reclaims its slot.
    fn reap(&mut self, d: ThdD) -> (r: R)
        requires
            old(self)@.wf(),
            old(self)@.valid(d),
            old(self)@.rec(d).exited,
        ensures
            final(self)@.wf(),
            Some(r) == old(self)@.rec(d).result,
            final(self)@ == old(self)@.reclaimed(d),
    {
        let i = d.thd;
        let v = self.thds[i].result.take();
        self.thds[i].live = false;
        proof {
            assert(self@.thds =~= old(self)@.reclaimed(d).thds);
        }
        v.unwrap()
    }
}

impl<R> KernelView<R> {
    /// The table after thread `d` was asked to quit: the request is recorded,
    /// and an interrupt is posted unless the body has already returned.
    pub open spec fn quitted(self, d: ThdD) -> KernelView<R> {
        self.set(d, KThd { quit: true, intr: self.rec(d).intr || !self.rec(d).exited, ..self.rec(d) })
    }

    /// The table after thread `d` is detached: reclaimed at once when its body
    /// has returned, else marked to be reclaimed when it does.
    pub open spec fn detached(self, d: ThdD) -> KernelView<R> {
        if self.rec(d).exited {
            self.reclaimed(d)
        } else {
            self.set(d, KThd { detached: true, ..self.rec(d) })
        }
    }
}

impl ThdD {
    /// Asks the thread to quit. The request is recorded for the thread's
    /// cooperative check, and the thread's next interruptible blocking point
    /// fails. Never blocks.
    pub fn quit<R>(&self, k: &mut Kernel<R>) -> (r: XwEr)
        requires
            old(k)@.wf(),
        ensures
            final(k)@.wf(),
            r == (if old(k)@.valid(*self) { XWOK } else { (-ESRCH) as XwEr }),
            final(k)@ == (if old(k)@.valid(*self) { old(k)@.quitted(*self) } else { old(k)@ }),
    {
        if !k.is_valid(*self) {
            return -ESRCH;
        }
        let i = self.thd;
        k.thds[i].quit = true;
        if !k.thds[i].exited {
            k.thds[i].intr = true;
        }
        proof {
            assert(k@.thds =~= old(k)@.quitted(*self).thds);
        }
        XWOK
    }

    /// Moves the thread to processor `cpuid`.
    pub fn migrate<R>(&self, k: &mut Kernel<R>, cpuid: usize) -> (r: XwEr)
        requires
            old(k)@.wf(),
        ensures
            final(k)@.wf(),
            r == (if !old(k)@.valid(*self) {
                (-ESRCH) as XwEr
            } else if cpuid >= old(k)@.ncpus {
                (-ENODEV) as XwEr
            } else {
                XWOK
            }),
            final(k)@ == (if r == XWOK {
                old(k)@.set(*self, KThd { cpu: cpuid, ..old(k)@.rec(*self) })
            } else {
                old(k)@
            }),
    {
        if !k.is_valid(*self) {
            return -ESRCH;
        }
        if cpuid >= k.ncpus {
            return -ENODEV;
        }
        k.thds[self.thd].cpu = cpuid;
        proof {
            assert(k@.thds =~= old(k)@.set(*self, KThd { cpu: cpuid, ..old(k)@.rec(*self) }).thds);
        }
        XWOK
    }
}

impl Builder {
    /// The attributes that a thread spawned from this builder receives.
    pub open spec fn attr_spec(&self, default_stack: usize) -> ThdAttr {
        ThdAttr {
            stack_size: match self.stack_size_spec() {
                Some(s) => s,
                None => default_stack,
            },
            privileged: match self.privileged_spec() {
                Some(p) => p,
                None => true,
            },
        }
    }

    /// Spawns a thread with this configuration. Fails with `-ENOMEM` when the
    /// thread table has no room; the new thread is running and joinable.
    pub fn spawn<R>(self, k: &mut Kernel<R>) -> (r: Result<ThdHandle<R>, XwEr>)
        requires
            old(k)@.wf(),
            old(k)@.issued < u64::MAX,
        ensures
            final(k)@.wf(),
            spawned(old(k)@, final(k)@, self.name_spec(), self.attr_spec(old(k)@.default_stack), r),
    {
        let stack_size = match self.stack_size {
            Some(s) => s,
            None => k.default_stack_size(),
        };
        let privileged = match self.privileged {
            Some(p) => p,
            None => true,
        };
        let name = match self.name {
            Some(n) => {
                if c_string(&n).is_ok() {
                    Some(n)
                } else {
                    proof {
                        reveal_strlit("InvalidName");
                    }
                    Some("InvalidName".to_owned())
                }
            },
            None => None,
        };
        let element = ThdElement { name };
        let mine = element.copy();
        let attr = ThdAttr { stack_size, privileged };
        match k.create(attr, element) {
            Ok(d) => Ok(ThdHandle { thdd: d, join_state: STATE_JOINABLE, element: mine, rv: PhantomData }),
            Err(e) => Err(e),
        }
    }
}

/// What spawning a thread named `name` (after [`kept_name`]) with attributes
/// `attr` did to kernel state `o`, giving `f` and the result `r`: `-ENOMEM`
/// when every slot is taken and the table is at its capacity, else a joinable
/// handle of a new running thread in the first free slot, or in a new slot,
/// under the next ticket.
pub open spec fn spawned<R>(
    o: KernelView<R>,
    f: KernelView<R>,
    name: Option<Seq<char>>,
    attr: ThdAttr,
    r: Result<ThdHandle<R>, XwEr>,
) -> bool {
    &&& r is Err <==> (forall|i: int| 0 <= i < o.thds.len() ==> #[trigger] o.thds[i].live)
        && o.thds.len() >= o.capacity
    &&& r is Err ==> r->Err_0 == -ENOMEM && f == o
    &&& r is Ok ==> {
        let h = r->Ok_0;
        let d = h.thdd_spec();
        let rec = f.rec(d);
        &&& h.join_state_spec() == STATE_JOINABLE
        &&& h.name_spec() == kept_name(name)
        &&& rec.element.name_spec() == kept_name(name)
        &&& rec == fresh_thd::<R>(d.tik, attr, rec.element)
        &&& d.tik == o.issued + 1
        &&& d.thd <= o.thds.len()
        &&& forall|i: int| 0 <= i < d.thd ==> #[trigger] o.thds[i].live
        &&& d.thd < o.thds.len() ==> !o.thds[d.thd as int].live
        &&& f == (KernelView {
            thds: if d.thd < o.thds.len() {
                o.thds.update(d.thd as int, rec)
            } else {
                o.thds.push(rec)
            },
            issued: d.tik,
            ..o
        })
    }
}

/// Spawns a thread with the default configuration.
pub fn spawn<R>(k: &mut Kernel<R>) -> (r: Result<ThdHandle<R>, XwEr>)
    requires
        old(k)@.wf(),
        old(k)@.issued < u64::MAX,
    ensures
        final(k)@.wf(),
        spawned(
            old(k)@,
            final(k)@,
            None,
            ThdAttr { stack_size: old(k)@.default_stack, privileged: true },
            r,
        ),
{
    Builder::new().spawn(k)
}

/// The owner's side of a spawned thread: joinable until joined, stopped or
/// detached.
///
/// Dropping a handle does not detach its thread, since that needs the
/// kernel: a handle dropped without [`ThdHandle::detach`] leaves the thread's
/// slot and its result unreclaimed.
pub struct ThdHandle<R> {
    thdd: ThdD,
    join_state: XwEr,
    element: ThdElement,
    rv: PhantomData<R>,
}

impl<R> ThdHandle<R> {
    pub closed spec fn thdd_spec(&self) -> ThdD {
        self.thdd
    }

    pub closed spec fn join_state_spec(&self) -> XwEr {
        self.join_state
    }

    pub closed spec fn name_spec(&self) -> Option<Seq<char>> {
        self.element.name_spec()
    }

    /// The thread's descriptor.
    pub fn thdd(&self) -> (r: &ThdD)
        ensures
            *r == self.thdd_spec(),
    {
        &self.thdd
    }

    /// The thread's element.
    pub fn element(&self) -> (r: &ThdElement)
        ensures
            r.name_spec() == self.name_spec(),
    {
        &self.element
    }

    /// `STATE_JOINABLE` until a join or stop fails, then the error code of
    /// the last failure.
    pub fn join_state(&self) -> (r: XwEr)
        ensures
            r == self.join_state_spec(),
    {
        self.join_state
    }

    /// Whether the thread's body has returned. Never blocks.
    pub fn finished(&self, k: &Kernel<R>) -> (r: bool)
        ensures
            r == (k@.valid(self.thdd_spec()) && k@.rec(self.thdd_spec()).exited),
    {
        k.is_valid(self.thdd) && !k.is_running(self.thdd)
    }

    /// Asks the thread to quit; see [`ThdD::quit`].
    pub fn quit(&self, k: &mut Kernel<R>) -> (r: XwEr)
        requires
            old(k)@.wf(),
        ensures
            final(k)@.wf(),
            r == (if old(k)@.valid(self.thdd_spec()) { XWOK } else { (-ESRCH) as XwEr }),
            final(k)@ == (if old(k)@.valid(self.thdd_spec()) {
                old(k)@.quitted(self.thdd_spec())
            } else {
                old(k)@
            }),
    {
        self.thdd.quit(k)
    }

    /// Joins the thread from thread `joiner`: waits until the thread's body
    /// has returned, then takes the value it returned and reclaims the slot.
    /// While the thread runs and no interrupt is pending for the joiner, the
    /// join is blocked and comes back as a [`Joining`] to resume later. On
    /// failure the handle comes back with the error code as its join state:
    /// `-ESRCH` when the thread is gone, `-ENOTTHDCTX` when `joiner` is not a
    /// thread, `-EINTR` when the joiner's wait was interrupted.
    pub fn join(self, k: &mut Kernel<R>, joiner: ThdD) -> (r: JoinPoll<R>)
        requires
            old(k)@.wf(),
        ensures
            final(k)@.wf(),
            join_polled(old(k)@, final(k)@, self, joiner, r),
    {
        Joining { handle: self, joiner }.resume(k)
    }

    /// Asks the thread to quit, then joins it; see [`ThdHandle::join`].
    pub fn stop(self, k: &mut Kernel<R>, joiner: ThdD) -> (r: JoinPoll<R>)
        requires
            old(k)@.wf(),
        ensures
            final(k)@.wf(),
            join_polled(
                if old(k)@.valid(self.thdd_spec()) {
                    old(k)@.quitted(self.thdd_spec())
                } else {
                    old(k)@
                },
                final(k)@,
                self,
                joiner,
                r,
            ),
    {
        self.thdd.quit(k);
        self.join(k, joiner)
    }

    /// Gives up the handle. The thread goes on running and its slot is
    /// reclaimed when its body returns, at once if it already has; its value
    /// can no longer be taken.
    pub fn detach(self, k: &mut Kernel<R>) -> (r: XwEr)
        requires
            old(k)@.wf(),
        ensures
            final(k)@.wf(),
            r == (if old(k)@.valid(self.thdd_spec()) { XWOK } else { (-ESRCH) as XwEr }),
            final(k)@ == (if old(k)@.valid(self.thdd_spec()) {
                old(k)@.detached(self.thdd_spec())
            } else {
                old(k)@
            }),
    {
        let d = self.thdd;
        if !k.is_valid(d) {
            return -ESRCH;
        }
        if k.thds[d.thd].exited {
            k.thds[d.thd].live = false;
            k.thds[d.thd].result = None;
            proof {
                assert(k@.thds =~= old(k)@.detached(d).thds);
            }
        } else {
            k.thds[d.thd].detached = true;
            proof {
                assert(k@.thds =~= old(k)@.detached(d).thds);
            }
        }
        XWOK
    }
}

/// A join in progress: the handle, and the thread blocked in joining it.
pub struct Joining<R> {
    handle: ThdHandle<R>,
    joiner: ThdD,
}

/// What a join finds.
pub enum JoinPoll<R> {
    /// The joiner is still blocked.
    Blocked(Joining<R>),
    /// The thread was joined; this is the value its body returned.
    Joined(R),
    /// The join failed; the handle comes back with the error code as its
    /// join state.
    Failed(ThdHandle<R>),
}

impl<R> Joining<R> {
    pub closed spec fn handle_spec(&self) -> ThdHandle<R> {
        self.handle
    }

    pub closed spec fn joiner_spec(&self) -> ThdD {
        self.joiner
    }

    /// The thread blocked in the join.
    pub fn joiner(&self) -> (r: ThdD)
        ensures
            r == self.joiner_spec(),
    {
        self.joiner
    }

    /// The handle being joined.
    pub fn handle(&self) -> (r: &ThdHandle<R>)
        ensures
            *r == self.handle_spec(),
    {
        &self.handle
    }

    /// Resumes the blocked joiner; see [`ThdHandle::join`].
    pub fn resume(self, k: &mut Kernel<R>) -> (r: JoinPoll<R>)
        requires
            old(k)@.wf(),
        ensures
            final(k)@.wf(),
            join_polled(old(k)@, final(k)@, self.handle_spec(), self.joiner_spec(), r),
    {
        let t = self.handle.thdd;
        let joiner = self.joiner;
        if !k.is_valid(t) {
            let mut h = self.handle;
            h.join_state = -ESRCH;
            return JoinPoll::Failed(h);
        }
        if !k.is_valid(joiner) {
            let mut h = self.handle;
            h.join_state = -ENOTTHDCTX;
            return JoinPoll::Failed(h);
        }
        if k.is_running(t) {
            if !k.is_intr_pending(joiner) {
                return JoinPoll::Blocked(self);
            }
            k.take_intr(joiner);
            let mut h = self.handle;
            h.join_state = -EINTR;
            return JoinPoll::Failed(h);
        }
        JoinPoll::Joined(k.reap(t))
    }
}

/// What a join of handle `h` from `j` did to kernel state `o`, giving `f` and
/// the result `r`: blocked with nothing changed while the thread runs and no
/// interrupt is pending for the joiner, else joined or failed as
/// [`KernelView::join_code`] says.
pub open spec fn join_polled<R>(
    o: KernelView<R>,
    f: KernelView<R>,
    h: ThdHandle<R>,
    j: ThdD,
    r: JoinPoll<R>,
) -> bool {
    let t = h.thdd_spec();
    let code = o.join_code(t, j);
    &&& r is Blocked <==> o.join_blocks(t, j)
    &&& r is Blocked ==> r->Blocked_0.handle_spec() == h && r->Blocked_0.joiner_spec() == j && f == o
    &&& r is Joined <==> !o.join_blocks(t, j) && code == XWOK
    &&& r is Joined ==> Some(r->Joined_0) == o.rec(t).result && f == o.reclaimed(t)
    &&& r is Failed ==> {
        &&& r->Failed_0.thdd_spec() == t
        &&& r->Failed_0.join_state_spec() == code
        &&& r->Failed_0.name_spec() == h.name_spec()
        &&& f == (if code == -EINTR { o.intr_taken(j) } else { o })
    }
}

/// Stopping a running thread from another thread with no interrupt pending
/// records the quit request, posts the thread an interrupt, and blocks the
/// joiner. Once the thread's body returns with `v`, resuming the join takes
/// `v` and reclaims the slot.
pub proof fn lemma_stop_running<R>(k: KernelView<R>, t: ThdD, j: ThdD, v: R)
    requires
        k.running(t),
        k.valid(j),
        !k.rec(j).intr,
        j.thd != t.thd,
    ensures
        k.quitted(t).rec(t).quit,
        k.quitted(t).rec(t).intr,
        k.quitted(t).join_blocks(t, j),
        ({
            let k1 = k.quitted(t);
            let k2 = k1.set(t, KThd { exited: true, result: Some(v), ..k1.rec(t) });
            &&& !k2.join_blocks(t, j)
            &&& k2.join_code(t, j) == XWOK
            &&& k2.rec(t).result == Some(v)
        }),
{
}

/// Detaching a thread that was never joined leaves it running. When its
/// body returns, its slot is reclaimed on its own and no join, from any
/// thread, can take its value.
pub proof fn lemma_detach_runs_on<R>(k: KernelView<R>, d: ThdD, j: ThdD)
    requires
        k.wf(),
        k.running(d),
    ensures
        k.detached(d).wf(),
        k.detached(d).running(d),
        k.detached(d).rec(d).detached,
        ({
            let k1 = k.detached(d);
            let k2 = k1.set(d, KThd { exited: true, live: false, ..k1.rec(d) });
            &&& !k2.valid(d)
            &&& k2.join_code(d, j) == -ESRCH
        }),
{
    let k1 = k.detached(d);
    assert forall|i: int|
        0 <= i < k1.thds.len() && #[trigger] k1.thds[i].live && k1.thds[i].exited implies k1.thds[i].result is Some
        && !k1.thds[i].detached by {
        if i != d.thd {
            assert(k1.thds[i] == k.thds[i]);
        }
    }
}

} // verus!
