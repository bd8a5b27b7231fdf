//! Thread synchronisation primitives and a thread-lifecycle manager for
//! kernel objects that live in manually managed storage.
//!
//! Every kernel object carries a ticket, a generation tag given when the
//! storage is constructed. A handle checks the ticket before each operation,
//! so it never acts on storage that was torn down or rebuilt since.
//!
//! The kernel itself is modelled here: [`thd::Kernel`] holds the thread
//! table, [`cond::Cond`] the condition variable with its wait queue, and
//! [`lock::Lock`] the locks whose guards the wait operations consume.

pub mod cond;
pub mod errno;
pub mod lock;
pub mod thd;
