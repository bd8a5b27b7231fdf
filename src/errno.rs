//! Error numbers and the integer types shared with the kernel interface.

use vstd::prelude::*;

verus! {

/// Error code of a kernel operation: zero on success, a negated error number
/// on failure.
pub type XwEr = i32;

/// No error.
pub const XWOK: XwEr = 0;

/// No such thread: the ticket does not name a live thread.
pub const ESRCH: XwEr = 3;

/// A blocking call was interrupted.
pub const EINTR: XwEr = 4;

/// Out of memory: no room is left in the thread table.
pub const ENOMEM: XwEr = 12;

/// No such device: the processor number is out of range.
pub const ENODEV: XwEr = 19;

/// The caller is not a thread.
pub const ENOTTHDCTX: XwEr = 130;

} // verus!
