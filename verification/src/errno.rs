//! Error codes shared by every layer of the stack.

use vstd::prelude::*;

verus! {

/// Why an operation was refused.
#[derive(Clone, Copy, Debug, PartialEq, Eq, Structural)]
pub enum Errno {
    /// The operation is not permitted.
    EPERM,
    /// No such entry.
    ENOENT,
    /// The call would block.
    EAGAIN,
    /// A buffer or a table is too small.
    ENOMEM,
    /// Access is refused.
    EACCES,
    /// The resource is in use, or a queue is full.
    EBUSY,
    /// An entry of that name is already there.
    EEXIST,
    /// No such device.
    ENODEV,
    /// A parameter or a packet is malformed.
    EINVAL,
    /// A message is longer than the channel takes.
    EFBIG,
    /// No free slot is left.
    ENOSPC,
    /// The connection is not in use.
    EPIPE,
}

} // verus!
