//! The system-call layer of a small Unix-like kernel, modelled as verified
//! state transitions: open-flag conversion, the per-process descriptor
//! table and `fcntl`, resource limits, per-thread futex and tid bookkeeping,
//! system-call decoding and return-value encoding, and the parsing of the
//! init command line.
use vstd::prelude::*;

pub mod abi;
pub mod cmdline;
pub mod errno;
pub mod fd_ops;
pub mod fd_table;
pub mod laws;
pub mod open;
pub mod resources;
pub mod serve;
pub mod stat;
pub mod syscall;
pub mod thread;

use crate::errno::SysResult;

verus! {

/// Initialization of the system-call layer, given how mounting the virtual
/// file systems went. Booting goes on only when every file system was
/// mounted: a failed mount is fatal, so it is not an input this accepts.
pub fn init(mount_result: SysResult<()>)
    requires
        mount_result is Ok,
{
}

} // verus!
