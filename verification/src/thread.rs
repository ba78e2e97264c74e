//! Per-thread state that user space registers with the kernel, and the
//! calls that register it: `set_tid_address(2)` and `set_robust_list(2)`.
use vstd::prelude::*;
use crate::abi::ROBUST_LIST_HEAD_SIZE;
use crate::errno::{ErrorKind, SysError, SysResult};

verus! {

/// The kernel's record of a thread.
#[derive(Clone, Copy, Debug, PartialEq, Eq, Structural)]
pub struct ThreadState {
    /// The thread id.
    pub tid: u64,
    /// Address cleared (and woken) when the thread exits.
    pub clear_child_tid: usize,
    /// Address of the head of the thread's robust futex list.
    pub robust_list_head: usize,
}

/// What `set_tid_address` does to the thread and returns.
pub open spec fn set_tid_address_spec(
    before: ThreadState,
    after: ThreadState,
    clear_child_tid: usize,
    r: SysResult<isize>,
) -> bool {
    after == (ThreadState { clear_child_tid, ..before }) && r == Ok::<isize, SysError>(before.tid as isize)
}

/// What `set_robust_list` does to the thread and returns.
pub open spec fn set_robust_list_spec(
    before: ThreadState,
    after: ThreadState,
    head: usize,
    size: usize,
    r: SysResult<isize>,
) -> bool {
    if size != ROBUST_LIST_HEAD_SIZE {
        r == Err::<isize, SysError>(SysError::Ax(ErrorKind::InvalidInput)) && after == before
    } else {
        r == Ok::<isize, SysError>(0) && after == (ThreadState { robust_list_head: head, ..before })
    }
}

/// `set_tid_address(2)`: records `clear_child_tid` and returns the caller's
/// thread id. It always succeeds.
pub fn sys_set_tid_address(thread: &mut ThreadState, clear_child_tid: usize) -> (r: SysResult<isize>)
    ensures
        set_tid_address_spec(*old(thread), *final(thread), clear_child_tid, r),
{
    thread.clear_child_tid = clear_child_tid;
    Ok(thread.tid as isize)
}

/// `set_robust_list(2)`: records `head` as the head of the robust futex
/// list; `EINVAL`, changing nothing, when `size` is not the size of
/// `struct robust_list_head`.
pub fn sys_set_robust_list(thread: &mut ThreadState, head: usize, size: usize) -> (r: SysResult<isize>)
    ensures
        set_robust_list_spec(*old(thread), *final(thread), head, size, r),
{
    if size != ROBUST_LIST_HEAD_SIZE {
        return Err(SysError::Ax(ErrorKind::InvalidInput));
    }
    thread.robust_list_head = head;
    Ok(0)
}

} // verus!
