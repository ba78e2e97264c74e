//! Serving a trapped system call: decoding it, running the handlers that
//! need neither user memory nor the file system, and writing their result
//! into the return register.
use vstd::prelude::*;
use crate::abi::{F_GETFL, F_GETLK, F_OFD_GETLK};
use crate::errno::SysResult;
use crate::fd_ops::{Flock, close_spec, fcntl_spec, sys_close, sys_fcntl};
use crate::fd_table::{FdEntry, FdTable, FileObject};
use crate::resources::Rlimits;
use crate::syscall::{
    SyscallRequest, UserContext, complete_syscall, dispatch_spec, handle_syscall, looked_up_name,
    request_for, retval_spec,
};
use crate::thread::{
    ThreadState, set_robust_list_spec, set_tid_address_spec, sys_set_robust_list, sys_set_tid_address,
};

verus! {

/// The request that the registers hold, if the number names a served call.
pub open spec fn decoded(u: UserContext) -> Option<SyscallRequest> {
    match looked_up_name(u.sysno) {
        None => None,
        Some(n) => request_for(n, u),
    }
}

/// The requests that are run here: `close`, `set_tid_address`,
/// `set_robust_list`, and `fcntl` except for the commands that read the
/// user's lock record or the file's status (`F_GETLK`, `F_OFD_GETLK`,
/// `F_GETFL`).
pub open spec fn runs_here(req: SyscallRequest) -> bool {
    match req {
        SyscallRequest::Close { .. } => true,
        SyscallRequest::SetTidAddress { .. } => true,
        SyscallRequest::SetRobustList { .. } => true,
        SyscallRequest::Fcntl { cmd, .. } => {
            let c = cmd as u32;
            !(c == F_GETLK || c == F_OFD_GETLK || c == F_GETFL)
        },
        _ => false,
    }
}

/// What running a request here does to the descriptor table and the
/// thread, and what it returns. (The status given to `fcntl_spec` is never
/// read: `F_GETFL` is not run here.)
pub open spec fn served_spec(
    req: SyscallRequest,
    bf: Seq<Option<FdEntry>>,
    bo: Seq<FileObject>,
    af: Seq<Option<FdEntry>>,
    ao: Seq<FileObject>,
    bt: ThreadState,
    at: ThreadState,
    nofile: u64,
    r: SysResult<isize>,
) -> bool {
    match req {
        SyscallRequest::Close { fd } => close_spec(bf, af, fd, r) && ao == bo && at == bt,
        SyscallRequest::Fcntl { fd, cmd, arg } => fcntl_spec(
            bf,
            bo,
            None,
            af,
            ao,
            None,
            nofile,
            fd,
            cmd,
            arg,
            Ok(0),
            r,
        ) && at == bt,
        SyscallRequest::SetTidAddress { clear_child_tid } => set_tid_address_spec(bt, at, clear_child_tid, r)
            && af == bf && ao == bo,
        SyscallRequest::SetRobustList { head, size } => set_robust_list_spec(bt, at, head, size, r) && af
            == bf && ao == bo,
        _ => false,
    }
}

/// Serves a trapped system call. A number that names no served call is
/// answered as [`crate::syscall::dispatch_syscall`] answers it; a request
/// that [`runs_here`] is run and its result written into the return
/// register; any other request is handed back, with nothing changed, for
/// the caller to run with user memory or the file system and finish with
/// [`complete_syscall`].
pub fn serve_syscall(
    uctx: &mut UserContext,
    files: &mut FdTable,
    limits: &Rlimits,
    thread: &mut ThreadState,
) -> (r: Option<SyscallRequest>)
    requires
        old(files).wf(),
        limits.wf(),
    ensures
        final(files).wf(),
        decoded(*old(uctx)) is None ==> {
            &&& r is None
            &&& dispatch_spec(*old(uctx), looked_up_name(old(uctx).sysno), *final(uctx), None)
            &&& final(files).fds() == old(files).fds()
            &&& final(files).objects() == old(files).objects()
            &&& *final(thread) == *old(thread)
        },
        decoded(*old(uctx)) matches Some(req) ==> if runs_here(req) {
            &&& r is None
            &&& exists|res: SysResult<isize>|
                #[trigger] served_spec(
                    req,
                    old(files).fds(),
                    old(files).objects(),
                    final(files).fds(),
                    final(files).objects(),
                    *old(thread),
                    *final(thread),
                    limits.nofile(),
                    res,
                ) && *final(uctx) == (UserContext { retval: retval_spec(res), ..*old(uctx) })
        } else {
            &&& r == Some(req)
            &&& *final(uctx) == *old(uctx)
            &&& final(files).fds() == old(files).fds()
            &&& final(files).objects() == old(files).objects()
            &&& *final(thread) == *old(thread)
        },
{
    let ghost f0 = files.fds();
    let ghost o0 = files.objects();
    let ghost t0 = *thread;
    let req = match handle_syscall(uctx) {
        None => {
            return None;
        },
        Some(q) => q,
    };
    let res = match req {
        SyscallRequest::Close { fd } => sys_close(files, fd),
        SyscallRequest::SetTidAddress { clear_child_tid } => sys_set_tid_address(thread, clear_child_tid),
        SyscallRequest::SetRobustList { head, size } => sys_set_robust_list(thread, head, size),
        SyscallRequest::Fcntl { fd, cmd, arg } => {
            let c = cmd as u32;
            if c == F_GETLK || c == F_OFD_GETLK || c == F_GETFL {
                return Some(req);
            }
            let mut lock: Option<Flock> = None;
            sys_fcntl(files, limits, fd, cmd, arg, &mut lock, Ok(0))
        },
        _ => {
            return Some(req);
        },
    };
    assert(served_spec(req, f0, o0, files.fds(), files.objects(), t0, *thread, limits.nofile(), res));
    assert(res matches Err(e) ==> e is Ax);
    complete_syscall(uctx, res);
    None
}

} // verus!
