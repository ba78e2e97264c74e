//! System-call entry: decoding the number and arguments that user space
//! passed, and encoding the result into the return register.
use vstd::prelude::*;
use starry_process::Pid;
use syscalls::Sysno;
use crate::abi::ENOSYS;
use crate::errno::{ErrorKind, SysError, SysResult, errno, errno_in_range, errno_spec};

verus! {

/// The name (as `syscalls::Sysno::name` spells it, such as `"openat"`) of
/// the system call that number `id` stands for in the table of the
/// architecture the kernel is built for, or `None` when `id` names none.
pub uninterp spec fn syscall_name_of(id: usize) -> Option<Seq<char>>;

/// `syscalls::Sysno::new` followed by `Sysno::name`: the name of the system
/// call numbered `id`. The table is fixed by the target architecture, so the
/// contract only names the result as a function of `id`.
#[verifier::external_body]
fn lookup_syscall_name(id: usize) -> (r: Option<&'static str>)
    ensures
        r is None <==> syscall_name_of(id) is None,
        r matches Some(n) ==> syscall_name_of(id) == Some(n@),
{
    match Sysno::new(id) {
        None => None,
        Some(s) => Some(s.name()),
    }
}

/// The registers of a trapped system call.
#[derive(Clone, Copy, Debug, PartialEq, Eq, Structural)]
pub struct UserContext {
    pub sysno: usize,
    pub arg0: usize,
    pub arg1: usize,
    pub arg2: usize,
    pub arg3: usize,
    pub arg4: usize,
    pub arg5: usize,
    pub retval: usize,
}

/// The system calls this kernel serves; every other one is `Other`.
#[derive(Clone, Copy, Debug, PartialEq, Eq, Structural)]
pub enum SyscallName {
    Openat,
    Close,
    Read,
    Write,
    Lseek,
    Fstat,
    Fcntl,
    Ioctl,
    Readlinkat,
    Brk,
    Mmap,
    Mprotect,
    Exit,
    ExitGroup,
    SetTidAddress,
    SetRobustList,
    Prlimit64,
    Getrandom,
    Other,
}

/// A decoded system call. The calls whose handlers live in this crate get
/// typed arguments; the others carry the raw registers.
#[derive(Clone, Copy, Debug, PartialEq, Eq, Structural)]
pub enum SyscallRequest {
    Openat { dirfd: i32, path: usize, flags: i32, mode: u32 },
    Close { fd: i32 },
    Read(usize, usize, usize),
    Write(usize, usize, usize),
    Lseek(usize, usize, usize),
    Fstat { fd: i32, statbuf: usize },
    Fcntl { fd: i32, cmd: i32, arg: usize },
    Ioctl(usize, usize, usize),
    Readlinkat(usize, usize, usize, usize),
    Brk(usize),
    Mmap(usize, usize, usize, usize, usize, usize),
    Mprotect(usize, usize, usize),
    Exit(usize),
    ExitGroup(usize),
    SetTidAddress { clear_child_tid: usize },
    SetRobustList { head: usize, size: usize },
    Prlimit64 { pid: Pid, resource: u32, new_limit: usize, old_limit: usize },
    Getrandom(usize, usize, usize),
}

/// The system call a name stands for.
pub open spec fn name_spec(name: Seq<char>) -> SyscallName {
    if name == "openat"@ {
        SyscallName::Openat
    } else if name == "close"@ {
        SyscallName::Close
    } else if name == "read"@ {
        SyscallName::Read
    } else if name == "write"@ {
        SyscallName::Write
    } else if name == "lseek"@ {
        SyscallName::Lseek
    } else if name == "fstat"@ {
        SyscallName::Fstat
    } else if name == "fcntl"@ {
        SyscallName::Fcntl
    } else if name == "ioctl"@ {
        SyscallName::Ioctl
    } else if name == "readlinkat"@ {
        SyscallName::Readlinkat
    } else if name == "brk"@ {
        SyscallName::Brk
    } else if name == "mmap"@ {
        SyscallName::Mmap
    } else if name == "mprotect"@ {
        SyscallName::Mprotect
    } else if name == "exit"@ {
        SyscallName::Exit
    } else if name == "exit_group"@ {
        SyscallName::ExitGroup
    } else if name == "set_tid_address"@ {
        SyscallName::SetTidAddress
    } else if name == "set_robust_list"@ {
        SyscallName::SetRobustList
    } else if name == "prlimit64"@ {
        SyscallName::Prlimit64
    } else if name == "getrandom"@ {
        SyscallName::Getrandom
    } else {
        SyscallName::Other
    }
}

/// Whether two strings hold the same characters.
pub fn str_eq(a: &str, b: &str) -> (r: bool)
    ensures
        r == (a@ == b@),
{
    let n = a.unicode_len();
    if n != b.unicode_len() {
        return false;
    }
    let mut i: usize = 0;
    while i < n
        invariant
            n == a@.len(),
            n == b@.len(),
            i <= n,
            forall|j: int| 0 <= j < i ==> a@[j] == b@[j],
        decreases n - i,
    {
        if a.get_char(i) != b.get_char(i) {
            return false;
        }
        i = i + 1;
    }
    assert(a@ =~= b@);
    true
}

/// The system call that a name (as `Sysno::name` spells it) stands for.
pub fn syscall_from_name(name: &str) -> (r: SyscallName)
    ensures
        r == name_spec(name@),
{
    if str_eq(name, "openat") {
        SyscallName::Openat
    } else if str_eq(name, "close") {
        SyscallName::Close
    } else if str_eq(name, "read") {
        SyscallName::Read
    } else if str_eq(name, "write") {
        SyscallName::Write
    } else if str_eq(name, "lseek") {
        SyscallName::Lseek
    } else if str_eq(name, "fstat") {
        SyscallName::Fstat
    } else if str_eq(name, "fcntl") {
        SyscallName::Fcntl
    } else if str_eq(name, "ioctl") {
        SyscallName::Ioctl
    } else if str_eq(name, "readlinkat") {
        SyscallName::Readlinkat
    } else if str_eq(name, "brk") {
        SyscallName::Brk
    } else if str_eq(name, "mmap") {
        SyscallName::Mmap
    } else if str_eq(name, "mprotect") {
        SyscallName::Mprotect
    } else if str_eq(name, "exit") {
        SyscallName::Exit
    } else if str_eq(name, "exit_group") {
        SyscallName::ExitGroup
    } else if str_eq(name, "set_tid_address") {
        SyscallName::SetTidAddress
    } else if str_eq(name, "set_robust_list") {
        SyscallName::SetRobustList
    } else if str_eq(name, "prlimit64") {
        SyscallName::Prlimit64
    } else if str_eq(name, "getrandom") {
        SyscallName::Getrandom
    } else {
        SyscallName::Other
    }
}

/// The request for a served system call, with its arguments converted to
/// the types of its handler; `None` for a call this kernel does not serve.
pub open spec fn request_for(name: SyscallName, u: UserContext) -> Option<SyscallRequest> {
    match name {
        SyscallName::Openat => Some(
            SyscallRequest::Openat {
                dirfd: u.arg0 as i32,
                path: u.arg1,
                flags: u.arg2 as i32,
                mode: u.arg3 as u32,
            },
        ),
        SyscallName::Close => Some(SyscallRequest::Close { fd: u.arg0 as i32 }),
        SyscallName::Read => Some(SyscallRequest::Read(u.arg0, u.arg1, u.arg2)),
        SyscallName::Write => Some(SyscallRequest::Write(u.arg0, u.arg1, u.arg2)),
        SyscallName::Lseek => Some(SyscallRequest::Lseek(u.arg0, u.arg1, u.arg2)),
        SyscallName::Fstat => Some(SyscallRequest::Fstat { fd: u.arg0 as i32, statbuf: u.arg1 }),
        SyscallName::Fcntl => Some(SyscallRequest::Fcntl { fd: u.arg0 as i32, cmd: u.arg1 as i32, arg: u.arg2 }),
        SyscallName::Ioctl => Some(SyscallRequest::Ioctl(u.arg0, u.arg1, u.arg2)),
        SyscallName::Readlinkat => Some(SyscallRequest::Readlinkat(u.arg0, u.arg1, u.arg2, u.arg3)),
        SyscallName::Brk => Some(SyscallRequest::Brk(u.arg0)),
        SyscallName::Mmap => Some(SyscallRequest::Mmap(u.arg0, u.arg1, u.arg2, u.arg3, u.arg4, u.arg5)),
        SyscallName::Mprotect => Some(SyscallRequest::Mprotect(u.arg0, u.arg1, u.arg2)),
        SyscallName::Exit => Some(SyscallRequest::Exit(u.arg0)),
        SyscallName::ExitGroup => Some(SyscallRequest::ExitGroup(u.arg0)),
        SyscallName::SetTidAddress => Some(SyscallRequest::SetTidAddress { clear_child_tid: u.arg0 }),
        SyscallName::SetRobustList => Some(SyscallRequest::SetRobustList { head: u.arg0, size: u.arg1 }),
        SyscallName::Prlimit64 => Some(
            SyscallRequest::Prlimit64 {
                pid: u.arg0 as u32,
                resource: u.arg1 as u32,
                new_limit: u.arg2,
                old_limit: u.arg3,
            },
        ),
        SyscallName::Getrandom => Some(SyscallRequest::Getrandom(u.arg0, u.arg1, u.arg2)),
        SyscallName::Other => None,
    }
}

/// The return register for a result: the value on success, the negated
/// Linux error number on failure.
pub open spec fn retval_spec(result: SysResult<isize>) -> usize {
    match result {
        Ok(v) => v as usize,
        Err(e) => (-(errno_spec(e) as isize)) as usize,
    }
}

/// The return register for a number that names no system call.
pub open spec fn enosys_retval() -> usize {
    (-(ENOSYS as isize)) as usize
}

/// What dispatching does: a number that names no system call returns
/// `-ENOSYS`; one that this kernel does not serve fails as unsupported;
/// a served one becomes a request, with the registers left as they were.
pub open spec fn dispatch_spec(
    before: UserContext,
    name: Option<SyscallName>,
    after: UserContext,
    r: Option<SyscallRequest>,
) -> bool {
    match name {
        None => r is None && after == UserContext { retval: enosys_retval(), ..before },
        Some(n) => match request_for(n, before) {
            None => r is None && after == UserContext {
                retval: retval_spec(Err(SysError::Ax(ErrorKind::Unsupported))),
                ..before
            },
            Some(req) => r == Some(req) && after == before,
        },
    }
}

/// Decodes a system call whose number has been looked up as `name`.
pub fn dispatch_syscall(uctx: &mut UserContext, name: Option<SyscallName>) -> (r: Option<SyscallRequest>)
    ensures
        dispatch_spec(*old(uctx), name, *final(uctx), r),
{
    let u = *uctx;
    match name {
        None => {
            uctx.retval = (-(ENOSYS as isize)) as usize;
            None
        },
        Some(n) => {
            let req = match n {
                SyscallName::Openat => SyscallRequest::Openat {
                    dirfd: u.arg0 as i32,
                    path: u.arg1,
                    flags: u.arg2 as i32,
                    mode: u.arg3 as u32,
                },
                SyscallName::Close => SyscallRequest::Close { fd: u.arg0 as i32 },
                SyscallName::Read => SyscallRequest::Read(u.arg0, u.arg1, u.arg2),
                SyscallName::Write => SyscallRequest::Write(u.arg0, u.arg1, u.arg2),
                SyscallName::Lseek => SyscallRequest::Lseek(u.arg0, u.arg1, u.arg2),
                SyscallName::Fstat => SyscallRequest::Fstat { fd: u.arg0 as i32, statbuf: u.arg1 },
                SyscallName::Fcntl => SyscallRequest::Fcntl {
                    fd: u.arg0 as i32,
                    cmd: u.arg1 as i32,
                    arg: u.arg2,
                },
                SyscallName::Ioctl => SyscallRequest::Ioctl(u.arg0, u.arg1, u.arg2),
                SyscallName::Readlinkat => SyscallRequest::Readlinkat(u.arg0, u.arg1, u.arg2, u.arg3),
                SyscallName::Brk => SyscallRequest::Brk(u.arg0),
                SyscallName::Mmap => SyscallRequest::Mmap(u.arg0, u.arg1, u.arg2, u.arg3, u.arg4, u.arg5),
                SyscallName::Mprotect => SyscallRequest::Mprotect(u.arg0, u.arg1, u.arg2),
                SyscallName::Exit => SyscallRequest::Exit(u.arg0),
                SyscallName::ExitGroup => SyscallRequest::ExitGroup(u.arg0),
                SyscallName::SetTidAddress => SyscallRequest::SetTidAddress { clear_child_tid: u.arg0 },
                SyscallName::SetRobustList => SyscallRequest::SetRobustList { head: u.arg0, size: u.arg1 },
                SyscallName::Prlimit64 => SyscallRequest::Prlimit64 {
                    pid: u.arg0 as u32,
                    resource: u.arg1 as u32,
                    new_limit: u.arg2,
                    old_limit: u.arg3,
                },
                SyscallName::Getrandom => SyscallRequest::Getrandom(u.arg0, u.arg1, u.arg2),
                SyscallName::Other => {
                    complete_syscall(uctx, Err(SysError::Ax(ErrorKind::Unsupported)));
                    return None;
                },
            };
            Some(req)
        },
    }
}

/// The served system call that number `id` stands for: `None` when `id`
/// names no system call, `Other` when it names one this kernel does not
/// serve.
pub open spec fn looked_up_name(id: usize) -> Option<SyscallName> {
    match syscall_name_of(id) {
        None => None,
        Some(n) => Some(name_spec(n)),
    }
}

/// Entry of a trapped system call: looks its number up and decodes it, as
/// [`dispatch_syscall`] does with the call that the number stands for.
pub fn handle_syscall(uctx: &mut UserContext) -> (r: Option<SyscallRequest>)
    ensures
        dispatch_spec(*old(uctx), looked_up_name(old(uctx).sysno), *final(uctx), r),
{
    let name = match lookup_syscall_name(uctx.sysno) {
        None => None,
        Some(n) => Some(syscall_from_name(n)),
    };
    dispatch_syscall(uctx, name)
}

/// Writes the result of a handled system call into the return register.
pub fn complete_syscall(uctx: &mut UserContext, result: SysResult<isize>)
    requires
        result matches Err(e) ==> errno_in_range(e),
    ensures
        *final(uctx) == (UserContext { retval: retval_spec(result), ..*old(uctx) }),
{
    let ret: isize = match result {
        Ok(v) => v,
        Err(e) => {
            let code = errno(e);
            (-code) as isize
        },
    };
    uctx.retval = ret as usize;
}

} // verus!
