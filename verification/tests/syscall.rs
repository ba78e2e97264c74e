use syscalls::Sysno;
use starry_api::abi::ENOSYS;
use starry_api::errno::{ErrorKind, SysError};
use starry_api::syscall::{
    complete_syscall, dispatch_syscall, handle_syscall, str_eq, syscall_from_name, SyscallName, SyscallRequest,
    UserContext,
};

fn ctx(sysno: usize, args: [usize; 6]) -> UserContext {
    UserContext {
        sysno,
        arg0: args[0],
        arg1: args[1],
        arg2: args[2],
        arg3: args[3],
        arg4: args[4],
        arg5: args[5],
        retval: 0,
    }
}

#[test]
fn invalid_number_returns_enosys() {
    let mut u = ctx(usize::MAX, [0; 6]);
    assert_eq!(handle_syscall(&mut u), None);
    assert_eq!(u.retval as isize, -(ENOSYS as isize));
    assert_eq!(u.retval as isize, -38);
}

#[test]
fn unsupported_call_fails() {
    let mut u = ctx(Sysno::getpid as usize, [0; 6]);
    assert_eq!(handle_syscall(&mut u), None);
    assert_eq!(u.retval as isize, -38);
}

#[test]
fn served_calls_are_decoded() {
    let mut u = ctx(Sysno::openat as usize, [(-100i32) as usize, 0x4000, 0o101, 0o644, 9, 9]);
    assert_eq!(
        handle_syscall(&mut u),
        Some(SyscallRequest::Openat { dirfd: -100, path: 0x4000, flags: 0o101, mode: 0o644 })
    );
    assert_eq!(u.retval, 0);
    let mut u = ctx(Sysno::close as usize, [0x1_0000_0003, 0, 0, 0, 0, 0]);
    assert_eq!(handle_syscall(&mut u), Some(SyscallRequest::Close { fd: 3 }));
    let mut u = ctx(Sysno::fcntl as usize, [4, 1030, 7, 0, 0, 0]);
    assert_eq!(handle_syscall(&mut u), Some(SyscallRequest::Fcntl { fd: 4, cmd: 1030, arg: 7 }));
    let mut u = ctx(Sysno::prlimit64 as usize, [0, 7, 0x10, 0x20, 0, 0]);
    assert_eq!(
        handle_syscall(&mut u),
        Some(SyscallRequest::Prlimit64 { pid: 0, resource: 7, new_limit: 0x10, old_limit: 0x20 })
    );
    let mut u = ctx(Sysno::set_robust_list as usize, [0x30, 24, 0, 0, 0, 0]);
    assert_eq!(handle_syscall(&mut u), Some(SyscallRequest::SetRobustList { head: 0x30, size: 24 }));
    let mut u = ctx(Sysno::set_tid_address as usize, [0x40, 0, 0, 0, 0, 0]);
    assert_eq!(handle_syscall(&mut u), Some(SyscallRequest::SetTidAddress { clear_child_tid: 0x40 }));
    let mut u = ctx(Sysno::mmap as usize, [1, 2, 3, 4, 5, 6]);
    assert_eq!(handle_syscall(&mut u), Some(SyscallRequest::Mmap(1, 2, 3, 4, 5, 6)));
    let mut u = ctx(Sysno::exit_group as usize, [7, 0, 0, 0, 0, 0]);
    assert_eq!(handle_syscall(&mut u), Some(SyscallRequest::ExitGroup(7)));
}

#[test]
fn names_of_served_calls() {
    assert_eq!(syscall_from_name("openat"), SyscallName::Openat);
    assert_eq!(syscall_from_name("getrandom"), SyscallName::Getrandom);
    assert_eq!(syscall_from_name("set_tid_address"), SyscallName::SetTidAddress);
    assert_eq!(syscall_from_name("open"), SyscallName::Other);
    assert_eq!(syscall_from_name(""), SyscallName::Other);
    assert!(str_eq("fcntl", "fcntl"));
    assert!(!str_eq("fcntl", "fcntl64"));
}

#[test]
fn dispatch_of_lookup_results() {
    let mut u = ctx(0, [5, 0, 0, 0, 0, 0]);
    assert_eq!(dispatch_syscall(&mut u, None), None);
    assert_eq!(u.retval as isize, -38);
    let mut u = ctx(0, [5, 0, 0, 0, 0, 0]);
    assert_eq!(dispatch_syscall(&mut u, Some(SyscallName::Other)), None);
    assert_eq!(u.retval as isize, -38);
    let mut u = ctx(0, [5, 6, 7, 0, 0, 0]);
    assert_eq!(dispatch_syscall(&mut u, Some(SyscallName::Read)), Some(SyscallRequest::Read(5, 6, 7)));
    assert_eq!(u.retval, 0);
}

#[test]
fn results_are_encoded() {
    let mut u = ctx(0, [0; 6]);
    complete_syscall(&mut u, Ok(5));
    assert_eq!(u.retval, 5);
    complete_syscall(&mut u, Err(SysError::Ax(ErrorKind::BadFileDescriptor)));
    assert_eq!(u.retval as isize, -9);
    complete_syscall(&mut u, Err(SysError::Ax(ErrorKind::TooManyOpenFiles)));
    assert_eq!(u.retval as isize, -24);
    complete_syscall(&mut u, Err(SysError::Linux(13)));
    assert_eq!(u.retval as isize, -13);
}

#[test]
fn decoding_changes_only_the_return_register() {
    let before = ctx(Sysno::getpid as usize, [1, 2, 3, 4, 5, 6]);
    let mut u = before;
    assert_eq!(handle_syscall(&mut u), None);
    assert_eq!(u, UserContext { retval: u.retval, ..before });
    let before = ctx(Sysno::brk as usize, [1, 2, 3, 4, 5, 6]);
    let mut u = before;
    assert_eq!(handle_syscall(&mut u), Some(SyscallRequest::Brk(1)));
    assert_eq!(u, before);
}
