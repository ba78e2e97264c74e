use syscalls::Sysno;
use starry_api::abi::{FD_CLOEXEC, F_GETFL, F_SETFD};
use starry_api::fd_ops::{add_to_fd, OpenedNode};
use starry_api::fd_table::FdTable;
use starry_api::resources::Rlimits;
use starry_api::serve::serve_syscall;
use starry_api::syscall::{SyscallRequest, UserContext};
use starry_api::thread::ThreadState;

fn ctx(sysno: Sysno, args: [usize; 6]) -> UserContext {
    UserContext {
        sysno: sysno as usize,
        arg0: args[0],
        arg1: args[1],
        arg2: args[2],
        arg3: args[3],
        arg4: args[4],
        arg5: args[5],
        retval: 0,
    }
}

fn setup() -> (FdTable, Rlimits, ThreadState) {
    (FdTable::new(), Rlimits::new(), ThreadState { tid: 7, clear_child_tid: 0, robust_list_head: 0 })
}

#[test]
fn close_is_served_here() {
    let (mut files, limits, mut thread) = setup();
    let fd = add_to_fd(&mut files, &limits, OpenedNode::File, 0).unwrap();
    let mut u = ctx(Sysno::close, [fd as usize, 0, 0, 0, 0, 0]);
    assert_eq!(serve_syscall(&mut u, &mut files, &limits, &mut thread), None);
    assert_eq!(u.retval, 0);
    assert_eq!(files.entry(fd), None);
    let mut u = ctx(Sysno::close, [fd as usize, 0, 0, 0, 0, 0]);
    assert_eq!(serve_syscall(&mut u, &mut files, &limits, &mut thread), None);
    assert_eq!(u.retval as isize, -9);
}

#[test]
fn thread_calls_are_served_here() {
    let (mut files, limits, mut thread) = setup();
    let mut u = ctx(Sysno::set_tid_address, [0x1000, 0, 0, 0, 0, 0]);
    assert_eq!(serve_syscall(&mut u, &mut files, &limits, &mut thread), None);
    assert_eq!(u.retval, 7);
    assert_eq!(thread.clear_child_tid, 0x1000);
    let mut u = ctx(Sysno::set_robust_list, [0x2000, 23, 0, 0, 0, 0]);
    assert_eq!(serve_syscall(&mut u, &mut files, &limits, &mut thread), None);
    assert_eq!(u.retval as isize, -22);
    assert_eq!(thread.robust_list_head, 0);
    let mut u = ctx(Sysno::set_robust_list, [0x2000, 24, 0, 0, 0, 0]);
    assert_eq!(serve_syscall(&mut u, &mut files, &limits, &mut thread), None);
    assert_eq!(u.retval, 0);
    assert_eq!(thread.robust_list_head, 0x2000);
}

#[test]
fn fcntl_is_served_here_unless_it_needs_the_status() {
    let (mut files, limits, mut thread) = setup();
    let fd = add_to_fd(&mut files, &limits, OpenedNode::File, 0).unwrap();
    let mut u = ctx(Sysno::fcntl, [fd as usize, F_SETFD as usize, FD_CLOEXEC as usize, 0, 0, 0]);
    assert_eq!(serve_syscall(&mut u, &mut files, &limits, &mut thread), None);
    assert_eq!(u.retval, 0);
    assert!(files.entry(fd).unwrap().cloexec);
    let before = ctx(Sysno::fcntl, [fd as usize, F_GETFL as usize, 0, 0, 0, 0]);
    let mut u = before;
    assert_eq!(
        serve_syscall(&mut u, &mut files, &limits, &mut thread),
        Some(SyscallRequest::Fcntl { fd, cmd: F_GETFL as i32, arg: 0 })
    );
    assert_eq!(u, before);
}

#[test]
fn other_calls_are_handed_back() {
    let (mut files, limits, mut thread) = setup();
    let before = ctx(Sysno::openat, [(-100i32) as usize, 0x10, 0, 0, 0, 0]);
    let mut u = before;
    assert_eq!(
        serve_syscall(&mut u, &mut files, &limits, &mut thread),
        Some(SyscallRequest::Openat { dirfd: -100, path: 0x10, flags: 0, mode: 0 })
    );
    assert_eq!(u, before);
    let mut u = ctx(Sysno::getpid, [0; 6]);
    assert_eq!(serve_syscall(&mut u, &mut files, &limits, &mut thread), None);
    assert_eq!(u.retval as isize, -38);
}
