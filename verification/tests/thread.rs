use starry_api::abi::ROBUST_LIST_HEAD_SIZE;
use starry_api::errno::{ErrorKind, SysError};
use starry_api::thread::{sys_set_robust_list, sys_set_tid_address, ThreadState};

#[test]
fn set_tid_address_returns_tid() {
    let mut t = ThreadState { tid: 42, clear_child_tid: 0, robust_list_head: 0 };
    assert_eq!(sys_set_tid_address(&mut t, 0x1000), Ok(42));
    assert_eq!(t, ThreadState { tid: 42, clear_child_tid: 0x1000, robust_list_head: 0 });
}

#[test]
fn set_robust_list_checks_size() {
    let mut t = ThreadState { tid: 1, clear_child_tid: 0, robust_list_head: 0 };
    assert_eq!(sys_set_robust_list(&mut t, 0x2000, ROBUST_LIST_HEAD_SIZE + 1), Err(SysError::Ax(ErrorKind::InvalidInput)));
    assert_eq!(t.robust_list_head, 0);
    assert_eq!(sys_set_robust_list(&mut t, 0x2000, 24), Ok(0));
    assert_eq!(t, ThreadState { tid: 1, clear_child_tid: 0, robust_list_head: 0x2000 });
}
