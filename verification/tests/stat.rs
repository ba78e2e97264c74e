use starry_api::abi::{AT_EMPTY_PATH, AT_FDCWD, AT_SYMLINK_NOFOLLOW};
use starry_api::errno::{ErrorKind, SysError};
use starry_api::fd_ops::{add_to_fd, DirBase, OpenedNode};
use starry_api::fd_table::FdTable;
use starry_api::resources::Rlimits;
use starry_api::stat::{sys_fstat, sys_fstatat, StatTarget};

#[test]
fn fstat_reads_the_open_file() {
    let mut files = FdTable::new();
    let limits = Rlimits::new();
    let fd = add_to_fd(&mut files, &limits, OpenedNode::File, 0).unwrap();
    assert_eq!(sys_fstat(&files, fd), Ok(StatTarget::Object { object: 0 }));
    assert_eq!(sys_fstat(&files, fd + 1), Err(SysError::Ax(ErrorKind::BadFileDescriptor)));
}

#[test]
fn empty_path_needs_at_empty_path() {
    let mut files = FdTable::new();
    let limits = Rlimits::new();
    let fd = add_to_fd(&mut files, &limits, OpenedNode::File, 0).unwrap();
    assert_eq!(sys_fstatat(&files, fd, Some(""), 0), Err(SysError::Ax(ErrorKind::NotFound)));
    assert_eq!(sys_fstatat(&files, fd, None, 0), Err(SysError::Ax(ErrorKind::NotFound)));
    assert_eq!(sys_fstatat(&files, fd, Some(""), AT_EMPTY_PATH), Ok(StatTarget::Object { object: 0 }));
}

#[test]
fn paths_are_looked_up_from_dirfd() {
    let mut files = FdTable::new();
    let limits = Rlimits::new();
    let f = add_to_fd(&mut files, &limits, OpenedNode::File, 0).unwrap();
    let d = add_to_fd(&mut files, &limits, OpenedNode::Dir, 0).unwrap();
    assert_eq!(
        sys_fstatat(&files, AT_FDCWD, Some("a/b"), 0),
        Ok(StatTarget::Path { base: DirBase::Cwd, follow: true })
    );
    assert_eq!(
        sys_fstatat(&files, d, Some("x"), AT_SYMLINK_NOFOLLOW),
        Ok(StatTarget::Path { base: DirBase::Dir { object: 1 }, follow: false })
    );
    assert_eq!(sys_fstatat(&files, f, Some("x"), 0), Err(SysError::Ax(ErrorKind::NotADirectory)));
    assert_eq!(sys_fstatat(&files, 30, Some("x"), 0), Err(SysError::Ax(ErrorKind::BadFileDescriptor)));
}
