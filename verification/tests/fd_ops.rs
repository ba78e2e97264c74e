use starry_api::abi::{
    AT_FDCWD, FD_CLOEXEC, FILE_LIMIT, F_DUPFD, F_DUPFD_CLOEXEC, F_GETFD, F_GETFL, F_GETLK, F_GETPIPE_SZ,
    F_OFD_GETLK, F_SETFD, F_SETFL, F_SETLK, F_SETPIPE_SZ, F_UNLCK, O_CLOEXEC, O_NONBLOCK, O_RDWR, O_WRONLY,
    RLIMIT_NOFILE,
};
use starry_api::errno::{ErrorKind, SysError};
use starry_api::fd_ops::{
    add_to_fd, dup_fd, resolve_dirfd, sys_close, sys_fcntl, sys_openat, DirBase, Flock, OpenedNode,
};
use starry_api::fd_table::{FdEntry, FdTable, FileKind, FileObject};
use starry_api::resources::{set_limit, Rlimit, Rlimits};

fn ebadf<T>() -> Result<T, SysError> {
    Err(SysError::Ax(ErrorKind::BadFileDescriptor))
}

const FILE: OpenedNode = OpenedNode::File;
const EIO: SysError = SysError::Linux(5);

fn pipe(capacity: usize, buffered: usize) -> FileObject {
    FileObject { kind: FileKind::Pipe, nonblocking: false, pipe_capacity: capacity, pipe_buffered: buffered }
}

/// `fcntl` on a file whose status cannot be read.
fn fcntl(files: &mut FdTable, limits: &Rlimits, fd: i32, cmd: u32, arg: usize) -> Result<isize, SysError> {
    let mut lock = None;
    sys_fcntl(files, limits, fd, cmd as i32, arg, &mut lock, Err(EIO))
}

/// `F_GETFL` on a file whose current permission mode is `mode`.
fn getfl(files: &mut FdTable, limits: &Rlimits, fd: i32, mode: u32) -> Result<isize, SysError> {
    let mut lock = None;
    sys_fcntl(files, limits, fd, F_GETFL as i32, 0, &mut lock, Ok(mode))
}

#[test]
fn open_takes_lowest_free_descriptor() {
    let mut files = FdTable::new();
    let limits = Rlimits::new();
    assert_eq!(sys_openat(&mut files, &limits, Ok(FILE), 0), Ok(0));
    assert_eq!(sys_openat(&mut files, &limits, Ok(FILE), 0), Ok(1));
    assert_eq!(sys_openat(&mut files, &limits, Ok(FILE), 0), Ok(2));
    assert_eq!(sys_close(&mut files, 1), Ok(0));
    assert_eq!(sys_openat(&mut files, &limits, Ok(FILE), 0), Ok(1));
    assert_eq!(sys_openat(&mut files, &limits, Ok(FILE), 0), Ok(3));
    assert_eq!(files.count(), 4);
}

#[test]
fn open_passes_file_system_errors_on() {
    let mut files = FdTable::new();
    let limits = Rlimits::new();
    assert_eq!(sys_openat(&mut files, &limits, Err(SysError::Linux(2)), 0), Err(SysError::Linux(2)));
    assert_eq!(files.count(), 0);
}

#[test]
fn open_records_cloexec_and_nonblocking() {
    let mut files = FdTable::new();
    let limits = Rlimits::new();
    let fd = sys_openat(&mut files, &limits, Ok(FILE), (O_CLOEXEC | O_NONBLOCK) as i32).unwrap() as i32;
    let e = files.entry(fd).unwrap();
    assert!(e.cloexec);
    assert!(files.object(e.object).nonblocking);
    assert_eq!(fcntl(&mut files, &limits, fd, F_GETFD, 0), Ok(FD_CLOEXEC as isize));
    assert_eq!(getfl(&mut files, &limits, fd, 0o600), Ok((O_NONBLOCK | O_RDWR) as isize));
    assert_eq!(fcntl(&mut files, &limits, fd, F_GETFL, 0), Err(EIO));
}

#[test]
fn directories_ignore_nonblocking() {
    let mut files = FdTable::new();
    let limits = Rlimits::new();
    let fd = add_to_fd(&mut files, &limits, OpenedNode::Dir, O_NONBLOCK).unwrap();
    let e = files.entry(fd).unwrap();
    assert_eq!(files.object(e.object).kind, FileKind::Directory);
    assert!(!files.object(e.object).nonblocking);
    assert_eq!(fcntl(&mut files, &limits, fd, F_SETFL, O_NONBLOCK as usize), Ok(0));
    assert_eq!(getfl(&mut files, &limits, fd, 0o755), Ok(O_RDWR as isize));
}

#[test]
fn close_of_unopened_descriptor_is_ebadf() {
    let mut files = FdTable::new();
    assert_eq!(sys_close(&mut files, 0), ebadf());
    assert_eq!(sys_close(&mut files, -1), ebadf());
    assert_eq!(sys_close(&mut files, FILE_LIMIT as i32), ebadf());
}

#[test]
fn closed_descriptor_is_bad() {
    let mut files = FdTable::new();
    let limits = Rlimits::new();
    let fd = add_to_fd(&mut files, &limits, FILE, 0).unwrap();
    assert_eq!(sys_close(&mut files, fd), Ok(0));
    assert_eq!(fcntl(&mut files, &limits, fd, F_GETFD, 0), ebadf());
    assert_eq!(sys_close(&mut files, fd), ebadf());
}

#[test]
fn open_fails_with_emfile_at_nofile_limit() {
    let mut files = FdTable::new();
    let mut limits = Rlimits::new();
    assert_eq!(set_limit(&mut limits, RLIMIT_NOFILE, Some(Rlimit { current: 2, max: 2 })), Ok(0));
    assert_eq!(add_to_fd(&mut files, &limits, FILE, 0), Ok(0));
    assert_eq!(add_to_fd(&mut files, &limits, FILE, 0), Ok(1));
    assert_eq!(add_to_fd(&mut files, &limits, FILE, 0), Err(SysError::Ax(ErrorKind::TooManyOpenFiles)));
    assert_eq!(files.count(), 2);
    // The refused open leaves no open file description behind: the next one
    // installed gets the next number.
    assert_eq!(sys_close(&mut files, 1), Ok(0));
    assert_eq!(add_to_fd(&mut files, &limits, FILE, 0), Ok(1));
    assert_eq!(files.entry(1).unwrap().object, 2);
    assert_eq!(dup_fd(&mut files, &limits, 0, false), Err(SysError::Ax(ErrorKind::TooManyOpenFiles)));
}

#[test]
fn table_full_is_emfile() {
    let mut files = FdTable::new();
    let limits = Rlimits::new();
    for i in 0..FILE_LIMIT {
        assert_eq!(add_to_fd(&mut files, &limits, FILE, 0), Ok(i as i32));
    }
    assert_eq!(add_to_fd(&mut files, &limits, FILE, 0), Err(SysError::Ax(ErrorKind::TooManyOpenFiles)));
}

#[test]
fn dup_shares_the_open_file_description() {
    let mut files = FdTable::new();
    let limits = Rlimits::new();
    let fd = add_to_fd(&mut files, &limits, FILE, O_CLOEXEC).unwrap();
    let new_fd = fcntl(&mut files, &limits, fd, F_DUPFD, 17).unwrap() as i32;
    assert_eq!(new_fd, 1);
    assert_eq!(files.entry(new_fd).unwrap().object, files.entry(fd).unwrap().object);
    assert_eq!(fcntl(&mut files, &limits, new_fd, F_GETFD, 0), Ok(0));
    assert_eq!(getfl(&mut files, &limits, fd, 0o200), Ok(O_WRONLY as isize));
    assert_eq!(fcntl(&mut files, &limits, fd, F_SETFL, O_NONBLOCK as usize), Ok(0));
    assert_eq!(getfl(&mut files, &limits, new_fd, 0o200), Ok((O_NONBLOCK | O_WRONLY) as isize));
    assert_eq!(fcntl(&mut files, &limits, new_fd, F_SETFL, 0), Ok(0));
    assert_eq!(getfl(&mut files, &limits, fd, 0o200), Ok(O_WRONLY as isize));
}

#[test]
fn dupfd_cloexec_sets_the_flag() {
    let mut files = FdTable::new();
    let limits = Rlimits::new();
    let fd = add_to_fd(&mut files, &limits, FILE, 0).unwrap();
    let new_fd = fcntl(&mut files, &limits, fd, F_DUPFD_CLOEXEC, 0).unwrap() as i32;
    assert_eq!(fcntl(&mut files, &limits, new_fd, F_GETFD, 0), Ok(FD_CLOEXEC as isize));
    assert_eq!(fcntl(&mut files, &limits, 99, F_DUPFD, 0), ebadf());
}

#[test]
fn setfd_then_getfd_reads_back() {
    let mut files = FdTable::new();
    let limits = Rlimits::new();
    let fd = add_to_fd(&mut files, &limits, FILE, 0).unwrap();
    assert_eq!(fcntl(&mut files, &limits, fd, F_SETFD, FD_CLOEXEC as usize), Ok(0));
    assert_eq!(fcntl(&mut files, &limits, fd, F_GETFD, 0), Ok(FD_CLOEXEC as isize));
    assert_eq!(fcntl(&mut files, &limits, fd, F_SETFD, 2), Ok(0));
    assert_eq!(fcntl(&mut files, &limits, fd, F_GETFD, 0), Ok(0));
    assert_eq!(fcntl(&mut files, &limits, 5, F_SETFD, 1), ebadf());
    assert_eq!(fcntl(&mut files, &limits, 5, F_GETFD, 0), ebadf());
}

#[test]
fn getfl_reports_access_from_owner_bits() {
    let mut files = FdTable::new();
    let limits = Rlimits::new();
    let ro = add_to_fd(&mut files, &limits, FILE, 0).unwrap();
    let wo = add_to_fd(&mut files, &limits, FILE, 0).unwrap();
    let rw = add_to_fd(&mut files, &limits, FILE, 0).unwrap();
    assert_eq!(getfl(&mut files, &limits, ro, 0o444), Ok(0));
    assert_eq!(getfl(&mut files, &limits, wo, 0o200), Ok(O_WRONLY as isize));
    assert_eq!(getfl(&mut files, &limits, rw, 0o644), Ok(O_RDWR as isize));
    // The mode is read anew each time: the same descriptor reports a change.
    assert_eq!(getfl(&mut files, &limits, ro, 0o600), Ok(O_RDWR as isize));
    assert_eq!(fcntl(&mut files, &limits, rw, F_GETFL, 0), Err(EIO));
    assert_eq!(getfl(&mut files, &limits, 40, 0o644), ebadf());
    assert_eq!(fcntl(&mut files, &limits, 40, F_SETFL, 0), ebadf());
}

#[test]
fn lock_commands() {
    let mut files = FdTable::new();
    let limits = Rlimits::new();
    // Setting a lock succeeds, whatever the descriptor.
    assert_eq!(fcntl(&mut files, &limits, 7, F_SETLK, 0), Ok(0));
    let mut lock = Some(Flock { l_type: 1, l_whence: 0, l_start: 5, l_len: 10, l_pid: 3 });
    assert_eq!(sys_fcntl(&mut files, &limits, 7, F_GETLK as i32, 0, &mut lock, Err(EIO)), Ok(0));
    assert_eq!(lock, Some(Flock { l_type: F_UNLCK as i16, l_whence: 0, l_start: 5, l_len: 10, l_pid: 3 }));
    let mut lock = None;
    assert_eq!(
        sys_fcntl(&mut files, &limits, 7, F_OFD_GETLK as i32, 0, &mut lock, Err(EIO)),
        Err(SysError::Ax(ErrorKind::BadAddress))
    );
}

#[test]
fn unknown_command_succeeds() {
    let mut files = FdTable::new();
    let limits = Rlimits::new();
    assert_eq!(fcntl(&mut files, &limits, 3, 12345, 0), Ok(0));
    assert_eq!(fcntl(&mut files, &limits, 3, u32::MAX, 0), Ok(0));
}

#[test]
fn pipe_size_commands() {
    let mut files = FdTable::new();
    let limits = Rlimits::new();
    let id = files.register(pipe(65536, 5000));
    let fd = files.add_file_like(&limits, id, false).unwrap();
    assert_eq!(fcntl(&mut files, &limits, fd, F_GETPIPE_SZ, 0), Ok(65536));
    assert_eq!(fcntl(&mut files, &limits, fd, F_SETPIPE_SZ, 0), Err(SysError::Ax(ErrorKind::ResourceBusy)));
    assert_eq!(fcntl(&mut files, &limits, fd, F_GETPIPE_SZ, 0), Ok(65536));
    assert_eq!(fcntl(&mut files, &limits, fd, F_SETPIPE_SZ, 5000), Ok(0));
    assert_eq!(fcntl(&mut files, &limits, fd, F_GETPIPE_SZ, 0), Ok(8192));
    assert_eq!(fcntl(&mut files, &limits, fd, F_SETPIPE_SZ, 8193), Ok(0));
    assert_eq!(fcntl(&mut files, &limits, fd, F_GETPIPE_SZ, 0), Ok(12288));
    let regular = add_to_fd(&mut files, &limits, FILE, 0).unwrap();
    assert_eq!(fcntl(&mut files, &limits, regular, F_GETPIPE_SZ, 0), Err(SysError::Ax(ErrorKind::InvalidInput)));
    assert_eq!(fcntl(&mut files, &limits, regular, F_SETPIPE_SZ, 4096), Err(SysError::Ax(ErrorKind::InvalidInput)));
    assert_eq!(fcntl(&mut files, &limits, 500, F_GETPIPE_SZ, 0), ebadf());
    assert_eq!(fcntl(&mut files, &limits, fd, F_SETPIPE_SZ, usize::MAX), Err(SysError::Ax(ErrorKind::InvalidInput)));
    assert_eq!(fcntl(&mut files, &limits, fd, F_SETPIPE_SZ, usize::MAX - 4094), Err(SysError::Ax(ErrorKind::InvalidInput)));
    assert_eq!(fcntl(&mut files, &limits, fd, F_GETPIPE_SZ, 0), Ok(12288));
    assert_eq!(fcntl(&mut files, &limits, fd, F_SETPIPE_SZ, usize::MAX - 4095), Ok(0));
    assert_eq!(fcntl(&mut files, &limits, fd, F_GETPIPE_SZ, 0), Ok((usize::MAX - 4095) as isize));
}

#[test]
fn empty_pipe_shrinks_to_one_page() {
    let mut files = FdTable::new();
    let limits = Rlimits::new();
    let id = files.register(pipe(65536, 0));
    let fd = files.add_file_like(&limits, id, false).unwrap();
    assert_eq!(fcntl(&mut files, &limits, fd, F_SETPIPE_SZ, 0), Ok(0));
    assert_eq!(fcntl(&mut files, &limits, fd, F_GETPIPE_SZ, 0), Ok(4096));
}

#[test]
fn dirfd_resolution() {
    let mut files = FdTable::new();
    let limits = Rlimits::new();
    let f = add_to_fd(&mut files, &limits, FILE, 0).unwrap();
    let d = add_to_fd(&mut files, &limits, OpenedNode::Dir, 0).unwrap();
    assert_eq!(resolve_dirfd(&files, AT_FDCWD), Ok(DirBase::Cwd));
    assert_eq!(resolve_dirfd(&files, d), Ok(DirBase::Dir { object: files.entry(d).unwrap().object }));
    assert_eq!(resolve_dirfd(&files, f), Err(SysError::Ax(ErrorKind::NotADirectory)));
    assert_eq!(resolve_dirfd(&files, 9), ebadf());
}

#[test]
fn table_entries_after_open() {
    let mut files = FdTable::new();
    let limits = Rlimits::new();
    let fd = add_to_fd(&mut files, &limits, FILE, O_CLOEXEC).unwrap();
    assert_eq!(files.entry(fd), Some(FdEntry { object: 0, cloexec: true }));
    assert_eq!(files.entry(fd + 1), None);
}
