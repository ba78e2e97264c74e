//! Descriptor operations: `openat`, `close`, `fcntl`, and the directory
//! descriptor that path lookups start from.
use vstd::prelude::*;
use crate::abi::{
    AT_FDCWD, FD_CLOEXEC, F_DUPFD, F_DUPFD_CLOEXEC, F_GETFD, F_GETFL, F_GETLK, F_GETPIPE_SZ, F_OFD_GETLK,
    F_OFD_SETLK, F_OFD_SETLKW, F_SETFD, F_SETFL, F_SETLK, F_SETLKW, F_SETPIPE_SZ, F_UNLCK, O_CLOEXEC,
    O_NONBLOCK, O_RDWR, O_WRONLY, S_IRUSR, S_IWUSR,
};
use crate::errno::{ErrorKind, SysError, SysResult};
use crate::fd_table::{
    FdEntry, FdTable, FileKind, FileObject, add_result, can_add, fds_after_add, lookup, pipe_size_for,
    resize_result,
    reports_nonblocking, with_nonblocking,
};
use crate::resources::Rlimits;

verus! {

/// What the file system opened.
#[derive(Clone, Copy, Debug, PartialEq, Eq, Structural)]
pub enum OpenedNode {
    /// A regular file (or device).
    File,
    /// A directory.
    Dir,
}

/// Where a path lookup relative to a directory descriptor starts.
#[derive(Clone, Copy, Debug, PartialEq, Eq, Structural)]
pub enum DirBase {
    /// The current working directory (`AT_FDCWD`).
    Cwd,
    /// The directory that the open file description `object` refers to.
    Dir { object: usize },
}

/// The user's `struct flock64`.
#[derive(Clone, Copy, Debug, PartialEq, Eq, Structural)]
pub struct Flock {
    pub l_type: i16,
    pub l_whence: i16,
    pub l_start: i64,
    pub l_len: i64,
    pub l_pid: i32,
}

/// The open file description that opening `node` with `flags` creates: a
/// file is non-blocking when `O_NONBLOCK` is given; a directory ignores it.
pub open spec fn object_for(node: OpenedNode, flags: u32) -> FileObject {
    match node {
        OpenedNode::File => FileObject {
            kind: FileKind::File,
            nonblocking: (flags & O_NONBLOCK) != 0,
            pipe_capacity: 0,
            pipe_buffered: 0,
        },
        OpenedNode::Dir => FileObject {
            kind: FileKind::Directory,
            nonblocking: false,
            pipe_capacity: 0,
            pipe_buffered: 0,
        },
    }
}

/// `SysResult<i32>` of a descriptor, widened to the return type of a call.
pub open spec fn widen(r: SysResult<i32>) -> SysResult<isize> {
    match r {
        Ok(fd) => Ok(fd as isize),
        Err(e) => Err(e),
    }
}

pub open spec fn ebadf<T>() -> SysResult<T> {
    Err(SysError::Ax(ErrorKind::BadFileDescriptor))
}

/// The open file descriptions after opening `node`: the new one is kept
/// only when its descriptor was installed.
pub open spec fn objects_after_open(
    fds: Seq<Option<FdEntry>>,
    objects: Seq<FileObject>,
    nofile: u64,
    node: OpenedNode,
    flags: u32,
) -> Seq<FileObject> {
    if can_add(fds, nofile) {
        objects.push(object_for(node, flags))
    } else {
        objects
    }
}

/// Wraps what the file system opened into a new open file description and
/// installs a descriptor for it (close-on-exec when `O_CLOEXEC` is given).
/// When no descriptor can be installed (`EMFILE`) nothing changes.
pub fn add_to_fd(files: &mut FdTable, limits: &Rlimits, node: OpenedNode, flags: u32) -> (r: SysResult<i32>)
    requires
        old(files).wf(),
        limits.wf(),
    ensures
        final(files).wf(),
        final(files).objects() == objects_after_open(
            old(files).fds(),
            old(files).objects(),
            limits.nofile(),
            node,
            flags,
        ),
        r == add_result(old(files).fds(), limits.nofile()),
        final(files).fds() == fds_after_add(
            old(files).fds(),
            limits.nofile(),
            FdEntry { object: old(files).objects().len() as usize, cloexec: (flags & O_CLOEXEC) != 0 },
        ),
{
    if !files.can_add_descriptor(limits) {
        return Err(SysError::Ax(ErrorKind::TooManyOpenFiles));
    }
    let object = match node {
        OpenedNode::File => FileObject { kind: FileKind::File, nonblocking: false, pipe_capacity: 0, pipe_buffered: 0 },
        OpenedNode::Dir => FileObject {
            kind: FileKind::Directory,
            nonblocking: false,
            pipe_capacity: 0,
            pipe_buffered: 0,
        },
    };
    let id = files.register(object);
    if flags & O_NONBLOCK != 0 {
        files.set_nonblocking(id, true);
    }
    assert(files.objects() =~= old(files).objects().push(object_for(node, flags)));
    files.add_file_like(limits, id, flags & O_CLOEXEC != 0)
}

/// `openat(2)`, once the file system has answered the open request (built
/// with [`crate::open::openat_options`]): its error is passed on; what it
/// opened gets a descriptor.
pub fn sys_openat(files: &mut FdTable, limits: &Rlimits, opened: SysResult<OpenedNode>, flags: i32) -> (r:
    SysResult<isize>)
    requires
        old(files).wf(),
        limits.wf(),
    ensures
        final(files).wf(),
        opened matches Err(e) ==> r == Err::<isize, SysError>(e) && final(files).fds() == old(files).fds()
            && final(files).objects() == old(files).objects(),
        opened matches Ok(node) ==> {
            &&& r == widen(add_result(old(files).fds(), limits.nofile()))
            &&& final(files).objects() == objects_after_open(
                old(files).fds(),
                old(files).objects(),
                limits.nofile(),
                node,
                flags as u32,
            )
            &&& final(files).fds() == fds_after_add(
                old(files).fds(),
                limits.nofile(),
                FdEntry {
                    object: old(files).objects().len() as usize,
                    cloexec: (flags as u32 & O_CLOEXEC) != 0,
                },
            )
        },
{
    match opened {
        Err(e) => Err(e),
        Ok(node) => match add_to_fd(files, limits, node, flags as u32) {
            Ok(fd) => Ok(fd as isize),
            Err(e) => Err(e),
        },
    }
}

/// What `close` does to the slots and returns: `EBADF` if `fd` is not open,
/// otherwise the slot is emptied.
pub open spec fn close_spec(before: Seq<Option<FdEntry>>, after: Seq<Option<FdEntry>>, fd: i32, r: SysResult<isize>) -> bool {
    match lookup(before, fd) {
        None => r == ebadf::<isize>() && after == before,
        Some(_) => r == Ok::<isize, SysError>(0) && after == before.update(fd as int, None),
    }
}

/// `close(2)`: removes descriptor `fd`; `EBADF` if it is not open.
pub fn sys_close(files: &mut FdTable, fd: i32) -> (r: SysResult<isize>)
    requires
        old(files).wf(),
    ensures
        final(files).wf(),
        final(files).objects() == old(files).objects(),
        close_spec(old(files).fds(), final(files).fds(), fd, r),
{
    match files.close_file_like(fd) {
        Ok(()) => Ok(0),
        Err(e) => Err(e),
    }
}

/// What duplicating descriptor `fd` does to the slots and returns: `EBADF`
/// if `fd` is not open, otherwise a new descriptor for the same open file
/// description in the lowest free slot.
pub open spec fn dup_spec(
    before: Seq<Option<FdEntry>>,
    after: Seq<Option<FdEntry>>,
    nofile: u64,
    fd: i32,
    cloexec: bool,
    r: SysResult<isize>,
) -> bool {
    match lookup(before, fd) {
        None => r == ebadf::<isize>() && after == before,
        Some(e) => {
            let entry = FdEntry { object: e.object, cloexec };
            r == widen(add_result(before, nofile)) && after == fds_after_add(before, nofile, entry)
        },
    }
}

/// Duplicates descriptor `old_fd` into the lowest free slot.
pub fn dup_fd(files: &mut FdTable, limits: &Rlimits, old_fd: i32, cloexec: bool) -> (r: SysResult<isize>)
    requires
        old(files).wf(),
        limits.wf(),
    ensures
        final(files).wf(),
        final(files).objects() == old(files).objects(),
        dup_spec(old(files).fds(), final(files).fds(), limits.nofile(), old_fd, cloexec, r),
{
    match files.entry(old_fd) {
        None => Err(SysError::Ax(ErrorKind::BadFileDescriptor)),
        Some(e) => match files.add_file_like(limits, e.object, cloexec) {
            Ok(fd) => Ok(fd as isize),
            Err(err) => Err(err),
        },
    }
}

/// Where a lookup relative to `dirfd` starts: the working directory for
/// `AT_FDCWD`; otherwise `dirfd` must be open (`EBADF`) and refer to a
/// directory (`ENOTDIR`).
pub open spec fn dir_base_spec(fds: Seq<Option<FdEntry>>, objects: Seq<FileObject>, dirfd: i32) -> SysResult<
    DirBase,
> {
    if dirfd == AT_FDCWD {
        Ok(DirBase::Cwd)
    } else {
        match lookup(fds, dirfd) {
            None => ebadf::<DirBase>(),
            Some(e) => if objects[e.object as int].kind == FileKind::Directory {
                Ok(DirBase::Dir { object: e.object })
            } else {
                Err(SysError::Ax(ErrorKind::NotADirectory))
            },
        }
    }
}

/// The directory that a lookup relative to `dirfd` starts from.
pub fn resolve_dirfd(files: &FdTable, dirfd: i32) -> (r: SysResult<DirBase>)
    requires
        files.wf(),
    ensures
        r == dir_base_spec(files.fds(), files.objects(), dirfd),
{
    if dirfd == AT_FDCWD {
        return Ok(DirBase::Cwd);
    }
    match files.entry(dirfd) {
        None => Err(SysError::Ax(ErrorKind::BadFileDescriptor)),
        Some(e) => {
            let o = files.object(e.object);
            if o.kind == FileKind::Directory {
                Ok(DirBase::Dir { object: e.object })
            } else {
                Err(SysError::Ax(ErrorKind::NotADirectory))
            }
        },
    }
}

/// The flags `F_GETFL` reports for an open file description whose file
/// currently has permission mode `mode`: `O_NONBLOCK` if the description is
/// non-blocking, together with the access mode that the owner bits of the
/// mode allow (`O_RDWR` for read and write, `O_WRONLY` for write only,
/// `O_RDONLY` otherwise).
pub open spec fn getfl_flags(o: FileObject, mode: u32) -> u32 {
    let nonblock: u32 = if reports_nonblocking(o) {
        O_NONBLOCK
    } else {
        0
    };
    let access: u32 = if (mode & S_IWUSR) != 0 {
        if (mode & S_IRUSR) != 0 {
            O_RDWR
        } else {
            O_WRONLY
        }
    } else {
        0
    };
    nonblock | access
}

/// The descriptor flags `F_GETFD` reports.
pub open spec fn getfd_flags(e: FdEntry) -> isize {
    if e.cloexec {
        FD_CLOEXEC as isize
    } else {
        0
    }
}

/// `fcntl(2)` as a relation between the state before and after the call and
/// its result. `status` is what reading the status of the file that `fd`
/// refers to gives (its permission mode, or the error of the read); only
/// `F_GETFL` uses it. Commands that are not listed succeed with 0 and change
/// nothing; so do the lock-setting commands, whatever `fd` is.
pub open spec fn fcntl_spec(
    bf: Seq<Option<FdEntry>>,
    bo: Seq<FileObject>,
    lock: Option<Flock>,
    af: Seq<Option<FdEntry>>,
    ao: Seq<FileObject>,
    alock: Option<Flock>,
    nofile: u64,
    fd: i32,
    cmd: i32,
    arg: usize,
    status: SysResult<u32>,
    r: SysResult<isize>,
) -> bool {
    let c = cmd as u32;
    let e = lookup(bf, fd);
    if c == F_DUPFD || c == F_DUPFD_CLOEXEC {
        ao == bo && alock == lock && dup_spec(bf, af, nofile, fd, c == F_DUPFD_CLOEXEC, r)
    } else if c == F_SETLK || c == F_SETLKW || c == F_OFD_SETLK || c == F_OFD_SETLKW {
        r == Ok::<isize, SysError>(0) && af == bf && ao == bo && alock == lock
    } else if c == F_GETLK || c == F_OFD_GETLK {
        af == bf && ao == bo && match lock {
            None => r == Err::<isize, SysError>(SysError::Ax(ErrorKind::BadAddress)) && alock == lock,
            Some(l) => r == Ok::<isize, SysError>(0) && alock == Some(
                Flock { l_type: F_UNLCK as i16, ..l },
            ),
        }
    } else if c == F_SETFL {
        af == bf && alock == lock && match e {
            None => r == ebadf::<isize>() && ao == bo,
            Some(en) => r == Ok::<isize, SysError>(0) && ao == bo.update(
                en.object as int,
                with_nonblocking(bo[en.object as int], (arg & (O_NONBLOCK as usize)) > 0),
            ),
        }
    } else if c == F_GETFL {
        af == bf && ao == bo && alock == lock && match e {
            None => r == ebadf::<isize>(),
            Some(en) => match status {
                Err(err) => r == Err::<isize, SysError>(err),
                Ok(mode) => r == Ok::<isize, SysError>(getfl_flags(bo[en.object as int], mode) as isize),
            },
        }
    } else if c == F_GETFD {
        af == bf && ao == bo && alock == lock && match e {
            None => r == ebadf::<isize>(),
            Some(en) => r == Ok::<isize, SysError>(getfd_flags(en)),
        }
    } else if c == F_SETFD {
        ao == bo && alock == lock && match e {
            None => r == ebadf::<isize>() && af == bf,
            Some(en) => r == Ok::<isize, SysError>(0) && af == bf.update(
                fd as int,
                Some(FdEntry { object: en.object, cloexec: (arg & (FD_CLOEXEC as usize)) != 0 }),
            ),
        }
    } else if c == F_GETPIPE_SZ {
        af == bf && ao == bo && alock == lock && match e {
            None => r == ebadf::<isize>(),
            Some(en) => if bo[en.object as int].kind == FileKind::Pipe {
                r == Ok::<isize, SysError>(bo[en.object as int].pipe_capacity as isize)
            } else {
                r == Err::<isize, SysError>(SysError::Ax(ErrorKind::InvalidInput))
            },
        }
    } else if c == F_SETPIPE_SZ {
        af == bf && alock == lock && match e {
            None => r == ebadf::<isize>() && ao == bo,
            Some(en) => {
                let o = bo[en.object as int];
                if o.kind != FileKind::Pipe {
                    r == Err::<isize, SysError>(SysError::Ax(ErrorKind::InvalidInput)) && ao == bo
                } else {
                    match resize_result(o, arg) {
                        Err(err) => r == Err::<isize, SysError>(err) && ao == bo,
                        Ok(()) => r == Ok::<isize, SysError>(0) && ao == bo.update(
                            en.object as int,
                            FileObject { pipe_capacity: pipe_size_for(arg) as usize, ..o },
                        ),
                    }
                }
            },
        }
    } else {
        r == Ok::<isize, SysError>(0) && af == bf && ao == bo && alock == lock
    }
}

/// `fcntl(2)`. `lock` is the user's `struct flock64` for the lock-query
/// commands (`None` when its address cannot be accessed); the query answers
/// that nothing is locked. `status` is the result of reading the status of
/// the file that `fd` refers to, which `F_GETFL` reports from.
pub fn sys_fcntl(
    files: &mut FdTable,
    limits: &Rlimits,
    fd: i32,
    cmd: i32,
    arg: usize,
    lock: &mut Option<Flock>,
    status: SysResult<u32>,
) -> (r: SysResult<isize>)
    requires
        old(files).wf(),
        limits.wf(),
    ensures
        final(files).wf(),
        fcntl_spec(
            old(files).fds(),
            old(files).objects(),
            *old(lock),
            final(files).fds(),
            final(files).objects(),
            *final(lock),
            limits.nofile(),
            fd,
            cmd,
            arg,
            status,
            r,
        ),
{
    let c = cmd as u32;
    if c == F_DUPFD {
        dup_fd(files, limits, fd, false)
    } else if c == F_DUPFD_CLOEXEC {
        dup_fd(files, limits, fd, true)
    } else if c == F_SETLK || c == F_SETLKW || c == F_OFD_SETLK || c == F_OFD_SETLKW {
        Ok(0)
    } else if c == F_GETLK || c == F_OFD_GETLK {
        match lock {
            None => Err(SysError::Ax(ErrorKind::BadAddress)),
            Some(l) => {
                l.l_type = F_UNLCK as i16;
                Ok(0)
            },
        }
    } else if c == F_SETFL {
        match files.entry(fd) {
            None => Err(SysError::Ax(ErrorKind::BadFileDescriptor)),
            Some(e) => {
                files.set_nonblocking(e.object, arg & (O_NONBLOCK as usize) > 0);
                Ok(0)
            },
        }
    } else if c == F_GETFL {
        match files.entry(fd) {
            None => Err(SysError::Ax(ErrorKind::BadFileDescriptor)),
            Some(e) => {
                let o = files.object(e.object);
                let nonblock: u32 = if o.kind != FileKind::Directory && o.nonblocking {
                    O_NONBLOCK
                } else {
                    0
                };
                let mode = match status {
                    Err(err) => {
                        return Err(err);
                    },
                    Ok(mode) => mode,
                };
                let access: u32 = if mode & S_IWUSR != 0 {
                    if mode & S_IRUSR != 0 {
                        O_RDWR
                    } else {
                        O_WRONLY
                    }
                } else {
                    0
                };
                let ret: u32 = nonblock | access;
                Ok(ret as isize)
            },
        }
    } else if c == F_GETFD {
        match files.entry(fd) {
            None => Err(SysError::Ax(ErrorKind::BadFileDescriptor)),
            Some(e) => Ok(
                if e.cloexec {
                    FD_CLOEXEC as isize
                } else {
                    0
                },
            ),
        }
    } else if c == F_SETFD {
        let cloexec = arg & (FD_CLOEXEC as usize) != 0;
        match files.set_cloexec(fd, cloexec) {
            Ok(()) => Ok(0),
            Err(e) => Err(e),
        }
    } else if c == F_GETPIPE_SZ {
        match files.entry(fd) {
            None => Err(SysError::Ax(ErrorKind::BadFileDescriptor)),
            Some(e) => {
                let o = files.object(e.object);
                if o.kind == FileKind::Pipe {
                    Ok(o.pipe_capacity as isize)
                } else {
                    Err(SysError::Ax(ErrorKind::InvalidInput))
                }
            },
        }
    } else if c == F_SETPIPE_SZ {
        match files.entry(fd) {
            None => Err(SysError::Ax(ErrorKind::BadFileDescriptor)),
            Some(e) => {
                let o = files.object(e.object);
                if o.kind == FileKind::Pipe {
                    match files.resize_pipe(e.object, arg) {
                        Ok(()) => Ok(0),
                        Err(err) => Err(err),
                    }
                } else {
                    Err(SysError::Ax(ErrorKind::InvalidInput))
                }
            },
        }
    } else {
        Ok(0)
    }
}

} // verus!
