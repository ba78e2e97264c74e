//! `fstat` and `fstatat`: which file the metadata is read from.
use vstd::prelude::*;
use crate::abi::{AT_EMPTY_PATH, AT_SYMLINK_NOFOLLOW};
use crate::errno::{ErrorKind, SysError, SysResult};
use crate::fd_ops::{DirBase, dir_base_spec, ebadf, resolve_dirfd};
use crate::fd_table::{FdEntry, FdTable, FileObject, lookup};

verus! {

/// The file whose metadata a `stat` call reads.
#[derive(Clone, Copy, Debug, PartialEq, Eq, Structural)]
pub enum StatTarget {
    /// The open file description `object`.
    Object { object: usize },
    /// The path, looked up from `base`; a final symbolic link is followed
    /// when `follow` is set.
    Path { base: DirBase, follow: bool },
}

/// What `fstatat(dirfd, path, flags)` reads: with no path or an empty one,
/// the file `dirfd` refers to, which needs `AT_EMPTY_PATH` (`ENOENT`
/// otherwise) and an open `dirfd` (`EBADF`); with a path, the path looked up
/// from `dirfd`.
pub open spec fn resolve_at_spec(
    fds: Seq<Option<FdEntry>>,
    objects: Seq<FileObject>,
    dirfd: i32,
    path: Option<Seq<char>>,
    flags: u32,
) -> SysResult<StatTarget> {
    if path is None || path->0.len() == 0 {
        if (flags & AT_EMPTY_PATH) == 0 {
            Err(SysError::Ax(ErrorKind::NotFound))
        } else {
            match lookup(fds, dirfd) {
                None => ebadf::<StatTarget>(),
                Some(e) => Ok(StatTarget::Object { object: e.object }),
            }
        }
    } else {
        match dir_base_spec(fds, objects, dirfd) {
            Err(e) => Err(e),
            Ok(base) => Ok(StatTarget::Path { base, follow: (flags & AT_SYMLINK_NOFOLLOW) == 0 }),
        }
    }
}

pub open spec fn path_view(path: Option<&str>) -> Option<Seq<char>> {
    match path {
        None => None,
        Some(p) => Some(p@),
    }
}

/// Resolves `dirfd` and `path` to the file a call works on.
pub fn resolve_at(files: &FdTable, dirfd: i32, path: Option<&str>, flags: u32) -> (r: SysResult<StatTarget>)
    requires
        files.wf(),
    ensures
        r == resolve_at_spec(files.fds(), files.objects(), dirfd, path_view(path), flags),
{
    let empty = match path {
        None => true,
        Some(p) => p.is_empty(),
    };
    if empty {
        if flags & AT_EMPTY_PATH == 0 {
            return Err(SysError::Ax(ErrorKind::NotFound));
        }
        match files.entry(dirfd) {
            None => Err(SysError::Ax(ErrorKind::BadFileDescriptor)),
            Some(e) => Ok(StatTarget::Object { object: e.object }),
        }
    } else {
        match resolve_dirfd(files, dirfd) {
            Err(e) => Err(e),
            Ok(base) => Ok(StatTarget::Path { base, follow: flags & AT_SYMLINK_NOFOLLOW == 0 }),
        }
    }
}

/// `fstatat(2)`: the file whose metadata gets written to the user's buffer.
pub fn sys_fstatat(files: &FdTable, dirfd: i32, path: Option<&str>, flags: u32) -> (r: SysResult<StatTarget>)
    requires
        files.wf(),
    ensures
        r == resolve_at_spec(files.fds(), files.objects(), dirfd, path_view(path), flags),
{
    resolve_at(files, dirfd, path, flags)
}

/// `fstat(2)`: `fstatat(fd, NULL, AT_EMPTY_PATH)`.
pub fn sys_fstat(files: &FdTable, fd: i32) -> (r: SysResult<StatTarget>)
    requires
        files.wf(),
    ensures
        r == resolve_at_spec(files.fds(), files.objects(), fd, None, AT_EMPTY_PATH),
        lookup(files.fds(), fd) matches Some(e) ==> r == Ok::<StatTarget, SysError>(
            StatTarget::Object { object: e.object },
        ),
        lookup(files.fds(), fd) is None ==> r == ebadf::<StatTarget>(),
{
    assert((AT_EMPTY_PATH & AT_EMPTY_PATH) != 0) by (bit_vector);
    sys_fstatat(files, fd, None, AT_EMPTY_PATH)
}

} // verus!
