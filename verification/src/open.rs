//! Conversion of `open(2)` flags into the options the file system opens with.
use vstd::prelude::*;
use crate::abi::{
    O_ACCMODE, O_APPEND, O_CREAT, O_DIRECT, O_DIRECTORY, O_EXCL, O_NOFOLLOW, O_PATH, O_RDONLY, O_TRUNC,
    O_WRONLY,
};

verus! {

/// The options of an open request, as the file system takes them.
#[derive(Clone, Copy, Debug, PartialEq, Eq, Structural)]
pub struct OpenOptions {
    /// Permission mode of a file that gets created.
    pub mode: u32,
    /// Owner of a file that gets created.
    pub uid: u32,
    pub gid: u32,
    pub read: bool,
    pub write: bool,
    pub append: bool,
    pub truncate: bool,
    pub create: bool,
    /// Open the location only (`O_PATH`), not its contents.
    pub path: bool,
    /// Fail if the file exists (`O_EXCL`).
    pub create_new: bool,
    pub directory: bool,
    pub no_follow: bool,
    pub direct: bool,
}

/// `flag` is set in `flags`.
pub open spec fn has_flag(flags: u32, flag: u32) -> bool {
    (flags & flag) != 0
}

/// The options that `flags` (reinterpreted as unsigned) ask for: the access
/// mode is read-only for `O_RDONLY`, write-only for `O_WRONLY` and read-write
/// for the other two values of the access bits; every other option is set
/// exactly when its flag is.
pub open spec fn options_for(flags: i32, mode: u32, uid: u32, gid: u32) -> OpenOptions {
    let f = flags as u32;
    let access = f & O_ACCMODE;
    OpenOptions {
        mode,
        uid,
        gid,
        read: access != O_WRONLY,
        write: access != O_RDONLY,
        append: has_flag(f, O_APPEND),
        truncate: has_flag(f, O_TRUNC),
        create: has_flag(f, O_CREAT),
        path: has_flag(f, O_PATH),
        create_new: has_flag(f, O_EXCL),
        directory: has_flag(f, O_DIRECTORY),
        no_follow: has_flag(f, O_NOFOLLOW),
        direct: has_flag(f, O_DIRECT),
    }
}

/// Converts open flags to [`OpenOptions`], with `mode` and the owner
/// `(uid, gid)` of a file that gets created.
pub fn flags_to_options(flags: i32, mode: u32, owner: (u32, u32)) -> (r: OpenOptions)
    ensures
        r == options_for(flags, mode, owner.0, owner.1),
{
    let flags = flags as u32;
    let (uid, gid) = owner;
    let mut options = OpenOptions {
        mode,
        uid,
        gid,
        read: false,
        write: false,
        append: false,
        truncate: false,
        create: false,
        path: false,
        create_new: false,
        directory: false,
        no_follow: false,
        direct: false,
    };
    let access = flags & O_ACCMODE;
    if access == O_RDONLY {
        options.read = true;
    } else if access == O_WRONLY {
        options.write = true;
    } else {
        options.read = true;
        options.write = true;
    }
    if flags & O_APPEND != 0 {
        options.append = true;
    }
    if flags & O_TRUNC != 0 {
        options.truncate = true;
    }
    if flags & O_CREAT != 0 {
        options.create = true;
    }
    if flags & O_PATH != 0 {
        options.path = true;
    }
    if flags & O_EXCL != 0 {
        options.create_new = true;
    }
    if flags & O_DIRECTORY != 0 {
        options.directory = true;
    }
    if flags & O_NOFOLLOW != 0 {
        options.no_follow = true;
    }
    if flags & O_DIRECT != 0 {
        options.direct = true;
    }
    options
}

/// The options of `openat(2)` for a process with file-creation mask `umask`
/// and effective ids `euid` / `egid`: the mode loses the bits of the mask.
pub fn openat_options(flags: i32, mode: u32, umask: u32, euid: u32, egid: u32) -> (r: OpenOptions)
    ensures
        r == options_for(flags, mode & !umask, euid, egid),
{
    let mode = mode & !umask;
    flags_to_options(flags, mode, (euid, egid))
}

} // verus!
