//! Linux ABI numbers that the system-call layer interprets.
//!
//! The values are those of the generic Linux ABI (shared by riscv64 and
//! x86_64), as published in `linux_raw_sys::general`.
use vstd::prelude::*;

verus! {

/// Access-mode bits of `open(2)` flags.
pub const O_ACCMODE: u32 = 0b11;
pub const O_RDONLY: u32 = 0;
pub const O_WRONLY: u32 = 1;
pub const O_RDWR: u32 = 2;
pub const O_CREAT: u32 = 64;
pub const O_EXCL: u32 = 128;
pub const O_TRUNC: u32 = 512;
pub const O_APPEND: u32 = 1024;
pub const O_NONBLOCK: u32 = 2048;
pub const O_DIRECT: u32 = 16384;
pub const O_DIRECTORY: u32 = 65536;
pub const O_NOFOLLOW: u32 = 131072;
pub const O_CLOEXEC: u32 = 524288;
pub const O_PATH: u32 = 2097152;

pub const F_DUPFD: u32 = 0;
pub const F_GETFD: u32 = 1;
pub const F_SETFD: u32 = 2;
pub const F_GETFL: u32 = 3;
pub const F_SETFL: u32 = 4;
pub const F_GETLK: u32 = 5;
pub const F_SETLK: u32 = 6;
pub const F_SETLKW: u32 = 7;
pub const F_OFD_GETLK: u32 = 36;
pub const F_OFD_SETLK: u32 = 37;
pub const F_OFD_SETLKW: u32 = 38;
pub const F_DUPFD_CLOEXEC: u32 = 1030;
pub const F_SETPIPE_SZ: u32 = 1031;
pub const F_GETPIPE_SZ: u32 = 1032;

/// The close-on-exec descriptor flag of `F_GETFD` / `F_SETFD`.
pub const FD_CLOEXEC: u32 = 1;
/// The "unlocked" lock type of `struct flock64`.
pub const F_UNLCK: u32 = 2;

/// Number of resource kinds of `prlimit64(2)`.
pub const RLIM_NLIMITS: u32 = 16;
/// The resource that bounds the number of open descriptors.
pub const RLIMIT_NOFILE: u32 = 7;
/// "No limit".
pub const RLIM_INFINITY: u64 = 0xffff_ffff_ffff_ffff;

/// Directory descriptor meaning "the current working directory".
pub const AT_FDCWD: i32 = -100;
pub const AT_SYMLINK_NOFOLLOW: u32 = 256;
pub const AT_EMPTY_PATH: u32 = 4096;

/// Owner read / write bits of a file mode.
pub const S_IRUSR: u32 = 0o400;
pub const S_IWUSR: u32 = 0o200;

/// The size in bytes of `struct robust_list_head` on 64-bit targets.
pub const ROBUST_LIST_HEAD_SIZE: usize = 24;

/// Size of a page, the unit in which pipe buffers are sized.
pub const PAGE_SIZE: usize = 4096;

/// Number of slots of a process's descriptor table.
pub const FILE_LIMIT: usize = 1024;

/// `ENOSYS`: the code returned for a system-call number that does not exist.
pub const ENOSYS: i32 = 38;

} // verus!
