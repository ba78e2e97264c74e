//! Properties that relate several system calls, or that every call keeps.
use vstd::prelude::*;
use crate::abi::{FILE_LIMIT, FD_CLOEXEC, F_DUPFD, F_GETFD, F_GETFL, F_SETFD, F_SETFL, O_CLOEXEC, O_NONBLOCK};
use crate::errno::SysError;
use crate::fd_ops::{Flock, fcntl_spec, getfl_flags, widen};
use crate::fd_table::{
    FdEntry, FileKind, FileObject, add_result, added_fd, can_add, count_open, fds_after_add,
    is_lowest_free, lemma_count_open_update, lemma_lowest_free_slot, lookup, lowest_free_slot, table_wf,
};
use crate::resources::{Rlimit, prlimit64_spec, prlimit_spec};
use crate::cmdline::{is_blank_spec, is_whitespace_spec, lemma_word_len_bound, word_len, words};
use crate::errno::{errno_in_range, errno_spec};
use crate::syscall::{SyscallName, SyscallRequest, UserContext, dispatch_spec, request_for, retval_spec};
use crate::abi::{
    AT_FDCWD, AT_SYMLINK_NOFOLLOW, O_ACCMODE, O_APPEND, O_CREAT, O_DIRECT, O_DIRECTORY, O_EXCL, O_NOFOLLOW,
    O_PATH, O_RDONLY, O_RDWR, O_TRUNC, O_WRONLY, RLIM_NLIMITS,
};
use crate::open::options_for;
use crate::fd_ops::{DirBase, close_spec, dir_base_spec};
use crate::stat::{StatTarget, resolve_at_spec};

verus! {

/// A new descriptor takes the lowest free slot, and only that slot changes.
pub proof fn law_new_descriptor_is_lowest_free(fds: Seq<Option<FdEntry>>, nofile: u64, entry: FdEntry)
    requires
        can_add(fds, nofile),
    ensures
        added_fd(fds, nofile) matches Some(fd) && is_lowest_free(fds, fd) && fds_after_add(
            fds,
            nofile,
            entry,
        )[fd] == Some(entry) && forall|i: int|
            0 <= i < fds.len() && i != fd ==> #[trigger] fds_after_add(fds, nofile, entry)[i] == fds[i],
{
    lemma_lowest_free_slot(fds);
}

/// Installing a descriptor never takes the number of open descriptors above
/// the soft `RLIMIT_NOFILE` limit: it adds one descriptor when it succeeds
/// and none when it fails.
pub proof fn law_open_count_within_nofile(fds: Seq<Option<FdEntry>>, nofile: u64, entry: FdEntry)
    ensures
        added_fd(fds, nofile) is Some ==> count_open(fds_after_add(fds, nofile, entry)) == count_open(fds)
            + 1 && count_open(fds_after_add(fds, nofile, entry)) <= nofile,
        added_fd(fds, nofile) is None ==> fds_after_add(fds, nofile, entry) == fds,
{
    if can_add(fds, nofile) {
        lemma_lowest_free_slot(fds);
        lemma_count_open_update(fds, lowest_free_slot(fds), Some(entry));
    }
}

/// `(nonblock | access) & O_NONBLOCK` keeps exactly the non-blocking bit.
proof fn lemma_nonblock_bit(nonblock: u32, access: u32)
    requires
        nonblock == 0 || nonblock == 2048,
        access <= 2,
    ensures
        ((nonblock | access) & 2048 != 0) == (nonblock == 2048),
        (nonblock | access) <= 2050,
{
    assert(((nonblock | access) & 2048 != 0) == (nonblock == 2048) && (nonblock | access) <= 2050)
        by (bit_vector)
        requires
            nonblock == 0 || nonblock == 2048,
            access <= 2,
    ;
}

/// The flags that `F_GETFL` reports hold `O_NONBLOCK` exactly when the open
/// file description is non-blocking, whatever the file's mode.
pub proof fn law_getfl_reports_nonblocking(o: FileObject, mode: u32)
    ensures
        (getfl_flags(o, mode) & O_NONBLOCK != 0) == crate::fd_table::reports_nonblocking(o),
        getfl_flags(o, mode) <= 2050,
{
    let nonblock: u32 = if crate::fd_table::reports_nonblocking(o) {
        O_NONBLOCK
    } else {
        0
    };
    let access: u32 = if (mode & 0o200u32) != 0 {
        if (mode & 0o400u32) != 0 {
            2
        } else {
            1
        }
    } else {
        0
    };
    lemma_nonblock_bit(nonblock, access);
}

/// Descriptors duplicated from one another share the file status flags:
/// after `F_DUPFD` on `fd` and `F_SETFL` on `fd`, `F_GETFL` on the new
/// descriptor reports the non-blocking flag that `F_SETFL` set (for
/// anything but a directory, which ignores the flag), provided the file's
/// status can be read.
pub proof fn law_dup_shares_status_flags(
    f0: Seq<Option<FdEntry>>,
    o0: Seq<FileObject>,
    l0: Option<Flock>,
    f1: Seq<Option<FdEntry>>,
    o1: Seq<FileObject>,
    l1: Option<Flock>,
    r1: crate::errno::SysResult<isize>,
    f2: Seq<Option<FdEntry>>,
    o2: Seq<FileObject>,
    l2: Option<Flock>,
    r2: crate::errno::SysResult<isize>,
    f3: Seq<Option<FdEntry>>,
    o3: Seq<FileObject>,
    l3: Option<Flock>,
    r3: crate::errno::SysResult<isize>,
    nofile: u64,
    fd: i32,
    dup_arg: usize,
    arg: usize,
    getfl_arg: usize,
    s1: crate::errno::SysResult<u32>,
    s2: crate::errno::SysResult<u32>,
    s3: crate::errno::SysResult<u32>,
)
    requires
        f0.len() == FILE_LIMIT,
        table_wf(f0, o0),
        fcntl_spec(f0, o0, l0, f1, o1, l1, nofile, fd, F_DUPFD as i32, dup_arg, s1, r1),
        r1 is Ok,
        fcntl_spec(f1, o1, l1, f2, o2, l2, nofile, fd, F_SETFL as i32, arg, s2, r2),
        fcntl_spec(f2, o2, l2, f3, o3, l3, nofile, r1->Ok_0 as i32, F_GETFL as i32, getfl_arg, s3, r3),
        s3 is Ok,
        lookup(f0, fd) is Some,
        o0[lookup(f0, fd)->0.object as int].kind != FileKind::Directory,
    ensures
        r3 matches Ok(v) && ((v as u32 & O_NONBLOCK) != 0) == ((arg & (O_NONBLOCK as usize)) > 0),
{
    let e = lookup(f0, fd)->0;
    assert(f0[fd as int] is Some);
    lemma_lowest_free_slot(f0);
    let nfd = lowest_free_slot(f0);
    assert(can_add(f0, nofile));
    assert(nfd != fd);
    assert(f1 == f0.update(nfd, Some(FdEntry { object: e.object, cloexec: false })));
    assert(lookup(f1, fd) == Some(e));
    let nb = (arg & (O_NONBLOCK as usize)) > 0;
    assert(o2 == o1.update(e.object as int, crate::fd_table::with_nonblocking(o1[e.object as int], nb)));
    assert(r1->Ok_0 == nfd);
    assert(lookup(f2, nfd as i32) == Some(FdEntry { object: e.object, cloexec: false }));
    let o = o2[e.object as int];
    assert(crate::fd_table::reports_nonblocking(o) == nb);
    law_getfl_reports_nonblocking(o, s3->Ok_0);
}

/// `F_GETFD` reads back what `F_SETFD` wrote: close-on-exec exactly when
/// the argument held `FD_CLOEXEC`.
pub proof fn law_setfd_then_getfd(
    f0: Seq<Option<FdEntry>>,
    o0: Seq<FileObject>,
    l0: Option<Flock>,
    f1: Seq<Option<FdEntry>>,
    o1: Seq<FileObject>,
    l1: Option<Flock>,
    r1: crate::errno::SysResult<isize>,
    f2: Seq<Option<FdEntry>>,
    o2: Seq<FileObject>,
    l2: Option<Flock>,
    r2: crate::errno::SysResult<isize>,
    nofile: u64,
    fd: i32,
    arg: usize,
    getfd_arg: usize,
    s1: crate::errno::SysResult<u32>,
    s2: crate::errno::SysResult<u32>,
)
    requires
        fcntl_spec(f0, o0, l0, f1, o1, l1, nofile, fd, F_SETFD as i32, arg, s1, r1),
        fcntl_spec(f1, o1, l1, f2, o2, l2, nofile, fd, F_GETFD as i32, getfd_arg, s2, r2),
        lookup(f0, fd) is Some,
    ensures
        r1 == Ok::<isize, SysError>(0),
        r2 == Ok::<isize, SysError>(
            if (arg & (FD_CLOEXEC as usize)) != 0 {
                FD_CLOEXEC as isize
            } else {
                0
            },
        ),
{
}

/// A closed descriptor is no longer open: the slot is empty and any
/// descriptor operation on it, `F_GETFD` for one, fails with `EBADF`.
pub proof fn law_closed_descriptor_is_bad(
    f0: Seq<Option<FdEntry>>,
    o0: Seq<FileObject>,
    l0: Option<Flock>,
    f1: Seq<Option<FdEntry>>,
    o1: Seq<FileObject>,
    l1: Option<Flock>,
    r1: crate::errno::SysResult<isize>,
    nofile: u64,
    fd: i32,
    arg: usize,
    s1: crate::errno::SysResult<u32>,
)
    requires
        lookup(f0, fd) is Some,
        fcntl_spec(f0.update(fd as int, None), o0, l0, f1, o1, l1, nofile, fd, F_GETFD as i32, arg, s1, r1),
    ensures
        lookup(f0.update(fd as int, None), fd) is None,
        r1 == crate::fd_ops::ebadf::<isize>(),
{
}

/// A descriptor opened with `O_CLOEXEC` is close-on-exec, one opened without
/// it is not, and both refer to the new open file description.
pub proof fn law_open_sets_cloexec(fds: Seq<Option<FdEntry>>, nofile: u64, object: usize, flags: i32)
    requires
        fds.len() == FILE_LIMIT,
        can_add(fds, nofile),
    ensures
        widen(add_result(fds, nofile)) matches Ok(fd) && lookup(
            fds_after_add(
                fds,
                nofile,
                FdEntry { object, cloexec: (flags as u32 & O_CLOEXEC) != 0 },
            ),
            fd as i32,
        ) == Some(FdEntry { object, cloexec: (flags as u32 & O_CLOEXEC) != 0 }),
{
    lemma_lowest_free_slot(fds);
}

/// `prlimit64` never raises a hard limit.
pub proof fn law_prlimit_never_raises_hard_limit(
    before: Seq<Rlimit>,
    after: Seq<Rlimit>,
    resource: u32,
    new_limit: Option<Rlimit>,
    r: crate::errno::SysResult<isize>,
)
    requires
        before.len() == crate::abi::RLIM_NLIMITS,
        prlimit_spec(before, after, resource, new_limit, r),
    ensures
        after.len() == before.len(),
        forall|i: int| 0 <= i < before.len() ==> #[trigger] after[i].max <= before[i].max,
{
}

/// `prlimit64` keeps every soft limit at or below its hard limit.
pub proof fn law_prlimit_keeps_soft_below_hard(
    before: Seq<Rlimit>,
    after: Seq<Rlimit>,
    resource: u32,
    new_limit: Option<Rlimit>,
    r: crate::errno::SysResult<isize>,
)
    requires
        before.len() == crate::abi::RLIM_NLIMITS,
        prlimit_spec(before, after, resource, new_limit, r),
        forall|i: int| 0 <= i < before.len() ==> #[trigger] before[i].current <= before[i].max,
    ensures
        forall|i: int| 0 <= i < after.len() ==> #[trigger] after[i].current <= after[i].max,
{
}

/// A new limit that `prlimit64` accepts is what the next query reports;
/// a refused or ignored one leaves the limits as they were.
pub proof fn law_prlimit_set_then_get(
    before: Seq<Rlimit>,
    after: Seq<Rlimit>,
    resource: u32,
    n: Rlimit,
    r: crate::errno::SysResult<isize>,
)
    requires
        before.len() == crate::abi::RLIM_NLIMITS,
        prlimit_spec(before, after, resource, Some(n), r),
        resource < crate::abi::RLIM_NLIMITS,
    ensures
        n.current <= n.max && n.max <= before[resource as int].max ==> after[resource as int] == n,
        !(n.current <= n.max && n.max <= before[resource as int].max) ==> after == before,
{
}

/// `prlimit64` reports the old limit as it was before its own update, and
/// when writing that old limit fails, or reading the new one does, it
/// changes nothing; in every case it raises no hard limit.
pub proof fn law_prlimit_reports_old_limit_first(
    before: Seq<Rlimit>,
    after: Seq<Rlimit>,
    resource: u32,
    old_write: Option<crate::errno::SysResult<()>>,
    new_limit: Option<crate::errno::SysResult<Rlimit>>,
    old: Option<Rlimit>,
    r: crate::errno::SysResult<isize>,
)
    requires
        before.len() == crate::abi::RLIM_NLIMITS,
        prlimit64_spec(before, after, resource, old_write, new_limit, old, r),
    ensures
        resource < crate::abi::RLIM_NLIMITS && old_write is Some ==> old == Some(before[resource as int]),
        old_write matches Some(Err(e)) ==> after == before && (resource < crate::abi::RLIM_NLIMITS ==> r
            == Err::<isize, SysError>(e)),
        new_limit matches Some(Err(e)) ==> after == before,
        after.len() == before.len(),
        forall|i: int| 0 <= i < before.len() ==> #[trigger] after[i].max <= before[i].max,
{
}

/// Every word of a command line is non-empty and holds no white space.
pub proof fn law_words_are_nonblank(s: Seq<char>)
    ensures
        forall|k: int| 0 <= k < words(s).len() ==> (#[trigger] words(s)[k]).len() > 0,
        forall|k: int, j: int|
            0 <= k < words(s).len() && 0 <= j < words(s)[k].len() ==> !is_whitespace_spec(
                #[trigger] words(s)[k][j],
            ),
    decreases s.len(),
{
    if s.len() == 0 {
    } else if is_whitespace_spec(s[0]) {
        law_words_are_nonblank(s.drop_first());
        assert(words(s) == words(s.drop_first()));
    } else {
        lemma_word_len_bound(s);
        let n = word_len(s) as int;
        let rest = s.skip(n);
        law_words_are_nonblank(rest);
        lemma_word_is_run(s);
        let w = words(s);
        assert(w == seq![s.take(n)] + words(rest));
        assert forall|k: int| 0 <= k < w.len() implies (#[trigger] w[k]).len() > 0 by {
            if k > 0 {
                assert(w[k] == words(rest)[k - 1]);
            }
        }
        assert forall|k: int, j: int| 0 <= k < w.len() && 0 <= j < w[k].len() implies !is_whitespace_spec(
            #[trigger] w[k][j],
        ) by {
            if k > 0 {
                assert(w[k] == words(rest)[k - 1]);
            } else {
                assert(w[0][j] == s[j]);
            }
        }
    }
}

/// The first `word_len(s)` characters of `s` are not white space.
proof fn lemma_word_is_run(s: Seq<char>)
    ensures
        forall|j: int| 0 <= j < word_len(s) ==> !is_whitespace_spec(#[trigger] s[j]),
    decreases s.len(),
{
    if s.len() > 0 && !is_whitespace_spec(s[0]) {
        let t = s.drop_first();
        lemma_word_is_run(t);
        lemma_word_len_bound(s);
        assert(word_len(s) == 1 + word_len(t));
        assert forall|j: int| 0 <= j < word_len(s) implies !is_whitespace_spec(#[trigger] s[j]) by {
            if j > 0 {
                assert(s[j] == t[j - 1]);
            }
        }
    }
}

/// A command line has no words exactly when it is blank, which is when the
/// default command line is used instead.
pub proof fn law_blank_iff_no_words(s: Seq<char>)
    ensures
        is_blank_spec(s) <==> words(s).len() == 0,
    decreases s.len(),
{
    if s.len() > 0 {
        if is_whitespace_spec(s[0]) {
            law_blank_iff_no_words(s.drop_first());
            let t = s.drop_first();
            if is_blank_spec(t) {
                assert forall|i: int| 0 <= i < s.len() implies is_whitespace_spec(#[trigger] s[i]) by {
                    if i > 0 {
                        assert(s[i] == t[i - 1]);
                    }
                }
            }
            if is_blank_spec(s) {
                assert forall|i: int| 0 <= i < t.len() implies is_whitespace_spec(#[trigger] t[i]) by {
                    assert(t[i] == s[i + 1]);
                }
            }
        } else {
            lemma_word_len_bound(s);
            assert(!is_whitespace_spec(s[0]));
        }
    }
}

/// A failed call returns a value that user space reads as `-errno`,
/// inside the range `-4095..=-1` that marks an error; every kind this layer
/// raises has its number in that range.
pub proof fn law_error_retval_is_negated_errno(e: SysError)
    requires
        e is Ax || errno_in_range(e),
    ensures
        errno_in_range(e),
        retval_spec(Err(e)) as isize == -errno_spec(e),
        -4095 <= retval_spec(Err(e)) as isize <= -1,
{
    let c = errno_spec(e);
    assert(1 <= c <= 4095);
    let y: isize = (-(c as isize)) as isize;
    assert((y as usize) as isize == y) by (bit_vector)
        requires
            -4096 < y < 0,
    ;
}

/// Decoding a system call changes no register but the return register, and
/// leaves even that alone when the call is handed on as a request.
pub proof fn law_dispatch_changes_only_retval(
    before: UserContext,
    name: Option<SyscallName>,
    after: UserContext,
    r: Option<SyscallRequest>,
)
    requires
        dispatch_spec(before, name, after, r),
    ensures
        after == (UserContext { retval: after.retval, ..before }),
        r is Some ==> after == before,
{
}

/// Each option of an open request comes from its own flag, whatever the
/// access mode: `O_CREAT` creates, `O_APPEND` appends, `O_TRUNC` truncates,
/// `O_EXCL` asks for a new file, `O_PATH`, `O_DIRECTORY`, `O_NOFOLLOW` and
/// `O_DIRECT` set their options; the access bits alone give the access:
/// `O_RDONLY` reads only, `O_WRONLY` writes only, `O_RDWR` (and the unused
/// fourth value) both; the mode and the owner pass through unchanged.
pub proof fn law_open_options_follow_flags(flags: i32, mode: u32, uid: u32, gid: u32)
    ensures
        ({
            let o = options_for(flags, mode, uid, gid);
            let f = flags as u32;
            &&& o.create == ((f & O_CREAT) != 0)
            &&& o.append == ((f & O_APPEND) != 0)
            &&& o.truncate == ((f & O_TRUNC) != 0)
            &&& o.create_new == ((f & O_EXCL) != 0)
            &&& o.path == ((f & O_PATH) != 0)
            &&& o.directory == ((f & O_DIRECTORY) != 0)
            &&& o.no_follow == ((f & O_NOFOLLOW) != 0)
            &&& o.direct == ((f & O_DIRECT) != 0)
            &&& (f & O_ACCMODE) == O_RDONLY ==> o.read && !o.write
            &&& (f & O_ACCMODE) == O_WRONLY ==> !o.read && o.write
            &&& (f & O_ACCMODE) == O_RDWR ==> o.read && o.write
            &&& o.read || o.write
            &&& o.mode == mode && o.uid == uid && o.gid == gid
        }),
{
}

/// Two open requests whose flags differ only in the access bits ask for the
/// same creation, truncation, append and lookup options.
pub proof fn law_open_options_independent_of_access(a: i32, b: i32, mode: u32, uid: u32, gid: u32)
    requires
        (a as u32 & !O_ACCMODE) == (b as u32 & !O_ACCMODE),
    ensures
        ({
            let x = options_for(a, mode, uid, gid);
            let y = options_for(b, mode, uid, gid);
            &&& x.create == y.create
            &&& x.append == y.append
            &&& x.truncate == y.truncate
            &&& x.create_new == y.create_new
            &&& x.path == y.path
            &&& x.directory == y.directory
            &&& x.no_follow == y.no_follow
            &&& x.direct == y.direct
        }),
{
    let fa = a as u32;
    let fb = b as u32;
    assert(forall|bit: u32|
        #![trigger fa & bit]
        (bit == 64 || bit == 1024 || bit == 512 || bit == 128 || bit == 2097152 || bit == 65536 || bit
            == 131072 || bit == 16384) ==> ((fa & bit) != 0) == ((fb & bit) != 0)) by (bit_vector)
        requires
            (fa & !3u32) == (fb & !3u32),
    ;
}

/// A lookup of a non-empty path starts where `dirfd` says and follows a
/// final symbolic link exactly when `AT_SYMLINK_NOFOLLOW` is not given,
/// whatever the starting directory; from `AT_FDCWD` it always starts in the
/// working directory. An unusable `dirfd` is the error.
pub proof fn law_stat_path_follows_flags(
    fds: Seq<Option<FdEntry>>,
    objects: Seq<FileObject>,
    dirfd: i32,
    path: Seq<char>,
    flags: u32,
)
    requires
        path.len() > 0,
    ensures
        dir_base_spec(fds, objects, dirfd) matches Ok(b) ==> resolve_at_spec(
            fds,
            objects,
            dirfd,
            Some(path),
            flags,
        ) == Ok::<StatTarget, SysError>(
            StatTarget::Path { base: b, follow: (flags & AT_SYMLINK_NOFOLLOW) == 0 },
        ),
        dir_base_spec(fds, objects, dirfd) matches Err(e) ==> resolve_at_spec(
            fds,
            objects,
            dirfd,
            Some(path),
            flags,
        ) == Err::<StatTarget, SysError>(e),
        dirfd == AT_FDCWD ==> resolve_at_spec(fds, objects, dirfd, Some(path), flags) == Ok::<
            StatTarget,
            SysError,
        >(StatTarget::Path { base: DirBase::Cwd, follow: (flags & AT_SYMLINK_NOFOLLOW) == 0 }),
        resolve_at_spec(fds, objects, dirfd, Some(path), flags) matches Ok(StatTarget::Path { follow, .. })
            ==> follow == ((flags & AT_SYMLINK_NOFOLLOW) == 0),
{
}

/// Closing an open descriptor succeeds and empties that slot only: every
/// other descriptor, duplicates of the closed one included, stays as it was.
pub proof fn law_close_removes_only_that_descriptor(
    before: Seq<Option<FdEntry>>,
    after: Seq<Option<FdEntry>>,
    fd: i32,
    r: crate::errno::SysResult<isize>,
)
    requires
        close_spec(before, after, fd, r),
        lookup(before, fd) is Some,
    ensures
        r == Ok::<isize, SysError>(0),
        after.len() == before.len(),
        lookup(after, fd) is None,
        forall|i: int| 0 <= i < before.len() && i != fd ==> #[trigger] after[i] == before[i],
{
}

/// Closing a descriptor that is not open fails with `EBADF` and changes
/// nothing.
pub proof fn law_close_of_unopened_is_ebadf(
    before: Seq<Option<FdEntry>>,
    after: Seq<Option<FdEntry>>,
    fd: i32,
    r: crate::errno::SysResult<isize>,
)
    requires
        close_spec(before, after, fd, r),
        lookup(before, fd) is None,
    ensures
        r == crate::fd_ops::ebadf::<isize>(),
        after == before,
{
}

/// A decoded request carries the argument registers in the order of its
/// handler's parameters, converted to the parameter types; a call this
/// kernel does not serve decodes to nothing.
pub proof fn law_requests_take_registers_in_order(u: UserContext)
    ensures
        request_for(SyscallName::Openat, u) == Some(
            SyscallRequest::Openat {
                dirfd: u.arg0 as i32,
                path: u.arg1,
                flags: u.arg2 as i32,
                mode: u.arg3 as u32,
            },
        ),
        request_for(SyscallName::Close, u) == Some(SyscallRequest::Close { fd: u.arg0 as i32 }),
        request_for(SyscallName::Read, u) == Some(SyscallRequest::Read(u.arg0, u.arg1, u.arg2)),
        request_for(SyscallName::Write, u) == Some(SyscallRequest::Write(u.arg0, u.arg1, u.arg2)),
        request_for(SyscallName::Lseek, u) == Some(SyscallRequest::Lseek(u.arg0, u.arg1, u.arg2)),
        request_for(SyscallName::Fstat, u) == Some(SyscallRequest::Fstat { fd: u.arg0 as i32, statbuf: u.arg1 }),
        request_for(SyscallName::Fcntl, u) == Some(
            SyscallRequest::Fcntl { fd: u.arg0 as i32, cmd: u.arg1 as i32, arg: u.arg2 },
        ),
        request_for(SyscallName::Ioctl, u) == Some(SyscallRequest::Ioctl(u.arg0, u.arg1, u.arg2)),
        request_for(SyscallName::Readlinkat, u) == Some(
            SyscallRequest::Readlinkat(u.arg0, u.arg1, u.arg2, u.arg3),
        ),
        request_for(SyscallName::Brk, u) == Some(SyscallRequest::Brk(u.arg0)),
        request_for(SyscallName::Mmap, u) == Some(
            SyscallRequest::Mmap(u.arg0, u.arg1, u.arg2, u.arg3, u.arg4, u.arg5),
        ),
        request_for(SyscallName::Mprotect, u) == Some(SyscallRequest::Mprotect(u.arg0, u.arg1, u.arg2)),
        request_for(SyscallName::Exit, u) == Some(SyscallRequest::Exit(u.arg0)),
        request_for(SyscallName::ExitGroup, u) == Some(SyscallRequest::ExitGroup(u.arg0)),
        request_for(SyscallName::SetTidAddress, u) == Some(
            SyscallRequest::SetTidAddress { clear_child_tid: u.arg0 },
        ),
        request_for(SyscallName::SetRobustList, u) == Some(
            SyscallRequest::SetRobustList { head: u.arg0, size: u.arg1 },
        ),
        request_for(SyscallName::Prlimit64, u) == Some(
            SyscallRequest::Prlimit64 {
                pid: u.arg0 as u32,
                resource: u.arg1 as u32,
                new_limit: u.arg2,
                old_limit: u.arg3,
            },
        ),
        request_for(SyscallName::Getrandom, u) == Some(SyscallRequest::Getrandom(u.arg0, u.arg1, u.arg2)),
        request_for(SyscallName::Other, u) is None,
{
}

/// Dispatching a served call hands on exactly the decoded request and
/// leaves every register as it was.
pub proof fn law_dispatch_hands_on_the_request(
    before: UserContext,
    n: SyscallName,
    after: UserContext,
    r: Option<SyscallRequest>,
)
    requires
        dispatch_spec(before, Some(n), after, r),
        n != SyscallName::Other,
    ensures
        r == request_for(n, before),
        r is Some,
        after == before,
{
}

/// `prlimit64` on a valid resource with no new limit, whose old limit (if
/// asked for) was written, is a plain query: it succeeds, reports the
/// current limit and changes nothing. Whatever the inputs, a failed call
/// changes no limit.
pub proof fn law_prlimit_query_only(
    before: Seq<Rlimit>,
    after: Seq<Rlimit>,
    resource: u32,
    old_write: Option<crate::errno::SysResult<()>>,
    new_limit: Option<crate::errno::SysResult<Rlimit>>,
    old: Option<Rlimit>,
    r: crate::errno::SysResult<isize>,
)
    requires
        before.len() == RLIM_NLIMITS,
        prlimit64_spec(before, after, resource, old_write, new_limit, old, r),
    ensures
        resource < RLIM_NLIMITS && !(old_write matches Some(Err(_))) && new_limit is None ==> r == Ok::<
            isize,
            SysError,
        >(0) && after == before,
        resource < RLIM_NLIMITS && old_write == Some(Ok::<(), SysError>(())) ==> old == Some(
            before[resource as int],
        ),
        r is Err ==> after == before,
{
}

} // verus!
