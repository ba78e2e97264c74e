//! The per-process descriptor table and the open file descriptions that its
//! descriptors refer to.
use vstd::prelude::*;
use crate::abi::{FILE_LIMIT, PAGE_SIZE, RLIMIT_NOFILE};
use crate::errno::{ErrorKind, SysError, SysResult};
use crate::resources::Rlimits;

verus! {

/// What an open file description is.
#[derive(Clone, Copy, Debug, PartialEq, Eq, Structural)]
pub enum FileKind {
    File,
    Directory,
    Pipe,
}

/// An open file description: the state that every descriptor duplicated from
/// the same open shares.
///
/// The pipe fields matter only for pipes: the buffer size and the number of
/// bytes it holds (never more than the buffer size).
#[derive(Clone, Copy, Debug, PartialEq, Eq, Structural)]
pub struct FileObject {
    pub kind: FileKind,
    pub nonblocking: bool,
    pub pipe_capacity: usize,
    pub pipe_buffered: usize,
}

/// One slot of the descriptor table: the open file description it refers to
/// and its close-on-exec flag.
#[derive(Clone, Copy, Debug, PartialEq, Eq, Structural)]
pub struct FdEntry {
    pub object: usize,
    pub cloexec: bool,
}

/// Whether the description reports itself non-blocking. Directories never
/// do: they ignore the flag.
pub open spec fn reports_nonblocking(o: FileObject) -> bool {
    o.kind != FileKind::Directory && o.nonblocking
}

/// The description after its non-blocking flag was set to `nb`; a directory
/// keeps its state.
pub open spec fn with_nonblocking(o: FileObject, nb: bool) -> FileObject {
    if o.kind == FileKind::Directory {
        o
    } else {
        FileObject { nonblocking: nb, ..o }
    }
}

/// The slot that descriptor `fd` names, if `fd` names one at all.
pub open spec fn lookup(fds: Seq<Option<FdEntry>>, fd: i32) -> Option<FdEntry> {
    if 0 <= fd < fds.len() {
        fds[fd as int]
    } else {
        None
    }
}

/// The number of open descriptors.
pub open spec fn count_open(fds: Seq<Option<FdEntry>>) -> nat
    decreases fds.len(),
{
    if fds.len() == 0 {
        0
    } else {
        count_open(fds.drop_last()) + if fds.last() is Some {
            1nat
        } else {
            0nat
        }
    }
}

/// `i` is the lowest free slot.
pub open spec fn is_lowest_free(fds: Seq<Option<FdEntry>>, i: int) -> bool {
    &&& 0 <= i < fds.len()
    &&& fds[i] is None
    &&& forall|j: int| 0 <= j < i ==> #[trigger] fds[j] is Some
}

/// Some slot is free.
pub open spec fn has_free_slot(fds: Seq<Option<FdEntry>>) -> bool {
    exists|i: int| 0 <= i < fds.len() && #[trigger] fds[i] is None
}

/// Whether a new descriptor can be installed: the number of open descriptors
/// is below the soft `RLIMIT_NOFILE` limit and a slot is free.
pub open spec fn can_add(fds: Seq<Option<FdEntry>>, nofile: u64) -> bool {
    count_open(fds) < nofile && has_free_slot(fds)
}

/// The lowest free slot (meaningful when one is free).
pub open spec fn lowest_free_slot(fds: Seq<Option<FdEntry>>) -> int {
    choose|i: int| is_lowest_free(fds, i)
}

/// The descriptor that installing a new descriptor yields, or `None` when the
/// table refuses it.
pub open spec fn added_fd(fds: Seq<Option<FdEntry>>, nofile: u64) -> Option<int> {
    if can_add(fds, nofile) {
        Some(lowest_free_slot(fds))
    } else {
        None
    }
}

/// The slots after installing `entry`.
pub open spec fn fds_after_add(fds: Seq<Option<FdEntry>>, nofile: u64, entry: FdEntry) -> Seq<
    Option<FdEntry>,
> {
    match added_fd(fds, nofile) {
        Some(fd) => fds.update(fd, Some(entry)),
        None => fds,
    }
}

/// What installing a descriptor returns.
pub open spec fn add_result(fds: Seq<Option<FdEntry>>, nofile: u64) -> SysResult<i32> {
    match added_fd(fds, nofile) {
        Some(fd) => Ok(fd as i32),
        None => Err(SysError::Ax(ErrorKind::TooManyOpenFiles)),
    }
}

/// What resizing pipe `o` to `size` bytes returns.
pub open spec fn resize_result(o: FileObject, size: usize) -> SysResult<()> {
    if pipe_size_for(size) > usize::MAX {
        Err(SysError::Ax(ErrorKind::InvalidInput))
    } else if pipe_size_for(size) < o.pipe_buffered {
        Err(SysError::Ax(ErrorKind::ResourceBusy))
    } else {
        Ok(())
    }
}

/// There is at most one lowest free slot.
pub proof fn lemma_lowest_free_unique(fds: Seq<Option<FdEntry>>, i: int, j: int)
    requires
        is_lowest_free(fds, i),
        is_lowest_free(fds, j),
    ensures
        i == j,
{
    if i < j {
        assert(fds[i] is Some);
    } else if j < i {
        assert(fds[j] is Some);
    }
}

/// When a slot is free, `lowest_free_slot` is the lowest one.
pub proof fn lemma_lowest_free_slot(fds: Seq<Option<FdEntry>>)
    requires
        has_free_slot(fds),
    ensures
        is_lowest_free(fds, lowest_free_slot(fds)),
{
    let i = choose|i: int| 0 <= i < fds.len() && #[trigger] fds[i] is None;
    lemma_lowest_free_exists(fds, i);
}

proof fn lemma_lowest_free_exists(fds: Seq<Option<FdEntry>>, i: int)
    requires
        0 <= i < fds.len(),
        fds[i] is None,
    ensures
        exists|k: int| is_lowest_free(fds, k),
    decreases i,
{
    if forall|j: int| 0 <= j < i ==> #[trigger] fds[j] is Some {
        assert(is_lowest_free(fds, i));
    } else {
        let j = choose|j: int| 0 <= j < i && !(#[trigger] fds[j] is Some);
        lemma_lowest_free_exists(fds, j);
    }
}

/// The buffer size a pipe gets when asked for `size` bytes: `size` rounded
/// up to whole pages, and at least one page.
pub open spec fn pipe_size_for(size: usize) -> int {
    if size == 0 {
        PAGE_SIZE as int
    } else {
        ((size as int + PAGE_SIZE as int - 1) / PAGE_SIZE as int) * PAGE_SIZE as int
    }
}

/// Changing `count_open` by one slot.
pub proof fn lemma_count_open_update(fds: Seq<Option<FdEntry>>, i: int, v: Option<FdEntry>)
    requires
        0 <= i < fds.len(),
    ensures
        count_open(fds.update(i, v)) + (if fds[i] is Some { 1int } else { 0int }) == count_open(fds)
            + (if v is Some { 1int } else { 0int }),
    decreases fds.len(),
{
    let u = fds.update(i, v);
    if i == fds.len() - 1 {
        assert(u.drop_last() =~= fds.drop_last());
    } else {
        assert(u.drop_last() =~= fds.drop_last().update(i, v));
        lemma_count_open_update(fds.drop_last(), i, v);
    }
}

/// A table with every slot empty has no open descriptor.
pub proof fn lemma_count_open_empty(fds: Seq<Option<FdEntry>>)
    requires
        forall|i: int| 0 <= i < fds.len() ==> #[trigger] fds[i] is None,
    ensures
        count_open(fds) == 0,
    decreases fds.len(),
{
    if fds.len() > 0 {
        lemma_count_open_empty(fds.drop_last());
    }
}

/// Every open descriptor refers to a held open file description, and no pipe
/// holds more bytes than its buffer size.
pub open spec fn table_wf(fds: Seq<Option<FdEntry>>, objects: Seq<FileObject>) -> bool {
    &&& forall|i: int| 0 <= i < fds.len() && #[trigger] fds[i] is Some ==> fds[i]->0.object < objects.len()
    &&& forall|i: int| 0 <= i < objects.len() ==> #[trigger] objects[i].pipe_buffered <= objects[i].pipe_capacity
}

/// A descriptor table: `FILE_LIMIT` slots, each empty or referring to one of
/// the open file descriptions held beside them.
pub struct FdTable {
    slots: Vec<Option<FdEntry>>,
    objects: Vec<FileObject>,
}

impl FdTable {
    /// The slots, indexed by descriptor.
    pub closed spec fn fds(&self) -> Seq<Option<FdEntry>> {
        self.slots@
    }

    /// The open file descriptions, indexed by the `object` of an entry.
    pub closed spec fn objects(&self) -> Seq<FileObject> {
        self.objects@
    }

    pub open spec fn wf(&self) -> bool {
        &&& self.fds().len() == FILE_LIMIT
        &&& table_wf(self.fds(), self.objects())
    }

    /// An empty table.
    pub fn new() -> (r: Self)
        ensures
            r.wf(),
            r.fds() == Seq::new(FILE_LIMIT as nat, |i: int| None::<FdEntry>),
            r.objects() == Seq::<FileObject>::empty(),
            count_open(r.fds()) == 0,
    {
        let mut slots: Vec<Option<FdEntry>> = Vec::new();
        let mut i: usize = 0;
        while i < FILE_LIMIT
            invariant
                i <= FILE_LIMIT,
                slots@ == Seq::new(i as nat, |j: int| None::<FdEntry>),
            decreases FILE_LIMIT - i,
        {
            slots.push(None);
            i = i + 1;
        }
        proof {
            lemma_count_open_empty(slots@);
        }
        FdTable { slots, objects: Vec::new() }
    }

    /// The slot that `fd` names.
    pub fn entry(&self, fd: i32) -> (r: Option<FdEntry>)
        requires
            self.wf(),
        ensures
            r == lookup(self.fds(), fd),
    {
        if fd < 0 || fd as usize >= self.slots.len() {
            None
        } else {
            self.slots[fd as usize]
        }
    }

    /// An open file description.
    pub fn object(&self, id: usize) -> (r: FileObject)
        requires
            id < self.objects().len(),
        ensures
            r == self.objects()[id as int],
    {
        self.objects[id]
    }

    /// Holds a new open file description; nothing refers to it yet.
    pub fn register(&mut self, object: FileObject) -> (id: usize)
        requires
            old(self).wf(),
            object.pipe_buffered <= object.pipe_capacity,
        ensures
            final(self).wf(),
            id == old(self).objects().len(),
            final(self).objects() == old(self).objects().push(object),
            final(self).fds() == old(self).fds(),
    {
        let id = self.objects.len();
        self.objects.push(object);
        id
    }

    /// The number of open descriptors.
    pub fn count(&self) -> (n: usize)
        requires
            self.wf(),
        ensures
            n == count_open(self.fds()),
    {
        let mut n: usize = 0;
        let mut i: usize = 0;
        while i < self.slots.len()
            invariant
                i <= self.slots@.len(),
                n == count_open(self.slots@.take(i as int)),
                n <= i,
            decreases self.slots@.len() - i,
        {
            assert(self.slots@.take(i + 1).drop_last() =~= self.slots@.take(i as int));
            if self.slots[i].is_some() {
                n = n + 1;
            }
            i = i + 1;
        }
        assert(self.slots@.take(i as int) =~= self.slots@);
        n
    }

    /// The lowest free slot, if any.
    fn lowest_free(&self) -> (r: Option<usize>)
        requires
            self.wf(),
        ensures
            r matches Some(i) ==> is_lowest_free(self.fds(), i as int),
            r is None ==> !has_free_slot(self.fds()),
    {
        let mut i: usize = 0;
        while i < self.slots.len()
            invariant
                i <= self.slots@.len(),
                forall|j: int| 0 <= j < i ==> #[trigger] self.slots@[j] is Some,
            decreases self.slots@.len() - i,
        {
            if self.slots[i].is_none() {
                return Some(i);
            }
            i = i + 1;
        }
        None
    }

    /// Whether a new descriptor can be installed now.
    pub fn can_add_descriptor(&self, limits: &Rlimits) -> (r: bool)
        requires
            self.wf(),
            limits.wf(),
        ensures
            r == can_add(self.fds(), limits.nofile()),
    {
        let max_nofile = limits.get(RLIMIT_NOFILE).current;
        let n = self.count();
        if n as u64 >= max_nofile {
            return false;
        }
        match self.lowest_free() {
            None => false,
            Some(i) => {
                assert(self.fds()[i as int] is None);
                true
            },
        }
    }

    /// Installs a descriptor for the open file description `object` in the
    /// lowest free slot. Fails with `EMFILE` when as many descriptors are open
    /// as the soft `RLIMIT_NOFILE` limit allows, or when no slot is free.
    pub fn add_file_like(&mut self, limits: &Rlimits, object: usize, cloexec: bool) -> (r: SysResult<i32>)
        requires
            old(self).wf(),
            limits.wf(),
            object < old(self).objects().len(),
        ensures
            final(self).wf(),
            final(self).objects() == old(self).objects(),
            r == add_result(old(self).fds(), limits.nofile()),
            final(self).fds() == fds_after_add(
                old(self).fds(),
                limits.nofile(),
                FdEntry { object, cloexec },
            ),
    {
        let max_nofile = limits.get(RLIMIT_NOFILE).current;
        let n = self.count();
        if n as u64 >= max_nofile {
            return Err(SysError::Ax(ErrorKind::TooManyOpenFiles));
        }
        match self.lowest_free() {
            None => Err(SysError::Ax(ErrorKind::TooManyOpenFiles)),
            Some(i) => {
                proof {
                    lemma_lowest_free_slot(self.slots@);
                    lemma_lowest_free_unique(self.slots@, i as int, lowest_free_slot(self.slots@));
                }
                self.slots.set(i, Some(FdEntry { object, cloexec }));
                Ok(i as i32)
            },
        }
    }

    /// Removes descriptor `fd`; `EBADF` if it is not open.
    pub fn close_file_like(&mut self, fd: i32) -> (r: SysResult<()>)
        requires
            old(self).wf(),
        ensures
            final(self).wf(),
            final(self).objects() == old(self).objects(),
            lookup(old(self).fds(), fd) is None ==> r == Err::<(), SysError>(
                SysError::Ax(ErrorKind::BadFileDescriptor),
            ) && final(self).fds() == old(self).fds(),
            lookup(old(self).fds(), fd) is Some ==> r == Ok::<(), SysError>(()) && final(self).fds()
                == old(self).fds().update(fd as int, None),
    {
        match self.entry(fd) {
            None => Err(SysError::Ax(ErrorKind::BadFileDescriptor)),
            Some(_) => {
                self.slots.set(fd as usize, None);
                Ok(())
            },
        }
    }

    /// Sets the close-on-exec flag of descriptor `fd`; `EBADF` if it is not
    /// open.
    pub fn set_cloexec(&mut self, fd: i32, cloexec: bool) -> (r: SysResult<()>)
        requires
            old(self).wf(),
        ensures
            final(self).wf(),
            final(self).objects() == old(self).objects(),
            lookup(old(self).fds(), fd) is None ==> r == Err::<(), SysError>(
                SysError::Ax(ErrorKind::BadFileDescriptor),
            ) && final(self).fds() == old(self).fds(),
            lookup(old(self).fds(), fd) is Some ==> r == Ok::<(), SysError>(())
                && final(self).fds() == old(self).fds().update(
                fd as int,
                Some(FdEntry { object: lookup(old(self).fds(), fd)->0.object, cloexec }),
            ),
    {
        match self.entry(fd) {
            None => Err(SysError::Ax(ErrorKind::BadFileDescriptor)),
            Some(e) => {
                self.slots.set(fd as usize, Some(FdEntry { object: e.object, cloexec }));
                Ok(())
            },
        }
    }

    /// Sets the non-blocking flag of an open file description (ignored by
    /// directories).
    pub fn set_nonblocking(&mut self, id: usize, nonblocking: bool)
        requires
            old(self).wf(),
            id < old(self).objects().len(),
        ensures
            final(self).wf(),
            final(self).fds() == old(self).fds(),
            final(self).objects() == old(self).objects().update(
                id as int,
                with_nonblocking(old(self).objects()[id as int], nonblocking),
            ),
    {
        let o = self.objects[id];
        if o.kind != FileKind::Directory {
            self.objects.set(id, FileObject { nonblocking, ..o });
        }
        assert(self.objects@ =~= old(self).objects@.update(
            id as int,
            with_nonblocking(old(self).objects@[id as int], nonblocking),
        ));
    }

    /// Resizes the buffer of a pipe to `size` bytes rounded up to whole pages
    /// (at least one page). Fails, changing nothing, with `EINVAL` when the
    /// rounded size does not fit in a `usize`, and with `EBUSY` when it is
    /// below the number of bytes the pipe holds.
    pub fn resize_pipe(&mut self, id: usize, size: usize) -> (r: SysResult<()>)
        requires
            old(self).wf(),
            id < old(self).objects().len(),
        ensures
            final(self).wf(),
            final(self).fds() == old(self).fds(),
            r == resize_result(old(self).objects()[id as int], size),
            r is Err ==> final(self).objects() == old(self).objects(),
            r is Ok ==> final(self).objects() == old(self).objects().update(
                id as int,
                FileObject { pipe_capacity: pipe_size_for(size) as usize, ..old(self).objects()[id as int] },
            ),
    {
        if size > usize::MAX - (PAGE_SIZE - 1) {
            assert(pipe_size_for(size) > usize::MAX) by (nonlinear_arith)
                requires
                    size as int > usize::MAX as int - 4095,
                    size <= usize::MAX,
                    (usize::MAX as int + 1) % 4096 == 0,
                    pipe_size_for(size) == ((size as int + 4095) / 4096) * 4096,
            ;
            return Err(SysError::Ax(ErrorKind::InvalidInput));
        }
        let pages: usize = if size == 0 {
            1
        } else {
            (size + (PAGE_SIZE - 1)) / PAGE_SIZE
        };
        assert(pages as int * 4096 == pipe_size_for(size) && pipe_size_for(size) <= usize::MAX)
            by (nonlinear_arith)
            requires
                pages as int == (if size == 0 { 1int } else { (size as int + 4095) / 4096 }),
                size as int <= usize::MAX as int - 4095,
                (usize::MAX as int + 1) % 4096 == 0,
                pipe_size_for(size) == (if size == 0 { 4096int } else { ((size as int + 4095) / 4096) * 4096 }),
        ;
        let new_size: usize = pages * PAGE_SIZE;
        let o = self.objects[id];
        if new_size == o.pipe_capacity {
            assert(self.objects@ =~= old(self).objects@.update(
                id as int,
                FileObject { pipe_capacity: pipe_size_for(size) as usize, ..old(self).objects@[id as int] },
            ));
            return Ok(());
        }
        if new_size < o.pipe_buffered {
            return Err(SysError::Ax(ErrorKind::ResourceBusy));
        }
        self.objects.set(id, FileObject { pipe_capacity: new_size, ..o });
        Ok(())
    }
}

} // verus!
