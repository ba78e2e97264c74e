//! Per-process resource limits and `prlimit64(2)`.
use vstd::prelude::*;
use crate::abi::{FILE_LIMIT, RLIMIT_NOFILE, RLIM_INFINITY, RLIM_NLIMITS};
use crate::errno::{ErrorKind, SysError, SysResult};

verus! {

/// One resource limit: the soft (`current`) and the hard (`max`) value.
#[derive(Clone, Copy, Debug, PartialEq, Eq, Structural)]
pub struct Rlimit {
    pub current: u64,
    pub max: u64,
}

/// The resource limits of a process, one per resource kind.
pub struct Rlimits {
    limits: Vec<Rlimit>,
}

impl Rlimits {
    /// The limits, indexed by resource kind.
    pub closed spec fn limits(&self) -> Seq<Rlimit> {
        self.limits@
    }

    pub open spec fn wf(&self) -> bool {
        self.limits().len() == RLIM_NLIMITS
    }

    /// The soft limit on the number of open descriptors.
    pub open spec fn nofile(&self) -> u64 {
        self.limits()[RLIMIT_NOFILE as int].current
    }

    /// The limits a new process starts with: every resource unlimited, except
    /// the number of open descriptors, which is bounded by the size of the
    /// descriptor table (soft and hard).
    pub fn new() -> (r: Self)
        ensures
            r.wf(),
            forall|i: int|
                0 <= i < RLIM_NLIMITS && i != RLIMIT_NOFILE ==> #[trigger] r.limits()[i] == (Rlimit {
                    current: RLIM_INFINITY,
                    max: RLIM_INFINITY,
                }),
            r.limits()[RLIMIT_NOFILE as int] == (Rlimit { current: FILE_LIMIT as u64, max: FILE_LIMIT as u64 }),
    {
        let mut limits: Vec<Rlimit> = Vec::new();
        let mut i: u32 = 0;
        while i < RLIM_NLIMITS
            invariant
                i <= RLIM_NLIMITS,
                limits@.len() == i,
                forall|j: int|
                    0 <= j < i && j != RLIMIT_NOFILE ==> #[trigger] limits@[j] == (Rlimit {
                        current: RLIM_INFINITY,
                        max: RLIM_INFINITY,
                    }),
                i > RLIMIT_NOFILE ==> limits@[RLIMIT_NOFILE as int] == (Rlimit {
                    current: FILE_LIMIT as u64,
                    max: FILE_LIMIT as u64,
                }),
            decreases RLIM_NLIMITS - i,
        {
            if i == RLIMIT_NOFILE {
                limits.push(Rlimit { current: FILE_LIMIT as u64, max: FILE_LIMIT as u64 });
            } else {
                limits.push(Rlimit { current: RLIM_INFINITY, max: RLIM_INFINITY });
            }
            i = i + 1;
        }
        Rlimits { limits }
    }

    /// The limit of one resource.
    pub fn get(&self, resource: u32) -> (r: Rlimit)
        requires
            self.wf(),
            resource < RLIM_NLIMITS,
        ensures
            r == self.limits()[resource as int],
    {
        self.limits[resource as usize]
    }

    fn set(&mut self, resource: u32, limit: Rlimit)
        requires
            old(self).wf(),
            resource < RLIM_NLIMITS,
        ensures
            final(self).limits() == old(self).limits().update(resource as int, limit),
    {
        self.limits.set(resource as usize, limit);
    }
}

/// The limit that `prlimit64` reports as the old one: the current limit of
/// `resource`, or `EINVAL` for a resource kind that does not exist.
pub fn prlimit_query(limits: &Rlimits, resource: u32) -> (r: SysResult<Rlimit>)
    requires
        limits.wf(),
    ensures
        resource >= RLIM_NLIMITS ==> r == Err::<Rlimit, SysError>(SysError::Ax(ErrorKind::InvalidInput)),
        resource < RLIM_NLIMITS ==> r == Ok::<Rlimit, SysError>(limits.limits()[resource as int]),
{
    if resource >= RLIM_NLIMITS {
        return Err(SysError::Ax(ErrorKind::InvalidInput));
    }
    Ok(limits.get(resource))
}

/// What `prlimit64` does with a new limit, as a relation between the limits
/// before and after the call and its result.
pub open spec fn prlimit_spec(
    before: Seq<Rlimit>,
    after: Seq<Rlimit>,
    resource: u32,
    new_limit: Option<Rlimit>,
    r: SysResult<isize>,
) -> bool {
    if resource >= RLIM_NLIMITS {
        r == Err::<isize, SysError>(SysError::Ax(ErrorKind::InvalidInput)) && after == before
    } else {
        match new_limit {
            None => r == Ok::<isize, SysError>(0) && after == before,
            Some(n) => if n.current > n.max {
                r == Err::<isize, SysError>(SysError::Ax(ErrorKind::InvalidInput)) && after == before
            } else if n.max <= before[resource as int].max {
                r == Ok::<isize, SysError>(0) && after == before.update(resource as int, n)
            } else {
                // A raise of the hard limit is ignored.
                r == Ok::<isize, SysError>(0) && after == before
            },
        }
    }
}

/// The update step of `prlimit64(2)`: applies a new limit, if any.
///
/// A new limit whose soft value exceeds its hard value is refused with
/// `EINVAL`; one that would raise the hard limit is ignored and the call
/// still succeeds; otherwise both values are replaced.
pub fn set_limit(limits: &mut Rlimits, resource: u32, new_limit: Option<Rlimit>) -> (r: SysResult<isize>)
    requires
        old(limits).wf(),
    ensures
        final(limits).wf(),
        prlimit_spec(old(limits).limits(), final(limits).limits(), resource, new_limit, r),
{
    if resource >= RLIM_NLIMITS {
        return Err(SysError::Ax(ErrorKind::InvalidInput));
    }
    match new_limit {
        None => Ok(0),
        Some(n) => {
            if n.current > n.max {
                return Err(SysError::Ax(ErrorKind::InvalidInput));
            }
            let cur = limits.get(resource);
            if n.max <= cur.max {
                limits.set(resource, n);
                Ok(0)
            } else {
                Ok(0)
            }
        }
    }
}

/// `prlimit64(2)` from start to end, as a relation between the limits before
/// and after, the old limit it reports and its result.
///
/// `old_write` is `None` when no buffer for the old limit was given, and
/// otherwise the outcome of writing the reported old limit there;
/// `new_limit` is `None` when no new limit was given, and otherwise the
/// outcome of reading it. An unknown resource is `EINVAL` before anything
/// else; the old limit is reported as it was before any update; a failed
/// write of it, or a failed read of the new limit, is the result and stops
/// the update.
pub open spec fn prlimit64_spec(
    before: Seq<Rlimit>,
    after: Seq<Rlimit>,
    resource: u32,
    old_write: Option<SysResult<()>>,
    new_limit: Option<SysResult<Rlimit>>,
    old: Option<Rlimit>,
    r: SysResult<isize>,
) -> bool {
    if resource >= RLIM_NLIMITS {
        r == Err::<isize, SysError>(SysError::Ax(ErrorKind::InvalidInput)) && old is None && after == before
    } else {
        &&& old == (if old_write is Some {
            Some(before[resource as int])
        } else {
            None
        })
        &&& match old_write {
            Some(Err(e)) => r == Err::<isize, SysError>(e) && after == before,
            _ => match new_limit {
                None => r == Ok::<isize, SysError>(0) && after == before,
                Some(Err(e)) => r == Err::<isize, SysError>(e) && after == before,
                Some(Ok(n)) => prlimit_spec(before, after, resource, Some(n), r),
            },
        }
    }
}

/// `prlimit64(2)` on the limits of the target process: returns the old
/// limit to report (when a buffer for it was given) and the result. See
/// [`prlimit64_spec`] for `old_write` and `new_limit`; the old limit written
/// is the one [`prlimit_query`] returns.
pub fn sys_prlimit64(
    limits: &mut Rlimits,
    resource: u32,
    old_write: Option<SysResult<()>>,
    new_limit: Option<SysResult<Rlimit>>,
) -> (r: (Option<Rlimit>, SysResult<isize>))
    requires
        old(limits).wf(),
    ensures
        final(limits).wf(),
        prlimit64_spec(old(limits).limits(), final(limits).limits(), resource, old_write, new_limit, r.0, r.1),
{
    if resource >= RLIM_NLIMITS {
        return (None, Err(SysError::Ax(ErrorKind::InvalidInput)));
    }
    let current = limits.get(resource);
    let old = match old_write {
        None => None,
        Some(_) => Some(current),
    };
    if let Some(Err(e)) = old_write {
        return (old, Err(e));
    }
    match new_limit {
        None => (old, Ok(0)),
        Some(Err(e)) => (old, Err(e)),
        Some(Ok(n)) => (old, set_limit(limits, resource, Some(n))),
    }
}

} // verus!
