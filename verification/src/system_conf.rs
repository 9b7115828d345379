//! The cached snapshot of the system's DNS configuration.

use std::sync::Arc;
use vstd::prelude::*;

verus! {

/// What a cache holds: nothing yet, or the outcome of the last read of the
/// system's DNS configuration, a failure as well as a success.
///
/// Configurations of type `C` and errors of type `E` are never looked into.
/// They sit behind reference counts, so that every reader gets the very
/// value that was read.
pub struct SystemConfigCache<C, E> {
    snapshot: Option<Result<Arc<C>, Arc<E>>>,
}

impl<C, E> View for SystemConfigCache<C, E> {
    type V = Option<Result<Arc<C>, Arc<E>>>;

    closed spec fn view(&self) -> Option<Result<Arc<C>, Arc<E>>> {
        self.snapshot
    }
}

/// An outcome as the reader returned it, before it was put behind reference
/// counts.
pub open spec fn as_read<C, E>(outcome: Result<Arc<C>, Arc<E>>) -> Result<C, E> {
    match outcome {
        Ok(config) => Ok(*config),
        Err(error) => Err(*error),
    }
}

/// Whether `get_or_compute` runs the reader on a cache that holds `snapshot`.
pub open spec fn must_read<C, E>(snapshot: Option<Result<Arc<C>, Arc<E>>>) -> bool {
    snapshot is None
}

/// What `get_or_compute` leaves in a cache that held `snapshot`, where
/// `fresh` is what the reader gives if it is run.
pub open spec fn after_get<C, E>(
    snapshot: Option<Result<Arc<C>, Arc<E>>>,
    fresh: Result<Arc<C>, Arc<E>>,
) -> Option<Result<Arc<C>, Arc<E>>> {
    match snapshot {
        Some(_) => snapshot,
        None => Some(fresh),
    }
}

/// What `invalidate` leaves in a cache, whatever it held.
pub open spec fn after_invalidate<C, E>(snapshot: Option<Result<Arc<C>, Arc<E>>>) -> Option<
    Result<Arc<C>, Arc<E>>,
> {
    None
}

/// `after` is a content that `get_or_compute` with the reader `read` can
/// leave in a cache that held `before`: a snapshot that was there stays, and
/// an empty cache takes an outcome of the reader.
pub open spec fn fetched<C, E, F: FnOnce() -> Result<C, E>>(
    before: Option<Result<Arc<C>, Arc<E>>>,
    read: F,
    after: Option<Result<Arc<C>, Arc<E>>>,
) -> bool {
    &&& after matches Some(outcome)
    &&& after == after_get(before, outcome)
    &&& must_read(before) ==> read.ensures((), as_read(outcome))
}

impl<C, E> SystemConfigCache<C, E> {
    /// A cache in which nothing has been computed yet.
    pub fn new() -> (cache: Self)
        ensures
            cache@ is None,
    {
        SystemConfigCache { snapshot: None }
    }

    /// The outcome of reading the system's configuration, read now if the
    /// cache holds none and kept for later calls, a failure too.
    ///
    /// The reader runs only on an empty cache, and then once.
    pub fn get_or_compute<F: FnOnce() -> Result<C, E>>(&mut self, read: F) -> (outcome: Result<
        Arc<C>,
        Arc<E>,
    >)
        requires
            must_read(old(self)@) ==> read.requires(()),
        ensures
            final(self)@ == Some(outcome),
            fetched(old(self)@, read, final(self)@),
    {
        match &self.snapshot {
            Some(Ok(config)) => Ok(Arc::clone(config)),
            Some(Err(error)) => Err(Arc::clone(error)),
            None => {
                match read() {
                    Ok(config) => {
                        let config = Arc::new(config);
                        self.snapshot = Some(Ok(Arc::clone(&config)));
                        Ok(config)
                    },
                    Err(error) => {
                        let error = Arc::new(error);
                        self.snapshot = Some(Err(Arc::clone(&error)));
                        Err(error)
                    },
                }
            },
        }
    }

    /// Forgets the snapshot, a failure as well as a success, so that the next
    /// `get_or_compute` reads again.
    pub fn invalidate(&mut self)
        ensures
            final(self)@ == after_invalidate(old(self)@),
    {
        self.snapshot = None;
    }
}

/// Makes the next use of the system's configuration read it afresh. Resolvers
/// that were built from the snapshot before are not touched: the cache is all
/// that this can reach.
pub fn reinitialize_system_conf<C, E>(conf: &mut SystemConfigCache<C, E>)
    ensures
        final(conf)@ == after_invalidate(old(conf)@),
{
    conf.invalidate();
}

/// A snapshot that is there is kept, a failure like a success: no later
/// `get_or_compute` reads, and all of them give what the first one gave.
pub proof fn law_snapshot_is_kept<C, E>(
    snapshot: Option<Result<Arc<C>, Arc<E>>>,
    first: Result<Arc<C>, Arc<E>>,
    second: Result<Arc<C>, Arc<E>>,
)
    ensures
        !must_read(after_get(snapshot, first)),
        after_get(after_get(snapshot, first), second) == after_get(snapshot, first),
        must_read(snapshot) ==> after_get(snapshot, first) == Some(first),
{
}

/// After `invalidate` the next `get_or_compute` reads again, whatever the
/// cache held, and what that read gives is the new snapshot.
pub proof fn law_invalidate_forces_read<C, E>(
    snapshot: Option<Result<Arc<C>, Arc<E>>>,
    fresh: Result<Arc<C>, Arc<E>>,
)
    ensures
        must_read(after_invalidate(snapshot)),
        after_get(after_invalidate(snapshot), fresh) == Some(fresh),
{
}

/// One use of a cache.
pub enum CacheUse<C, E> {
    /// A `get_or_compute`, where `fresh` is what the reader gives if it is
    /// run.
    Get { fresh: Result<Arc<C>, Arc<E>> },
    /// An `invalidate`.
    Invalidate,
}

/// What one use leaves in a cache that held `snapshot`.
pub open spec fn after_use<C, E>(
    snapshot: Option<Result<Arc<C>, Arc<E>>>,
    cache_use: CacheUse<C, E>,
) -> Option<Result<Arc<C>, Arc<E>>> {
    match cache_use {
        CacheUse::Get { fresh } => after_get(snapshot, fresh),
        CacheUse::Invalidate => after_invalidate(snapshot),
    }
}

/// What the uses leave, one after the other, in a cache that held
/// `snapshot`. The cache is used under exclusive access, so the uses of
/// concurrent callers come one after the other too, in some order.
pub open spec fn after_uses<C, E>(
    snapshot: Option<Result<Arc<C>, Arc<E>>>,
    uses: Seq<CacheUse<C, E>>,
) -> Option<Result<Arc<C>, Arc<E>>>
    decreases uses.len(),
{
    if uses.len() == 0 {
        snapshot
    } else {
        after_use(after_uses(snapshot, uses.drop_last()), uses.last())
    }
}

/// How often the reader runs in these uses of a cache that held `snapshot`.
pub open spec fn reads_in<C, E>(
    snapshot: Option<Result<Arc<C>, Arc<E>>>,
    uses: Seq<CacheUse<C, E>>,
) -> nat
    decreases uses.len(),
{
    if uses.len() == 0 {
        0
    } else if uses.last() is Get && must_read(after_uses(snapshot, uses.drop_last())) {
        reads_in(snapshot, uses.drop_last()) + 1
    } else {
        reads_in(snapshot, uses.drop_last())
    }
}

/// How many of the uses are invalidations.
pub open spec fn invalidations_in<C, E>(uses: Seq<CacheUse<C, E>>) -> nat
    decreases uses.len(),
{
    if uses.len() == 0 {
        0
    } else if uses.last() is Invalidate {
        invalidations_in(uses.drop_last()) + 1
    } else {
        invalidations_in(uses.drop_last())
    }
}

/// Whether none of the uses is an invalidation.
pub open spec fn only_gets<C, E>(uses: Seq<CacheUse<C, E>>) -> bool {
    forall|k: int| 0 <= k < uses.len() ==> #[trigger] uses[k] is Get
}

/// Only an invalidation makes the reader run again: in any uses of a cache
/// the reader runs at most once for the empty cache they start on and once
/// for each invalidation, whether the reads fail or not.
pub proof fn law_reads_follow_invalidations<C, E>(
    snapshot: Option<Result<Arc<C>, Arc<E>>>,
    uses: Seq<CacheUse<C, E>>,
)
    ensures
        reads_in(snapshot, uses) + (if must_read(after_uses(snapshot, uses)) {
            1nat
        } else {
            0nat
        }) <= invalidations_in(uses) + (if must_read(snapshot) {
            1nat
        } else {
            0nat
        }),
    decreases uses.len(),
{
    if uses.len() > 0 {
        law_reads_follow_invalidations(snapshot, uses.drop_last());
    }
}

/// The first `get_or_compute` on an empty cache reads for all that follow:
/// as long as nothing invalidates, the reader runs once, and every call
/// gives what that one read gave.
pub proof fn law_one_read_serves_all<C, E>(uses: Seq<CacheUse<C, E>>)
    requires
        uses.len() > 0,
        only_gets(uses),
    ensures
        reads_in(None, uses) == 1,
        uses[0] matches CacheUse::Get { fresh } && after_uses(None, uses) == Some(fresh),
    decreases uses.len(),
{
    let first = uses.drop_last();
    assert(uses.last() == uses[uses.len() - 1]);
    if first.len() > 0 {
        assert(only_gets(first)) by {
            assert forall|k: int| 0 <= k < first.len() implies #[trigger] first[k] is Get by {
                assert(first[k] == uses[k]);
            }
        }
        law_one_read_serves_all(first);
        assert(first[0] == uses[0]);
    } else {
        assert(reads_in(None, first) == 0);
    }
}

} // verus!
