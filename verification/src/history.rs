//! Whole calls on the repository, carried out one after another.
//!
//! A call is modelled together with the store's answer to it. A listing is
//! the read of the cache followed, on a miss only, by the query and its
//! commit; every other call is its one exchange with the store. The laws of
//! the repository are stated over sequences of such calls.

use vstd::prelude::*;
use crate::book::BookView;
use crate::error::{acknowledged, looked_up, surfaced, RepoError, StoreFailure};
use crate::snapshot::Snapshot;

verus! {

/// One call on the repository, with what the store answers when it is asked.
pub enum Call {
    /// List the catalog. `fetched` is the store's answer to the query for all
    /// rows; it is looked at only when nothing is cached.
    ListAll { fetched: Result<Seq<BookView>, StoreFailure> },
    /// Look up one book by id.
    GetById { found: Result<BookView, StoreFailure> },
    /// Create a book; the store answers with the id it generated.
    Create { inserted: Result<i32, StoreFailure> },
    /// Update a book; the store answers with the number of rows it changed.
    Update { changed: Result<u64, StoreFailure> },
    /// Delete a book; the store answers with the number of rows it removed.
    Delete { removed: Result<u64, StoreFailure> },
}

/// What the caller gets back from a [`Call`].
pub enum Reply {
    Listed(Result<Seq<BookView>, RepoError>),
    Found(Result<BookView, RepoError>),
    Created(Result<i32, RepoError>),
    Updated(Result<(), RepoError>),
    Deleted(Result<(), RepoError>),
}

impl Reply {
    /// The call failed, with whatever error.
    pub open spec fn is_failure(self) -> bool {
        match self {
            Reply::Listed(listed) => listed is Err,
            Reply::Found(found) => found is Err,
            Reply::Created(created) => created is Err,
            Reply::Updated(updated) => updated is Err,
            Reply::Deleted(deleted) => deleted is Err,
        }
    }
}

impl Call {
    /// The call is a create, an update or a delete that the store carried out.
    pub open spec fn is_successful_write(self) -> bool {
        match self {
            Call::ListAll { .. } => false,
            Call::GetById { .. } => false,
            Call::Create { inserted } => inserted is Ok,
            Call::Update { changed } => changed is Ok,
            Call::Delete { removed } => removed is Ok,
        }
    }

    /// The call sends the query for the whole catalog to the store: it is a
    /// listing, and nothing is cached.
    pub open spec fn queries_catalog(self, before: Snapshot) -> bool {
        self is ListAll && before.served() is None
    }

    /// The snapshot after the call, from the snapshot before it.
    pub open spec fn next(self, before: Snapshot) -> Snapshot {
        match self {
            Call::ListAll { fetched } => if before.served() is Some {
                before
            } else {
                before.populated_by(fetched)
            },
            Call::GetById { .. } => before,
            Call::Create { inserted } => before.written(inserted),
            Call::Update { changed } => before.written(changed),
            Call::Delete { removed } => before.written(removed),
        }
    }

    /// What the call returns when it starts from the snapshot `before`.
    pub open spec fn reply(self, before: Snapshot) -> Reply {
        match self {
            Call::ListAll { fetched } => Reply::Listed(
                match before.served() {
                    Some(rows) => Ok(rows),
                    None => surfaced(fetched),
                },
            ),
            Call::GetById { found } => Reply::Found(looked_up(found)),
            Call::Create { inserted } => Reply::Created(surfaced(inserted)),
            Call::Update { changed } => Reply::Updated(acknowledged(changed)),
            Call::Delete { removed } => Reply::Deleted(acknowledged(removed)),
        }
    }
}

/// The snapshot after all of `calls`, in their order, from the snapshot
/// `start`.
pub open spec fn replay(start: Snapshot, calls: Seq<Call>) -> Snapshot
    decreases calls.len(),
{
    if calls.len() == 0 {
        start
    } else {
        calls.last().next(replay(start, calls.drop_last()))
    }
}

/// The snapshot that the call at position `at` starts from.
pub open spec fn snapshot_before(start: Snapshot, calls: Seq<Call>, at: int) -> Snapshot {
    replay(start, calls.take(at))
}

/// The number of queries for the whole catalog that the store receives while
/// `calls` are carried out from the snapshot `start`.
pub open spec fn catalog_queries(start: Snapshot, calls: Seq<Call>) -> nat
    decreases calls.len(),
{
    if calls.len() == 0 {
        0
    } else {
        let earlier = calls.drop_last();
        let asked: nat = if calls.last().queries_catalog(replay(start, earlier)) {
            1
        } else {
            0
        };
        catalog_queries(start, earlier) + asked
    }
}

} // verus!
