//! The mathematical model of the cached snapshot and of its two transitions.

use vstd::prelude::*;
use crate::book::BookView;
use crate::error::StoreFailure;

verus! {

/// The state of the cache: either nothing, or the whole catalog as the store
/// last listed it.
pub enum Snapshot {
    /// Never populated, or discarded by a write.
    Empty,
    /// The rows of the last listing, in the store's order.
    Populated(Seq<BookView>),
}

impl Snapshot {
    /// Nothing stale is cached: the rows, if there are any, are `catalog`, what
    /// the store would list now.
    pub open spec fn agrees_with(self, catalog: Seq<BookView>) -> bool {
        self matches Snapshot::Populated(rows) ==> rows == catalog
    }

    /// What a read of the snapshot yields: the rows when there are any cached,
    /// `None` when the store has to be asked.
    pub open spec fn served(self) -> Option<Seq<BookView>> {
        match self {
            Snapshot::Empty => None,
            Snapshot::Populated(rows) => Some(rows),
        }
    }

    /// The snapshot once the store has answered a listing: the rows it gave
    /// replace whatever was cached (the last writer wins); a failure leaves
    /// the snapshot as it was.
    pub open spec fn populated_by(self, answer: Result<Seq<BookView>, StoreFailure>) -> Snapshot {
        match answer {
            Ok(rows) => Snapshot::Populated(rows),
            Err(_) => self,
        }
    }

    /// The snapshot once the store has answered a create, an update or a
    /// delete: every success discards it, whether or not the catalog changed;
    /// a failure leaves it as it was.
    pub open spec fn written<T>(self, answer: Result<T, StoreFailure>) -> Snapshot {
        match answer {
            Ok(_) => Snapshot::Empty,
            Err(_) => self,
        }
    }
}

} // verus!
