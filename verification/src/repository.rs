//! The operations of the cached repository.
//!
//! The store is reached over the network, so no operation calls it from here.
//! Whoever drives the repository asks the store and hands its answer to the
//! operation, which commits the new state of the cache and says what the
//! caller gets. A listing reads the cache first, with
//! [`BookCache::all_books`]; only a miss leads to a query and to
//! [`all_books`].

use vstd::prelude::*;
use crate::book::{Book, BookView};
use crate::cache::BookCache;
use crate::error::{acknowledged, looked_up, surfaced, RepoError, StoreFailure};
use crate::order::ordered;

verus! {

/// The store's answer to the query for the whole catalog, as the model sees
/// it.
pub open spec fn listing(fetched: Result<Vec<Book>, StoreFailure>) -> Result<
    Seq<BookView>,
    StoreFailure,
> {
    match fetched {
        Ok(books) => Ok(books.deep_view()),
        Err(failure) => Err(failure),
    }
}

/// Completes a listing that missed the cache. `fetched` is the store's answer
/// to the query for the whole catalog, ordered by id, title and author.
///
/// Rows are cached and returned as they came, in the store's order, replacing
/// whatever another reader may have cached in the meantime. A failure is
/// handed on and leaves the cache as it was.
pub fn all_books(cache: &mut BookCache, fetched: Result<Vec<Book>, StoreFailure>) -> (listed: Result<
    Vec<Book>,
    RepoError,
>)
    ensures
        listed == surfaced(fetched),
        final(cache)@ == old(cache)@.populated_by(listing(fetched)),
        fetched matches Ok(rows) && ordered(rows.deep_view()) ==> (listed matches Ok(books)
            && ordered(books.deep_view())),
{
    match fetched {
        Ok(books) => {
            cache.refresh(books.clone());
            Ok(books)
        },
        Err(failure) => Err(RepoError::StoreError(failure)),
    }
}

/// Completes a lookup of one book. `found` is the store's answer to the query
/// by id. The cache plays no part: single books are never cached.
///
/// A missing row is `NotFound`; any other failure is handed on.
pub fn book_by_id(found: Result<Book, StoreFailure>) -> (book: Result<Book, RepoError>)
    ensures
        book == looked_up(found),
{
    match found {
        Ok(row) => Ok(row),
        Err(StoreFailure::RowNotFound) => Err(RepoError::NotFound),
        Err(failure) => Err(RepoError::StoreError(failure)),
    }
}

/// Completes the creation of a book. `inserted` is the store's answer to the
/// insert: the id it generated.
///
/// On success the cache is discarded and the id returned. A failure is handed
/// on and leaves the cache as it was.
pub fn add_book(cache: &mut BookCache, inserted: Result<i32, StoreFailure>) -> (created: Result<
    i32,
    RepoError,
>)
    ensures
        created == surfaced(inserted),
        final(cache)@ == old(cache)@.written(inserted),
{
    match inserted {
        Ok(id) => {
            cache.invalidate();
            Ok(id)
        },
        Err(failure) => Err(RepoError::StoreError(failure)),
    }
}

/// Completes the update of a book. `executed` is the store's answer to the
/// update keyed by the book's id: the number of rows it changed.
///
/// Every success discards the cache, also when no row matched. A failure is
/// handed on and leaves the cache as it was.
pub fn update_book(cache: &mut BookCache, executed: Result<u64, StoreFailure>) -> (updated: Result<
    (),
    RepoError,
>)
    ensures
        updated == acknowledged(executed),
        final(cache)@ == old(cache)@.written(executed),
{
    match executed {
        Ok(_) => {
            cache.invalidate();
            Ok(())
        },
        Err(failure) => Err(RepoError::StoreError(failure)),
    }
}

/// Completes the deletion of a book. `executed` is the store's answer to the
/// delete keyed by id: the number of rows it removed.
///
/// Every success discards the cache, also when no row matched. A failure is
/// handed on and leaves the cache as it was.
pub fn delete_book(cache: &mut BookCache, executed: Result<u64, StoreFailure>) -> (deleted: Result<
    (),
    RepoError,
>)
    ensures
        deleted == acknowledged(executed),
        final(cache)@ == old(cache)@.written(executed),
{
    match executed {
        Ok(_) => {
            cache.invalidate();
            Ok(())
        },
        Err(failure) => Err(RepoError::StoreError(failure)),
    }
}

} // verus!
