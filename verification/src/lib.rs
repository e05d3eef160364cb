//! A read-through, invalidate-on-write cache for a catalog of books.
//!
//! The catalog lives in a relational store. This crate holds what sits
//! between the store and its callers: one cached copy of the whole catalog
//! ([`BookCache`]), the rules by which the five operations of the catalog
//! fill and discard it ([`repository`]), and the proof that callers who come
//! one after another never see a stale listing ([`laws`]).
//!
//! The store itself is not called from here. A caller sends the statement,
//! waits for the answer, and hands the answer to the operation:
//!
//! * to list, read the cache with [`BookCache::all_books`], which needs the
//!   cache only shared; on `None`, query the store and commit its answer with
//!   [`all_books`], which needs the cache exclusively;
//! * to look up one book, query the store and hand the answer to
//!   [`book_by_id`];
//! * to create, update or delete, run the statement and hand the answer to
//!   [`add_book`], [`update_book`] or [`delete_book`].
//!
//! The cache is therefore never held while the store is at work. Callers that
//! overlap pay for this with a window in which a listing that was queried
//! before a write commits after it; [`laws`] speaks of callers that do not
//! overlap.

pub mod book;
pub mod bootstrap;
pub mod cache;
pub mod error;
pub mod history;
pub mod laws;
pub mod order;
pub mod repository;
pub mod snapshot;

pub use book::{Book, BookView};
pub use cache::BookCache;
pub use error::{RepoError, StoreFailure};
pub use repository::{add_book, all_books, book_by_id, delete_book, update_book};
pub use snapshot::Snapshot;
