//! Each operation on each answer that the store can give.

use book_catalog::{
    add_book, all_books, book_by_id, delete_book, update_book, Book, BookCache, RepoError,
    StoreFailure,
};

fn shelf() -> Vec<Book> {
    vec![
        Book { id: 1, title: "Hands-on Rust".to_string(), author: "Wolverson, Herbert".to_string() },
        Book { id: 2, title: "Rust Brain Teasers".to_string(), author: "Wolverson, Herbert".to_string() },
    ]
}

fn timeout() -> StoreFailure {
    StoreFailure::Failed("pool timed out".to_string())
}

fn populated() -> BookCache {
    let mut cache = BookCache::new();
    cache.refresh(shelf());
    cache
}

#[test]
fn all_books_caches_and_returns_the_rows() {
    let mut cache = BookCache::new();
    assert_eq!(all_books(&mut cache, Ok(shelf())), Ok(shelf()));
    assert_eq!(cache.all_books(), Some(shelf()));
}

#[test]
fn all_books_caches_an_empty_catalog() {
    let mut cache = BookCache::new();
    assert_eq!(all_books(&mut cache, Ok(Vec::new())), Ok(Vec::new()));
    assert_eq!(cache.all_books(), Some(Vec::new()));
}

#[test]
fn all_books_last_writer_wins() {
    let mut cache = populated();
    let later = vec![Book { id: 3, title: "Later".to_string(), author: "Writer".to_string() }];
    assert_eq!(all_books(&mut cache, Ok(later.clone())), Ok(later.clone()));
    assert_eq!(cache.all_books(), Some(later));
}

#[test]
fn all_books_hands_a_failure_on() {
    let mut cache = BookCache::new();
    assert_eq!(all_books(&mut cache, Err(timeout())), Err(RepoError::StoreError(timeout())));
    assert_eq!(cache.all_books(), None);
    let mut cache = populated();
    assert_eq!(
        all_books(&mut cache, Err(StoreFailure::RowNotFound)),
        Err(RepoError::StoreError(StoreFailure::RowNotFound))
    );
    assert_eq!(cache.all_books(), Some(shelf()));
}

#[test]
fn book_by_id_passes_the_row() {
    let row = Book { id: 1, title: "Hands-on Rust".to_string(), author: "Wolverson, Herbert".to_string() };
    assert_eq!(book_by_id(Ok(row.clone())), Ok(row));
}

#[test]
fn book_by_id_tells_missing_from_failed() {
    assert_eq!(book_by_id(Err(StoreFailure::RowNotFound)), Err(RepoError::NotFound));
    assert_eq!(book_by_id(Err(timeout())), Err(RepoError::StoreError(timeout())));
}

#[test]
fn add_book_returns_the_id_and_invalidates() {
    let mut cache = populated();
    assert_eq!(add_book(&mut cache, Ok(42)), Ok(42));
    assert_eq!(cache.all_books(), None);
    assert_eq!(add_book(&mut cache, Ok(-1)), Ok(-1));
    assert_eq!(cache.all_books(), None);
}

#[test]
fn add_book_failure_keeps_the_cache() {
    let mut cache = populated();
    assert_eq!(add_book(&mut cache, Err(timeout())), Err(RepoError::StoreError(timeout())));
    assert_eq!(cache.all_books(), Some(shelf()));
    assert_eq!(
        add_book(&mut cache, Err(StoreFailure::RowNotFound)),
        Err(RepoError::StoreError(StoreFailure::RowNotFound))
    );
    assert_eq!(cache.all_books(), Some(shelf()));
}

#[test]
fn update_book_invalidates_whatever_the_row_count() {
    for count in [0u64, 1, 2, u64::MAX] {
        let mut cache = populated();
        assert_eq!(update_book(&mut cache, Ok(count)), Ok(()));
        assert_eq!(cache.all_books(), None);
    }
}

#[test]
fn update_book_failure_keeps_the_cache() {
    let mut cache = populated();
    assert_eq!(update_book(&mut cache, Err(timeout())), Err(RepoError::StoreError(timeout())));
    assert_eq!(cache.all_books(), Some(shelf()));
    let mut empty = BookCache::new();
    assert_eq!(update_book(&mut empty, Err(timeout())), Err(RepoError::StoreError(timeout())));
    assert_eq!(empty.all_books(), None);
}

#[test]
fn delete_book_invalidates_whatever_the_row_count() {
    for count in [0u64, 1, 7] {
        let mut cache = populated();
        assert_eq!(delete_book(&mut cache, Ok(count)), Ok(()));
        assert_eq!(cache.all_books(), None);
    }
}

#[test]
fn delete_book_failure_keeps_the_cache() {
    let mut cache = populated();
    assert_eq!(delete_book(&mut cache, Err(timeout())), Err(RepoError::StoreError(timeout())));
    assert_eq!(cache.all_books(), Some(shelf()));
}

#[test]
fn a_listing_that_commits_after_a_write_is_cached_as_it_came() {
    let mut cache = BookCache::new();
    let stale = shelf();
    assert_eq!(add_book(&mut cache, Ok(3)), Ok(3));
    assert_eq!(all_books(&mut cache, Ok(stale.clone())), Ok(stale.clone()));
    assert_eq!(cache.all_books(), Some(stale));
}
