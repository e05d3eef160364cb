//! The cache itself: one optional copy of the whole catalog.

use vstd::prelude::*;
use crate::book::Book;
use crate::snapshot::Snapshot;

verus! {

/// Holds at most one snapshot of the catalog. Several readers may share it;
/// whoever commits a new state needs it exclusively.
pub struct BookCache {
    all_books: Option<Vec<Book>>,
}

impl View for BookCache {
    type V = Snapshot;

    closed spec fn view(&self) -> Snapshot {
        match self.all_books {
            None => Snapshot::Empty,
            Some(books) => Snapshot::Populated(books.deep_view()),
        }
    }
}

impl BookCache {
    /// A cache that holds nothing yet.
    pub fn new() -> (cache: Self)
        ensures
            cache@ == Snapshot::Empty,
    {
        Self { all_books: None }
    }

    /// An independent copy of the cached catalog, or `None` when nothing is
    /// cached and the store has to be asked.
    pub fn all_books(&self) -> (copy: Option<Vec<Book>>)
        ensures
            match copy {
                Some(books) => self@.served() == Some(books.deep_view()),
                None => self@.served().is_none(),
            },
    {
        self.all_books.clone()
    }

    /// Replaces whatever is cached by `books`.
    pub fn refresh(&mut self, books: Vec<Book>)
        ensures
            final(self)@ == Snapshot::Populated(books.deep_view()),
    {
        self.all_books = Some(books);
    }

    /// Discards whatever is cached.
    pub fn invalidate(&mut self)
        ensures
            final(self)@ == Snapshot::Empty,
    {
        self.all_books = None;
    }
}

} // verus!
