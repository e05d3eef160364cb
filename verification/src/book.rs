//! The catalog's entity and its mathematical model.

use vstd::prelude::*;

verus! {

/// A book of the catalog, as the store holds it.
#[derive(Debug, PartialEq, Eq)]
pub struct Book {
    /// Primary key, assigned by the store when the book is created.
    pub id: i32,
    /// Free-form title; neither unique nor validated.
    pub title: String,
    /// Free-form author, by convention "surname, given name".
    pub author: String,
}

/// What a [`Book`] stands for: its key and its two texts as sequences of characters.
pub struct BookView {
    pub id: int,
    pub title: Seq<char>,
    pub author: Seq<char>,
}

impl View for Book {
    type V = BookView;

    open spec fn view(&self) -> BookView {
        BookView { id: self.id as int, title: self.title@, author: self.author@ }
    }
}

impl DeepView for Book {
    type V = BookView;

    open spec fn deep_view(&self) -> BookView {
        self@
    }
}

impl Clone for Book {
    /// An independent copy, equal to this book field by field.
    fn clone(&self) -> (copy: Self)
        ensures
            copy == *self,
    {
        Book { id: self.id, title: self.title.clone(), author: self.author.clone() }
    }
}

} // verus!
