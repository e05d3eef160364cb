//! The order in which the store lists the catalog: by id, then title, then
//! author, each ascending.

use vstd::prelude::*;
use crate::book::BookView;

verus! {

/// `a` comes no later than `b` when texts are compared character by
/// character, by code point, a proper prefix coming first.
pub open spec fn text_precedes(a: Seq<char>, b: Seq<char>) -> bool
    decreases a.len(),
{
    if a.len() == 0 {
        true
    } else if b.len() == 0 {
        false
    } else if a[0] != b[0] {
        (a[0] as u32) < (b[0] as u32)
    } else {
        text_precedes(a.drop_first(), b.drop_first())
    }
}

/// `a` comes no later than `b` in a listing.
pub open spec fn row_precedes(a: BookView, b: BookView) -> bool {
    ||| a.id < b.id
    ||| a.id == b.id && a.title != b.title && text_precedes(a.title, b.title)
    ||| a.id == b.id && a.title == b.title && text_precedes(a.author, b.author)
}

/// Every row of `rows` comes no later than the rows behind it.
pub open spec fn ordered(rows: Seq<BookView>) -> bool {
    forall|i: int, j: int| 0 <= i < j < rows.len() ==> row_precedes(#[trigger] rows[i], #[trigger] rows[j])
}

} // verus!
