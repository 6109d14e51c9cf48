//! What the user store hands back, in the form the rest of the service reads.

use crate::definitions::{User, UserView};
use vstd::prelude::*;

verus! {

/// Paging window of a listing request.
#[derive(Debug)]
pub struct PaginationParams {
    pub page: Option<i64>,
    pub per_page: Option<i64>,
}

/// The user store's answer to "who is this subject?".
#[derive(Debug)]
pub enum Resolution {
    /// The subject maps to this user.
    Found(User),
    /// The store answered, and knows no such subject.
    Missing,
    /// The store could not be asked or failed while answering.
    Unavailable,
}

/// What a [`Resolution`] holds, as mathematical values.
pub enum ResolutionView {
    Found(UserView),
    Missing,
    Unavailable,
}

impl View for Resolution {
    type V = ResolutionView;

    open spec fn view(&self) -> ResolutionView {
        match self {
            Resolution::Found(user) => ResolutionView::Found(user@),
            Resolution::Missing => ResolutionView::Missing,
            Resolution::Unavailable => ResolutionView::Unavailable,
        }
    }
}

/// The one record that a lookup's rows stand for: the first row, where there
/// is one.
pub fn first_row<T>(rows: Vec<T>) -> (r: Option<T>)
    ensures
        r == if rows.len() == 0 {
            None
        } else {
            Some(rows[0])
        },
{
    let mut rows = rows;
    if rows.len() == 0 {
        None
    } else {
        Some(rows.swap_remove(0))
    }
}

impl Resolution {
    /// The answer that a lookup's rows stand for: the first row where there is
    /// one, `Missing` where the lookup matched nothing.
    pub fn from_rows(rows: Vec<User>) -> (r: Self)
        ensures
            r@ == if rows.len() == 0 {
                ResolutionView::Missing
            } else {
                ResolutionView::Found(rows[0]@)
            },
    {
        match first_row(rows) {
            Some(user) => Resolution::Found(user),
            None => Resolution::Missing,
        }
    }
}

} // verus!
