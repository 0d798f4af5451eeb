//! Listing the users of the single-session administration.

use vstd::prelude::*;
use crate::commands::user::model::{spec_public_user, PublicUser, UserRow};
use crate::text::{trim_text, trimmed};

verus! {

/// What to list of the users.
#[derive(Debug)]
pub struct RowQuery {
    /// A text that the name, the surname, the mail address, the user name or
    /// the identity card must hold, whatever the case.
    pub search: Option<String>,
    /// How many users come before the page.
    pub skip: u64,
    /// How many users a page has.
    pub limit: u64,
}

/// The page asked for, or the first; never less than the first.
pub open spec fn spec_row_page(page: Option<u64>) -> u64 {
    match page {
        Some(p) => if p < 1 {
            1
        } else {
            p
        },
        None => 1,
    }
}

/// The page size asked for, or ten; never less than one nor more than a
/// hundred.
pub open spec fn spec_row_limit(per_page: Option<u64>) -> u64 {
    let asked = match per_page {
        Some(n) => n,
        None => 10,
    };
    if asked < 1 {
        1
    } else if asked > 100 {
        100
    } else {
        asked
    }
}

/// The users before the page: the pages before it times the page size, held
/// at the largest count that can be written.
pub open spec fn spec_row_skip(page: u64, limit: u64) -> u64 {
    if (page - 1) * limit <= u64::MAX {
        ((page - 1) * limit) as u64
    } else {
        u64::MAX
    }
}

/// The search text asked for, unless it holds white space only.
pub open spec fn spec_row_search(q: Option<String>) -> Option<String> {
    match q {
        Some(text) => if trimmed(text@).len() == 0 {
            None
        } else {
            Some(text)
        },
        None => None,
    }
}

/// What to ask the store for to list users: the page is at least the first,
/// a page has ten users unless another size between one and a hundred is
/// asked for, and a search text of white space is no search.
pub fn list_users(page: Option<u64>, per_page: Option<u64>, q: Option<String>) -> (query: RowQuery)
    ensures
        query == (RowQuery {
            search: spec_row_search(q),
            skip: spec_row_skip(spec_row_page(page), spec_row_limit(per_page)),
            limit: spec_row_limit(per_page),
        }),
{
    let page = match page {
        Some(p) => if p < 1 {
            1
        } else {
            p
        },
        None => 1,
    };
    let asked = match per_page {
        Some(n) => n,
        None => 10,
    };
    let limit: u64 = if asked < 1 {
        1
    } else if asked > 100 {
        100
    } else {
        asked
    };
    assert(0 <= (page - 1) * limit <= (page - 1) * 100) by (nonlinear_arith)
        requires
            1 <= page,
            1 <= limit <= 100,
    ;
    let wide: u128 = ((page - 1) as u128) * (limit as u128);
    let skip: u64 = if wide <= 0xffff_ffff_ffff_ffff {
        wide as u64
    } else {
        0xffff_ffff_ffff_ffff
    };
    let search = match q {
        Some(text) => {
            if trim_text(text.as_str()).is_empty() {
                None
            } else {
                Some(text)
            }
        },
        None => None,
    };
    RowQuery { search, skip, limit }
}

/// The users that the store returned, as a listing shows them, in the
/// order in which they came.
pub fn public_users(rows: &Vec<UserRow>) -> (shown: Vec<PublicUser>)
    ensures
        shown@.len() == rows@.len(),
        forall|k: int| 0 <= k < rows@.len() ==> #[trigger] shown@[k] == spec_public_user(rows@[k]),
{
    let mut shown: Vec<PublicUser> = Vec::new();
    let mut i: usize = 0;
    while i < rows.len()
        invariant
            i <= rows@.len(),
            shown@.len() == i,
            forall|k: int| 0 <= k < i ==> #[trigger] shown@[k] == spec_public_user(rows@[k]),
        decreases rows@.len() - i,
    {
        shown.push(PublicUser::from(&rows[i]));
        i += 1;
    }
    shown
}

} // verus!
