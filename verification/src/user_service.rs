//! Queries and projections on user records.

use vstd::prelude::*;
use crate::response::{FilteredUser, FilteredUserView};
use crate::user_model::User;

verus! {

/// The text of the statement that selects one user by identifier.
pub open spec fn fetch_user_by_id_sql() -> Seq<char> {
    "SELECT * FROM users WHERE id = $1"@
}

/// Pairs the select-by-identifier statement with its single bind parameter.
pub fn fetch_user_by_id_query(param: &u64) -> (res: (&'static str, &u64))
    ensures
        res.0@ == fetch_user_by_id_sql(),
        *res.1 == *param,
{
    let query = "SELECT * FROM users WHERE id = $1";
    (query, param)
}

/// The text of the statement that selects one user by login.
pub open spec fn fetch_user_by_email_sql() -> Seq<char> {
    "SELECT * FROM users WHERE email = $1"@
}

/// Pairs the select-by-login statement with its single bind parameter.
pub fn fetch_user_by_email_query<'a>(email: &'a str) -> (res: (&'static str, &'a str))
    ensures
        res.0@ == fetch_user_by_email_sql(),
        res.1@ == email@,
{
    let query = "SELECT * FROM users WHERE email = $1";
    (query, email)
}

/// Shows a user record without its password hash.
pub fn filter_user_record(user: &User) -> (shown: FilteredUser)
    ensures
        shown@ == (FilteredUserView { email: user@.email, user_id: user.user_id, id: user@.id }),
{
    FilteredUser { user_id: user.user_id, email: user.email.clone(), id: user.id.clone() }
}

} // verus!
