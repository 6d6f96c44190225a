//! What the service shows of a user.

use vstd::prelude::*;

verus! {

/// A user record without its password hash.
#[derive(Debug)]
pub struct FilteredUser {
    pub email: String,
    pub user_id: i32,
    pub id: String,
}

/// The mathematical value of [`FilteredUser`].
pub struct FilteredUserView {
    pub email: Seq<char>,
    pub user_id: i32,
    pub id: Seq<char>,
}

impl View for FilteredUser {
    type V = FilteredUserView;

    open spec fn view(&self) -> FilteredUserView {
        FilteredUserView { email: self.email@, user_id: self.user_id, id: self.id@ }
    }
}

/// The payload of a reply that shows one user.
#[derive(Debug)]
pub struct UserData {
    pub user: FilteredUser,
}

/// A reply that shows one user.
#[derive(Debug)]
pub struct UserResponse {
    pub status: String,
    pub data: UserData,
}

} // verus!
