//! User records and the bodies of the requests that the service takes.

use vstd::prelude::*;

verus! {

/// One row of the user table. `id` is the row's identifier in its text form,
/// `user_id` the numeric identifier that tokens are minted for, `password`
/// the stored password hash, `created_at` seconds since the Unix epoch.
#[derive(Debug, Clone)]
pub struct User {
    pub id: String,
    pub email: String,
    pub password: String,
    pub user_id: i32,
    pub created_at: Option<i64>,
}

/// The mathematical value of [`User`].
pub struct UserView {
    pub id: Seq<char>,
    pub email: Seq<char>,
    pub password: Seq<char>,
    pub user_id: i32,
    pub created_at: Option<i64>,
}

impl View for User {
    type V = UserView;

    open spec fn view(&self) -> UserView {
        UserView {
            id: self.id@,
            email: self.email@,
            password: self.password@,
            user_id: self.user_id,
            created_at: self.created_at,
        }
    }
}

/// The body of a registration request.
#[derive(Debug)]
pub struct RegisterUserSchema {
    pub email: String,
    pub password: String,
    pub user_id: i32,
}

/// The body of a login request.
#[derive(Debug)]
pub struct LoginUserSchema {
    pub email: String,
    pub password: String,
}

/// The body of a refresh request.
#[derive(Debug)]
pub struct RefreshSchema {
    pub refresh: String,
}

} // verus!
