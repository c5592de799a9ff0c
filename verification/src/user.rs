//! The one resource of the service.

use vstd::prelude::*;

verus! {

/// A user record. The store assigns `id` when the record is created, so a
/// record that comes in a request to create one has none.
#[derive(Clone, Debug, PartialEq, Eq)]
pub struct User {
    pub id: Option<i32>,
    pub name: String,
    pub email: String,
}

/// A user record as plain values.
pub struct UserView {
    pub id: Option<i32>,
    pub name: Seq<char>,
    pub email: Seq<char>,
}

impl View for User {
    type V = UserView;

    open spec fn view(&self) -> UserView {
        UserView { id: self.id, name: self.name@, email: self.email@ }
    }
}

/// The records of `users` as plain values, in the same order.
pub open spec fn user_views(users: Seq<User>) -> Seq<UserView> {
    Seq::new(users.len(), |i: int| users[i]@)
}

impl User {
    /// A record with the given fields.
    pub fn new(id: Option<i32>, name: &str, email: &str) -> (user: User)
        ensures
            user@ == (UserView { id, name: name@, email: email@ }),
    {
        User { id, name: name.to_owned(), email: email.to_owned() }
    }
}

} // verus!
