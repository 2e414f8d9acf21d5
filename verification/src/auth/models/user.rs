//! A person who signed in.

use vstd::prelude::*;

verus! {

/// A human user, as the claims of a token describe them.
#[derive(Debug, Clone, PartialEq, Eq)]
pub struct User {
    pub id: String,
    pub email: Option<String>,
    pub name: Option<String>,
    pub roles: Vec<String>,
    pub username: String,
}

/// A `User` with its texts as sequences of characters.
pub struct UserView {
    pub id: Seq<char>,
    pub email: Option<Seq<char>>,
    pub name: Option<Seq<char>>,
    pub roles: Seq<Seq<char>>,
    pub username: Seq<char>,
}

/// The text of an optional string.
pub open spec fn text_of(s: Option<String>) -> Option<Seq<char>> {
    match s {
        Some(s) => Some(s@),
        None => None,
    }
}

/// The texts of a list of strings, in order.
pub open spec fn texts_of(v: Seq<String>) -> Seq<Seq<char>> {
    v.map_values(|s: String| s@)
}

impl View for User {
    type V = UserView;

    open spec fn view(&self) -> UserView {
        UserView {
            id: self.id@,
            email: text_of(self.email),
            name: text_of(self.name),
            roles: texts_of(self.roles@),
            username: self.username@,
        }
    }
}

} // verus!
