//! A service that acts in its own name.

use crate::auth::models::user::texts_of;
use vstd::prelude::*;

verus! {

/// A service account, as the claims of a token describe it.
#[derive(Debug, Clone, PartialEq, Eq)]
pub struct Client {
    pub id: String,
    pub client_id: String,
    pub roles: Vec<String>,
    pub scopes: Vec<String>,
}

/// A `Client` with its texts as sequences of characters.
pub struct ClientView {
    pub id: Seq<char>,
    pub client_id: Seq<char>,
    pub roles: Seq<Seq<char>>,
    pub scopes: Seq<Seq<char>>,
}

impl View for Client {
    type V = ClientView;

    open spec fn view(&self) -> ClientView {
        ClientView {
            id: self.id@,
            client_id: self.client_id@,
            roles: texts_of(self.roles@),
            scopes: texts_of(self.scopes@),
        }
    }
}

} // verus!
