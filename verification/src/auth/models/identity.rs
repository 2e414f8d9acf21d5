//! The identity behind a token: a user or a client.

use crate::auth::models::claims::Claims;
use crate::auth::models::client::{Client, ClientView};
use crate::auth::models::user::{text_of, texts_of, User, UserView};
use vstd::prelude::*;
use vstd::std_specs::convert::FromSpecImpl;

verus! {

/// Who makes a request.
#[derive(Debug, Clone, PartialEq, Eq)]
pub enum Identity {
    User(User),
    Client(Client),
}

/// An `Identity` with its texts as sequences of characters.
pub enum IdentityView {
    User(UserView),
    Client(ClientView),
}

impl View for Identity {
    type V = IdentityView;

    open spec fn view(&self) -> IdentityView {
        match *self {
            Identity::User(u) => IdentityView::User(u@),
            Identity::Client(c) => IdentityView::Client(c@),
        }
    }
}

impl IdentityView {
    /// The identifier of the user or of the client.
    pub open spec fn id(self) -> Seq<char> {
        match self {
            IdentityView::User(u) => u.id,
            IdentityView::Client(c) => c.id,
        }
    }

    /// The name to show: a user's username, a client's client id.
    pub open spec fn username(self) -> Seq<char> {
        match self {
            IdentityView::User(u) => u.username,
            IdentityView::Client(c) => c.client_id,
        }
    }

    /// The roles of the user or of the client.
    pub open spec fn roles(self) -> Seq<Seq<char>> {
        match self {
            IdentityView::User(u) => u.roles,
            IdentityView::Client(c) => c.roles,
        }
    }

    /// The identity that claims stand for. Claims with a client id are a
    /// client's, with the subject as its identifier. All others are a
    /// user's, with subject, mail address, name and preferred username.
    /// Neither has roles or scopes yet.
    pub open spec fn of_claims(claims: Claims) -> IdentityView {
        match claims.client_id {
            Some(client_id) => IdentityView::Client(
                ClientView {
                    id: claims.sub.0@,
                    client_id: client_id@,
                    roles: Seq::empty(),
                    scopes: Seq::empty(),
                },
            ),
            None => IdentityView::User(
                UserView {
                    id: claims.sub.0@,
                    email: text_of(claims.email),
                    name: text_of(claims.name),
                    roles: Seq::empty(),
                    username: claims.preferred_username@,
                },
            ),
        }
    }
}

impl Identity {
    /// The identifier of the user or of the client.
    pub fn id(&self) -> (r: &str)
        ensures
            r@ == self@.id(),
    {
        match self {
            Identity::User(u) => u.id.as_str(),
            Identity::Client(c) => c.id.as_str(),
        }
    }

    /// Whether a user stands behind the request.
    pub fn is_user(&self) -> (r: bool)
        ensures
            r == (self is User),
    {
        matches!(self, Identity::User(_))
    }

    /// Whether a client stands behind the request.
    pub fn is_client(&self) -> (r: bool)
        ensures
            r == (self is Client),
    {
        matches!(self, Identity::Client(_))
    }

    /// The name to show: a user's username, a client's client id.
    pub fn username(&self) -> (r: &str)
        ensures
            r@ == self@.username(),
    {
        match self {
            Identity::User(u) => u.username.as_str(),
            Identity::Client(c) => c.client_id.as_str(),
        }
    }

    /// The roles of the user or of the client.
    pub fn roles(&self) -> (r: &[String])
        ensures
            texts_of(r@) == self@.roles(),
    {
        match self {
            Identity::User(u) => u.roles.as_slice(),
            Identity::Client(c) => c.roles.as_slice(),
        }
    }

    /// Whether `role` is among the roles.
    pub fn has_role(&self, role: &str) -> (r: bool)
        ensures
            r == self@.roles().contains(role@),
    {
        let roles = self.roles();
        let wanted = role.to_owned();
        let mut i: usize = 0;
        while i < roles.len()
            invariant
                i <= roles@.len(),
                wanted@ == role@,
                texts_of(roles@) == self@.roles(),
                forall|j: int| 0 <= j < i ==> self@.roles()[j] != role@,
            decreases roles@.len() - i,
        {
            assert(self@.roles()[i as int] == roles@[i as int]@);
            if roles[i] == wanted {
                return true;
            }
            i += 1;
        }
        false
    }
}

impl From<Claims> for Identity {
    /// The identity that the claims stand for.
    fn from(claims: Claims) -> (r: Self)
        ensures
            r@ == IdentityView::of_claims(claims),
    {
        assert(texts_of(Seq::<String>::empty()) =~= Seq::<Seq<char>>::empty());
        if let Some(client_id) = claims.client_id {
            Identity::Client(
                Client { id: claims.sub.0, client_id, roles: Vec::new(), scopes: Vec::new() },
            )
        } else {
            Identity::User(
                User {
                    id: claims.sub.0,
                    email: claims.email,
                    name: claims.name,
                    roles: Vec::new(),
                    username: claims.preferred_username,
                },
            )
        }
    }
}

impl FromSpecImpl<Claims> for Identity {
    /// The conversion is specified on `from` itself, over the views.
    open spec fn obeys_from_spec() -> bool {
        false
    }

    open spec fn from_spec(claims: Claims) -> Identity {
        arbitrary()
    }
}

} // verus!
