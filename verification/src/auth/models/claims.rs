//! The claims that a token carries.

use crate::auth::models::token::Token;
use vstd::prelude::*;

verus! {

/// `serde_json::Map`, carried through without a look inside.
#[verifier::external_type_specification]
#[verifier::external_body]
#[verifier::reject_recursive_types(K)]
#[verifier::reject_recursive_types(V)]
pub struct ExJsonMap<K, V>(serde_json::Map<K, V>);

/// `serde_json::Value`, carried through without a look inside.
#[verifier::external_type_specification]
#[verifier::external_body]
pub struct ExJsonValue(serde_json::Value);

/// `Clone::clone` of `serde_json::Map`: a copy of the map, of which nothing
/// is claimed here.
pub assume_specification[ <serde_json::Map<String, serde_json::Value> as Clone>::clone ](
    map: &serde_json::Map<String, serde_json::Value>,
) -> (copy: serde_json::Map<String, serde_json::Value>)
;

/// A role that a token grants.
#[derive(Debug, Clone, PartialEq, Eq)]
pub struct Role(pub String);

/// A scope that a token grants.
#[derive(Debug, Clone, PartialEq, Eq)]
pub struct Scope(pub String);

/// The principal that a token speaks for.
#[derive(Debug, Clone, PartialEq, Eq)]
pub struct Subject(pub String);

/// Whom a token is meant for: one audience or several.
#[derive(Debug, Clone, PartialEq, Eq)]
pub enum Audience {
    Single(String),
    Multiple(Vec<String>),
}

/// The claims of a token. Those that are not named here stay in `extra`.
#[derive(Debug, Clone)]
pub struct Claims {
    pub sub: Subject,
    pub iss: String,
    pub aud: Option<Audience>,
    pub exp: Option<u64>,
    pub email: Option<String>,
    pub email_verified: Option<bool>,
    pub name: Option<String>,
    pub preferred_username: String,
    pub given_name: Option<String>,
    pub family_name: Option<String>,
    pub scope: String,
    pub client_id: Option<String>,
    pub extra: serde_json::Map<String, serde_json::Value>,
}

/// A token together with the claims read from it.
#[derive(Debug, Clone)]
pub struct Jwt {
    pub claims: Claims,
    pub token: Token,
}

} // verus!
