//! The token as it came in.

use vstd::prelude::*;

verus! {

/// An encoded bearer token.
#[derive(Debug, Clone, PartialEq, Eq)]
pub struct Token(pub String);

impl View for Token {
    type V = Seq<char>;

    open spec fn view(&self) -> Seq<char> {
        self.0@
    }
}

} // verus!
