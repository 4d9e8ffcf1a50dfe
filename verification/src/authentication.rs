//! How a request proves to the forge who sends it.

use vstd::prelude::*;

verus! {

/// Any credential that gives the value of an `Authorization` header.
pub trait Authentication: Sized + 'static {
    /// The value of the `Authorization` header that this credential gives.
    spec fn header_value(&self) -> Seq<char>;

    /// Returns the header to use for the request.
    fn header(self) -> (value: String)
        ensures
            value@ == self.header_value(),
    ;
}

/// A personal access token.
#[derive(Clone)]
pub struct PersonalAuthenticationToken {
    header: String,
}

impl PersonalAuthenticationToken {
    /// The credential that the personal access token `token` makes: its
    /// header value is the word `token`, a space, and the token itself.
    pub fn new(token: String) -> (credential: Self)
        ensures
            credential.header_value() == "token "@ + token@,
    {
        let mut header = "token ".to_owned();
        header.append(token.as_str());
        PersonalAuthenticationToken { header }
    }
}

impl Authentication for PersonalAuthenticationToken {
    closed spec fn header_value(&self) -> Seq<char> {
        self.header@
    }

    fn header(self) -> (value: String) {
        self.header
    }
}

} // verus!
