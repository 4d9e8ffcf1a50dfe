//! The registration token.

use crate::error::Error;
use crate::json::{get_text, json_document, read, text_member};
use vstd::prelude::*;

verus! {

/// A registration token, as the forge hands it out. It is good for one
/// configuration of a runner.
#[derive(Debug)]
pub struct Token(String);

impl View for Token {
    type V = Seq<char>;

    closed spec fn view(&self) -> Seq<char> {
        self.0@
    }
}

/// The token that a JSON document holds: the text under the key `token`.
pub open spec fn token_in_document(document: serde_json::Value) -> Option<Seq<char>> {
    text_member(document, "token"@)
}

/// The token that the body of a registration answer holds: the body is a
/// JSON document, and that document holds a token.
pub open spec fn token_in_response(data: Seq<u8>) -> Result<Seq<char>, Error> {
    match json_document(data) {
        Some(document) => match token_in_document(document) {
            Some(token) => Ok(token),
            None => Err(Error::DecodingError),
        },
        None => Err(Error::DecodingError),
    }
}

/// A result that holds a token, as mathematical values.
pub open spec fn token_view(token: Result<Token, Error>) -> Result<Seq<char>, Error> {
    match token {
        Ok(token) => Ok(token@),
        Err(error) => Err(error),
    }
}

impl Token {
    /// Reads the token out of a JSON document.
    pub fn from_document(document: &serde_json::Value) -> (token: Option<Token>)
        ensures
            token.deep_view() == token_in_document(*document),
    {
        match get_text(document, "token") {
            Some(token) => Some(Token(token)),
            None => None,
        }
    }

    /// Parse token from response
    pub fn from_response(data: &[u8]) -> (token: Result<Token, Error>)
        ensures
            token_view(token) == token_in_response(data@),
    {
        let document = match read(data) {
            Some(document) => document,
            None => return Err(Error::DecodingError),
        };
        match Token::from_document(&document) {
            Some(token) => Ok(token),
            None => Err(Error::DecodingError),
        }
    }

    /// The token as text.
    pub fn as_str(&self) -> (text: &str)
        ensures
            text@ == self@,
    {
        self.0.as_str()
    }
}

impl DeepView for Token {
    type V = Seq<char>;

    open spec fn deep_view(&self) -> Seq<char> {
        self@
    }
}

} // verus!
