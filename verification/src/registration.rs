//! Asking the forge for a registration token.

use crate::authentication::Authentication;
use crate::error::Error;
use crate::http::{is_success, status_is_success, HttpOutcome, HttpRequest, HttpRequestView, Method};
use crate::org_or_repo::OrgOrRepo;
use crate::token::{token_in_response, token_view, Token};
use vstd::prelude::*;

verus! {

/// The request for a registration token: a `POST` to the token endpoint of
/// the target, which names the format it accepts and says who asks.
pub open spec fn registration_request(
    api_fragment: Seq<char>,
    authorization: Seq<char>,
) -> HttpRequestView {
    HttpRequestView {
        method: Method::Post,
        url: api_fragment + "/actions/runners/registration-token"@,
        headers: seq![
            ("Accept"@, "application/vnd.github.v3+json"@),
            ("Authorization"@, authorization),
        ],
    }
}

/// The request that asks the forge for a token to register a runner for
/// `target`.
///
/// The caller sends it and hands what came back to `registration_token`.
pub fn register_runner<O: OrgOrRepo, A: Authentication>(target: &O, authentication: A) -> (request:
    HttpRequest)
    ensures
        request@ == registration_request(target.api_fragment(), authentication.header_value()),
{
    let mut url = target.fragment_specifier();
    url.append("/actions/runners/registration-token");
    let authorization = authentication.header();
    let ghost authorization_view = authorization@;
    let mut headers: Vec<(String, String)> = Vec::new();
    headers.push(("Accept".to_owned(), "application/vnd.github.v3+json".to_owned()));
    headers.push(("Authorization".to_owned(), authorization));
    let request = HttpRequest { method: Method::Post, url, headers };
    assert(request.headers.deep_view() =~= seq![
        ("Accept"@, "application/vnd.github.v3+json"@),
        ("Authorization"@, authorization_view),
    ]);
    request
}

/// The token that the answer to the registration request gives.
///
/// A request that could not be built, one that was not answered, and an
/// answer with a status outside 200..=299, each give their own error; the
/// last one carries the status. The body of any other answer has to hold a
/// token.
pub open spec fn token_in(outcome: HttpOutcome) -> Result<Seq<char>, Error> {
    match outcome {
        HttpOutcome::Rejected => Err(Error::InputError),
        HttpOutcome::Failed => Err(Error::RegistrationError),
        HttpOutcome::Responded { status, body } => if !is_success(status) {
            Err(Error::RegistrationStatusError { code: status })
        } else {
            token_in_response(body@)
        },
    }
}

/// Reads the registration token out of the answer to the registration
/// request.
pub fn registration_token(outcome: HttpOutcome) -> (token: Result<Token, Error>)
    ensures
        token_view(token) == token_in(outcome),
{
    match outcome {
        HttpOutcome::Rejected => Err(Error::InputError),
        HttpOutcome::Failed => Err(Error::RegistrationError),
        HttpOutcome::Responded { status, body } => {
            if !status_is_success(status) {
                return Err(Error::RegistrationStatusError { code: status });
            }
            Token::from_response(body.as_slice())
        },
    }
}

} // verus!
