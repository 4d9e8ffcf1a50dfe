use actions_runner::authentication::PersonalAuthenticationToken;
use actions_runner::http::{HttpOutcome, HttpRequest, Method};
use actions_runner::org_or_repo::Repo;
use actions_runner::registration::{register_runner, registration_token};
use actions_runner::token::Token;
use actions_runner::Error;

fn responded(status: u16, body: &str) -> HttpOutcome {
    HttpOutcome::Responded { status, body: body.as_bytes().to_vec() }
}

fn text(token: Result<Token, Error>) -> Result<String, Error> {
    token.map(|token| token.as_str().to_owned())
}

#[test]
fn register() {
    let target = Repo::new("drewcrawford".to_owned(), "objr".to_owned());
    let request = register_runner(&target, PersonalAuthenticationToken::new("invalid".to_owned()));
    assert_eq!(
        request.url,
        "https://api.github.com/repos/drewcrawford/objr/actions/runners/registration-token"
    );
    let result = registration_token(responded(401, r#"{"message": "Bad credentials"}"#));
    println!("{:?}", result);
    assert_eq!(text(result), Err(Error::RegistrationStatusError { code: 401 }));
}

#[test]
fn registration_is_a_post_with_both_headers() {
    let target = Repo::new("acme".to_owned(), "widgets".to_owned());
    let credential = PersonalAuthenticationToken::new("SECRET-REDACTED".to_owned());
    assert_eq!(
        register_runner(&target, credential),
        HttpRequest {
            method: Method::Post,
            url: "https://api.github.com/repos/acme/widgets/actions/runners/registration-token"
                .to_owned(),
            headers: vec![
                ("Accept".to_owned(), "application/vnd.github.v3+json".to_owned()),
                ("Authorization".to_owned(), "token SECRET-REDACTED".to_owned()),
            ],
        }
    );
}

#[test]
fn token_is_read_from_the_answer() {
    let body = r#"{"token": "AABBCC", "expires_at": "2021-09-01T12:00:00.000-07:00"}"#;
    assert_eq!(text(registration_token(responded(201, body))), Ok("AABBCC".to_owned()));
    assert_eq!(text(registration_token(responded(200, body))), Ok("AABBCC".to_owned()));
}

#[test]
fn registration_failures_are_told_apart() {
    let body = r#"{"token": "AABBCC"}"#;
    assert_eq!(text(registration_token(HttpOutcome::Rejected)), Err(Error::InputError));
    assert_eq!(text(registration_token(HttpOutcome::Failed)), Err(Error::RegistrationError));
    assert_eq!(
        text(registration_token(responded(404, body))),
        Err(Error::RegistrationStatusError { code: 404 })
    );
    assert_eq!(
        text(registration_token(responded(300, body))),
        Err(Error::RegistrationStatusError { code: 300 })
    );
    assert_eq!(
        text(registration_token(responded(199, body))),
        Err(Error::RegistrationStatusError { code: 199 })
    );
    assert_eq!(text(registration_token(responded(200, "{}"))), Err(Error::DecodingError));
    assert_eq!(text(registration_token(responded(200, "token"))), Err(Error::DecodingError));
}

#[test]
fn token_is_parsed_from_a_response() {
    assert_eq!(text(Token::from_response(br#"{"token":"abc"}"#)), Ok("abc".to_owned()));
    assert_eq!(text(Token::from_response(br#"  {"token" : ""}  "#)), Ok(String::new()));
    assert_eq!(
        text(Token::from_response(r#"{"other": [1, {"token": "no"}], "token": "té"}"#.as_bytes())),
        Ok("té".to_owned())
    );
}

#[test]
fn response_without_token_is_a_decoding_error() {
    assert_eq!(text(Token::from_response(b"{}")), Err(Error::DecodingError));
    assert_eq!(text(Token::from_response(br#"{"Token": "abc"}"#)), Err(Error::DecodingError));
    assert_eq!(text(Token::from_response(br#"{"token": 7}"#)), Err(Error::DecodingError));
    assert_eq!(text(Token::from_response(br#"{"token": null}"#)), Err(Error::DecodingError));
    assert_eq!(text(Token::from_response(br#"{"token": ["abc"]}"#)), Err(Error::DecodingError));
    assert_eq!(text(Token::from_response(br#"{"a": {"token": "abc"}}"#)), Err(Error::DecodingError));
    assert_eq!(text(Token::from_response(br#""abc""#)), Err(Error::DecodingError));
    assert_eq!(text(Token::from_response(br#"[{"token": "abc"}]"#)), Err(Error::DecodingError));
}

#[test]
fn response_that_is_no_json_is_a_decoding_error() {
    assert_eq!(text(Token::from_response(b"")), Err(Error::DecodingError));
    assert_eq!(text(Token::from_response(br#"{"token": "abc""#)), Err(Error::DecodingError));
    assert_eq!(text(Token::from_response(br#"{"token": "abc"} x"#)), Err(Error::DecodingError));
    assert_eq!(text(Token::from_response(&[b'"', 0xff, b'"'])), Err(Error::DecodingError));
}

#[test]
fn token_is_read_from_a_document() {
    let document: serde_json::Value = serde_json::from_str(r#"{"token": "abc"}"#).unwrap();
    assert_eq!(Token::from_document(&document).unwrap().as_str(), "abc");
    let document: serde_json::Value = serde_json::from_str(r#"{"tokens": "abc"}"#).unwrap();
    assert!(Token::from_document(&document).is_none());
    let document: serde_json::Value = serde_json::from_str("[]").unwrap();
    assert!(Token::from_document(&document).is_none());
}
