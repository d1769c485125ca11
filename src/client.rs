//! Handles that send requests: one that carries a bearer token, and one that
//! carries none, for exchanging credentials.

use reqwest::header::{HeaderValue, InvalidHeaderValue};
use reqwest::Client as HttpClient;
use reqwest::Error as HttpError;
use vstd::prelude::*;
use vstd::string::StringExecFns;

use crate::oauth::AccessToken;

verus! {

#[verifier::external_type_specification]
#[verifier::external_body]
pub struct ExHttpClient(HttpClient);

#[verifier::external_type_specification]
#[verifier::external_body]
pub struct ExInvalidHeaderValue(InvalidHeaderValue);

/// Relies on `reqwest::Client`'s derived `Clone`: another handle to the same
/// connection pool. Nothing is stated of it.
pub assume_specification[ <HttpClient as Clone>::clone ](client: &HttpClient) -> HttpClient;

/// Whether an HTTP header may hold `s`: no control character but tab.
pub open spec fn header_text_valid(s: Seq<char>) -> bool {
    forall|i: int|
        0 <= i < s.len() ==> (#[trigger] s[i] == '\t' || (s[i] as u32 >= 32 && s[i] as u32 != 127))
}

/// The `Authorization` header value for `token`.
pub open spec fn bearer_text(token: Seq<char>) -> Seq<char> {
    "Bearer "@ + token
}

/// The `Authorization` header value that carries `token`.
pub fn bearer_header(token: &AccessToken) -> (r: String)
    ensures
        r@ == bearer_text(token.0@),
{
    let mut text = String::from_str("Bearer ");
    text.append(token.0.as_str());
    text
}

/// Relies on `HeaderValue::from_str` (http, through reqwest) and
/// `reqwest::ClientBuilder::build`: builds a client that sends `authorization`
/// as the `Authorization` header of every request. `from_str` refuses the text
/// exactly when one of its bytes is below 32 and not a tab, or is 127: those are
/// the ASCII characters that `header_text_valid` refuses, and the bytes of other
/// characters are all 128 or more. Whether the build itself succeeds depends on
/// the machine (its TLS setup), so nothing more is stated.
#[verifier::external_body]
fn build_client_with_auth(authorization: &str) -> (r: Result<HttpClient, CreateClientError>)
    ensures
        r matches Err(CreateClientError::HeaderValue(_)) <==> !header_text_valid(authorization@),
{
    let value = HeaderValue::from_str(authorization).map_err(CreateClientError::HeaderValue)?;
    let mut headers = reqwest::header::HeaderMap::new();
    headers.insert(reqwest::header::AUTHORIZATION, value);
    HttpClient::builder().default_headers(headers).build().map_err(CreateClientError::Client)
}

/// Relies on `reqwest::ClientBuilder::build` with no settings. Whether it
/// succeeds depends on the machine (its TLS setup), so nothing is stated.
#[verifier::external_body]
fn build_plain_client() -> (r: Result<HttpClient, HttpError>) {
    HttpClient::builder().build()
}

/// Why a client could not be made.
#[derive(Debug)]
pub enum CreateClientError {
    /// The token cannot stand in an HTTP header.
    HeaderValue(InvalidHeaderValue),
    /// The HTTP client could not be built.
    Client(HttpError),
}

/// A client that authenticates every request with a bearer token.
#[derive(Clone, Debug)]
pub struct AuthClient(HttpClient);

/// A client without credentials.
#[derive(Clone, Debug)]
pub struct BasicClient(HttpClient);

impl AuthClient {
    /// A client that sends `Authorization: Bearer <token>` (the text of
    /// `bearer_header`) on every request; refused when the token holds a control
    /// character other than tab.
    pub fn new(token: AccessToken) -> (r: Result<AuthClient, CreateClientError>)
        ensures
            !header_text_valid(bearer_text(token.0@)) <==> r matches Err(
                CreateClientError::HeaderValue(_),
            ),
    {
        let authorization = bearer_header(&token);
        match build_client_with_auth(authorization.as_str()) {
            Ok(c) => Ok(AuthClient(c)),
            Err(e) => Err(e),
        }
    }

    pub fn client(&self) -> &HttpClient {
        &self.0
    }
}

impl BasicClient {
    /// A client without credentials.
    pub fn new() -> (r: Result<BasicClient, CreateClientError>)
        ensures
            !(r matches Err(CreateClientError::HeaderValue(_))),
    {
        match build_plain_client() {
            Ok(c) => Ok(BasicClient(c)),
            Err(e) => Err(CreateClientError::Client(e)),
        }
    }

    pub fn client(&self) -> &HttpClient {
        &self.0
    }
}

} // verus!
