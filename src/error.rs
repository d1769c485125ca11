//! The error of every Web API call.

use reqwest::Error as HttpError;
use vstd::prelude::*;

verus! {

#[verifier::external_type_specification]
#[verifier::external_body]
pub struct ExHttpError(HttpError);

#[verifier::external_type_specification]
#[verifier::external_body]
pub struct ExUrlParseError(url::ParseError);

/// Why a call failed.
#[derive(Debug)]
pub enum Error {
    /// Slack refused the request; the code it gave, such as `invalid_auth`.
    Slack(String),
    /// The request could not be sent.
    Request(HttpError),
    /// The response could not be read as either of its shapes.
    Deserialize(HttpError),
    /// The request's URL could not be built.
    Url(url::ParseError),
}

impl Error {
    /// The code that Slack gave, when Slack refused the request.
    pub fn get_slack_error(&self) -> (r: Option<&str>)
        ensures
            match self {
                Error::Slack(e) => r matches Some(s) && s@ == e@,
                _ => r is None,
            },
    {
        match self {
            Error::Slack(e) => Some(e.as_str()),
            _ => None,
        }
    }
}

/// Whether `r` is the refusal that Slack answered with the code `error`.
pub open spec fn refused_with<T>(r: Result<T, Error>, error: Seq<char>) -> bool {
    r matches Err(Error::Slack(e)) && e@ == error
}

} // verus!
