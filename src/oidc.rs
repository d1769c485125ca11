//! Sign in with Slack (OpenID Connect), with its own token type.

use vstd::prelude::*;

use crate::error::{refused_with, Error};
use crate::query::{code_exchange_form, code_exchange_result};
use crate::team;

verus! {

/// An OpenID Connect access token.
#[derive(Debug)]
pub struct Token(pub String);

/// Slack's temporary OAuth2 verifier code. Exchange it for an access token,
/// and a refresh token if token rotation is enabled.
#[derive(Debug)]
pub struct Code(pub String);

/// The response of `openid.connect.token`.
#[derive(Debug)]
pub enum TokenResponse {
    Success { access_token: Token },
    Error { error: String },
}

/// Who signed in.
#[derive(Debug)]
pub struct UserInfo {
    pub id: String,
    pub team_id: team::Id,
    pub picture: url::Url,
    pub given_name: String,
    pub family_name: String,
}

/// The response of `openid.connect.userInfo`.
#[derive(Debug)]
pub enum UserInfoResponse {
    Success(UserInfo),
    Error { error: String },
}

impl TokenResponse {
    /// The token, or the code that Slack refused the request with.
    pub fn into_result(self) -> (r: Result<Token, Error>)
        ensures
            match self {
                TokenResponse::Success { access_token } => r == Ok::<Token, Error>(access_token),
                TokenResponse::Error { error } => refused_with(r, error@),
            },
    {
        match self {
            TokenResponse::Success { access_token } => Ok(access_token),
            TokenResponse::Error { error } => Err(Error::Slack(error)),
        }
    }
}

impl UserInfoResponse {
    /// Who signed in, or the code that Slack refused the request with.
    pub fn into_result(self) -> (r: Result<UserInfo, Error>)
        ensures
            match self {
                UserInfoResponse::Success(user) => r == Ok::<UserInfo, Error>(user),
                UserInfoResponse::Error { error } => refused_with(r, error@),
            },
    {
        match self {
            UserInfoResponse::Success(user) => Ok(user),
            UserInfoResponse::Error { error } => Err(Error::Slack(error)),
        }
    }
}

pub const POST_OIDC_TOKEN: &'static str = "https://slack.com/api/openid.connect.token";

pub const GET_USER_INFO: &'static str = "https://slack.com/api/openid.connect.userInfo";

/// The form that asks for a token in exchange for `code`; refused when
/// `redirect_uri` is not an absolute URL.
pub fn token_form(client_id: &str, client_secret: &str, code: &str, redirect_uri: &str) -> (r: Result<
    Vec<(String, String)>,
    Error,
>)
    ensures
        code_exchange_result(r, client_id@, client_secret@, code@, redirect_uri@),
{
    code_exchange_form(client_id, client_secret, code, redirect_uri)
}

} // verus!
