//! Sign in with Slack (OpenID Connect), with the OAuth token types.

use vstd::prelude::*;

use crate::error::{refused_with, Error};
use crate::oauth::{AccessToken, Code};
use crate::query::{code_exchange_form, code_exchange_result};
use crate::{team, user};

verus! {

/// The response of `openid.connect.token`.
#[derive(Debug)]
pub enum TokenResponse {
    Success { access_token: AccessToken },
    Error { error: String },
}

/// Who signed in.
#[derive(Debug)]
pub struct UserInfo {
    pub id: user::Id,
    pub team_id: team::Id,
    pub picture: url::Url,
    pub given_name: String,
    pub family_name: String,
}

/// The response of `openid.connect.userInfo`.
#[derive(Debug)]
pub enum UserInfoResponse {
    Success(UserInfo),
    Error { error: String },
}

impl TokenResponse {
    /// The token, or the code that Slack refused the request with.
    pub fn into_result(self) -> (r: Result<AccessToken, Error>)
        ensures
            match self {
                TokenResponse::Success { access_token } => r == Ok::<AccessToken, Error>(
                    access_token,
                ),
                TokenResponse::Error { error } => refused_with(r, error@),
            },
    {
        match self {
            TokenResponse::Success { access_token } => Ok(access_token),
            TokenResponse::Error { error } => Err(Error::Slack(error)),
        }
    }
}

impl UserInfoResponse {
    /// Who signed in, or the code that Slack refused the request with.
    pub fn into_result(self) -> (r: Result<UserInfo, Error>)
        ensures
            match self {
                UserInfoResponse::Success(user) => r == Ok::<UserInfo, Error>(user),
                UserInfoResponse::Error { error } => refused_with(r, error@),
            },
    {
        match self {
            UserInfoResponse::Success(user) => Ok(user),
            UserInfoResponse::Error { error } => Err(Error::Slack(error)),
        }
    }
}

pub const OIDC_TOKEN: &'static str = "https://slack.com/api/openid.connect.token";

pub const USER_INFO: &'static str = "https://slack.com/api/openid.connect.userInfo";

/// The form that asks for an access token in exchange for `code`; refused when
/// `redirect_uri` is not an absolute URL.
pub fn token_form(client_id: &str, client_secret: &str, code: &Code, redirect_uri: &str) -> (r:
    Result<Vec<(String, String)>, Error>)
    ensures
        code_exchange_result(r, client_id@, client_secret@, code.0@, redirect_uri@),
{
    code_exchange_form(client_id, client_secret, code.0.as_str(), redirect_uri)
}

} // verus!
