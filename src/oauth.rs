//! Exchanging OAuth codes for tokens, and refreshing tokens.

use vstd::prelude::*;

use crate::error::{refused_with, Error};
use crate::query::{code_exchange_form, code_exchange_result, form_field, form_view};
use crate::{team, user};

verus! {

/// A token that authenticates calls.
#[derive(Clone, Debug, PartialEq, Eq)]
pub struct AccessToken(pub String);

/// A token that obtains a new access token.
#[derive(Clone, Debug, PartialEq, Eq)]
pub struct RefreshToken(pub String);

/// A temporary code that the OAuth flow hands to the app.
#[derive(Clone, Debug)]
pub struct Code(pub String);

/// The workspace that a token belongs to.
#[derive(Debug)]
pub struct Team {
    pub id: team::Id,
    pub name: String,
}

/// The tokens that `oauth.v2.access` grants.
#[derive(Debug)]
pub struct Access {
    pub bot_access_token: AccessToken,
    pub bot_refresh_token: RefreshToken,
    pub expires_in: u64,
    pub bot_user_id: user::Id,
    pub app_id: String,
    pub scope: String,
    pub team: Team,
    pub authed_user: AuthedUser,
}

/// The user who installed the app, with their own tokens.
#[derive(Debug)]
pub struct AuthedUser {
    pub id: String,
    pub scope: String,
    pub access_token: AccessToken,
    pub expires_in: u64,
    pub refresh_token: RefreshToken,
}

/// Whom a refreshed token acts for.
#[derive(Debug, Clone, Copy, PartialEq, Eq, Structural)]
pub enum TokenType {
    Bot,
    User,
}

/// The tokens that a refresh grants.
#[derive(Debug)]
pub struct RefreshedAccess {
    pub access_token: AccessToken,
    pub refresh_token: RefreshToken,
    pub expires_in: u64,
    pub token_type: TokenType,
    pub scope: String,
    pub app_id: String,
    pub team: Team,
}

/// The response of `oauth.v2.access` to a code.
#[derive(Debug)]
pub enum OAuthV2AccessResponse {
    Success(Box<Access>),
    Error { error: String },
}

/// The response of `oauth.v2.access` to a refresh token.
#[derive(Debug)]
pub enum OAuthV2RefreshResponse {
    Success(RefreshedAccess),
    Error { error: String },
}

impl OAuthV2AccessResponse {
    /// The granted tokens, or the code that Slack refused the request with.
    pub fn into_result(self) -> (r: Result<Access, Error>)
        ensures
            match self {
                OAuthV2AccessResponse::Success(access) => r == Ok::<Access, Error>(*access),
                OAuthV2AccessResponse::Error { error } => refused_with(r, error@),
            },
    {
        match self {
            OAuthV2AccessResponse::Success(access) => Ok(*access),
            OAuthV2AccessResponse::Error { error } => Err(Error::Slack(error)),
        }
    }
}

impl OAuthV2RefreshResponse {
    /// The refreshed tokens, or the code that Slack refused the request with.
    pub fn into_result(self) -> (r: Result<RefreshedAccess, Error>)
        ensures
            match self {
                OAuthV2RefreshResponse::Success(access) => r == Ok::<RefreshedAccess, Error>(access),
                OAuthV2RefreshResponse::Error { error } => refused_with(r, error@),
            },
    {
        match self {
            OAuthV2RefreshResponse::Success(access) => Ok(access),
            OAuthV2RefreshResponse::Error { error } => Err(Error::Slack(error)),
        }
    }
}

pub const V2_ACCESS: &'static str = "https://slack.com/api/oauth.v2.access";

/// The form that asks for new tokens in exchange for `refresh_token`.
pub fn v2_refresh_access_form(client_id: &str, client_secret: &str, refresh_token: &RefreshToken) -> (r:
    Vec<(String, String)>)
    ensures
        form_view(r@) == seq![
            ("client_id"@, client_id@),
            ("client_secret"@, client_secret@),
            ("refresh_token"@, refresh_token.0@),
            ("grant_type"@, "refresh_token"@),
        ],
{
    let mut form: Vec<(String, String)> = Vec::new();
    form.push(form_field("client_id", client_id));
    form.push(form_field("client_secret", client_secret));
    form.push(form_field("refresh_token", refresh_token.0.as_str()));
    form.push(form_field("grant_type", "refresh_token"));
    assert(form_view(form@) =~= seq![
        ("client_id"@, client_id@),
        ("client_secret"@, client_secret@),
        ("refresh_token"@, refresh_token.0@),
        ("grant_type"@, "refresh_token"@),
    ]);
    form
}

/// The form that asks for tokens in exchange for `code`; refused when
/// `redirect_uri` is not an absolute URL.
pub fn v2_access_form(client_id: &str, client_secret: &str, code: &Code, redirect_uri: &str) -> (r:
    Result<Vec<(String, String)>, Error>)
    ensures
        code_exchange_result(r, client_id@, client_secret@, code.0@, redirect_uri@),
{
    code_exchange_form(client_id, client_secret, code.0.as_str(), redirect_uri)
}

} // verus!
