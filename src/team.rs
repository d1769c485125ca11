//! Workspaces ("teams").

use vstd::prelude::*;

use crate::error::{refused_with, Error};
use crate::query::{built_url, pairs_view, request_url};

verus! {

/// A workspace ID.
#[derive(Clone, Debug, PartialEq, Eq, Hash)]
pub struct Id(pub String);

impl Id {
    pub fn as_str(&self) -> (r: &str)
        ensures
            r@ == self.0@,
    {
        self.0.as_str()
    }
}

/// A workspace's icon.
#[derive(Debug)]
pub struct Icon {
    pub image_132: url::Url,
}

/// A workspace.
#[derive(Debug)]
pub struct Team {
    pub id: Id,
    pub name: String,
    pub domain: String,
    pub icon: Icon,
}

/// The response of `team.info`.
#[derive(Debug)]
pub enum InfoResponse {
    Success { team: Team },
    Error { error: String },
}

pub const GET_TEAM_INFO: &'static str = "https://slack.com/api/team.info";

/// The URL that asks for the workspace `team_id`.
pub fn info_url(team_id: &Id) -> (r: Result<String, Error>)
    ensures
        built_url(r, GET_TEAM_INFO@, seq![("team"@, team_id.0@)]),
{
    let mut params: Vec<(&str, &str)> = Vec::new();
    params.push(("team", team_id.as_str()));
    assert(pairs_view(params@) =~= seq![("team"@, team_id.0@)]);
    request_url(GET_TEAM_INFO, &params)
}

impl InfoResponse {
    /// The workspace, or the code that Slack refused the request with.
    pub fn into_result(self) -> (r: Result<Team, Error>)
        ensures
            match self {
                InfoResponse::Success { team } => r == Ok::<Team, Error>(team),
                InfoResponse::Error { error } => refused_with(r, error@),
            },
    {
        match self {
            InfoResponse::Success { team } => Ok(team),
            InfoResponse::Error { error } => Err(Error::Slack(error)),
        }
    }
}

} // verus!
