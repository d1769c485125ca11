//! Custom emoji.

use std::collections::HashMap;

use vstd::prelude::*;

use crate::error::{refused_with, Error};
use crate::query::{built_url, pairs_view, request_url};

verus! {

/// The response of `emoji.list`: each custom emoji's name, with the address of
/// its image or `alias:<name>` of another emoji.
#[derive(Debug)]
pub enum ListResponse {
    Success { emoji: HashMap<String, String> },
    Error { error: String },
}

impl ListResponse {
    /// The emoji, or the code that Slack refused the request with.
    pub fn into_result(self) -> (r: Result<HashMap<String, String>, Error>)
        ensures
            match self {
                ListResponse::Success { emoji } => r == Ok::<_, Error>(emoji),
                ListResponse::Error { error } => refused_with(r, error@),
            },
    {
        match self {
            ListResponse::Success { emoji } => Ok(emoji),
            ListResponse::Error { error } => Err(Error::Slack(error)),
        }
    }
}

pub const LIST: &'static str = "https://slack.com/api/emoji.list";

/// The URL that lists the workspace's custom emoji, without categories.
pub fn list_url() -> (r: Result<String, Error>)
    ensures
        built_url(r, LIST@, seq![("include_categories"@, "false"@)]),
{
    let mut params: Vec<(&str, &str)> = Vec::new();
    params.push(("include_categories", "false"));
    assert(pairs_view(params@) =~= seq![("include_categories"@, "false"@)]);
    request_url(LIST, &params)
}

} // verus!
