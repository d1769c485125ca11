//! Conversations: channels, private channels, and direct messages.

use vstd::prelude::*;

use crate::error::{refused_with, Error};
use crate::page::{cursor_text, next_page_cursor, Cursor, Limit, Page, ResponseMetadata};
use crate::query::{
    built_url, decimal_text, join_commas, joined, pairs_view, request_url, texts, u16_text,
};
use crate::{team, user};

verus! {

/// A conversation ID.
#[derive(Debug, PartialEq, Eq)]
pub struct Id(pub String);

impl Id {
    pub fn as_str(&self) -> (r: &str)
        ensures
            r@ == self.0@,
    {
        self.0.as_str()
    }
}

/// A conversation, as `conversations.list` describes it.
#[derive(Debug, PartialEq, Eq)]
pub struct Conversation {
    pub id: Id,
    pub name: String,
    pub name_normalized: String,
    /// When it was created, in seconds since the Unix epoch.
    pub created: i64,
    pub creator: user::Id,
    pub is_member: bool,
    pub is_archived: bool,
    pub is_private: bool,
    pub is_channel: bool,
    pub is_group: bool,
    pub is_im: bool,
    pub is_mpim: bool,
    pub is_general: bool,
}

/// The pagination metadata of `conversations.list`.
#[derive(Debug)]
pub struct ListResponseMetadata {
    pub next_cursor: String,
}

/// The response of `conversations.list`.
#[derive(Debug)]
pub enum ListResponse {
    Success { channels: Vec<Conversation>, response_metadata: ListResponseMetadata },
    Error { error: String },
}

/// The response of `conversations.members`.
#[derive(Debug)]
pub enum MembersResponse {
    Success { members: Vec<user::Id>, response_metadata: ResponseMetadata },
    Error { error: String },
}

/// The conversation that `conversations.open` opened or found.
#[derive(Debug)]
pub struct OpenedChannel {
    pub id: Id,
}

/// The response of `conversations.open`.
#[derive(Debug)]
pub enum OpenResponse {
    Success { channel: OpenedChannel },
    Error { error: String },
}

/// The response of `conversations.invite`.
#[derive(Debug)]
pub enum InviteResponse {
    Success { channel: Conversation },
    Error { error: String },
}

/// The response of `conversations.kick`. Its success shape is `{"ok": true}`
/// alone: a reply with `"ok": false` is a refusal and carries an `error` code.
#[derive(Debug)]
pub enum KickResponse {
    Success,
    Error { error: String },
}

impl ListResponse {
    /// The page of conversations, or the code that Slack refused the request with.
    pub fn into_result(self) -> (r: Result<Page<Conversation>, Error>)
        ensures
            match self {
                ListResponse::Success { channels, response_metadata } => r matches Ok(p)
                    && p.spec_results() == channels@ && p.spec_cursor() == next_page_cursor(
                    response_metadata.next_cursor@,
                ),
                ListResponse::Error { error } => refused_with(r, error@),
            },
    {
        match self {
            ListResponse::Success { channels, response_metadata } => {
                let metadata = ResponseMetadata { next_cursor: response_metadata.next_cursor };
                Ok(Page::new(channels, Cursor::from(metadata)))
            },
            ListResponse::Error { error } => Err(Error::Slack(error)),
        }
    }
}

impl MembersResponse {
    /// The page of member IDs, or the code that Slack refused the request with.
    pub fn into_result(self) -> (r: Result<Page<user::Id>, Error>)
        ensures
            match self {
                MembersResponse::Success { members, response_metadata } => r matches Ok(p)
                    && p.spec_results() == members@ && p.spec_cursor() == next_page_cursor(
                    response_metadata.next_cursor@,
                ),
                MembersResponse::Error { error } => refused_with(r, error@),
            },
    {
        match self {
            MembersResponse::Success { members, response_metadata } => Ok(
                Page::new(members, Cursor::from(response_metadata)),
            ),
            MembersResponse::Error { error } => Err(Error::Slack(error)),
        }
    }
}

impl OpenResponse {
    /// The ID of the opened conversation, or the code that Slack refused the
    /// request with.
    pub fn into_result(self) -> (r: Result<Id, Error>)
        ensures
            match self {
                OpenResponse::Success { channel } => r == Ok::<Id, Error>(channel.id),
                OpenResponse::Error { error } => refused_with(r, error@),
            },
    {
        match self {
            OpenResponse::Success { channel } => Ok(channel.id),
            OpenResponse::Error { error } => Err(Error::Slack(error)),
        }
    }
}

impl InviteResponse {
    /// Success, or the code that Slack refused the request with.
    pub fn into_result(self) -> (r: Result<(), Error>)
        ensures
            match self {
                InviteResponse::Success { .. } => r is Ok,
                InviteResponse::Error { error } => refused_with(r, error@),
            },
    {
        match self {
            InviteResponse::Success { .. } => Ok(()),
            InviteResponse::Error { error } => Err(Error::Slack(error)),
        }
    }
}

impl KickResponse {
    /// Success, or the code that Slack refused the request with.
    pub fn into_result(self) -> (r: Result<(), Error>)
        ensures
            match self {
                KickResponse::Success => r == Ok::<(), Error>(()),
                KickResponse::Error { error } => refused_with(r, error@),
            },
    {
        match self {
            KickResponse::Success => Ok(()),
            KickResponse::Error { error } => Err(Error::Slack(error)),
        }
    }
}

/// Which conversations `conversations.list` returns, and how many per page.
#[derive(Clone, Copy, Debug)]
pub struct ListOptions {
    pub limit: Limit,
    pub exclude_archived: bool,
    pub include_public: bool,
    pub include_private: bool,
    pub include_mpim: bool,
    pub include_im: bool,
}

impl Default for ListOptions {
    /// Public channels only, archived ones included, 100 per page.
    fn default() -> (r: ListOptions)
        ensures
            r.limit@ == crate::page::DEFAULT_LIMIT,
            !r.exclude_archived,
            r.include_public,
            !r.include_private,
            !r.include_mpim,
            !r.include_im,
    {
        ListOptions {
            limit: Limit::default(),
            exclude_archived: false,
            include_public: true,
            include_private: false,
            include_mpim: false,
            include_im: false,
        }
    }
}

/// The conversation kinds that `o` selects, by their API names, in the order
/// public, private, multi-person direct, direct.
pub open spec fn selected_types(o: ListOptions) -> Seq<Seq<char>> {
    (if o.include_public {
        seq!["public_channel"@]
    } else {
        Seq::empty()
    }) + (if o.include_private {
        seq!["private_channel"@]
    } else {
        Seq::empty()
    }) + (if o.include_mpim {
        seq!["mpim"@]
    } else {
        Seq::empty()
    }) + (if o.include_im {
        seq!["im"@]
    } else {
        Seq::empty()
    })
}

impl ListOptions {
    /// The defaults: public channels only, 100 per page.
    pub fn new() -> (r: ListOptions)
        ensures
            r.limit@ == crate::page::DEFAULT_LIMIT,
            !r.exclude_archived,
            r.include_public,
            !r.include_private,
            !r.include_mpim,
            !r.include_im,
    {
        ListOptions::default()
    }

    pub fn set_limit(self, limit: Limit) -> (r: ListOptions)
        ensures
            r == (ListOptions { limit, ..self }),
    {
        ListOptions { limit, ..self }
    }

    pub fn include_public(self, enabled: bool) -> (r: ListOptions)
        ensures
            r == (ListOptions { include_public: enabled, ..self }),
    {
        ListOptions { include_public: enabled, ..self }
    }

    pub fn include_private(self, enabled: bool) -> (r: ListOptions)
        ensures
            r == (ListOptions { include_private: enabled, ..self }),
    {
        ListOptions { include_private: enabled, ..self }
    }

    pub fn include_mpim(self, enabled: bool) -> (r: ListOptions)
        ensures
            r == (ListOptions { include_mpim: enabled, ..self }),
    {
        ListOptions { include_mpim: enabled, ..self }
    }

    pub fn include_im(self, enabled: bool) -> (r: ListOptions)
        ensures
            r == (ListOptions { include_im: enabled, ..self }),
    {
        ListOptions { include_im: enabled, ..self }
    }

    /// The `types` parameter: the selected kinds, comma-separated.
    pub fn types_query_param(&self) -> (r: String)
        ensures
            r@ == joined(selected_types(*self)),
    {
        let mut types: Vec<&str> = Vec::new();
        if self.include_public {
            types.push("public_channel");
        }
        if self.include_private {
            types.push("private_channel");
        }
        if self.include_mpim {
            types.push("mpim");
        }
        if self.include_im {
            types.push("im");
        }
        assert(texts(types@) =~= selected_types(*self));
        join_commas(&types)
    }
}

/// The IDs, comma-separated.
pub open spec fn ids_text(ids: Seq<user::Id>) -> Seq<char> {
    joined(ids.map_values(|u: user::Id| u.0@))
}

fn join_user_ids(ids: &[user::Id]) -> (r: String)
    ensures
        r@ == ids_text(ids@),
{
    let mut parts: Vec<&str> = Vec::new();
    let mut i: usize = 0;
    while i < ids.len()
        invariant
            0 <= i <= ids@.len(),
            texts(parts@) == ids@.take(i as int).map_values(|u: user::Id| u.0@),
        decreases ids@.len() - i,
    {
        let ghost before = parts@;
        parts.push(ids[i].as_str());
        assert(texts(parts@) =~= texts(before).push(ids@[i as int].0@));
        assert(ids@.take(i + 1) =~= ids@.take(i as int).push(ids@[i as int]));
        i = i + 1;
    }
    assert(ids@.take(ids@.len() as int) =~= ids@);
    join_commas(&parts)
}

pub const CONVERSATIONS_MEMBERS: &'static str = "https://slack.com/api/conversations.members";

pub const CONVERSATIONS_OPEN: &'static str = "https://slack.com/api/conversations.open";

pub const CONVERSATIONS_INVITE: &'static str = "https://slack.com/api/conversations.invite";

pub const CONVERSATIONS_KICK: &'static str = "https://slack.com/api/conversations.kick";

pub const CONVERSATIONS_LIST: &'static str = "https://slack.com/api/conversations.list";

/// The URL that lists the members of a conversation, one page of at most
/// `limit` from `cursor` on.
pub fn members_url(conversation_id: &Id, cursor: &Cursor, limit: Limit) -> (r: Result<
    String,
    Error,
>)
    ensures
        built_url(
            r,
            CONVERSATIONS_MEMBERS@,
            seq![
                ("channel"@, conversation_id.0@),
                ("cursor"@, cursor_text(cursor@)),
                ("limit"@, decimal_text(limit@ as nat)),
            ],
        ),
{
    let limit_text = u16_text(limit.get());
    let mut params: Vec<(&str, &str)> = Vec::new();
    params.push(("channel", conversation_id.as_str()));
    params.push(("cursor", cursor.as_str()));
    params.push(("limit", limit_text.as_str()));
    assert(pairs_view(params@) =~= seq![
        ("channel"@, conversation_id.0@),
        ("cursor"@, cursor_text(cursor@)),
        ("limit"@, decimal_text(limit@ as nat)),
    ]);
    request_url(CONVERSATIONS_MEMBERS, &params)
}

/// The URL that opens a conversation with the users `user_ids`.
pub fn open_url(user_ids: &[user::Id]) -> (r: Result<String, Error>)
    ensures
        built_url(r, CONVERSATIONS_OPEN@, seq![("users"@, ids_text(user_ids@))]),
{
    let users = join_user_ids(user_ids);
    let mut params: Vec<(&str, &str)> = Vec::new();
    params.push(("users", users.as_str()));
    assert(pairs_view(params@) =~= seq![("users"@, ids_text(user_ids@))]);
    request_url(CONVERSATIONS_OPEN, &params)
}

/// The URL that invites the users `user_ids` to the conversation `channel_id`.
pub fn invite_url(channel_id: &Id, user_ids: &[user::Id]) -> (r: Result<String, Error>)
    ensures
        built_url(
            r,
            CONVERSATIONS_INVITE@,
            seq![("channel"@, channel_id.0@), ("users"@, ids_text(user_ids@))],
        ),
{
    let users = join_user_ids(user_ids);
    let mut params: Vec<(&str, &str)> = Vec::new();
    params.push(("channel", channel_id.as_str()));
    params.push(("users", users.as_str()));
    assert(pairs_view(params@) =~= seq![("channel"@, channel_id.0@), ("users"@, ids_text(user_ids@))]);
    request_url(CONVERSATIONS_INVITE, &params)
}

/// The URL that removes the user `user_id` from the conversation `conversation_id`.
pub fn kick_url(conversation_id: &Id, user_id: &user::Id) -> (r: Result<String, Error>)
    ensures
        built_url(
            r,
            CONVERSATIONS_KICK@,
            seq![("channel"@, conversation_id.0@), ("user"@, user_id.0@)],
        ),
{
    let mut params: Vec<(&str, &str)> = Vec::new();
    params.push(("channel", conversation_id.as_str()));
    params.push(("user", user_id.as_str()));
    assert(pairs_view(params@) =~= seq![("channel"@, conversation_id.0@), ("user"@, user_id.0@)]);
    request_url(CONVERSATIONS_KICK, &params)
}

/// The URL that lists the conversations of `team_id` that `params` selects, one
/// page from `cursor` on.
pub fn list_url(team_id: &team::Id, cursor: &Cursor, params: ListOptions) -> (r: Result<
    String,
    Error,
>)
    ensures
        built_url(
            r,
            CONVERSATIONS_LIST@,
            seq![
                ("cursor"@, cursor_text(cursor@)),
                ("types"@, joined(selected_types(params))),
                ("limit"@, decimal_text(params.limit@ as nat)),
                ("team_id"@, team_id.0@),
            ],
        ),
{
    let types = params.types_query_param();
    let limit_text = u16_text(params.limit.get());
    let mut query: Vec<(&str, &str)> = Vec::new();
    query.push(("cursor", cursor.as_str()));
    query.push(("types", types.as_str()));
    query.push(("limit", limit_text.as_str()));
    query.push(("team_id", team_id.as_str()));
    assert(pairs_view(query@) =~= seq![
        ("cursor"@, cursor_text(cursor@)),
        ("types"@, joined(selected_types(params))),
        ("limit"@, decimal_text(params.limit@ as nat)),
        ("team_id"@, team_id.0@),
    ]);
    request_url(CONVERSATIONS_LIST, &query)
}

} // verus!
