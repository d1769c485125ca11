//! Workspace members, and the projection onto active human users.

use vstd::prelude::*;

use crate::error::{refused_with, Error};
use crate::page::{cursor_text, next_page_cursor, Cursor, Limit, Page, ResponseMetadata};
use crate::query::{built_url, decimal_text, pairs_view, request_url, u16_text};

verus! {

/// A user ID.
#[derive(Clone, Debug, PartialEq, Eq, Hash)]
pub struct Id(pub String);

impl Id {
    pub fn as_str(&self) -> (r: &str)
        ensures
            r@ == self.0@,
    {
        self.0.as_str()
    }

    /// The ID as text.
    pub fn to_string(&self) -> (r: String)
        ensures
            r@ == self.0@,
    {
        self.0.clone()
    }
}

/// A member of a workspace, as `users.list` describes it.
#[derive(Debug)]
pub struct User {
    pub id: Id,
    pub deleted: bool,
    pub is_bot: bool,
    pub is_app_user: bool,
    pub is_admin: bool,
    pub is_owner: bool,
    pub is_restricted: bool,
    pub is_ultra_restricted: bool,
    pub profile: Profile,
    pub tz: String,
    pub tz_label: String,
    pub tz_offset: i64,
}

/// A member's profile.
#[derive(Debug)]
pub struct Profile {
    pub image_24: url::Url,
    pub image_32: url::Url,
    pub image_48: url::Url,
    pub image_72: url::Url,
    pub image_192: url::Url,
    pub image_512: url::Url,
    pub avatar_hash: String,
    pub status_text: String,
    pub status_emoji: String,
    pub display_name: String,
    pub display_name_normalized: String,
    pub real_name: String,
    pub real_name_normalized: String,
    pub email: Option<String>,
}

/// The response of `users.list`.
#[derive(Debug)]
pub enum ListResponse {
    Success { members: Vec<User>, response_metadata: ResponseMetadata },
    Error { error: String },
}

impl ListResponse {
    /// The page of members, or the code that Slack refused the request with.
    pub fn into_result(self) -> (r: Result<Page<User>, Error>)
        ensures
            match self {
                ListResponse::Success { members, response_metadata } => r matches Ok(p)
                    && p.spec_results() == members@ && p.spec_cursor() == next_page_cursor(
                    response_metadata.next_cursor@,
                ),
                ListResponse::Error { error } => refused_with(r, error@),
            },
    {
        match self {
            ListResponse::Success { members, response_metadata } => Ok(
                Page::new(members, Cursor::from(response_metadata)),
            ),
            ListResponse::Error { error } => Err(Error::Slack(error)),
        }
    }
}

pub const LIST: &'static str = "https://slack.com/api/users.list";

/// The query of `users.list`.
pub open spec fn list_query(team_id: Seq<char>, cursor: Seq<char>, limit: u16) -> Seq<
    (Seq<char>, Seq<char>),
> {
    seq![
        ("team_id"@, team_id),
        ("limit"@, decimal_text(limit as nat)),
        ("cursor"@, cursor),
        ("include_locale"@, "true"@),
    ]
}

/// The URL that lists the members of `team_id`, one page of at most `limit`
/// from `cursor` on.
pub fn list_url(team_id: &crate::team::Id, cursor: &Cursor, limit: &Limit) -> (r: Result<
    String,
    Error,
>)
    ensures
        built_url(r, LIST@, list_query(team_id.0@, cursor_text(cursor@), limit@)),
{
    let limit_text = u16_text(limit.get());
    let mut params: Vec<(&str, &str)> = Vec::new();
    params.push(("team_id", team_id.as_str()));
    params.push(("limit", limit_text.as_str()));
    params.push(("cursor", cursor.as_str()));
    params.push(("include_locale", "true"));
    assert(pairs_view(params@) =~= list_query(team_id.0@, cursor_text(cursor@), limit@));
    request_url(LIST, &params)
}

/// A member who is neither deactivated nor a bot.
#[derive(Debug)]
pub struct ActiveUser {
    pub id: Id,
    pub display_name: String,
    pub picture: url::Url,
}

/// Why a member is not an active user.
#[derive(Debug, Clone, Copy, PartialEq, Eq, Structural)]
pub enum InactiveReason {
    Deleted,
    Bot,
}

/// Whether a member counts as an active user.
pub open spec fn is_active(u: User) -> bool {
    !u.deleted && !u.is_bot
}

/// The active-user record of a member.
pub open spec fn active_view(u: User) -> ActiveUser {
    ActiveUser { id: u.id, display_name: u.profile.display_name, picture: u.profile.image_192 }
}

/// The active users among `users`, in order.
pub open spec fn active_among(users: Seq<User>) -> Seq<ActiveUser>
    decreases users.len(),
{
    if users.len() == 0 {
        Seq::empty()
    } else if is_active(users.last()) {
        active_among(users.drop_last()).push(active_view(users.last()))
    } else {
        active_among(users.drop_last())
    }
}

/// The member as an active user: its ID, display name and 192-pixel picture;
/// a deactivated member or a bot is refused, deactivation first.
pub fn active_user(user: User) -> (r: Result<ActiveUser, InactiveReason>)
    ensures
        user.deleted ==> r == Err::<ActiveUser, _>(InactiveReason::Deleted),
        !user.deleted && user.is_bot ==> r == Err::<ActiveUser, _>(InactiveReason::Bot),
        is_active(user) ==> r == Ok::<_, InactiveReason>(active_view(user)),
{
    if user.deleted {
        Err(InactiveReason::Deleted)
    } else if user.is_bot {
        Err(InactiveReason::Bot)
    } else {
        Ok(ActiveUser {
            id: user.id,
            display_name: user.profile.display_name,
            picture: user.profile.image_192,
        })
    }
}

/// The active users among `users`, in order; the others are left out.
pub fn active_users(users: Vec<User>) -> (r: Vec<ActiveUser>)
    ensures
        r@ == active_among(users@),
{
    let ghost all = users@;
    let mut out: Vec<ActiveUser> = Vec::new();
    for user in it: users
        invariant
            it.seq() == all,
            out@ == active_among(all.take(it.index() as int)),
    {
        let ghost k = it.index() as int;
        assert(all.take(k + 1).drop_last() =~= all.take(k));
        assert(all.take(k + 1).last() == all[k]);
        match active_user(user) {
            Ok(a) => out.push(a),
            Err(_) => {},
        }
    }
    assert(all.take(all.len() as int) =~= all);
    out
}

} // verus!
