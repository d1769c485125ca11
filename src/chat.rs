//! Posting messages.

use vstd::prelude::*;
use vstd::string::StringExecFns;

use crate::conversation;
use crate::error::{refused_with, Error};
use crate::query::{absolute_url, built_url, pairs_view, parsed_url, request_url};
use crate::user;

verus! {

/// How a message is presented.
#[derive(Debug)]
pub struct MessageOptions {
    /// The emoji shown as the poster's icon, as `:name:`.
    pub icon_emoji: Option<String>,
    /// The address of an image shown as the poster's icon; posting refuses
    /// one that is not an absolute URL.
    pub icon_url: Option<String>,
    pub link_names: bool,
    pub markdown: bool,
    pub unfurl_links: Option<bool>,
    pub unfurl_media: Option<bool>,
    pub username: Option<String>,
}

/// A posted message.
#[derive(Debug)]
pub struct Message {
    pub bot_id: String,
    pub text: String,
    pub user: String,
    pub app_id: String,
    /// When it was posted, in nanoseconds since the Unix epoch.
    pub timestamp: i128,
}

/// The response of `chat.postMessage`.
#[derive(Debug)]
pub enum MessageResponse {
    Success { message: Message },
    Error { error: String },
}

/// The response of `chat.postEphemeral`.
#[derive(Debug)]
pub enum EphemeralResponse {
    /// When the message was posted, in nanoseconds since the Unix epoch.
    Success { timestamp: i128 },
    Error { error: String },
}

impl MessageResponse {
    /// The posted message, or the code that Slack refused the request with.
    pub fn into_result(self) -> (r: Result<Message, Error>)
        ensures
            match self {
                MessageResponse::Success { message } => r == Ok::<Message, Error>(message),
                MessageResponse::Error { error } => refused_with(r, error@),
            },
    {
        match self {
            MessageResponse::Success { message } => Ok(message),
            MessageResponse::Error { error } => Err(Error::Slack(error)),
        }
    }
}

impl EphemeralResponse {
    /// When the message was posted, or the code that Slack refused the request with.
    pub fn into_result(self) -> (r: Result<i128, Error>)
        ensures
            match self {
                EphemeralResponse::Success { timestamp } => r == Ok::<i128, Error>(timestamp),
                EphemeralResponse::Error { error } => refused_with(r, error@),
            },
    {
        match self {
            EphemeralResponse::Success { timestamp } => Ok(timestamp),
            EphemeralResponse::Error { error } => Err(Error::Slack(error)),
        }
    }
}

pub open spec fn bool_text(b: bool) -> Seq<char> {
    if b {
        "true"@
    } else {
        "false"@
    }
}

/// The parameter `name`, present when `value` is.
pub open spec fn optional_param(name: Seq<char>, value: Option<String>) -> Seq<(Seq<char>, Seq<char>)> {
    match value {
        Some(v) => seq![(name, v@)],
        None => Seq::empty(),
    }
}

/// The flag `name`, present when `value` is.
pub open spec fn optional_flag(name: Seq<char>, value: Option<bool>) -> Seq<(Seq<char>, Seq<char>)> {
    match value {
        Some(b) => seq![(name, bool_text(b))],
        None => Seq::empty(),
    }
}

/// The query parameters that the options stand for, in order.
pub open spec fn options_query(o: MessageOptions) -> Seq<(Seq<char>, Seq<char>)> {
    optional_param("username"@, o.username) + optional_param("icon_emoji"@, o.icon_emoji)
        + optional_param("icon_url"@, o.icon_url) + seq![
        ("link_names"@, bool_text(o.link_names)),
        ("mrkdwn"@, bool_text(o.markdown)),
    ] + optional_flag("unfurl_links"@, o.unfurl_links) + optional_flag(
        "unfurl_media"@,
        o.unfurl_media,
    )
}

fn bool_str(b: bool) -> (r: &'static str)
    ensures
        r@ == bool_text(b),
{
    if b {
        "true"
    } else {
        "false"
    }
}

impl Default for MessageOptions {
    /// Names linked, markdown on, and nothing else set.
    fn default() -> (r: MessageOptions)
        ensures
            r.icon_emoji is None,
            r.icon_url is None,
            r.link_names,
            r.markdown,
            r.unfurl_links is None,
            r.unfurl_media is None,
            r.username is None,
    {
        MessageOptions {
            icon_emoji: None,
            icon_url: None,
            link_names: true,
            markdown: true,
            unfurl_links: None,
            unfurl_media: None,
            username: None,
        }
    }
}

impl MessageOptions {
    /// The defaults: names linked, markdown on, and nothing else set.
    pub fn new() -> (r: MessageOptions)
        ensures
            r.icon_emoji is None,
            r.icon_url is None,
            r.link_names,
            r.markdown,
            r.unfurl_links is None,
            r.unfurl_media is None,
            r.username is None,
    {
        MessageOptions::default()
    }

    /// Shows the emoji `icon_emoji` (a name without colons) as the icon.
    pub fn set_icon_emoji(self, icon_emoji: String) -> (r: MessageOptions)
        ensures
            r.icon_emoji matches Some(e) && e@ == seq![':'] + icon_emoji@ + seq![':'],
            r.icon_url == self.icon_url,
            r.link_names == self.link_names,
            r.markdown == self.markdown,
            r.unfurl_links == self.unfurl_links,
            r.unfurl_media == self.unfurl_media,
            r.username == self.username,
    {
        let mut emoji = String::from_str(":");
        emoji.append(icon_emoji.as_str());
        emoji.append(":");
        proof {
            reveal_strlit(":");
        }
        MessageOptions { icon_emoji: Some(emoji), ..self }
    }

    pub fn set_username(self, username: String) -> (r: MessageOptions)
        ensures
            r == (MessageOptions { username: Some(username), ..self }),
    {
        MessageOptions { username: Some(username), ..self }
    }

    /// The options as query parameters.
    pub fn query_params(&self) -> (r: Vec<(&str, &str)>)
        ensures
            pairs_view(r@) == options_query(*self),
    {
        let mut opts: Vec<(&str, &str)> = Vec::new();
        let ghost mut expected: Seq<(Seq<char>, Seq<char>)> = Seq::empty();
        if let Some(username) = &self.username {
            opts.push(("username", username.as_str()));
        }
        assert(pairs_view(opts@) =~= optional_param("username"@, self.username));
        if let Some(icon_emoji) = &self.icon_emoji {
            opts.push(("icon_emoji", icon_emoji.as_str()));
        }
        assert(pairs_view(opts@) =~= optional_param("username"@, self.username) + optional_param(
            "icon_emoji"@,
            self.icon_emoji,
        ));
        if let Some(icon_url) = &self.icon_url {
            opts.push(("icon_url", icon_url.as_str()));
        }
        proof {
            expected = optional_param("username"@, self.username) + optional_param(
                "icon_emoji"@,
                self.icon_emoji,
            ) + optional_param("icon_url"@, self.icon_url);
        }
        assert(pairs_view(opts@) =~= expected);
        opts.push(("link_names", bool_str(self.link_names)));
        opts.push(("mrkdwn", bool_str(self.markdown)));
        proof {
            expected = expected + seq![
                ("link_names"@, bool_text(self.link_names)),
                ("mrkdwn"@, bool_text(self.markdown)),
            ];
        }
        assert(pairs_view(opts@) =~= expected);
        if let Some(unfurl_links) = self.unfurl_links {
            opts.push(("unfurl_links", bool_str(unfurl_links)));
        }
        proof {
            expected = expected + optional_flag("unfurl_links"@, self.unfurl_links);
        }
        assert(pairs_view(opts@) =~= expected);
        if let Some(unfurl_media) = self.unfurl_media {
            opts.push(("unfurl_media", bool_str(unfurl_media)));
        }
        assert(pairs_view(opts@) =~= options_query(*self));
        opts
    }
}

/// Whether the icon address, if any, is an absolute URL.
pub open spec fn icon_url_valid(o: MessageOptions) -> bool {
    match o.icon_url {
        Some(u) => parsed_url(u@) is Some,
        None => true,
    }
}

/// Checks the icon address, if any, before a post.
fn check_icon_url(opts: &MessageOptions) -> (r: Result<(), Error>)
    ensures
        r is Ok <==> icon_url_valid(*opts),
        r matches Err(e) ==> e is Url,
{
    match &opts.icon_url {
        Some(u) => match absolute_url(u.as_str()) {
            Ok(_) => Ok(()),
            Err(e) => Err(e),
        },
        None => Ok(()),
    }
}

pub const POST_MESSAGE: &'static str = "https://slack.com/api/chat.postMessage";

pub const POST_EPHEMERAL: &'static str = "https://slack.com/api/chat.postEphemeral";

/// The URL that posts `message` to the conversation `conversation_id`; refused
/// when the icon address is not an absolute URL.
pub fn post_message_url(
    conversation_id: &conversation::Id,
    message: &str,
    opts: &MessageOptions,
) -> (r: Result<String, Error>)
    ensures
        !icon_url_valid(*opts) ==> r matches Err(Error::Url(_)),
        icon_url_valid(*opts) ==> built_url(
            r,
            POST_MESSAGE@,
            options_query(*opts) + seq![("channel"@, conversation_id.0@), ("text"@, message@)],
        ),
{
    match check_icon_url(opts) {
        Ok(()) => {},
        Err(e) => return Err(e),
    }
    let mut params = opts.query_params();
    params.push(("channel", conversation_id.as_str()));
    params.push(("text", message));
    assert(pairs_view(params@) =~= options_query(*opts) + seq![
        ("channel"@, conversation_id.0@),
        ("text"@, message@),
    ]);
    request_url(POST_MESSAGE, &params)
}

/// The URL that posts `message` to the conversation `conversation_id`, visible
/// to the user `user_id` only; refused when the icon address is not an absolute
/// URL.
pub fn post_ephemeral_url(
    conversation_id: &conversation::Id,
    user_id: &user::Id,
    message: &str,
    opts: &MessageOptions,
) -> (r: Result<String, Error>)
    ensures
        !icon_url_valid(*opts) ==> r matches Err(Error::Url(_)),
        icon_url_valid(*opts) ==> built_url(
            r,
            POST_EPHEMERAL@,
            options_query(*opts) + seq![
                ("channel"@, conversation_id.0@),
                ("user"@, user_id.0@),
                ("text"@, message@),
            ],
        ),
{
    match check_icon_url(opts) {
        Ok(()) => {},
        Err(e) => return Err(e),
    }
    let mut params = opts.query_params();
    params.push(("channel", conversation_id.as_str()));
    params.push(("user", user_id.as_str()));
    params.push(("text", message));
    assert(pairs_view(params@) =~= options_query(*opts) + seq![
        ("channel"@, conversation_id.0@),
        ("user"@, user_id.0@),
        ("text"@, message@),
    ]);
    request_url(POST_EPHEMERAL, &params)
}

} // verus!
