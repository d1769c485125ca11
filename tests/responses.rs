use slack_http::chat::{EphemeralResponse, Message, MessageResponse};
use slack_http::conversation::{
    Conversation, Id, InviteResponse, KickResponse, ListOptions, ListResponse,
    ListResponseMetadata, MembersResponse, OpenResponse, OpenedChannel,
};
use slack_http::error::Error;
use slack_http::page::ResponseMetadata;
use slack_http::{emoji, oauth, oidc, openid, team, user, Cursor};

fn invalid_auth() -> String {
    "invalid_auth".to_string()
}

fn conversation(id: &str) -> Conversation {
    Conversation {
        id: Id(id.to_string()),
        name: "general".to_string(),
        name_normalized: "general".to_string(),
        created: 1449252889,
        creator: user::Id("U1".to_string()),
        is_member: true,
        is_archived: false,
        is_private: false,
        is_channel: true,
        is_group: false,
        is_im: false,
        is_mpim: false,
        is_general: true,
    }
}

fn page_response(ids: &[&str], next_cursor: &str) -> ListResponse {
    ListResponse::Success {
        channels: ids.iter().map(|id| conversation(id)).collect(),
        response_metadata: ListResponseMetadata { next_cursor: next_cursor.to_string() },
    }
}

#[test]
fn pagination_loop_stops_after_the_page_without_a_cursor() {
    let mut responses = vec![page_response(&["C1", "C2"], "abc"), page_response(&["C3"], "")].into_iter();
    let team_id = team::Id("T1".to_string());
    let opts = ListOptions::new();
    let mut cursor = Cursor::none();
    let mut requested = Vec::new();
    let mut pages = Vec::new();
    loop {
        requested.push(slack_http::conversation::list_url(&team_id, &cursor, opts).unwrap());
        let page = responses.next().unwrap().into_result().unwrap();
        let done = page.cursor().is_none();
        cursor = Cursor::from(ResponseMetadata { next_cursor: page.cursor().as_str().to_string() });
        pages.push(page);
        if done {
            break;
        }
    }
    assert_eq!(pages.len(), 2);
    assert_eq!(pages[0].results().len(), 2);
    assert_eq!(pages[1].results()[0].id.as_str(), "C3");
    assert!(requested[0].contains("cursor=&"));
    assert!(requested[1].contains("cursor=abc&"));
}

#[test]
fn error_shape_is_a_slack_error_for_every_binding() {
    let errors: Vec<Error> = vec![
        ListResponse::Error { error: invalid_auth() }.into_result().unwrap_err(),
        MembersResponse::Error { error: invalid_auth() }.into_result().unwrap_err(),
        OpenResponse::Error { error: invalid_auth() }.into_result().unwrap_err(),
        InviteResponse::Error { error: invalid_auth() }.into_result().unwrap_err(),
        KickResponse::Error { error: invalid_auth() }.into_result().unwrap_err(),
        MessageResponse::Error { error: invalid_auth() }.into_result().unwrap_err(),
        EphemeralResponse::Error { error: invalid_auth() }.into_result().unwrap_err(),
        emoji::ListResponse::Error { error: invalid_auth() }.into_result().unwrap_err(),
        team::InfoResponse::Error { error: invalid_auth() }.into_result().unwrap_err(),
        user::ListResponse::Error { error: invalid_auth() }.into_result().unwrap_err(),
        oauth::OAuthV2AccessResponse::Error { error: invalid_auth() }.into_result().unwrap_err(),
        oauth::OAuthV2RefreshResponse::Error { error: invalid_auth() }.into_result().unwrap_err(),
        oidc::TokenResponse::Error { error: invalid_auth() }.into_result().unwrap_err(),
        oidc::UserInfoResponse::Error { error: invalid_auth() }.into_result().unwrap_err(),
        openid::TokenResponse::Error { error: invalid_auth() }.into_result().unwrap_err(),
        openid::UserInfoResponse::Error { error: invalid_auth() }.into_result().unwrap_err(),
    ];
    for e in &errors {
        assert!(matches!(e, Error::Slack(code) if code == "invalid_auth"));
        assert_eq!(e.get_slack_error(), Some("invalid_auth"));
    }
}

#[test]
fn success_shapes_give_their_values() {
    let members = MembersResponse::Success {
        members: vec![user::Id("USLACKBOT".to_string())],
        response_metadata: ResponseMetadata { next_cursor: String::new() },
    }
    .into_result()
    .unwrap();
    assert_eq!(members.results()[0].as_str(), "USLACKBOT");
    assert!(members.cursor().is_none());

    let opened = OpenResponse::Success { channel: OpenedChannel { id: Id("D1".to_string()) } };
    assert_eq!(opened.into_result().unwrap(), Id("D1".to_string()));
    assert!(InviteResponse::Success { channel: conversation("C1") }.into_result().is_ok());
    assert!(KickResponse::Success.into_result().is_ok());
    assert_eq!(EphemeralResponse::Success { timestamp: 7 }.into_result().unwrap(), 7);

    let message = Message {
        bot_id: "B1".to_string(),
        text: "Hello".to_string(),
        user: "U1".to_string(),
        app_id: "A1".to_string(),
        timestamp: 1716700028123456000,
    };
    assert_eq!(MessageResponse::Success { message }.into_result().unwrap().text, "Hello");

    let mut map = std::collections::HashMap::new();
    map.insert("shipit".to_string(), "alias:squirrel".to_string());
    let emoji = emoji::ListResponse::Success { emoji: map }.into_result().unwrap();
    assert_eq!(emoji.get("shipit").map(|s| s.as_str()), Some("alias:squirrel"));

    let token = oidc::TokenResponse::Success { access_token: oidc::Token("xoxp-1".to_string()) };
    assert_eq!(token.into_result().unwrap().0, "xoxp-1");
    let token = openid::TokenResponse::Success { access_token: oauth::AccessToken("xoxp-2".to_string()) };
    assert_eq!(token.into_result().unwrap(), oauth::AccessToken("xoxp-2".to_string()));
}

#[test]
fn only_slack_errors_have_a_code() {
    let url_error = Error::Url(url::Url::parse("not a url").unwrap_err());
    assert_eq!(url_error.get_slack_error(), None);
}
