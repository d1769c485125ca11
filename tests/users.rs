use slack_http::user::{active_user, active_users, Id, InactiveReason, Profile, User};

fn image(name: &str) -> url::Url {
    url::Url::parse(&format!("https://avatars.example.com/{name}.png")).unwrap()
}

fn user(id: &str, deleted: bool, is_bot: bool) -> User {
    User {
        id: Id(id.to_string()),
        deleted,
        is_bot,
        is_app_user: false,
        is_admin: false,
        is_owner: false,
        is_restricted: false,
        is_ultra_restricted: false,
        profile: Profile {
            image_24: image("24"),
            image_32: image("32"),
            image_48: image("48"),
            image_72: image("72"),
            image_192: image(&format!("{id}-192")),
            image_512: image("512"),
            avatar_hash: "hash".to_string(),
            status_text: String::new(),
            status_emoji: String::new(),
            display_name: format!("{id} display"),
            display_name_normalized: format!("{id} display"),
            real_name: format!("{id} real"),
            real_name_normalized: format!("{id} real"),
            email: None,
        },
        tz: "Europe/Paris".to_string(),
        tz_label: "Central European Time".to_string(),
        tz_offset: 3600,
    }
}

#[test]
fn only_the_normal_user_is_active() {
    let users = vec![user("UDELETED", true, false), user("UBOT", false, true), user("UHUMAN", false, false)];
    let active = active_users(users);
    assert_eq!(active.len(), 1);
    assert_eq!(active[0].id, Id("UHUMAN".to_string()));
    assert_eq!(active[0].display_name, "UHUMAN display");
    assert_eq!(active[0].picture.as_str(), "https://avatars.example.com/UHUMAN-192.png");
}

#[test]
fn active_users_keep_their_order() {
    let users = vec![
        user("U1", false, false),
        user("U2", true, true),
        user("U3", false, false),
        user("U4", false, true),
        user("U5", false, false),
    ];
    let ids: Vec<String> = active_users(users).into_iter().map(|a| a.id.0).collect();
    assert_eq!(ids, vec!["U1", "U3", "U5"]);
    assert!(active_users(Vec::new()).is_empty());
}

#[test]
fn inactive_members_are_refused_with_a_reason() {
    assert_eq!(active_user(user("U1", true, false)).unwrap_err(), InactiveReason::Deleted);
    assert_eq!(active_user(user("U1", true, true)).unwrap_err(), InactiveReason::Deleted);
    assert_eq!(active_user(user("U1", false, true)).unwrap_err(), InactiveReason::Bot);
    assert_eq!(active_user(user("U1", false, false)).unwrap().id.as_str(), "U1");
}

#[test]
fn user_id_text() {
    let id = Id("USLACKBOT".to_string());
    assert_eq!(id.as_str(), "USLACKBOT");
    assert_eq!(id.to_string(), "USLACKBOT");
}
