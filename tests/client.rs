use slack_http::client::{bearer_header, AuthClient, BasicClient, CreateClientError};
use slack_http::oauth::AccessToken;

#[test]
fn token_with_a_newline_is_refused() {
    let r = AuthClient::new(AccessToken("xoxb-1\nInjected: yes".to_string()));
    assert!(matches!(r, Err(CreateClientError::HeaderValue(_))));
    let r = AuthClient::new(AccessToken("xoxb-\u{7f}".to_string()));
    assert!(matches!(r, Err(CreateClientError::HeaderValue(_))));
}

#[test]
fn ordinary_tokens_make_clients() {
    assert!(AuthClient::new(AccessToken("HUHWHATTHISBE".to_string())).is_ok());
    assert!(AuthClient::new(AccessToken("tab\tand caf\u{e9}".to_string())).is_ok());
    let basic = BasicClient::new().unwrap();
    let _copy = basic.clone();
}

#[test]
fn bearer_header_prefixes_the_token() {
    assert_eq!(bearer_header(&AccessToken("xoxb-123".to_string())), "Bearer xoxb-123");
    assert_eq!(bearer_header(&AccessToken(String::new())), "Bearer ");
}
