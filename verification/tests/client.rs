use oauth2::Token;
use pinterest::client::{Client, API_BASE};

fn token(access: &str) -> Token {
    Token {
        token_type: String::from("bearer"),
        access_token: String::from(access),
        scopes: vec![String::from("read_public"), String::from("write_public")],
        expires_in: Some(60),
        refresh_token: Some(String::from("again")),
    }
}

#[test]
fn default_client_has_no_token() {
    assert!(Client::default().token().is_none());
}

#[test]
fn new_client_holds_the_token() {
    let client = Client::new(token("pin-access"));
    assert_eq!(client.token(), Some(&token("pin-access")));
}

#[test]
fn new_client_holds_no_other_token() {
    let client = Client::new(token("pin-access"));
    assert_ne!(client.token(), Some(&token("other")));
}

#[test]
fn api_base_is_version_one() {
    assert_eq!(API_BASE, "https://api.pinterest.com/v1/");
}
