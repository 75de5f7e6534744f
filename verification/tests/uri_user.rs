use bitbucket_api::uri_builders::{ResourceUriBuilder, UriBuilder, UserUriBuilder};

const TEST_HOST: &str = "stash.test.com";

fn base_uri() -> String {
    format!("http://{}/rest/api/1.0/users", TEST_HOST)
}

fn builder<'a>() -> UserUriBuilder<'a> {
    ResourceUriBuilder::default().host(TEST_HOST).users()
}

#[test]
fn user_uri_works() {
    let uri = builder().build();
    assert!(uri.is_ok());
    assert_eq!(uri.unwrap(), base_uri());
}

#[test]
fn user_credentials_uri_works() {
    let uri = builder().credentials().build();
    assert!(uri.is_ok());
    assert_eq!(uri.unwrap(), format!("{}/credentials", base_uri()));
}

#[test]
fn with_user_uri_works() {
    let uri = builder().user("george").build();
    assert!(uri.is_ok());
    assert_eq!(uri.unwrap(), format!("{}/george", base_uri()));
}

#[test]
fn user_avatar_uri_works() {
    let uri = builder().user("george").avatar().build();
    assert!(uri.is_ok());
    assert_eq!(uri.unwrap(), format!("{}/george/avatar.png", base_uri()));
}
