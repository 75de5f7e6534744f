use bitbucket_api::uri_builders::{ResourceUriBuilder, UriBuilder};
use bitbucket_api::Scheme;

const TEST_HOST: &str = "stash.test.com";

fn base_uri() -> String {
    format!("http://{}/rest/api/1.0", TEST_HOST)
}

#[test]
fn resource_uri_builder_requires_host() {
    let uri = ResourceUriBuilder::default().build();
    assert!(uri.is_err());
    assert_eq!(uri.unwrap_err().msg(), "host must be initialized");
}

#[test]
fn resource_uri_builder_works() {
    let uri = ResourceUriBuilder::default().host(TEST_HOST).build();
    assert!(uri.is_ok());
    assert_eq!(uri.unwrap(), base_uri());
}

#[test]
fn resource_uri_with_scheme_works() {
    let uri = ResourceUriBuilder::default()
        .scheme(&Scheme::HTTPS)
        .host(TEST_HOST)
        .build();
    assert!(uri.is_ok());
    assert_eq!(uri.unwrap(), format!("https://{}/rest/api/1.0", TEST_HOST));
}

#[test]
fn resource_clone_works() {
    let builder = ResourceUriBuilder::default().host(TEST_HOST);
    let uri = builder.clone().host("stash.clone.com").build();
    assert!(uri.is_ok());
    assert_eq!(uri.unwrap(), "http://stash.clone.com/rest/api/1.0");
    let uri = builder.build();
    assert!(uri.is_ok());
    assert_eq!(uri.unwrap(), base_uri());
}
