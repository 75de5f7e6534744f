use bitbucket_api::uri_builders::{LogUriBuilder, ResourceUriBuilder, UriBuilder};

const TEST_HOST: &str = "stash.test.com";

fn base_uri() -> String {
    format!("http://{}/rest/api/1.0/logs", TEST_HOST)
}

fn builder<'a>() -> LogUriBuilder<'a> {
    ResourceUriBuilder::default().host(TEST_HOST).logs()
}

#[test]
fn logs_uri_works() {
    let uri = builder().build();
    assert!(uri.is_ok());
    assert_eq!(uri.unwrap(), base_uri());
}

#[test]
fn logger_uri_works() {
    let uri = builder().logger("test").build();
    assert!(uri.is_ok());
    assert_eq!(uri.unwrap(), format!("{}/logger/test", base_uri()));
}

#[test]
fn logger_level_uri_works() {
    let uri = builder().logger("test").level("DEBUG").build();
    assert!(uri.is_ok());
    assert_eq!(uri.unwrap(), format!("{}/logger/test/DEBUG", base_uri()));
}

#[test]
fn root_logger_uri_works() {
    let uri = builder().root_logger().build();
    assert!(uri.is_ok());
    assert_eq!(uri.unwrap(), format!("{}/rootLogger", base_uri()));
}

#[test]
fn root_logger_level_uri_works() {
    let uri = builder().root_logger().level("DEBUG").build();
    assert!(uri.is_ok());
    assert_eq!(uri.unwrap(), format!("{}/rootLogger/DEBUG", base_uri()));
}
