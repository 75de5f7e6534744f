use bitbucket_api::uri_builders::{ResourceUriBuilder, UriBuilder, WithRepositoryUriBuilder};

const TEST_HOST: &str = "stash.test.com";
const TEST_PROJECT: &str = "RRJ";
const TEST_REPO: &str = "REPO";

fn base_uri() -> String {
    format!(
        "http://{}/rest/api/1.0/projects/{}/repos",
        TEST_HOST, TEST_PROJECT
    )
}

fn builder<'a>() -> WithRepositoryUriBuilder<'a> {
    ResourceUriBuilder::default()
        .host(TEST_HOST)
        .projects()
        .project(TEST_PROJECT)
        .repos()
        .repository(TEST_REPO)
}

fn format_repo_uri(path: &str) -> String {
    format!("{}/{}/{}", base_uri(), TEST_REPO, path)
}

#[test]
fn repository_uri_works() {
    let uri = ResourceUriBuilder::default()
        .host(TEST_HOST)
        .projects()
        .project(TEST_PROJECT)
        .repos()
        .build();
    assert!(uri.is_ok());
    assert_eq!(uri.unwrap(), base_uri());
}

#[test]
fn with_repository_uri_works() {
    let uri = builder().build();
    assert!(uri.is_ok());
    assert_eq!(uri.unwrap(), format!("{}/{}", base_uri(), TEST_REPO));
}

#[test]
fn repo_forks_uri_works() {
    let uri = builder().forks().build();
    assert!(uri.is_ok());
    assert_eq!(uri.unwrap(), format_repo_uri("forks"));
}

#[test]
fn repo_recreate_uri_works() {
    let uri = builder().recreate().build();
    assert!(uri.is_ok());
    assert_eq!(uri.unwrap(), format_repo_uri("recreate"));
}

#[test]
fn repo_related_uri_works() {
    let uri = builder().related().build();
    assert!(uri.is_ok());
    assert_eq!(uri.unwrap(), format_repo_uri("related"));
}

#[test]
fn repo_changes_uri_works() {
    let uri = builder().changes().build();
    assert!(uri.is_ok());
    assert_eq!(uri.unwrap(), format_repo_uri("changes"));
}

#[test]
fn repo_tags_uri_works() {
    let uri = builder().tags().build();
    assert!(uri.is_ok());
    assert_eq!(uri.unwrap(), format_repo_uri("tags"));
}

#[test]
fn repo_compare_uri_works() {
    let uri = builder().compare().build();
    assert!(uri.is_ok());
    assert_eq!(uri.unwrap(), format_repo_uri("compare"));
}

#[test]
fn repo_settings_uri_works() {
    let uri = builder().settings().build();
    assert!(uri.is_ok());
    assert_eq!(uri.unwrap(), format_repo_uri("settings"));
}

#[test]
fn repo_hook_settings_uri_works() {
    let uri = builder().settings().hooks().build();
    assert!(uri.is_ok());
    assert_eq!(uri.unwrap(), format_repo_uri("settings/hooks"));
}

#[test]
fn with_hook_settings_uri_works() {
    let uri = builder().settings().hooks().hook("test-hook").build();
    assert!(uri.is_ok());
    assert_eq!(uri.unwrap(), format_repo_uri("settings/hooks/test-hook"));
}

#[test]
fn with_hook_enabled_settings_uri_works() {
    let uri = builder()
        .settings()
        .hooks()
        .hook("test-hook")
        .enabled()
        .build();
    assert!(uri.is_ok());
    assert_eq!(uri.unwrap(), format_repo_uri("settings/hooks/test-hook/enabled"));
}

#[test]
fn hook_settings_uri_works() {
    let uri = builder()
        .settings()
        .hooks()
        .hook("test-hook")
        .settings()
        .build();
    assert!(uri.is_ok());
    assert_eq!(uri.unwrap(), format_repo_uri("settings/hooks/test-hook/settings"));
}
