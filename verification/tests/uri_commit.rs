use bitbucket_api::uri_builders::{ResourceUriBuilder, UriBuilder, WithCommitUriBuilder};

const TEST_HOST: &str = "stash.test.com";
const TEST_PROJECT: &str = "RRJ";
const TEST_REPO: &str = "REPO";

fn base_uri() -> String {
    format!(
        "http://{}/rest/api/1.0/projects/{}/repos/{}/commits",
        TEST_HOST, TEST_PROJECT, TEST_REPO
    )
}

fn commit_id() -> &'static str {
    "76bf028"
}

fn builder<'a>() -> WithCommitUriBuilder<'a> {
    ResourceUriBuilder::default()
        .host(TEST_HOST)
        .projects()
        .project(TEST_PROJECT)
        .repos()
        .repository(TEST_REPO)
        .commits()
        .commit(commit_id())
}

#[test]
fn commit_uri_works() {
    let uri = ResourceUriBuilder::default()
        .host(TEST_HOST)
        .projects()
        .project(TEST_PROJECT)
        .repos()
        .repository(TEST_REPO)
        .commits()
        .build();
    assert!(uri.is_ok());
    assert_eq!(uri.unwrap(), base_uri());
}

#[test]
fn with_commit_uri_works() {
    let uri = builder().build();
    assert!(uri.is_ok());
    assert_eq!(uri.unwrap(), format!("{}/{}", base_uri(), commit_id()));
}

#[test]
fn commit_changes_works() {
    let uri = builder().changes().build();
    assert!(uri.is_ok());
    assert_eq!(uri.unwrap(), format!("{}/{}/changes", base_uri(), commit_id()));
}

#[test]
fn commit_comments_works() {
    let uri = builder().comments().build();
    assert!(uri.is_ok());
    assert_eq!(uri.unwrap(), format!("{}/{}/comments", base_uri(), commit_id()));
}

#[test]
fn commit_comment_id_uri_works() {
    let uri = builder().comments().comment(1).build();
    assert!(uri.is_ok());
    assert_eq!(uri.unwrap(), format!("{}/{}/comments/1", base_uri(), commit_id()));
}

#[test]
fn commit_diff_works() {
    let uri = builder().diff().build();
    assert!(uri.is_ok());
    assert_eq!(uri.unwrap(), format!("{}/{}/diff", base_uri(), commit_id()));
}

#[test]
fn commit_watch_works() {
    let uri = builder().watch().build();
    assert!(uri.is_ok());
    assert_eq!(uri.unwrap(), format!("{}/{}/watch", base_uri(), commit_id()));
}
