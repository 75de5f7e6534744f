use bitbucket_api::uri_builders::{ResourceUriBuilder, UriBuilder, WithPullRequestUriBuilder};

const TEST_HOST: &str = "stash.test.com";
const TEST_PROJECT: &str = "RRJ";
const TEST_REPO: &str = "REPO";

fn base_uri() -> String {
    format!(
        "http://{}/rest/api/1.0/projects/{}/repos/{}/pull-requests",
        TEST_HOST, TEST_PROJECT, TEST_REPO
    )
}

fn builder<'a>() -> WithPullRequestUriBuilder<'a> {
    ResourceUriBuilder::default()
        .host(TEST_HOST)
        .projects()
        .project(TEST_PROJECT)
        .repos()
        .repository(TEST_REPO)
        .pull_requests()
        .pull_request(1)
}

#[test]
fn pull_request_uri_works() {
    let uri = ResourceUriBuilder::default()
        .host(TEST_HOST)
        .projects()
        .project(TEST_PROJECT)
        .repos()
        .repository(TEST_REPO)
        .pull_requests()
        .build();
    assert!(uri.is_ok());
    assert_eq!(uri.unwrap(), base_uri());
}

#[test]
fn with_pull_request_uri_works() {
    let uri = builder().build();
    assert!(uri.is_ok());
    assert_eq!(uri.unwrap(), format!("{}/1", base_uri()));
}

#[test]
fn with_pull_request_activities_uri_works() {
    let uri = builder().activities().build();
    assert!(uri.is_ok());
    assert_eq!(uri.unwrap(), format!("{}/1/activities", base_uri()));
}

#[test]
fn with_pull_request_decline_uri_works() {
    let uri = builder().decline().build();
    assert!(uri.is_ok());
    assert_eq!(uri.unwrap(), format!("{}/1/decline", base_uri()));
}

#[test]
fn with_pull_request_merge_uri_works() {
    let uri = builder().merge().build();
    assert!(uri.is_ok());
    assert_eq!(uri.unwrap(), format!("{}/1/merge", base_uri()));
}

#[test]
fn with_pull_request_reopen_uri_works() {
    let uri = builder().reopen().build();
    assert!(uri.is_ok());
    assert_eq!(uri.unwrap(), format!("{}/1/reopen", base_uri()));
}

#[test]
fn with_pull_request_approve_uri_works() {
    let uri = builder().approve().build();
    assert!(uri.is_ok());
    assert_eq!(uri.unwrap(), format!("{}/1/approve", base_uri()));
}

#[test]
fn with_pull_request_changes_uri_works() {
    let uri = builder().changes().build();
    assert!(uri.is_ok());
    assert_eq!(uri.unwrap(), format!("{}/1/changes", base_uri()));
}

#[test]
fn with_pull_request_comments_uri_works() {
    let uri = builder().comments().build();
    assert!(uri.is_ok());
    assert_eq!(uri.unwrap(), format!("{}/1/comments", base_uri()));
}

#[test]
fn with_comment_uri_works() {
    let uri = builder().comments().comment(1).build();
    assert!(uri.is_ok());
    assert_eq!(uri.unwrap(), format!("{}/1/comments/1", base_uri()));
}

#[test]
fn with_pull_request_commits_uri_works() {
    let uri = builder().commits().build();
    assert!(uri.is_ok());
    assert_eq!(uri.unwrap(), format!("{}/1/commits", base_uri()));
}

#[test]
fn with_pull_request_diff_uri_works() {
    let uri = builder().diff().build();
    assert!(uri.is_ok());
    assert_eq!(uri.unwrap(), format!("{}/1/diff", base_uri()));
}

#[test]
fn with_pull_request_participants_uri_works() {
    let uri = builder().participants().build();
    assert!(uri.is_ok());
    assert_eq!(uri.unwrap(), format!("{}/1/participants", base_uri()));
}

#[test]
fn with_pull_request_tasks_uri_works() {
    let uri = builder().tasks().build();
    assert!(uri.is_ok());
    assert_eq!(uri.unwrap(), format!("{}/1/tasks", base_uri()));
}

#[test]
fn with_pull_request_task_count_uri_works() {
    let uri = builder().tasks().count().build();
    assert!(uri.is_ok());
    assert_eq!(uri.unwrap(), format!("{}/1/tasks/count", base_uri()));
}

#[test]
fn with_pull_request_watch_uri_works() {
    let uri = builder().watch().build();
    assert!(uri.is_ok());
    assert_eq!(uri.unwrap(), format!("{}/1/watch", base_uri()));
}

#[test]
fn pull_request_large_id_uri_works() {
    let uri = ResourceUriBuilder::default()
        .host(TEST_HOST)
        .projects()
        .project(TEST_PROJECT)
        .repos()
        .repository(TEST_REPO)
        .pull_requests()
        .pull_request(9007199254740993)
        .build();
    assert!(uri.is_ok());
    assert_eq!(uri.unwrap(), format!("{}/9007199254740993", base_uri()));
}

#[test]
fn pull_request_zero_id_uri_works() {
    let uri = ResourceUriBuilder::default()
        .host(TEST_HOST)
        .projects()
        .project(TEST_PROJECT)
        .repos()
        .repository(TEST_REPO)
        .pull_requests()
        .pull_request(0)
        .comments()
        .comment(1230)
        .build();
    assert!(uri.is_ok());
    assert_eq!(uri.unwrap(), format!("{}/0/comments/1230", base_uri()));
}
