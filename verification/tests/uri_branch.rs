use bitbucket_api::uri_builders::{BranchUriBuilder, ResourceUriBuilder, UriBuilder};

const TEST_HOST: &str = "stash.test.com";
const TEST_PROJECT: &str = "RRJ";
const TEST_REPO: &str = "REPO";

fn base_uri() -> String {
    format!(
        "http://{}/rest/api/1.0/projects/{}/repos/{}/branches",
        TEST_HOST, TEST_PROJECT, TEST_REPO
    )
}

fn builder<'a>() -> BranchUriBuilder<'a> {
    ResourceUriBuilder::default()
        .host(TEST_HOST)
        .projects()
        .project(TEST_PROJECT)
        .repos()
        .repository(TEST_REPO)
        .branches()
}

#[test]
fn branch_uri_works() {
    let uri = builder().build();
    assert!(uri.is_ok());
    assert_eq!(uri.unwrap(), base_uri());
}

#[test]
fn branch_default_uri_works() {
    let uri = builder().default().build();
    assert!(uri.is_ok());
    assert_eq!(uri.unwrap(), format!("{}/default", base_uri()));
}
