use bitbucket_api::uri_builders::{ResourceUriBuilder, UriBuilder};

#[test]
fn commit_diff_chain_renders_whole_uri() {
    let uri = ResourceUriBuilder::default()
        .host("stash.test.com")
        .projects()
        .project("RRJ")
        .repos()
        .repository("REPO")
        .commits()
        .commit("76bf028")
        .diff()
        .build();
    assert!(uri.is_ok());
    assert_eq!(
        uri.unwrap(),
        "http://stash.test.com/rest/api/1.0/projects/RRJ/repos/REPO/commits/76bf028/diff"
    );
}

#[test]
fn pull_request_task_count_chain_renders_whole_uri() {
    let uri = ResourceUriBuilder::default()
        .host("stash.test.com")
        .projects()
        .project("RRJ")
        .repos()
        .repository("REPO")
        .pull_requests()
        .pull_request(1)
        .tasks()
        .count()
        .build();
    assert!(uri.is_ok());
    assert_eq!(
        uri.unwrap(),
        "http://stash.test.com/rest/api/1.0/projects/RRJ/repos/REPO/pull-requests/1/tasks/count"
    );
}

#[test]
fn repeated_builds_render_identically() {
    let chain = ResourceUriBuilder::default()
        .host("stash.test.com")
        .projects()
        .project("RRJ")
        .repos()
        .repository("REPO")
        .branches();
    let first = chain.build();
    let second = chain.build();
    assert!(first.is_ok());
    assert!(second.is_ok());
    assert_eq!(first.unwrap(), second.unwrap());
}

#[test]
fn sibling_chains_differ_only_in_last_segment() {
    let repo = ResourceUriBuilder::default()
        .host("stash.test.com")
        .projects()
        .project("RRJ")
        .repos()
        .repository("REPO");
    let prefix = repo.build().unwrap();
    let forks = repo.forks().build().unwrap();
    let tags = repo.tags().build().unwrap();
    assert_eq!(forks, format!("{}/forks", prefix));
    assert_eq!(tags, format!("{}/tags", prefix));
}
