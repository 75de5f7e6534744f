use bitbucket_api::uri_builders::{ResourceUriBuilder, UriBuilder, WithProjectUriBuilder};

const TEST_HOST: &str = "stash.test.com";
const TEST_PROJECT: &str = "RRJ";

fn root_uri() -> String {
    format!("http://{}/rest/api/1.0", TEST_HOST)
}

fn base_uri() -> String {
    format!("{}/projects/{}", root_uri(), TEST_PROJECT)
}

fn builder<'a>() -> WithProjectUriBuilder<'a> {
    ResourceUriBuilder::default()
        .host(TEST_HOST)
        .projects()
        .project(TEST_PROJECT)
}

#[test]
fn project_resource_uri_works() {
    let uri = ResourceUriBuilder::default()
        .host(TEST_HOST)
        .projects()
        .build();
    assert!(uri.is_ok());
    assert_eq!(uri.unwrap(), format!("{}/projects", root_uri()));
}

#[test]
fn with_project_uri_works() {
    let uri = builder().build();
    assert!(uri.is_ok());
    assert_eq!(uri.unwrap(), base_uri());
}

#[test]
fn with_project_avatar_works() {
    let uri = builder().avatar().build();
    assert!(uri.is_ok());
    assert_eq!(uri.unwrap(), format!("{}/avatar.png", base_uri()));
}

#[test]
fn project_permissions_uri_works() {
    let uri = builder().permissions().build();
    assert!(uri.is_ok());
    assert_eq!(uri.unwrap(), format!("{}/permissions", base_uri()));
}

#[test]
fn project_group_permissions_uri_works() {
    let uri = builder().permissions().groups().build();
    assert!(uri.is_ok());
    assert_eq!(uri.unwrap(), format!("{}/permissions/groups", base_uri()));
}

#[test]
fn project_user_permissions_uri_works() {
    let uri = builder().permissions().users().build();
    assert!(uri.is_ok());
    assert_eq!(uri.unwrap(), format!("{}/permissions/users", base_uri()));
}

#[test]
fn with_project_permission_uri_works() {
    let uri = builder().permissions().permission("REPO_READ").build();
    assert!(uri.is_ok());
    assert_eq!(uri.unwrap(), format!("{}/permissions/REPO_READ", base_uri()));
}

#[test]
fn with_project_permission_all_uri_works() {
    let uri = builder()
        .permissions()
        .permission("REPO_READ")
        .all()
        .build();
    assert!(uri.is_ok());
    assert_eq!(uri.unwrap(), format!("{}/permissions/REPO_READ/all", base_uri()));
}
