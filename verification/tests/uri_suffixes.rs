use bitbucket_api::uri_builders::{
    BrowseUriBuilder, DiffUriBuilder, EmptyUriBuilder, FileUriBuilder, PathUriBuilder,
    PermissionUriBuilder, UriBuilder,
};

fn diff_builder() -> DiffUriBuilder<EmptyUriBuilder> {
    DiffUriBuilder::new(EmptyUriBuilder)
}

fn browse_builder() -> BrowseUriBuilder<EmptyUriBuilder> {
    BrowseUriBuilder::new(EmptyUriBuilder)
}

fn file_builder() -> FileUriBuilder<EmptyUriBuilder> {
    FileUriBuilder::new(EmptyUriBuilder)
}

fn path_builder() -> PathUriBuilder<'static, EmptyUriBuilder> {
    PathUriBuilder::new(EmptyUriBuilder, "test")
}

fn permission_builder() -> PermissionUriBuilder<EmptyUriBuilder> {
    PermissionUriBuilder::new(EmptyUriBuilder)
}

#[test]
fn diff_uri_works() {
    let uri = diff_builder().build();
    assert!(uri.is_ok());
    assert_eq!(uri.unwrap(), "/diff");
}

#[test]
fn diff_path_uri_works() {
    let uri = diff_builder().path("home/test").build();
    assert!(uri.is_ok());
    assert_eq!(uri.unwrap(), "/diff/home/test");
}

#[test]
fn browse_uri_works() {
    let uri = browse_builder().build();
    assert!(uri.is_ok());
    assert_eq!(uri.unwrap(), "/browse");
}

#[test]
fn browse_path_uri_works() {
    let uri = browse_builder().path("home/test").build();
    assert!(uri.is_ok());
    assert_eq!(uri.unwrap(), "/browse/home/test");
}

#[test]
fn file_uri_works() {
    let uri = file_builder().build();
    assert!(uri.is_ok());
    assert_eq!(uri.unwrap(), "/files");
}

#[test]
fn file_path_uri_works() {
    let uri = file_builder().path("home/test").build();
    assert!(uri.is_ok());
    assert_eq!(uri.unwrap(), "/files/home/test");
}

#[test]
fn path_uri_works() {
    let uri = path_builder().build();
    assert!(uri.is_ok());
    assert_eq!(uri.unwrap(), "/test");
}

#[test]
fn with_path_uri_works() {
    let uri = path_builder().path("home/test").build();
    assert!(uri.is_ok());
    assert_eq!(uri.unwrap(), "/test/home/test");
}

#[test]
fn permissions_uri_works() {
    let uri = permission_builder().build();
    assert!(uri.is_ok());
    assert_eq!(uri.unwrap(), "/permissions");
}

#[test]
fn group_permissions_uri_works() {
    let uri = permission_builder().groups().build();
    assert!(uri.is_ok());
    assert_eq!(uri.unwrap(), "/permissions/groups");
}

#[test]
fn none_group_permissions_uri_works() {
    let uri = permission_builder().groups().none().build();
    assert!(uri.is_ok());
    assert_eq!(uri.unwrap(), "/permissions/groups/none");
}

#[test]
fn user_permissions_uri_works() {
    let uri = permission_builder().users().build();
    assert!(uri.is_ok());
    assert_eq!(uri.unwrap(), "/permissions/users");
}

#[test]
fn none_user_permissions_uri_works() {
    let uri = permission_builder().users().none().build();
    assert!(uri.is_ok());
    assert_eq!(uri.unwrap(), "/permissions/users/none");
}
