use bitbucket_api::uri_builders::{AdminUriBuilder, ResourceUriBuilder, UriBuilder};

const TEST_HOST: &str = "stash.test.com";

fn base_uri() -> String {
    format!("http://{}/rest/api/1.0/admin", TEST_HOST)
}

fn builder<'a>() -> AdminUriBuilder<'a> {
    ResourceUriBuilder::default().host(TEST_HOST).admin()
}

#[test]
fn admin_uri_works() {
    let uri = builder().build();
    assert!(uri.is_ok());
    assert_eq!(uri.unwrap(), base_uri());
}

#[test]
fn admin_cluster_works() {
    let uri = builder().cluster().build();
    assert!(uri.is_ok());
    assert_eq!(uri.unwrap(), format!("{}/cluster", base_uri()));
}

#[test]
fn admin_licence_works() {
    let uri = builder().licence().build();
    assert!(uri.is_ok());
    assert_eq!(uri.unwrap(), format!("{}/licence", base_uri()));
}

#[test]
fn admin_groups_uri_works() {
    let uri = builder().groups().build();
    assert!(uri.is_ok());
    assert_eq!(uri.unwrap(), format!("{}/groups", base_uri()));
}

#[test]
fn admin_groups_add_user_works() {
    let uri = builder().groups().add_user().build();
    assert!(uri.is_ok());
    assert_eq!(uri.unwrap(), format!("{}/groups/add-user", base_uri()));
}

#[test]
fn admin_groups_add_users_works() {
    let uri = builder().groups().add_users().build();
    assert!(uri.is_ok());
    assert_eq!(uri.unwrap(), format!("{}/groups/add-users", base_uri()));
}

#[test]
fn admin_groups_more_members_works() {
    let uri = builder().groups().more_members().build();
    assert!(uri.is_ok());
    assert_eq!(uri.unwrap(), format!("{}/groups/more-members", base_uri()));
}

#[test]
fn admin_groups_add_more_non_members_works() {
    let uri = builder().groups().more_non_members().build();
    assert!(uri.is_ok());
    assert_eq!(uri.unwrap(), format!("{}/groups/more-non-members", base_uri()));
}

#[test]
fn admin_users_uri_works() {
    let uri = builder().users().build();
    assert!(uri.is_ok());
    assert_eq!(uri.unwrap(), format!("{}/users", base_uri()));
}

#[test]
fn admin_users_add_group_works() {
    let uri = builder().users().add_group().build();
    assert!(uri.is_ok());
    assert_eq!(uri.unwrap(), format!("{}/users/add-group", base_uri()));
}

#[test]
fn admin_users_add_groups_works() {
    let uri = builder().users().add_groups().build();
    assert!(uri.is_ok());
    assert_eq!(uri.unwrap(), format!("{}/users/add-groups", base_uri()));
}

#[test]
fn admin_users_captcha_works() {
    let uri = builder().users().captcha().build();
    assert!(uri.is_ok());
    assert_eq!(uri.unwrap(), format!("{}/users/captcha", base_uri()));
}

#[test]
fn admin_users_credentials_works() {
    let uri = builder().users().credentials().build();
    assert!(uri.is_ok());
    assert_eq!(uri.unwrap(), format!("{}/users/credentials", base_uri()));
}

#[test]
fn admin_users_more_members_works() {
    let uri = builder().users().more_members().build();
    assert!(uri.is_ok());
    assert_eq!(uri.unwrap(), format!("{}/users/more-members", base_uri()));
}

#[test]
fn admin_users_more_non_members_works() {
    let uri = builder().users().more_non_members().build();
    assert!(uri.is_ok());
    assert_eq!(uri.unwrap(), format!("{}/users/more-non-members", base_uri()));
}

#[test]
fn admin_users_remove_group_works() {
    let uri = builder().users().remove_group().build();
    assert!(uri.is_ok());
    assert_eq!(uri.unwrap(), format!("{}/users/remove-group", base_uri()));
}

#[test]
fn admin_users_rename_works() {
    let uri = builder().users().rename().build();
    assert!(uri.is_ok());
    assert_eq!(uri.unwrap(), format!("{}/users/rename", base_uri()));
}

#[test]
fn admin_permissions_works() {
    let uri = builder().permissions().build();
    assert!(uri.is_ok());
    assert_eq!(uri.unwrap(), format!("{}/permissions", base_uri()));
}

#[test]
fn admin_group_permissions_works() {
    let uri = builder().permissions().groups().build();
    assert!(uri.is_ok());
    assert_eq!(uri.unwrap(), format!("{}/permissions/groups", base_uri()));
}

#[test]
fn admin_none_group_permissions_works() {
    let uri = builder().permissions().groups().none().build();
    assert!(uri.is_ok());
    assert_eq!(uri.unwrap(), format!("{}/permissions/groups/none", base_uri()));
}

#[test]
fn admin_user_permissions_works() {
    let uri = builder().permissions().users().build();
    assert!(uri.is_ok());
    assert_eq!(uri.unwrap(), format!("{}/permissions/users", base_uri()));
}

#[test]
fn admin_none_user_permissions_works() {
    let uri = builder().permissions().users().none().build();
    assert!(uri.is_ok());
    assert_eq!(uri.unwrap(), format!("{}/permissions/users/none", base_uri()));
}

#[test]
fn admin_mail_server_works() {
    let uri = builder().mail_server().build();
    assert!(uri.is_ok());
    assert_eq!(uri.unwrap(), format!("{}/mail-server", base_uri()));
}

#[test]
fn admin_mail_server_sender_address_works() {
    let uri = builder().mail_server().sender_address().build();
    assert!(uri.is_ok());
    assert_eq!(uri.unwrap(), format!("{}/mail-server/sender-address", base_uri()));
}
