//! The administration branch of the hierarchy.

use crate::uri_builders::resource::ResourceUriBuilder;
use crate::uri_builders::{spec_seg, BuildError, TerminalUriBuilder, UriBuilder};
use vstd::prelude::*;
use vstd::string::StringExecFns;

verus! {

/// The server's administration endpoints.
#[derive(Debug, Clone, Copy)]
pub struct AdminUriBuilder<'r> {
    builder: ResourceUriBuilder<'r>,
}

impl<'r> AdminUriBuilder<'r> {
    /// The root builder this stage grew from.
    pub closed spec fn spec_base(&self) -> ResourceUriBuilder<'r> {
        self.builder
    }

    pub fn new(builder: ResourceUriBuilder<'r>) -> (r: Self)
        ensures
            r.wf() == builder.wf(),
            r.spec_uri() == spec_seg(builder.spec_uri(), "admin"@),
    {
        AdminUriBuilder { builder }
    }

    /// Administers groups.
    pub fn groups(self) -> (r: AdminGroupUriBuilder<'r>)
        ensures
            r.wf() == self.wf(),
            r.spec_uri() == spec_seg(self.spec_uri(), "groups"@),
    {
        AdminGroupUriBuilder::new(self)
    }

    /// Administers users.
    pub fn users(self) -> (r: AdminUserUriBuilder<'r>)
        ensures
            r.wf() == self.wf(),
            r.spec_uri() == spec_seg(self.spec_uri(), "users"@),
    {
        AdminUserUriBuilder::new(self)
    }

    /// Administers global permissions.
    pub fn permissions(self) -> (r: AdminPermissionsUriBuilder<'r>)
        ensures
            r.wf() == self.wf(),
            r.spec_uri() == spec_seg(self.spec_uri(), "permissions"@),
    {
        AdminPermissionsUriBuilder::new(self)
    }

    /// Administers the mail server.
    pub fn mail_server(self) -> (r: AdminMailServerUriBuilder<'r>)
        ensures
            r.wf() == self.wf(),
            r.spec_uri() == spec_seg(self.spec_uri(), "mail-server"@),
    {
        AdminMailServerUriBuilder::new(self)
    }

    /// Selects the cluster information.
    pub fn cluster(self) -> (r: TerminalUriBuilder<Self>)
        ensures
            r.wf() == self.wf(),
            r.spec_uri() == spec_seg(self.spec_uri(), "cluster"@),
    {
        TerminalUriBuilder::new(self, "cluster".to_owned())
    }

    /// Selects the licence details.
    pub fn licence(self) -> (r: TerminalUriBuilder<Self>)
        ensures
            r.wf() == self.wf(),
            r.spec_uri() == spec_seg(self.spec_uri(), "licence"@),
    {
        TerminalUriBuilder::new(self, "licence".to_owned())
    }
}

impl<'r> UriBuilder for AdminUriBuilder<'r> {
    open spec fn wf(&self) -> bool {
        self.spec_base().wf()
    }

    open spec fn spec_uri(&self) -> Seq<char> {
        spec_seg(self.spec_base().spec_uri(), "admin"@)
    }

    fn build(&self) -> (r: Result<String, BuildError>) {
        match self.builder.build() {
            Result::Ok(base) => Result::Ok(base.concat("/").concat("admin")),
            Result::Err(e) => Result::Err(e),
        }
    }
}

/// Administration of groups.
#[derive(Debug, Clone, Copy)]
pub struct AdminGroupUriBuilder<'r> {
    builder: AdminUriBuilder<'r>,
}

impl<'r> AdminGroupUriBuilder<'r> {
    /// The administration stage this stage grew from.
    pub closed spec fn spec_base(&self) -> AdminUriBuilder<'r> {
        self.builder
    }

    pub fn new(builder: AdminUriBuilder<'r>) -> (r: Self)
        ensures
            r.wf() == builder.wf(),
            r.spec_uri() == spec_seg(builder.spec_uri(), "groups"@),
    {
        AdminGroupUriBuilder { builder }
    }

    /// Adds one user to a group.
    pub fn add_user(self) -> (r: TerminalUriBuilder<Self>)
        ensures
            r.wf() == self.wf(),
            r.spec_uri() == spec_seg(self.spec_uri(), "add-user"@),
    {
        TerminalUriBuilder::new(self, "add-user".to_owned())
    }

    /// Adds several users to a group.
    pub fn add_users(self) -> (r: TerminalUriBuilder<Self>)
        ensures
            r.wf() == self.wf(),
            r.spec_uri() == spec_seg(self.spec_uri(), "add-users"@),
    {
        TerminalUriBuilder::new(self, "add-users".to_owned())
    }

    /// Lists further members of a group.
    pub fn more_members(self) -> (r: TerminalUriBuilder<Self>)
        ensures
            r.wf() == self.wf(),
            r.spec_uri() == spec_seg(self.spec_uri(), "more-members"@),
    {
        TerminalUriBuilder::new(self, "more-members".to_owned())
    }

    /// Lists further non-members of a group.
    pub fn more_non_members(self) -> (r: TerminalUriBuilder<Self>)
        ensures
            r.wf() == self.wf(),
            r.spec_uri() == spec_seg(self.spec_uri(), "more-non-members"@),
    {
        TerminalUriBuilder::new(self, "more-non-members".to_owned())
    }

    /// Removes one user from a group.
    pub fn remove_user(self) -> (r: TerminalUriBuilder<Self>)
        ensures
            r.wf() == self.wf(),
            r.spec_uri() == spec_seg(self.spec_uri(), "remove-user"@),
    {
        TerminalUriBuilder::new(self, "remove-user".to_owned())
    }
}

impl<'r> UriBuilder for AdminGroupUriBuilder<'r> {
    open spec fn wf(&self) -> bool {
        self.spec_base().wf()
    }

    open spec fn spec_uri(&self) -> Seq<char> {
        spec_seg(self.spec_base().spec_uri(), "groups"@)
    }

    fn build(&self) -> (r: Result<String, BuildError>) {
        match self.builder.build() {
            Result::Ok(base) => Result::Ok(base.concat("/").concat("groups")),
            Result::Err(e) => Result::Err(e),
        }
    }
}

/// Administration of users.
#[derive(Debug, Clone, Copy)]
pub struct AdminUserUriBuilder<'r> {
    builder: AdminUriBuilder<'r>,
}

impl<'r> AdminUserUriBuilder<'r> {
    /// The administration stage this stage grew from.
    pub closed spec fn spec_base(&self) -> AdminUriBuilder<'r> {
        self.builder
    }

    pub fn new(builder: AdminUriBuilder<'r>) -> (r: Self)
        ensures
            r.wf() == builder.wf(),
            r.spec_uri() == spec_seg(builder.spec_uri(), "users"@),
    {
        AdminUserUriBuilder { builder }
    }

    /// Adds one group to a user.
    pub fn add_group(self) -> (r: TerminalUriBuilder<Self>)
        ensures
            r.wf() == self.wf(),
            r.spec_uri() == spec_seg(self.spec_uri(), "add-group"@),
    {
        TerminalUriBuilder::new(self, "add-group".to_owned())
    }

    /// Adds several groups to a user.
    pub fn add_groups(self) -> (r: TerminalUriBuilder<Self>)
        ensures
            r.wf() == self.wf(),
            r.spec_uri() == spec_seg(self.spec_uri(), "add-groups"@),
    {
        TerminalUriBuilder::new(self, "add-groups".to_owned())
    }

    /// Clears a user's failed-login captcha challenge.
    pub fn captcha(self) -> (r: TerminalUriBuilder<Self>)
        ensures
            r.wf() == self.wf(),
            r.spec_uri() == spec_seg(self.spec_uri(), "captcha"@),
    {
        TerminalUriBuilder::new(self, "captcha".to_owned())
    }

    /// Updates a user's credentials.
    pub fn credentials(self) -> (r: TerminalUriBuilder<Self>)
        ensures
            r.wf() == self.wf(),
            r.spec_uri() == spec_seg(self.spec_uri(), "credentials"@),
    {
        TerminalUriBuilder::new(self, "credentials".to_owned())
    }

    /// Lists further members of a group.
    pub fn more_members(self) -> (r: TerminalUriBuilder<Self>)
        ensures
            r.wf() == self.wf(),
            r.spec_uri() == spec_seg(self.spec_uri(), "more-members"@),
    {
        TerminalUriBuilder::new(self, "more-members".to_owned())
    }

    /// Lists further non-members of a group.
    pub fn more_non_members(self) -> (r: TerminalUriBuilder<Self>)
        ensures
            r.wf() == self.wf(),
            r.spec_uri() == spec_seg(self.spec_uri(), "more-non-members"@),
    {
        TerminalUriBuilder::new(self, "more-non-members".to_owned())
    }

    /// Removes one group from a user.
    pub fn remove_group(self) -> (r: TerminalUriBuilder<Self>)
        ensures
            r.wf() == self.wf(),
            r.spec_uri() == spec_seg(self.spec_uri(), "remove-group"@),
    {
        TerminalUriBuilder::new(self, "remove-group".to_owned())
    }

    /// Renames a user.
    pub fn rename(self) -> (r: TerminalUriBuilder<Self>)
        ensures
            r.wf() == self.wf(),
            r.spec_uri() == spec_seg(self.spec_uri(), "rename"@),
    {
        TerminalUriBuilder::new(self, "rename".to_owned())
    }
}

impl<'r> UriBuilder for AdminUserUriBuilder<'r> {
    open spec fn wf(&self) -> bool {
        self.spec_base().wf()
    }

    open spec fn spec_uri(&self) -> Seq<char> {
        spec_seg(self.spec_base().spec_uri(), "users"@)
    }

    fn build(&self) -> (r: Result<String, BuildError>) {
        match self.builder.build() {
            Result::Ok(base) => Result::Ok(base.concat("/").concat("users")),
            Result::Err(e) => Result::Err(e),
        }
    }
}

/// Administration of global permissions.
#[derive(Debug, Clone, Copy)]
pub struct AdminPermissionsUriBuilder<'r> {
    builder: AdminUriBuilder<'r>,
}

impl<'r> AdminPermissionsUriBuilder<'r> {
    /// The administration stage this stage grew from.
    pub closed spec fn spec_base(&self) -> AdminUriBuilder<'r> {
        self.builder
    }

    pub fn new(builder: AdminUriBuilder<'r>) -> (r: Self)
        ensures
            r.wf() == builder.wf(),
            r.spec_uri() == spec_seg(builder.spec_uri(), "permissions"@),
    {
        AdminPermissionsUriBuilder { builder }
    }

    /// Selects the global group permissions.
    pub fn groups(self) -> (r: AdminGroupPermissionUriBuilder<'r>)
        ensures
            r.wf() == self.wf(),
            r.spec_uri() == spec_seg(self.spec_uri(), "groups"@),
    {
        AdminGroupPermissionUriBuilder::new(self)
    }

    /// Selects the global user permissions.
    pub fn users(self) -> (r: AdminUserPermissionUriBuilder<'r>)
        ensures
            r.wf() == self.wf(),
            r.spec_uri() == spec_seg(self.spec_uri(), "users"@),
    {
        AdminUserPermissionUriBuilder::new(self)
    }
}

impl<'r> UriBuilder for AdminPermissionsUriBuilder<'r> {
    open spec fn wf(&self) -> bool {
        self.spec_base().wf()
    }

    open spec fn spec_uri(&self) -> Seq<char> {
        spec_seg(self.spec_base().spec_uri(), "permissions"@)
    }

    fn build(&self) -> (r: Result<String, BuildError>) {
        match self.builder.build() {
            Result::Ok(base) => Result::Ok(base.concat("/").concat("permissions")),
            Result::Err(e) => Result::Err(e),
        }
    }
}

/// The global group permissions.
#[derive(Debug, Clone, Copy)]
pub struct AdminGroupPermissionUriBuilder<'r> {
    builder: AdminPermissionsUriBuilder<'r>,
}

impl<'r> AdminGroupPermissionUriBuilder<'r> {
    /// The permissions stage this stage grew from.
    pub closed spec fn spec_base(&self) -> AdminPermissionsUriBuilder<'r> {
        self.builder
    }

    pub fn new(builder: AdminPermissionsUriBuilder<'r>) -> (r: Self)
        ensures
            r.wf() == builder.wf(),
            r.spec_uri() == spec_seg(builder.spec_uri(), "groups"@),
    {
        AdminGroupPermissionUriBuilder { builder }
    }

    /// Selects the groups holding no global permission.
    pub fn none(self) -> (r: TerminalUriBuilder<Self>)
        ensures
            r.wf() == self.wf(),
            r.spec_uri() == spec_seg(self.spec_uri(), "none"@),
    {
        TerminalUriBuilder::new(self, "none".to_owned())
    }
}

impl<'r> UriBuilder for AdminGroupPermissionUriBuilder<'r> {
    open spec fn wf(&self) -> bool {
        self.spec_base().wf()
    }

    open spec fn spec_uri(&self) -> Seq<char> {
        spec_seg(self.spec_base().spec_uri(), "groups"@)
    }

    fn build(&self) -> (r: Result<String, BuildError>) {
        match self.builder.build() {
            Result::Ok(base) => Result::Ok(base.concat("/").concat("groups")),
            Result::Err(e) => Result::Err(e),
        }
    }
}

/// The global user permissions.
#[derive(Debug, Clone, Copy)]
pub struct AdminUserPermissionUriBuilder<'r> {
    builder: AdminPermissionsUriBuilder<'r>,
}

impl<'r> AdminUserPermissionUriBuilder<'r> {
    /// The permissions stage this stage grew from.
    pub closed spec fn spec_base(&self) -> AdminPermissionsUriBuilder<'r> {
        self.builder
    }

    pub fn new(builder: AdminPermissionsUriBuilder<'r>) -> (r: Self)
        ensures
            r.wf() == builder.wf(),
            r.spec_uri() == spec_seg(builder.spec_uri(), "users"@),
    {
        AdminUserPermissionUriBuilder { builder }
    }

    /// Selects the users holding no global permission.
    pub fn none(self) -> (r: TerminalUriBuilder<Self>)
        ensures
            r.wf() == self.wf(),
            r.spec_uri() == spec_seg(self.spec_uri(), "none"@),
    {
        TerminalUriBuilder::new(self, "none".to_owned())
    }
}

impl<'r> UriBuilder for AdminUserPermissionUriBuilder<'r> {
    open spec fn wf(&self) -> bool {
        self.spec_base().wf()
    }

    open spec fn spec_uri(&self) -> Seq<char> {
        spec_seg(self.spec_base().spec_uri(), "users"@)
    }

    fn build(&self) -> (r: Result<String, BuildError>) {
        match self.builder.build() {
            Result::Ok(base) => Result::Ok(base.concat("/").concat("users")),
            Result::Err(e) => Result::Err(e),
        }
    }
}

/// Administration of the mail server.
#[derive(Debug, Clone, Copy)]
pub struct AdminMailServerUriBuilder<'r> {
    builder: AdminUriBuilder<'r>,
}

impl<'r> AdminMailServerUriBuilder<'r> {
    /// The administration stage this stage grew from.
    pub closed spec fn spec_base(&self) -> AdminUriBuilder<'r> {
        self.builder
    }

    pub fn new(builder: AdminUriBuilder<'r>) -> (r: Self)
        ensures
            r.wf() == builder.wf(),
            r.spec_uri() == spec_seg(builder.spec_uri(), "mail-server"@),
    {
        AdminMailServerUriBuilder { builder }
    }

    /// Selects the mail server's sender address.
    pub fn sender_address(self) -> (r: TerminalUriBuilder<Self>)
        ensures
            r.wf() == self.wf(),
            r.spec_uri() == spec_seg(self.spec_uri(), "sender-address"@),
    {
        TerminalUriBuilder::new(self, "sender-address".to_owned())
    }
}

impl<'r> UriBuilder for AdminMailServerUriBuilder<'r> {
    open spec fn wf(&self) -> bool {
        self.spec_base().wf()
    }

    open spec fn spec_uri(&self) -> Seq<char> {
        spec_seg(self.spec_base().spec_uri(), "mail-server"@)
    }

    fn build(&self) -> (r: Result<String, BuildError>) {
        match self.builder.build() {
            Result::Ok(base) => Result::Ok(base.concat("/").concat("mail-server")),
            Result::Err(e) => Result::Err(e),
        }
    }
}

} // verus!
