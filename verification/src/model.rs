//! The entities that authorization decisions read: modules, privilege levels,
//! roles, users and companies.

use vstd::prelude::*;

verus! {

/// Whether a user may log in.
#[derive(Clone, Copy, Debug, PartialEq, Eq, Structural)]
pub enum IsActive {
    Yes,
    No,
}

/// A named area of the application to which privileges are scoped.
#[derive(Clone, Copy, Debug, PartialEq, Eq, Structural)]
pub enum Module {
    Admin,
    Asset,
    MaintenanceRequest,
}

impl Module {
    /// The module's name as it is written in messages.
    pub open spec fn name(self) -> Seq<char> {
        match self {
            Module::Admin => "Admin"@,
            Module::Asset => "Asset"@,
            Module::MaintenanceRequest => "MaintenanceRequest"@,
        }
    }

    pub fn to_str(&self) -> (text: &'static str)
        ensures
            text@ == self.name(),
    {
        match self {
            Module::Admin => "Admin",
            Module::Asset => "Asset",
            Module::MaintenanceRequest => "MaintenanceRequest",
        }
    }
}

/// A permission level.  The levels are totally ordered:
/// `NoAccess < View < Edit`.
#[derive(Clone, Copy, Debug, PartialEq, Eq, Structural)]
pub enum PrivilegeType {
    NoAccess,
    View,
    Edit,
}

impl PrivilegeType {
    /// The level's name as it is written in messages.
    pub open spec fn name(self) -> Seq<char> {
        match self {
            PrivilegeType::NoAccess => "None"@,
            PrivilegeType::View => "View"@,
            PrivilegeType::Edit => "Edit"@,
        }
    }

    pub fn to_str(&self) -> (text: &'static str)
        ensures
            text@ == self.name(),
    {
        match self {
            PrivilegeType::NoAccess => "None",
            PrivilegeType::View => "View",
            PrivilegeType::Edit => "Edit",
        }
    }

    /// Position of the level in the order `NoAccess < View < Edit`.
    pub open spec fn level(self) -> nat {
        match self {
            PrivilegeType::NoAccess => 0,
            PrivilegeType::View => 1,
            PrivilegeType::Edit => 2,
        }
    }

    /// Whether holding `self` is enough to be granted `requested`.
    pub open spec fn covers(self, requested: PrivilegeType) -> bool {
        self.level() >= requested.level()
    }

    /// Decides `covers` at run time.
    pub fn is_at_least(&self, requested: &PrivilegeType) -> (r: bool)
        ensures
            r == self.covers(*requested),
    {
        match (self, requested) {
            (_, PrivilegeType::NoAccess) => true,
            (PrivilegeType::NoAccess, _) => false,
            (_, PrivilegeType::View) => true,
            (PrivilegeType::View, PrivilegeType::Edit) => false,
            (PrivilegeType::Edit, PrivilegeType::Edit) => true,
        }
    }
}

/// One row of a role's privilege matrix: the level held on one module.
#[derive(Clone, Copy, Debug, PartialEq, Eq, Structural)]
pub struct RolePrivilege {
    pub module: Module,
    pub privilege_type: PrivilegeType,
}

/// A role of one company, with its privilege rows where they were loaded.
#[derive(Clone, Debug, PartialEq, Eq)]
pub struct Role {
    pub id: i32,
    pub company_id: i32,
    pub role_name: String,
    pub role_privileges: Option<Vec<RolePrivilege>>,
}

/// A tenant.
#[derive(Clone, Debug, PartialEq, Eq)]
pub struct Company {
    pub id: i32,
    pub company_code: String,
}

/// A user as stored.  `password` holds the digest, never the password.
#[derive(Clone, Debug, PartialEq, Eq)]
pub struct User {
    pub id: i32,
    pub company_id: i32,
    pub role_id: i32,
    pub username: String,
    pub password: String,
    pub is_active: IsActive,
}

} // verus!
