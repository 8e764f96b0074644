//! Users of an account and their roles.

use vstd::prelude::*;
use vstd::string::*;
use crate::domain::value_objects::fizzy_id::FizzyId;
use crate::domain::value_objects::time::Timestamp;
use crate::text::str_eq;

verus! {

/// The role of a user in an account.
#[derive(Debug, Clone, Copy, PartialEq, Eq, Structural)]
pub enum UserRole {
    Owner,
    Admin,
    Member,
    System,
}

/// The role that a stored name stands for, if any.
pub open spec fn role_named(s: Seq<char>) -> Option<UserRole> {
    if s == "owner"@ {
        Some(UserRole::Owner)
    } else if s == "admin"@ {
        Some(UserRole::Admin)
    } else if s == "member"@ {
        Some(UserRole::Member)
    } else if s == "system"@ {
        Some(UserRole::System)
    } else {
        None
    }
}

impl UserRole {
    /// The name under which the role is stored.
    pub open spec fn storage_name(self) -> Seq<char> {
        match self {
            UserRole::Owner => "owner"@,
            UserRole::Admin => "admin"@,
            UserRole::Member => "member"@,
            UserRole::System => "system"@,
        }
    }

    /// Reads a stored name.
    pub fn from_str(s: &str) -> (r: Option<UserRole>)
        ensures
            r == role_named(s@),
    {
        if str_eq(s, "owner") {
            Some(UserRole::Owner)
        } else if str_eq(s, "admin") {
            Some(UserRole::Admin)
        } else if str_eq(s, "member") {
            Some(UserRole::Member)
        } else if str_eq(s, "system") {
            Some(UserRole::System)
        } else {
            None
        }
    }

    /// The name under which the role is stored.
    pub fn as_str(&self) -> (r: &'static str)
        ensures
            r@ == self.storage_name(),
    {
        match self {
            UserRole::Owner => "owner",
            UserRole::Admin => "admin",
            UserRole::Member => "member",
            UserRole::System => "system",
        }
    }
}

/// Every role is read back from its stored name.
pub proof fn lemma_role_round_trip(role: UserRole)
    ensures
        role_named(role.storage_name()) == Some(role),
{
    reveal_strlit("owner");
    reveal_strlit("admin");
    reveal_strlit("member");
    reveal_strlit("system");
    assert("owner"@.len() == 5 && "owner"@[0] == 'o');
    assert("admin"@.len() == 5 && "admin"@[0] == 'a');
    assert("member"@.len() == 6 && "member"@[0] == 'm');
    assert("system"@.len() == 6 && "system"@[0] == 's');
}

/// A user within an account.
#[derive(Debug)]
pub struct User {
    pub id: FizzyId,
    pub account_id: FizzyId,
    pub identity_id: Option<FizzyId>,
    pub name: String,
    pub role: UserRole,
    pub active: bool,
    pub created_at: Timestamp,
    pub updated_at: Timestamp,
    /// Address of the user's identity, where known.
    pub email: Option<String>,
}

impl User {
    /// Whether the user is active.
    pub fn is_active(&self) -> (r: bool)
        ensures
            r == self.active,
    {
        self.active
    }

    /// Whether the user administers the account: an owner or an admin.
    pub fn is_admin(&self) -> (r: bool)
        ensures
            r == (self.role == UserRole::Owner || self.role == UserRole::Admin),
    {
        match self.role {
            UserRole::Owner | UserRole::Admin => true,
            UserRole::Member | UserRole::System => false,
        }
    }
}

} // verus!
