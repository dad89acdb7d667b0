//! Users of the client API.

use vstd::prelude::*;

verus! {

/// The role of a user.
#[derive(Debug, Clone, Copy, PartialEq, Eq, Structural)]
pub enum UserRole {
    /// May use the admin API and every service.
    Admin,
    /// May use public services and those it was granted.
    Client,
}

impl UserRole {
    /// The lowercase name under which the role is stored.
    pub open spec fn name(self) -> Seq<char> {
        match self {
            UserRole::Admin => "admin"@,
            UserRole::Client => "client"@,
        }
    }

    /// The lowercase name of the role.
    pub fn to_string(&self) -> (res: String)
        ensures
            res@ == self.name(),
    {
        match self {
            UserRole::Admin => String::from_str("admin"),
            UserRole::Client => String::from_str("client"),
        }
    }
}

/// A user as the server stores it; `api_key` is the keyed hash of the key.
/// Times are milliseconds since the Unix epoch.
#[derive(Debug, Clone)]
pub struct User {
    pub id: String,
    pub api_key: String,
    pub name: String,
    pub role: UserRole,
    pub created_at: i64,
}

/// A user as the API shows it. `api_key` holds the plain key only in the
/// answer to a registration, and is empty otherwise.
#[derive(Debug, Clone)]
pub struct UserResponse {
    pub id: String,
    pub name: String,
    pub api_key: String,
    pub role: String,
    pub created_at: i64,
}

impl UserResponse {
    /// The response for a stored user: no key.
    pub fn from_user(user: User) -> (res: UserResponse)
        ensures
            res.id == user.id,
            res.name == user.name,
            res.api_key@.len() == 0,
            res.role@ == user.role.name(),
            res.created_at == user.created_at,
    {
        let role = user.role.to_string();
        UserResponse { id: user.id, name: user.name, api_key: String::new(), role, created_at: user.created_at }
    }
}

/// Request to register a user.
#[derive(Debug, Clone)]
pub struct CreateUserRequest {
    pub name: String,
}

/// Request to change a user's role.
#[derive(Debug, Clone)]
pub struct UpdateUserRoleRequest {
    pub role: UserRole,
}

} // verus!
