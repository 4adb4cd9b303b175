//! Users and their roles.

use crate::clock::now_millis;
use crate::ids::new_uuid;
use crate::slug::{lower_of, lowercase};
use crate::text::{clone_opt, str_eq};
use uuid::Uuid;
use vstd::prelude::*;
use vstd::string::StringExecFns;

verus! {

/// What a user may do.
#[derive(Debug, Clone, Copy, PartialEq, Eq, Structural)]
pub enum UserRole {
    User,
    Admin,
    Moderator,
}

/// The name a role prints as.
pub open spec fn role_name(r: UserRole) -> Seq<char> {
    match r {
        UserRole::User => "user"@,
        UserRole::Admin => "admin"@,
        UserRole::Moderator => "moderator"@,
    }
}

/// The role a name stands for, once in lowercase, if any.
pub open spec fn role_named(lower: Seq<char>) -> Option<UserRole> {
    if lower == "user"@ {
        Some(UserRole::User)
    } else if lower == "admin"@ {
        Some(UserRole::Admin)
    } else if lower == "moderator"@ {
        Some(UserRole::Moderator)
    } else {
        None
    }
}

impl UserRole {
    /// Whether the role has administrator rights.
    pub fn is_admin(&self) -> (r: bool)
        ensures
            r == (*self == UserRole::Admin),
    {
        matches!(self, UserRole::Admin)
    }

    /// Whether the role has moderator or administrator rights.
    pub fn is_moderator_or_admin(&self) -> (r: bool)
        ensures
            r == (*self == UserRole::Admin || *self == UserRole::Moderator),
    {
        matches!(self, UserRole::Admin | UserRole::Moderator)
    }

    /// The role's name: `user`, `admin` or `moderator`.
    pub fn to_string(&self) -> (r: String)
        ensures
            r@ == role_name(*self),
    {
        match self {
            UserRole::User => String::from_str("user"),
            UserRole::Admin => String::from_str("admin"),
            UserRole::Moderator => String::from_str("moderator"),
        }
    }

    /// The role named by `lower`, a name already in lowercase.
    pub fn from_lowercase(lower: &str) -> (r: Option<UserRole>)
        ensures
            r == role_named(lower@),
    {
        if str_eq(lower, "user") {
            Some(UserRole::User)
        } else if str_eq(lower, "admin") {
            Some(UserRole::Admin)
        } else if str_eq(lower, "moderator") {
            Some(UserRole::Moderator)
        } else {
            None
        }
    }

    /// The role named by `s`, in any case; otherwise the message
    /// `Invalid user role: {s}`.
    pub fn parse(s: &str) -> (r: Result<UserRole, String>)
        ensures
            match r {
                Ok(role) => role_named(lower_of(s@)) == Some(role),
                Err(m) => role_named(lower_of(s@)) is None && m@ == "Invalid user role: "@ + s@,
            },
    {
        let lower = lowercase(s);
        match UserRole::from_lowercase(lower.as_str()) {
            Some(role) => Ok(role),
            None => {
                let mut m = String::from_str("Invalid user role: ");
                m.append(s);
                Err(m)
            },
        }
    }
}

impl std::str::FromStr for UserRole {
    type Err = String;

    fn from_str(s: &str) -> Result<UserRole, String> {
        UserRole::parse(s)
    }
}

/// A registered user. Times are in milliseconds since the Unix epoch.
#[derive(Debug)]
pub struct User {
    pub id: Uuid,
    pub email: String,
    /// The hash of the password; never shown to clients.
    pub password_hash: String,
    pub name: String,
    pub avatar_url: Option<String>,
    pub email_verified: bool,
    pub is_active: bool,
    pub role: UserRole,
    pub created_at: i64,
    pub updated_at: i64,
    pub last_login_at: Option<i64>,
}

/// What clients may see of a user.
#[derive(Debug)]
pub struct PublicUser {
    pub id: Uuid,
    pub email: String,
    pub name: String,
    pub avatar_url: Option<String>,
    pub email_verified: bool,
    pub role: UserRole,
    pub created_at: i64,
    pub last_login_at: Option<i64>,
}

impl User {
    /// A new active user with the `User` role, created at `now`.
    pub fn new_at(email: String, password_hash: String, name: String, now: i64) -> (u: User)
        ensures
            u.email == email,
            u.password_hash == password_hash,
            u.name == name,
            u.avatar_url is None,
            !u.email_verified,
            u.is_active,
            u.role == UserRole::User,
            u.created_at == now,
            u.updated_at == now,
            u.last_login_at is None,
    {
        User {
            id: new_uuid(),
            email,
            password_hash,
            name,
            avatar_url: None,
            email_verified: false,
            is_active: true,
            role: UserRole::User,
            created_at: now,
            updated_at: now,
            last_login_at: None,
        }
    }

    /// A new active user with the `User` role, created now.
    pub fn new(email: String, password_hash: String, name: String) -> (u: User)
        ensures
            u.email == email,
            u.password_hash == password_hash,
            u.name == name,
            u.avatar_url is None,
            !u.email_verified,
            u.is_active,
            u.role == UserRole::User,
            u.created_at == u.updated_at,
            u.last_login_at is None,
    {
        User::new_at(email, password_hash, name, now_millis())
    }

    /// The user without the password hash and the update time.
    pub fn to_public(&self) -> (p: PublicUser)
        ensures
            p.id == self.id,
            p.email == self.email,
            p.name == self.name,
            p.avatar_url == self.avatar_url,
            p.email_verified == self.email_verified,
            p.role == self.role,
            p.created_at == self.created_at,
            p.last_login_at == self.last_login_at,
    {
        PublicUser {
            id: self.id,
            email: self.email.clone(),
            name: self.name.clone(),
            avatar_url: clone_opt(&self.avatar_url),
            email_verified: self.email_verified,
            role: self.role,
            created_at: self.created_at,
            last_login_at: self.last_login_at,
        }
    }

    /// Records a login at `now`.
    pub fn update_last_login_at(&mut self, now: i64)
        ensures
            *final(self) == (User { last_login_at: Some(now), updated_at: now, ..*old(self) }),
    {
        self.last_login_at = Some(now);
        self.updated_at = now;
    }

    /// Records a login now.
    pub fn update_last_login(&mut self)
        ensures
            final(self).last_login_at == Some(final(self).updated_at),
            *final(self) == (User {
                last_login_at: final(self).last_login_at,
                updated_at: final(self).updated_at,
                ..*old(self)
            }),
    {
        self.update_last_login_at(now_millis());
    }

    /// Whether the user is active and an administrator.
    pub fn is_admin(&self) -> (r: bool)
        ensures
            r == (self.is_active && self.role == UserRole::Admin),
    {
        self.is_active && self.role.is_admin()
    }

    /// Whether the user is active and a moderator or an administrator.
    pub fn is_moderator(&self) -> (r: bool)
        ensures
            r == (self.is_active && (self.role == UserRole::Admin || self.role == UserRole::Moderator)),
    {
        self.is_active && self.role.is_moderator_or_admin()
    }
}

/// Changes to a user's profile; an absent field stays as it is.
#[derive(Debug)]
pub struct UserUpdate {
    pub name: Option<String>,
    pub avatar_url: Option<String>,
}

impl UserUpdate {
    /// Whether the update changes anything.
    pub fn has_changes(&self) -> (r: bool)
        ensures
            r == (self.name is Some || self.avatar_url is Some),
    {
        self.name.is_some() || self.avatar_url.is_some()
    }

    /// Applies the update to `user` at time `now`.
    pub fn apply_to_at(&self, user: &mut User, now: i64)
        ensures
            *final(user) == (User {
                name: match self.name {
                    Some(n) => n,
                    None => old(user).name,
                },
                avatar_url: match self.avatar_url {
                    Some(a) => Some(a),
                    None => old(user).avatar_url,
                },
                updated_at: now,
                ..*old(user)
            }),
    {
        match &self.name {
            Some(n) => {
                user.name = n.clone();
            },
            None => {},
        }
        match &self.avatar_url {
            Some(a) => {
                user.avatar_url = Some(a.clone());
            },
            None => {},
        }
        user.updated_at = now;
    }

    /// Applies the update to `user` now.
    pub fn apply_to(&self, user: &mut User)
        ensures
            *final(user) == (User {
                name: match self.name {
                    Some(n) => n,
                    None => old(user).name,
                },
                avatar_url: match self.avatar_url {
                    Some(a) => Some(a),
                    None => old(user).avatar_url,
                },
                updated_at: final(user).updated_at,
                ..*old(user)
            }),
    {
        self.apply_to_at(user, now_millis());
    }
}

} // verus!
