//! The users of the service and their standing.

use vstd::prelude::*;
use vstd::string::StringExecFns;

verus! {

/// A user as the service knows them. Dates are counted in days since the
/// epoch.
#[derive(Debug, PartialEq, Eq)]
pub struct User {
    pub username: String,
    pub is_active: bool,
    pub is_admin: bool,
    pub is_uploader: bool,
    pub birth_date: Option<i64>,
}

/// A user together with the stored hash of their password.
#[derive(Debug, PartialEq, Eq)]
pub struct UserFull {
    pub username: String,
    pub is_active: bool,
    pub is_admin: bool,
    pub is_uploader: bool,
    pub password_hash: String,
    pub birth_date: Option<i64>,
}

/// The standing of a user, from the least to the most trusted.
#[derive(Clone, Copy, Debug, PartialEq, Eq, Structural, Hash)]
pub enum UserStatus {
    Banned,
    User,
    Uploader,
    Admin,
}

/// Why a registration was refused.
#[derive(Clone, Copy, Debug, PartialEq, Eq, Structural, Hash)]
pub enum UsernameAndInviteCheckError {
    UserAlreadyExists,
    InvalidInviteCode,
}

/// The standing that the flags of a user amount to: a user who is not
/// active is banned whatever else is set, and an administrator is one
/// whether or not they are marked as uploader.
pub open spec fn standing(is_active: bool, is_admin: bool, is_uploader: bool) -> UserStatus {
    if !is_active {
        UserStatus::Banned
    } else if is_admin {
        UserStatus::Admin
    } else if is_uploader {
        UserStatus::Uploader
    } else {
        UserStatus::User
    }
}

/// The name of each standing in forms and queries.
pub open spec fn status_option(status: UserStatus) -> Seq<char> {
    match status {
        UserStatus::Banned => "banned"@,
        UserStatus::User => "user"@,
        UserStatus::Uploader => "uploader"@,
        UserStatus::Admin => "admin"@,
    }
}

impl User {
    /// Whether the user may upload: uploaders and administrators may.
    pub open spec fn may_upload(&self) -> bool {
        self.is_uploader || self.is_admin
    }

    /// Whether the user may upload: uploaders and administrators may.
    #[verifier::when_used_as_spec(may_upload)]
    pub fn is_uploader(&self) -> (allowed: bool)
        ensures
            allowed == self.may_upload(),
    {
        self.is_uploader || self.is_admin
    }

    /// The standing of the user.
    pub fn status(&self) -> (status: UserStatus)
        ensures
            status == standing(self.is_active, self.is_admin, self.is_uploader),
    {
        if !self.is_active {
            UserStatus::Banned
        } else if self.is_admin {
            UserStatus::Admin
        } else if self.is_uploader {
            UserStatus::Uploader
        } else {
            UserStatus::User
        }
    }
}

impl Clone for User {
    fn clone(&self) -> (copy: Self)
        ensures
            copy == *self,
    {
        User {
            username: self.username.clone(),
            is_active: self.is_active,
            is_admin: self.is_admin,
            is_uploader: self.is_uploader,
            birth_date: self.birth_date,
        }
    }
}

impl From<UserFull> for User {
    fn from(value: UserFull) -> (user: Self) {
        User {
            username: value.username,
            is_active: value.is_active,
            is_admin: value.is_admin,
            is_uploader: value.is_uploader,
            birth_date: value.birth_date,
        }
    }
}

impl vstd::std_specs::convert::FromSpecImpl<UserFull> for User {
    open spec fn obeys_from_spec() -> bool {
        true
    }

    /// The user without the hash of their password.
    open spec fn from_spec(value: UserFull) -> Self {
        User {
            username: value.username,
            is_active: value.is_active,
            is_admin: value.is_admin,
            is_uploader: value.is_uploader,
            birth_date: value.birth_date,
        }
    }
}

impl From<User> for UserStatus {
    fn from(value: User) -> (status: Self) {
        value.status()
    }
}

impl vstd::std_specs::convert::FromSpecImpl<User> for UserStatus {
    open spec fn obeys_from_spec() -> bool {
        true
    }

    /// The standing of the user.
    open spec fn from_spec(value: User) -> Self {
        standing(value.is_active, value.is_admin, value.is_uploader)
    }
}

impl UserStatus {
    /// The standings that a form offers, each with its name and its label.
    pub fn get_options() -> (options: Vec<(String, String)>)
        ensures
            options@.len() == 4,
            options@[0].0@ == status_option(UserStatus::Banned),
            options@[0].1@ == "забанен"@,
            options@[1].0@ == status_option(UserStatus::User),
            options@[1].1@ == "обычный"@,
            options@[2].0@ == status_option(UserStatus::Uploader),
            options@[2].1@ == "загружающий"@,
            options@[3].0@ == status_option(UserStatus::Admin),
            options@[3].1@ == "администратор"@,
    {
        let mut options: Vec<(String, String)> = Vec::new();
        options.push((String::from_str("banned"), String::from_str("забанен")));
        options.push((String::from_str("user"), String::from_str("обычный")));
        options.push((String::from_str("uploader"), String::from_str("загружающий")));
        options.push((String::from_str("admin"), String::from_str("администратор")));
        options
    }

    /// The name of the standing in forms and queries.
    pub fn get_option(self) -> (name: String)
        ensures
            name@ == status_option(self),
    {
        let name = match self {
            UserStatus::Banned => "banned",
            UserStatus::User => "user",
            UserStatus::Uploader => "uploader",
            UserStatus::Admin => "admin",
        };
        String::from_str(name)
    }

    /// The flags `(is_active, is_uploader, is_admin)` that a user of this
    /// standing is stored with.
    pub fn flags(self) -> (flags: (bool, bool, bool))
        ensures
            flags.0 == (self != UserStatus::Banned),
            flags.1 == (self == UserStatus::Uploader),
            flags.2 == (self == UserStatus::Admin),
    {
        (
            !matches!(self, UserStatus::Banned),
            matches!(self, UserStatus::Uploader),
            matches!(self, UserStatus::Admin),
        )
    }
}

/// Storing the flags of a standing and reading the standing back gives the
/// same standing.
pub proof fn lemma_flags_keep_standing(status: UserStatus)
    ensures
        standing(
            status != UserStatus::Banned,
            status == UserStatus::Admin,
            status == UserStatus::Uploader,
        ) == status,
{
}

} // verus!
