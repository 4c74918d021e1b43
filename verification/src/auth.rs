//! Who makes a request, and what they may do.

use vstd::prelude::*;
use crate::error::Error;
use crate::user::User;

verus! {

/// The name of the cookie that holds the name of the user.
pub const USERNAME_COOKIE_NAME: &'static str = "username";

/// Who makes a request.
#[derive(Debug, PartialEq, Eq)]
pub enum Authentication {
    /// A user in good standing.
    Authenticated(User),
    /// A user who was banned.
    Banned(User),
    /// Nobody the service knows.
    Anonymous,
}

/// The proof that a request comes from an administrator.
#[derive(Clone, Copy, Debug, PartialEq, Eq, Structural)]
pub struct Admin {}

/// The proof that a request comes from a user who may upload.
#[derive(Clone, Copy, Debug, PartialEq, Eq, Structural)]
pub struct Uploader {}

impl Authentication {
    /// The user behind the request, banned or not.
    pub open spec fn user(&self) -> Option<User> {
        match *self {
            Authentication::Authenticated(user) => Some(user),
            Authentication::Banned(user) => Some(user),
            Authentication::Anonymous => None,
        }
    }

    /// Whether the user behind the request is an administrator.
    pub open spec fn spec_is_admin(&self) -> bool {
        self.user() matches Some(user) && user.is_admin
    }

    /// Who makes a request that carries the name of `user`, as the users'
    /// table knows them: a user who is not active is banned, and a name that
    /// the table does not know is nobody's.
    pub fn identify(user: Option<User>) -> (authentication: Authentication)
        ensures
            authentication == match user {
                Some(user) => if user.is_active {
                    Authentication::Authenticated(user)
                } else {
                    Authentication::Banned(user)
                },
                None => Authentication::Anonymous,
            },
    {
        match user {
            Some(user) => if user.is_active {
                Authentication::Authenticated(user)
            } else {
                Authentication::Banned(user)
            },
            None => Authentication::Anonymous,
        }
    }

    /// Whether nobody the service knows makes the request.
    pub fn is_anonymous(&self) -> (anonymous: bool)
        ensures
            anonymous == (self is Anonymous),
    {
        matches!(self, Authentication::Anonymous)
    }

    /// Whether a user in good standing makes the request.
    pub fn is_authenticated(&self) -> (authenticated: bool)
        ensures
            authenticated == (self is Authenticated),
    {
        matches!(self, Authentication::Authenticated(_))
    }

    /// What `f` makes of the user behind the request, banned or not.
    pub fn map<T, F>(&self, f: F) -> (mapped: Option<T>) where F: Fn(&User) -> T
        requires
            self.user() matches Some(user) ==> f.requires((&user,)),
        ensures
            match self.user() {
                Some(user) => mapped matches Some(value) && f.ensures((&user,), value),
                None => mapped.is_none(),
            },
    {
        match self {
            Authentication::Authenticated(user) => Some(f(user)),
            Authentication::Banned(user) => Some(f(user)),
            Authentication::Anonymous => None,
        }
    }

    /// Whether the user behind the request is an administrator.
    #[verifier::when_used_as_spec(spec_is_admin)]
    pub fn is_admin(&self) -> (admin: bool)
        ensures
            admin == self.spec_is_admin(),
    {
        match self {
            Authentication::Authenticated(user) => user.is_admin,
            Authentication::Banned(user) => user.is_admin,
            Authentication::Anonymous => false,
        }
    }

    /// Whether the user behind the request may upload.
    pub fn is_uploader(&self) -> (uploader: bool)
        ensures
            uploader == (self.user() matches Some(user) && user.may_upload()),
    {
        match self {
            Authentication::Authenticated(user) => user.is_uploader(),
            Authentication::Banned(user) => user.is_uploader(),
            Authentication::Anonymous => false,
        }
    }

    /// The name of the user behind the request.
    pub fn username(&self) -> (name: Option<String>)
        ensures
            name == match self.user() {
                Some(user) => Some(user.username),
                None => None,
            },
    {
        match self {
            Authentication::Authenticated(user) => Some(user.username.clone()),
            Authentication::Banned(user) => Some(user.username.clone()),
            Authentication::Anonymous => None,
        }
    }

    /// The date of birth of the user behind the request.
    pub fn birth_date(&self) -> (date: Option<i64>)
        ensures
            date == match self.user() {
                Some(user) => user.birth_date,
                None => None,
            },
    {
        match self {
            Authentication::Authenticated(user) => user.birth_date,
            Authentication::Banned(user) => user.birth_date,
            Authentication::Anonymous => None,
        }
    }
}

impl Clone for Authentication {
    fn clone(&self) -> (copy: Self)
        ensures
            copy == *self,
    {
        match self {
            Authentication::Authenticated(user) => Authentication::Authenticated(user.clone()),
            Authentication::Banned(user) => Authentication::Banned(user.clone()),
            Authentication::Anonymous => Authentication::Anonymous,
        }
    }
}

impl User {
    /// The user behind a request that only an administrator in good
    /// standing may make; any other request is refused with `AccessDenied`.
    pub fn from_authentication(authentication: &Authentication) -> (result: Result<User, Error>)
        ensures
            result == if authentication matches Authentication::Authenticated(user)
                && user.is_admin {
                Ok::<User, Error>(authentication->Authenticated_0)
            } else {
                Err::<User, Error>(Error::AccessDenied)
            },
    {
        match authentication {
            Authentication::Authenticated(user) => if user.is_admin {
                Ok(user.clone())
            } else {
                Err(Error::AccessDenied)
            },
            _ => Err(Error::AccessDenied),
        }
    }
}

impl Admin {
    /// Admits a request from an administrator in good standing, and
    /// refuses any other with `AccessDenied`.
    pub fn from_authentication(authentication: &Authentication) -> (result: Result<Admin, Error>)
        ensures
            result == if authentication matches Authentication::Authenticated(user)
                && user.is_admin {
                Ok::<Admin, Error>(Admin {  })
            } else {
                Err::<Admin, Error>(Error::AccessDenied)
            },
    {
        match authentication {
            Authentication::Authenticated(user) => if user.is_admin {
                Ok(Admin {  })
            } else {
                Err(Error::AccessDenied)
            },
            _ => Err(Error::AccessDenied),
        }
    }
}

impl Uploader {
    /// Admits a request from a user in good standing who may upload, and
    /// refuses any other with `AccessDenied`.
    pub fn from_authentication(authentication: &Authentication) -> (result: Result<Uploader, Error>)
        ensures
            result == if authentication matches Authentication::Authenticated(user)
                && user.may_upload() {
                Ok::<Uploader, Error>(Uploader {  })
            } else {
                Err::<Uploader, Error>(Error::AccessDenied)
            },
    {
        match authentication {
            Authentication::Authenticated(user) => if user.is_uploader() {
                Ok(Uploader {  })
            } else {
                Err(Error::AccessDenied)
            },
            _ => Err(Error::AccessDenied),
        }
    }
}

} // verus!
