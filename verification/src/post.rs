//! Posts: what a request may say of one, and who may see or change it.

use vstd::prelude::*;
use vstd::string::StrSliceExecFns;
use crate::auth::Authentication;
use crate::error::ValidationErrors;
use crate::ledger::Upload;
use crate::storage::clone_option_string;
use crate::user::User;

verus! {

/// A reason for which posts are banned.
#[derive(Debug, PartialEq, Eq)]
pub struct BanReason {
    pub id: String,
    pub description: Option<String>,
}

/// What is needed to create a post.
#[derive(Clone, Copy, Debug, PartialEq, Eq)]
pub struct NewPost<'a> {
    pub title: &'a str,
    pub description: &'a str,
    pub is_hidden: bool,
    pub min_age: Option<i32>,
}

/// The changes to make to a post. What is `None` stays as it is, but for
/// the minimal age, which is set anew.
#[derive(Clone, Copy, Debug, PartialEq, Eq)]
pub struct PostEdit<'r> {
    pub id: i64,
    pub title: Option<&'r str>,
    pub description: Option<&'r str>,
    pub is_hidden: Option<bool>,
    pub min_age: Option<i32>,
}

/// A post with its published uploads.
#[derive(Debug, PartialEq, Eq)]
pub struct Post {
    pub id: i64,
    pub creation_date: i64,
    pub title: String,
    pub description: String,
    pub author_username: String,
    pub is_hidden: bool,
    pub ban: Option<(Option<BanReason>, Option<String>)>,
    pub uploads: Vec<Upload>,
    pub min_age: Option<i32>,
    pub is_age_restricted: bool,
}

/// What a reader gets to see of a post.
#[derive(Debug, PartialEq, Eq)]
pub enum PostVisibility {
    Visible(Post),
    Hidden,
    Banned(Option<BanReason>, Option<String>),
    AgeRestricted(i32),
}

/// A request to create a post.
#[derive(Clone, Copy, Debug, PartialEq, Eq)]
pub struct PostAddRequest<'r> {
    pub title: &'r str,
    pub description: &'r str,
    pub is_hidden: bool,
    pub min_age: Option<i32>,
}

/// The answer to a request that created a post.
#[derive(Debug, PartialEq, Eq)]
pub struct PostAddResponseOk {
    pub id: i64,
    pub url: String,
}

/// A request to change a post.
#[derive(Debug, PartialEq, Eq)]
pub struct PostEditRequest {
    pub title: Option<String>,
    pub description: Option<String>,
    pub is_hidden: Option<bool>,
    pub min_age: Option<i32>,
}

/// The answer to a request that changed a post.
#[derive(Clone, Copy, Debug, PartialEq, Eq, Structural)]
pub struct PostEditResponseOk {}

/// The longest title that a post may have, in characters.
pub const MAX_TITLE_LENGTH: usize = 500;

/// The highest minimal age that a post may ask of its readers.
pub const MAX_MIN_AGE: i32 = 21;

/// What is wrong with the title and the minimal age of a post: a title
/// must have between 1 and 500 characters, a minimal age must lie between 0
/// and 21.
pub open spec fn post_errors(title: Option<Seq<char>>, min_age: Option<i32>) -> ValidationErrors {
    ValidationErrors {
        size_is_zero: false,
        size_too_large: false,
        extension_too_long: false,
        extension_invalid_chars: false,
        title_is_blank: title matches Some(text) && text.len() < 1,
        title_too_long: title matches Some(text) && text.len() > MAX_TITLE_LENGTH,
        min_age_out_of_range: min_age matches Some(age) && !(0 <= age <= MAX_MIN_AGE),
    }
}

fn check_post(title: Option<&str>, min_age: Option<i32>) -> (errors: ValidationErrors)
    ensures
        errors == post_errors(crate::storage::option_str_view(title), min_age),
{
    let (blank, long) = match title {
        Some(text) => {
            let length: usize = text.unicode_len();
            (length < 1, length > MAX_TITLE_LENGTH)
        },
        None => (false, false),
    };
    let age = match min_age {
        Some(age) => age < 0 || age > MAX_MIN_AGE,
        None => false,
    };
    ValidationErrors {
        size_is_zero: false,
        size_too_large: false,
        extension_too_long: false,
        extension_invalid_chars: false,
        title_is_blank: blank,
        title_too_long: long,
        min_age_out_of_range: age,
    }
}

impl<'r> PostAddRequest<'r> {
    /// What is wrong with the request.
    pub fn validate(&self) -> (errors: ValidationErrors)
        ensures
            errors == post_errors(Some(self.title@), self.min_age),
    {
        check_post(Some(self.title), self.min_age)
    }

    /// The post that the request asks for.
    pub fn new_post(&self) -> (post: NewPost<'r>)
        ensures
            post.title == self.title,
            post.description == self.description,
            post.is_hidden == self.is_hidden,
            post.min_age == self.min_age,
    {
        NewPost {
            title: self.title,
            description: self.description,
            is_hidden: self.is_hidden,
            min_age: self.min_age,
        }
    }
}

impl PostEditRequest {
    /// What is wrong with the request. A title that is not given is not
    /// held against it.
    pub fn validate(&self) -> (errors: ValidationErrors)
        ensures
            errors == post_errors(crate::storage::option_string_view(self.title), self.min_age),
    {
        check_post(crate::storage::option_as_str(&self.title), self.min_age)
    }
}

impl Clone for BanReason {
    fn clone(&self) -> (copy: Self)
        ensures
            copy == *self,
    {
        BanReason { id: self.id.clone(), description: clone_option_string(&self.description) }
    }
}

/// A copy of an optional reason.
fn clone_ban_reason(reason: &Option<BanReason>) -> (copy: Option<BanReason>)
    ensures
        copy == *reason,
{
    match reason {
        Some(reason) => Some(reason.clone()),
        None => None,
    }
}

/// Whether the user behind `user` wrote the post of `author_username`.
pub open spec fn is_author(author_username: String, user: Authentication) -> bool {
    user.user() matches Some(reader) && reader.username@ == author_username@
}

impl Post {
    /// Whether the user behind the request wrote the post.
    pub fn is_written_by(&self, user: &Authentication) -> (author: bool)
        ensures
            author == is_author(self.author_username, *user),
    {
        match user {
            Authentication::Authenticated(reader) => reader.username == self.author_username,
            Authentication::Banned(reader) => reader.username == self.author_username,
            Authentication::Anonymous => false,
        }
    }

    /// What `user` gets to see of the post.
    ///
    /// An administrator sees every post. Of a banned post anybody else sees
    /// the reason of the ban. A hidden post, and one that the reader is too
    /// young for, is shown to its author alone; other readers learn that it
    /// is hidden, or the age it asks for.
    pub fn check_visible(self, user: &Authentication) -> (visibility: PostVisibility)
        ensures
            visibility == if user.is_admin() {
                PostVisibility::Visible(self)
            } else {
                match self.ban {
                    Some((reason, text)) => PostVisibility::Banned(reason, text),
                    None => if !self.is_hidden && !self.is_age_restricted {
                        PostVisibility::Visible(self)
                    } else if is_author(self.author_username, *user) {
                        PostVisibility::Visible(self)
                    } else if self.is_hidden {
                        PostVisibility::Hidden
                    } else {
                        PostVisibility::AgeRestricted(
                            match self.min_age {
                                Some(age) => age,
                                None => 0,
                            },
                        )
                    },
                }
            },
    {
        if user.is_admin() {
            return PostVisibility::Visible(self);
        }
        match &self.ban {
            Some((reason, text)) => {
                return PostVisibility::Banned(clone_ban_reason(reason), clone_option_string(text));
            },
            None => {},
        }
        if self.is_hidden {
            if self.is_written_by(user) {
                PostVisibility::Visible(self)
            } else {
                PostVisibility::Hidden
            }
        } else if self.is_age_restricted {
            if self.is_written_by(user) {
                PostVisibility::Visible(self)
            } else {
                PostVisibility::AgeRestricted(
                    match self.min_age {
                        Some(age) => age,
                        None => 0,
                    },
                )
            }
        } else {
            PostVisibility::Visible(self)
        }
    }

    /// Whether `user` may change the post: its author may, unless banned.
    pub fn can_edit(&self, user: &Authentication) -> (allowed: bool)
        ensures
            allowed == (*user matches Authentication::Authenticated(reader) && reader.username@
                == self.author_username@),
    {
        match user {
            Authentication::Authenticated(reader) => reader.username == self.author_username,
            Authentication::Banned(_) => false,
            Authentication::Anonymous => false,
        }
    }

    /// Whether `user` wrote the post.
    pub fn can_edit_by_user(&self, user: &User) -> (allowed: bool)
        ensures
            allowed == (user.username@ == self.author_username@),
    {
        user.username == self.author_username
    }

    /// Whether `user` may ban the post: administrators may.
    pub fn can_ban(&self, user: &Authentication) -> (allowed: bool)
        ensures
            allowed == user.is_admin(),
    {
        user.is_admin()
    }

    /// Whether `user` may lift the ban of the post: administrators may, of
    /// a post that is banned.
    pub fn can_unban(&self, user: &Authentication) -> (allowed: bool)
        ensures
            allowed == (user.is_admin() && self.ban.is_some()),
    {
        user.is_admin() && self.ban.is_some()
    }
}

} // verus!
