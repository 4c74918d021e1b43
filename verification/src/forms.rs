//! The forms of the service: what they hold, what is wrong with what a
//! user typed, and what is shown again after a refusal.

use vstd::prelude::*;
use vstd::string::{StrSliceExecFns, StringExecFns};
use crate::csrf::{CheckCSRF, CsrfToken, VerificationFailure};
use crate::error::Error;
use crate::form_extra_validation::{pair_views, IdField, IdSet};
use crate::post::{BanReason, Post};
use crate::storage::{clone_option_string, option_string_view};
use crate::text::{has_one_of, holds_one_of, is_made_of, made_of, CharClass};
use crate::user::{standing, User, UserStatus};

verus! {

/// What is wrong with what a user typed into a form, one flag for each
/// fault.
#[derive(Clone, Copy, Debug, PartialEq, Eq, Structural, Hash)]
pub struct FormErrors {
    pub username_wrong_characters: bool,
    pub username_too_short: bool,
    pub username_too_long: bool,
    pub password_too_short: bool,
    pub password_wrong_characters: bool,
    pub password_missing_letter: bool,
    pub password_missing_digit: bool,
    pub passwords_differ: bool,
    pub id_wrong_characters: bool,
    pub id_too_short: bool,
    pub id_too_long: bool,
    pub ban_reason_text_too_long: bool,
    pub invalid_id: bool,
}

/// No fault.
pub open spec fn no_form_errors() -> FormErrors {
    FormErrors {
        username_wrong_characters: false,
        username_too_short: false,
        username_too_long: false,
        password_too_short: false,
        password_wrong_characters: false,
        password_missing_letter: false,
        password_missing_digit: false,
        passwords_differ: false,
        id_wrong_characters: false,
        id_too_short: false,
        id_too_long: false,
        ban_reason_text_too_long: false,
        invalid_id: false,
    }
}

impl FormErrors {
    /// No fault.
    pub fn none() -> (errors: FormErrors)
        ensures
            errors == no_form_errors(),
    {
        FormErrors {
            username_wrong_characters: false,
            username_too_short: false,
            username_too_long: false,
            password_too_short: false,
            password_wrong_characters: false,
            password_missing_letter: false,
            password_missing_digit: false,
            passwords_differ: false,
            id_wrong_characters: false,
            id_too_short: false,
            id_too_long: false,
            ban_reason_text_too_long: false,
            invalid_id: false,
        }
    }

    /// Whether no flag is set.
    pub fn is_empty(self) -> (empty: bool)
        ensures
            empty == (self == no_form_errors()),
    {
        !self.username_wrong_characters && !self.username_too_short && !self.username_too_long
            && !self.password_too_short && !self.password_wrong_characters
            && !self.password_missing_letter && !self.password_missing_digit
            && !self.passwords_differ && !self.id_wrong_characters && !self.id_too_short
            && !self.id_too_long && !self.ban_reason_text_too_long && !self.invalid_id
    }
}

/// The faults of a name of `least` to 64 characters, all of them letters,
/// digits or underscores: `(wrong characters, too short, too long)`.
pub open spec fn name_faults(name: Seq<char>, least: nat) -> (bool, bool, bool) {
    (!made_of(name, CharClass::Word), name.len() < least, name.len() > 64)
}

/// The faults of a new password, which must have 8 characters or more,
/// all of them allowed in a password, a lower-case letter and a digit among
/// them: `(too short, wrong characters, no letter, no digit)`.
pub open spec fn password_faults(password: Seq<char>) -> (bool, bool, bool, bool) {
    (
        password.len() < 8,
        !made_of(password, CharClass::Password),
        !holds_one_of(password, CharClass::LowerLetter),
        !holds_one_of(password, CharClass::Digit),
    )
}

fn check_name(name: &str, least: usize) -> (faults: (bool, bool, bool))
    ensures
        faults == name_faults(name@, least as nat),
{
    let length: usize = name.unicode_len();
    (!is_made_of(name, CharClass::Word), length < least, length > 64)
}

fn check_password(password: &str) -> (faults: (bool, bool, bool, bool))
    ensures
        faults == password_faults(password@),
{
    (
        password.unicode_len() < 8,
        !is_made_of(password, CharClass::Password),
        !has_one_of(password, CharClass::LowerLetter),
        !has_one_of(password, CharClass::Digit),
    )
}

/// The form with which a user registers. The date of birth is counted in
/// days since the epoch.
#[derive(Debug, PartialEq, Eq)]
pub struct RegistrationForm {
    pub username: String,
    pub invite_code: String,
    pub password: String,
    pub password2: String,
    pub birth_date: Option<i64>,
    pub csrf_token: String,
}

/// The form with which a user logs in.
#[derive(Debug, PartialEq, Eq)]
pub struct LoginForm {
    pub username: String,
    pub password: String,
    pub csrf_token: String,
}

/// The form with which a user logs out.
#[derive(Debug, PartialEq, Eq)]
pub struct LogoutForm {
    pub csrf_token: String,
}

/// The form with which a user changes their password.
#[derive(Debug, PartialEq, Eq)]
pub struct ChangePasswordForm {
    pub old_password: String,
    pub new_password: String,
    pub csrf_token: String,
}

/// The form with which an administrator sets the standing of a user.
#[derive(Debug, PartialEq, Eq)]
pub struct UserEditForm {
    pub status: UserStatus,
    pub csrf_token: String,
}

/// The form with which an administrator adds an invite code.
#[derive(Debug, PartialEq, Eq)]
pub struct InviteAddForm {
    pub invite_code: String,
    pub csrf_token: String,
}

/// The form with which an administrator removes an invite code.
#[derive(Debug, PartialEq, Eq)]
pub struct InviteRemoveForm {
    pub invite_code: String,
    pub csrf_token: String,
}

/// The form with which an administrator adds a reason for bans.
#[derive(Debug, PartialEq, Eq)]
pub struct BanReasonAddForm {
    pub id: String,
    pub description: String,
    pub csrf_token: String,
}

/// The form with which an administrator describes a reason for bans anew.
#[derive(Debug, PartialEq, Eq)]
pub struct BanReasonEditForm {
    pub description: String,
    pub csrf_token: String,
}

/// The form with which an administrator bans a post.
#[derive(Debug, PartialEq, Eq)]
pub struct PostBanForm {
    pub ban_reason_id: IdField,
    pub ban_reason_text: String,
    pub csrf_token: String,
}

/// What a user typed into the form that bans a post, before the reason
/// is held against those to choose from.
#[derive(Debug, PartialEq, Eq)]
pub struct PostBanFormRaw {
    pub ban_reason_id: Option<String>,
    pub ban_reason_text: String,
    pub csrf_token: String,
}

/// A form together with what is wrong with the ids it holds.
#[derive(Debug, PartialEq, Eq)]
pub struct ExtraValidatedForm<T>(pub T, pub FormErrors);

/// The form with which an administrator lifts the ban of a post.
#[derive(Debug, PartialEq, Eq)]
pub struct PostUnbanForm {
    pub csrf_token: String,
}

impl RegistrationForm {
    /// The empty form.
    pub fn new(csrf_token: &str) -> (form: Self)
        ensures
            form.username@.len() == 0,
            form.invite_code@.len() == 0,
            form.password@.len() == 0,
            form.password2@.len() == 0,
            form.birth_date.is_none(),
            form.csrf_token@ == csrf_token@,
    {
        Self {
            username: String::new(),
            invite_code: String::new(),
            password: String::new(),
            password2: String::new(),
            birth_date: None,
            csrf_token: String::from_str(csrf_token),
        }
    }

    /// The form to show again: without the invite code and the passwords.
    pub fn clear_sensitive(&self) -> (form: Self)
        ensures
            form.username == self.username,
            form.invite_code@.len() == 0,
            form.password@.len() == 0,
            form.password2@.len() == 0,
            form.birth_date == self.birth_date,
            form.csrf_token == self.csrf_token,
    {
        Self {
            username: self.username.clone(),
            invite_code: String::new(),
            password: String::new(),
            password2: String::new(),
            birth_date: self.birth_date,
            csrf_token: self.csrf_token.clone(),
        }
    }

    /// What is wrong with the form: the name must have 2 to 64 letters,
    /// digits and underscores, the password must be a fit one, and it must be
    /// typed twice alike.
    pub fn validate(&self) -> (errors: FormErrors)
        ensures
            errors == (FormErrors {
                username_wrong_characters: name_faults(self.username@, 2).0,
                username_too_short: name_faults(self.username@, 2).1,
                username_too_long: name_faults(self.username@, 2).2,
                password_too_short: password_faults(self.password@).0,
                password_wrong_characters: password_faults(self.password@).1,
                password_missing_letter: password_faults(self.password@).2,
                password_missing_digit: password_faults(self.password@).3,
                passwords_differ: self.password2@ != self.password@,
                ..no_form_errors()
            }),
    {
        let name = check_name(self.username.as_str(), 2);
        let password = check_password(self.password.as_str());
        let mut errors = FormErrors::none();
        errors.username_wrong_characters = name.0;
        errors.username_too_short = name.1;
        errors.username_too_long = name.2;
        errors.password_too_short = password.0;
        errors.password_wrong_characters = password.1;
        errors.password_missing_letter = password.2;
        errors.password_missing_digit = password.3;
        errors.passwords_differ = self.password2 != self.password;
        errors
    }
}

impl LoginForm {
    /// The empty form.
    pub fn new(csrf_token: &str) -> (form: Self)
        ensures
            form.username@.len() == 0,
            form.password@.len() == 0,
            form.csrf_token@ == csrf_token@,
    {
        Self {
            username: String::new(),
            password: String::new(),
            csrf_token: String::from_str(csrf_token),
        }
    }

    /// The form to show again: without the password.
    pub fn clear_sensitive(&self) -> (form: Self)
        ensures
            form.username == self.username,
            form.password@.len() == 0,
            form.csrf_token == self.csrf_token,
    {
        Self {
            username: self.username.clone(),
            password: String::new(),
            csrf_token: self.csrf_token.clone(),
        }
    }
}

impl LogoutForm {
    /// The form.
    pub fn new(csrf_token: &str) -> (form: Self)
        ensures
            form.csrf_token@ == csrf_token@,
    {
        Self { csrf_token: String::from_str(csrf_token) }
    }
}

impl ChangePasswordForm {
    /// The empty form.
    pub fn new(csrf_token: &str) -> (form: Self)
        ensures
            form.old_password@.len() == 0,
            form.new_password@.len() == 0,
            form.csrf_token@ == csrf_token@,
    {
        Self {
            old_password: String::new(),
            new_password: String::new(),
            csrf_token: String::from_str(csrf_token),
        }
    }

    /// The form to show again: without the passwords.
    pub fn clear_sensitive(&self) -> (form: Self)
        ensures
            form.old_password@.len() == 0,
            form.new_password@.len() == 0,
            form.csrf_token == self.csrf_token,
    {
        Self {
            old_password: String::new(),
            new_password: String::new(),
            csrf_token: self.csrf_token.clone(),
        }
    }

    /// What is wrong with the form: the new password must be a fit one.
    pub fn validate(&self) -> (errors: FormErrors)
        ensures
            errors == (FormErrors {
                password_too_short: password_faults(self.new_password@).0,
                password_wrong_characters: password_faults(self.new_password@).1,
                password_missing_letter: password_faults(self.new_password@).2,
                password_missing_digit: password_faults(self.new_password@).3,
                ..no_form_errors()
            }),
    {
        let password = check_password(self.new_password.as_str());
        let mut errors = FormErrors::none();
        errors.password_too_short = password.0;
        errors.password_wrong_characters = password.1;
        errors.password_missing_letter = password.2;
        errors.password_missing_digit = password.3;
        errors
    }
}

impl UserEditForm {
    /// The form filled with the standing of `user`, or `DoesNotExist`
    /// where there is no such user.
    pub fn load(user: Option<User>, csrf_token: &str) -> (result: Result<Self, Error>)
        ensures
            match user {
                Some(user) => {
                    &&& result matches Ok(form)
                    &&& form.status == standing(user.is_active, user.is_admin, user.is_uploader)
                    &&& form.csrf_token@ == csrf_token@
                },
                None => result matches Err(error) && error == Error::DoesNotExist,
            },
    {
        match user {
            Some(user) => Ok(
                Self { status: user.status(), csrf_token: String::from_str(csrf_token) },
            ),
            None => Err(Error::DoesNotExist),
        }
    }

    /// The form to show again.
    pub fn clear_sensitive(&self) -> (form: Self)
        ensures
            form == *self,
    {
        Self { status: self.status, csrf_token: self.csrf_token.clone() }
    }
}

impl InviteAddForm {
    /// The empty form.
    pub fn new(csrf_token: &str) -> (form: Self)
        ensures
            form.invite_code@.len() == 0,
            form.csrf_token@ == csrf_token@,
    {
        Self { invite_code: String::new(), csrf_token: String::from_str(csrf_token) }
    }

    /// The form to show again: without the invite code.
    pub fn clear_sensitive(&self) -> (form: Self)
        ensures
            form.invite_code@.len() == 0,
            form.csrf_token == self.csrf_token,
    {
        Self { invite_code: String::new(), csrf_token: self.csrf_token.clone() }
    }

    /// What is wrong with the form: the invite code must have 1 to 64
    /// letters, digits and underscores.
    pub fn validate(&self) -> (errors: FormErrors)
        ensures
            errors == (FormErrors {
                username_wrong_characters: name_faults(self.invite_code@, 1).0,
                username_too_short: name_faults(self.invite_code@, 1).1,
                username_too_long: name_faults(self.invite_code@, 1).2,
                ..no_form_errors()
            }),
    {
        let name = check_name(self.invite_code.as_str(), 1);
        let mut errors = FormErrors::none();
        errors.username_wrong_characters = name.0;
        errors.username_too_short = name.1;
        errors.username_too_long = name.2;
        errors
    }
}

impl InviteRemoveForm {
    /// The empty form.
    pub fn new(csrf_token: &str) -> (form: Self)
        ensures
            form.invite_code@.len() == 0,
            form.csrf_token@ == csrf_token@,
    {
        Self { invite_code: String::new(), csrf_token: String::from_str(csrf_token) }
    }

    /// The form to show again: without the invite code.
    pub fn clear_sensitive(&self) -> (form: Self)
        ensures
            form.invite_code@.len() == 0,
            form.csrf_token == self.csrf_token,
    {
        Self { invite_code: String::new(), csrf_token: self.csrf_token.clone() }
    }
}

impl BanReasonAddForm {
    /// The empty form.
    pub fn new(csrf_token: &str) -> (form: Self)
        ensures
            form.id@.len() == 0,
            form.description@.len() == 0,
            form.csrf_token@ == csrf_token@,
    {
        Self {
            id: String::new(),
            description: String::new(),
            csrf_token: String::from_str(csrf_token),
        }
    }

    /// The form to show again.
    pub fn clear_sensitive(&self) -> (form: Self)
        ensures
            form == *self,
    {
        Self {
            id: self.id.clone(),
            description: self.description.clone(),
            csrf_token: self.csrf_token.clone(),
        }
    }

    /// What is wrong with the form: the id must have 1 to 64 letters,
    /// digits and underscores.
    pub fn validate(&self) -> (errors: FormErrors)
        ensures
            errors == (FormErrors {
                id_wrong_characters: name_faults(self.id@, 1).0,
                id_too_short: name_faults(self.id@, 1).1,
                id_too_long: name_faults(self.id@, 1).2,
                ..no_form_errors()
            }),
    {
        let name = check_name(self.id.as_str(), 1);
        let mut errors = FormErrors::none();
        errors.id_wrong_characters = name.0;
        errors.id_too_short = name.1;
        errors.id_too_long = name.2;
        errors
    }

    /// The reason that the form describes.
    pub fn ban_reason(&self) -> (reason: BanReason)
        ensures
            reason.id == self.id,
            reason.description == Some(self.description),
    {
        BanReason { id: self.id.clone(), description: Some(self.description.clone()) }
    }
}

impl BanReasonEditForm {
    /// The form filled with the description of `ban_reason`, or
    /// `DoesNotExist` where there is no such reason.
    pub fn load(ban_reason: Option<BanReason>, csrf_token: &str) -> (result: Result<Self, Error>)
        ensures
            match ban_reason {
                Some(reason) => {
                    &&& result matches Ok(form)
                    &&& form.csrf_token@ == csrf_token@
                    &&& form.description@ == match reason.description {
                        Some(text) => text@,
                        None => Seq::<char>::empty(),
                    }
                },
                None => result matches Err(error) && error == Error::DoesNotExist,
            },
    {
        match ban_reason {
            Some(reason) => Ok(
                Self {
                    description: match reason.description {
                        Some(text) => text,
                        None => String::new(),
                    },
                    csrf_token: String::from_str(csrf_token),
                },
            ),
            None => Err(Error::DoesNotExist),
        }
    }

    /// The form to show again.
    pub fn clear_sensitive(&self) -> (form: Self)
        ensures
            form == *self,
    {
        Self { description: self.description.clone(), csrf_token: self.csrf_token.clone() }
    }

    /// The reason `id` as the form describes it.
    pub fn ban_reason(&self, id: &str) -> (reason: BanReason)
        ensures
            reason.id@ == id@,
            reason.description == Some(self.description),
    {
        BanReason { id: String::from_str(id), description: Some(self.description.clone()) }
    }
}

impl PostUnbanForm {
    /// The form for a post, or `DoesNotExist` where there is no such post.
    pub fn load(post_exists: bool, csrf_token: &str) -> (result: Result<Self, Error>)
        ensures
            if post_exists {
                result matches Ok(form) && form.csrf_token@ == csrf_token@
            } else {
                result matches Err(error) && error == Error::DoesNotExist
            },
    {
        if post_exists {
            Ok(Self { csrf_token: String::from_str(csrf_token) })
        } else {
            Err(Error::DoesNotExist)
        }
    }

    /// The form to show again.
    pub fn clear_sensitive(&self) -> (form: Self)
        ensures
            form == *self,
    {
        Self { csrf_token: self.csrf_token.clone() }
    }
}

/// The id of the reason for which a post is banned, if it is banned for
/// one.
pub open spec fn ban_reason_id(post: Post) -> Option<Seq<char>> {
    match post.ban {
        Some((Some(reason), _)) => Some(reason.id@),
        _ => None,
    }
}

/// The text that goes with the ban of a post; empty where there is none.
pub open spec fn ban_reason_text(post: Post) -> Seq<char> {
    match post.ban {
        Some((_, Some(text))) => text@,
        _ => Seq::empty(),
    }
}

impl PostBanForm {
    /// The form filled with the ban of `post`, with the reasons of
    /// `ban_reason_id_set` to choose from, or `DoesNotExist` where there is
    /// no such post. A reason that is no longer among those to choose from
    /// is left out.
    pub fn load<S: IdSet>(post: Option<Post>, ban_reason_id_set: &S, csrf_token: &str) -> (result:
        Result<Self, Error>)
        ensures
            match post {
                Some(post) => {
                    &&& result matches Ok(form)
                    &&& form.csrf_token@ == csrf_token@
                    &&& form.ban_reason_text@ == ban_reason_text(post)
                    &&& pair_views(form.ban_reason_id.values@) == ban_reason_id_set.options()
                    &&& option_string_view(form.ban_reason_id.value) == match ban_reason_id(post) {
                        Some(id) => if ban_reason_id_set.ids().contains(id) {
                            Some(id)
                        } else {
                            None
                        },
                        None => None,
                    }
                },
                None => result matches Err(error) && error == Error::DoesNotExist,
            },
    {
        match post {
            Some(post) => {
                let (reason_id, text) = match post.ban {
                    Some((reason, text)) => (
                        match reason {
                            Some(reason) => Some(reason.id),
                            None => None,
                        },
                        match text {
                            Some(text) => text,
                            None => String::new(),
                        },
                    ),
                    None => (None, String::new()),
                };
                let (field, _) = IdField::load(reason_id, ban_reason_id_set);
                Ok(
                    Self {
                        ban_reason_id: field,
                        ban_reason_text: text,
                        csrf_token: String::from_str(csrf_token),
                    },
                )
            },
            None => Err(Error::DoesNotExist),
        }
    }

    /// The form to show again.
    pub fn clear_sensitive(&self) -> (form: Self)
        ensures
            form.csrf_token == self.csrf_token,
            form.ban_reason_text == self.ban_reason_text,
            form.ban_reason_id.value == self.ban_reason_id.value,
            pair_views(form.ban_reason_id.values@) == pair_views(self.ban_reason_id.values@),
    {
        let mut values: Vec<(String, String)> = Vec::new();
        let mut index: usize = 0;
        while index < self.ban_reason_id.values.len()
            invariant
                index <= self.ban_reason_id.values@.len(),
                values@.len() == index,
                forall|i: int|
                    0 <= i < index ==> (#[trigger] values@[i]).0@
                        == self.ban_reason_id.values@[i].0@ && values@[i].1@
                        == self.ban_reason_id.values@[i].1@,
            decreases self.ban_reason_id.values@.len() - index,
        {
            let pair = &self.ban_reason_id.values[index];
            values.push((pair.0.clone(), pair.1.clone()));
            index = index + 1;
        }
        proof {
            assert(pair_views(values@) =~= pair_views(self.ban_reason_id.values@));
        }
        Self {
            ban_reason_id: IdField {
                value: clone_option_string(&self.ban_reason_id.value),
                values,
            },
            ban_reason_text: self.ban_reason_text.clone(),
            csrf_token: self.csrf_token.clone(),
        }
    }

    /// The form for what a user typed. A reason that is not among those
    /// of `ban_reason_id_set` is left out, and the form is marked for it.
    pub fn try_load<S: IdSet>(raw_form: PostBanFormRaw, ban_reason_id_set: &S) -> (loaded:
        ExtraValidatedForm<Self>)
        ensures
            loaded.0.csrf_token == raw_form.csrf_token,
            loaded.0.ban_reason_text == raw_form.ban_reason_text,
            pair_views(loaded.0.ban_reason_id.values@) == ban_reason_id_set.options(),
            match raw_form.ban_reason_id {
                None => loaded.0.ban_reason_id.value.is_none() && loaded.1 == no_form_errors(),
                Some(given) => if ban_reason_id_set.ids().contains(given@) {
                    loaded.0.ban_reason_id.value == Some(given) && loaded.1 == no_form_errors()
                } else {
                    loaded.0.ban_reason_id.value.is_none() && loaded.1 == (FormErrors {
                        invalid_id: true,
                        ..no_form_errors()
                    })
                },
            },
    {
        let (field, refused) = IdField::load(raw_form.ban_reason_id, ban_reason_id_set);
        let mut errors = FormErrors::none();
        errors.invalid_id = refused;
        ExtraValidatedForm(
            Self {
                ban_reason_id: field,
                ban_reason_text: raw_form.ban_reason_text,
                csrf_token: raw_form.csrf_token,
            },
            errors,
        )
    }

    /// The reason and the text of the ban that the form asks for. An
    /// empty text is none.
    pub fn ban(&self) -> (ban: (Option<String>, Option<String>))
        ensures
            ban.0 == self.ban_reason_id.value,
            ban.1 == if self.ban_reason_text@.len() == 0 {
                None
            } else {
                Some(self.ban_reason_text)
            },
    {
        let text = if self.ban_reason_text.as_str().unicode_len() == 0 {
            None
        } else {
            Some(self.ban_reason_text.clone())
        };
        (clone_option_string(&self.ban_reason_id.value), text)
    }

    /// What is wrong with the form: the text must have at most 500
    /// characters.
    pub fn validate(&self) -> (errors: FormErrors)
        ensures
            errors == (FormErrors {
                ban_reason_text_too_long: self.ban_reason_text@.len() > 500,
                ..no_form_errors()
            }),
    {
        let mut errors = FormErrors::none();
        errors.ban_reason_text_too_long = self.ban_reason_text.as_str().unicode_len() > 500;
        errors
    }
}

impl CheckCSRF for RegistrationForm {
    open spec fn carried_token(&self) -> Seq<char> {
        self.csrf_token@
    }

    fn check_csrf(&self, token: &CsrfToken) -> (result: Result<(), VerificationFailure>) {
        token.verify(self.csrf_token.as_str())
    }
}

impl CheckCSRF for LoginForm {
    open spec fn carried_token(&self) -> Seq<char> {
        self.csrf_token@
    }

    fn check_csrf(&self, token: &CsrfToken) -> (result: Result<(), VerificationFailure>) {
        token.verify(self.csrf_token.as_str())
    }
}

impl CheckCSRF for LogoutForm {
    open spec fn carried_token(&self) -> Seq<char> {
        self.csrf_token@
    }

    fn check_csrf(&self, token: &CsrfToken) -> (result: Result<(), VerificationFailure>) {
        token.verify(self.csrf_token.as_str())
    }
}

impl CheckCSRF for ChangePasswordForm {
    open spec fn carried_token(&self) -> Seq<char> {
        self.csrf_token@
    }

    fn check_csrf(&self, token: &CsrfToken) -> (result: Result<(), VerificationFailure>) {
        token.verify(self.csrf_token.as_str())
    }
}

impl CheckCSRF for UserEditForm {
    open spec fn carried_token(&self) -> Seq<char> {
        self.csrf_token@
    }

    fn check_csrf(&self, token: &CsrfToken) -> (result: Result<(), VerificationFailure>) {
        token.verify(self.csrf_token.as_str())
    }
}

impl CheckCSRF for InviteAddForm {
    open spec fn carried_token(&self) -> Seq<char> {
        self.csrf_token@
    }

    fn check_csrf(&self, token: &CsrfToken) -> (result: Result<(), VerificationFailure>) {
        token.verify(self.csrf_token.as_str())
    }
}

impl CheckCSRF for InviteRemoveForm {
    open spec fn carried_token(&self) -> Seq<char> {
        self.csrf_token@
    }

    fn check_csrf(&self, token: &CsrfToken) -> (result: Result<(), VerificationFailure>) {
        token.verify(self.csrf_token.as_str())
    }
}

impl CheckCSRF for BanReasonAddForm {
    open spec fn carried_token(&self) -> Seq<char> {
        self.csrf_token@
    }

    fn check_csrf(&self, token: &CsrfToken) -> (result: Result<(), VerificationFailure>) {
        token.verify(self.csrf_token.as_str())
    }
}

impl CheckCSRF for BanReasonEditForm {
    open spec fn carried_token(&self) -> Seq<char> {
        self.csrf_token@
    }

    fn check_csrf(&self, token: &CsrfToken) -> (result: Result<(), VerificationFailure>) {
        token.verify(self.csrf_token.as_str())
    }
}

impl CheckCSRF for PostBanForm {
    open spec fn carried_token(&self) -> Seq<char> {
        self.csrf_token@
    }

    fn check_csrf(&self, token: &CsrfToken) -> (result: Result<(), VerificationFailure>) {
        token.verify(self.csrf_token.as_str())
    }
}

impl CheckCSRF for PostUnbanForm {
    open spec fn carried_token(&self) -> Seq<char> {
        self.csrf_token@
    }

    fn check_csrf(&self, token: &CsrfToken) -> (result: Result<(), VerificationFailure>) {
        token.verify(self.csrf_token.as_str())
    }
}

impl CheckCSRF for PostBanFormRaw {
    open spec fn carried_token(&self) -> Seq<char> {
        self.csrf_token@
    }

    fn check_csrf(&self, token: &CsrfToken) -> (result: Result<(), VerificationFailure>) {
        token.verify(self.csrf_token.as_str())
    }
}

} // verus!
