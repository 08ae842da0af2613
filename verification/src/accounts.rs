//! The rules around the user registry that need no store: who may call, who may log in,
//! and which new users are accepted.

use crate::text::same_text;
use vstd::prelude::*;
use vstd::string::*;

verus! {

/// `text` without the whitespace at its start and at its end.
pub uninterp spec fn trimmed(text: Seq<char>) -> Seq<char>;

/// `text` with every character in its lower-case form.
pub uninterp spec fn lowercased(text: Seq<char>) -> Seq<char>;

/// Removes leading and trailing whitespace with `str::trim`. The contract only names the
/// result: the same text always gives the same answer.
#[verifier::external_body]
fn trim(text: &str) -> (out: String)
    ensures
        out@ == trimmed(text@),
{
    text.trim().to_string()
}

/// Lower-cases with `str::to_lowercase`. The contract only names the result: the same text
/// always gives the same answer.
#[verifier::external_body]
fn lowercase(text: &str) -> (out: String)
    ensures
        out@ == lowercased(text@),
{
    text.to_lowercase()
}

/// The values that are fixed when the process starts.
#[derive(Debug, PartialEq, Eq)]
pub struct AdminConfig {
    /// The shared secret that callers present.
    pub auth_token: String,
    /// The name and the password of the one account that may log in.
    pub app_user: String,
    pub app_pass: String,
    /// The base address of the remote session service.
    pub bot_url: String,
}

impl AdminConfig {
    /// Whether a caller who presented `presented` may pass: the caller presented a
    /// credential, and it is the shared secret.
    pub fn accepts_credential(&self, presented: Option<&str>) -> (ok: bool)
        ensures
            ok == (presented matches Some(secret) && secret@ == self.auth_token@),
    {
        match presented {
            Some(secret) => same_text(secret, self.auth_token.as_str()),
            None => false,
        }
    }

    /// Logs in: the shared secret for the one account's name and password, nothing for
    /// any other.
    pub fn login(&self, username: &str, password: &str) -> (token: Option<String>)
        ensures
            match token {
                Some(secret) => username@ == self.app_user@ && password@ == self.app_pass@
                    && secret@ == self.auth_token@,
                None => !(username@ == self.app_user@ && password@ == self.app_pass@),
            },
    {
        if same_text(username, self.app_user.as_str()) && same_text(
            password,
            self.app_pass.as_str(),
        ) {
            Some(self.auth_token.clone())
        } else {
            None
        }
    }
}

/// What a user may do.
#[derive(Clone, Copy, PartialEq, Eq, Structural, Debug)]
pub enum Role {
    Admin,
    User,
}

/// The role that `text` names.
pub open spec fn role_named(text: Seq<char>) -> Option<Role> {
    if text == "admin"@ {
        Some(Role::Admin)
    } else if text == "user"@ {
        Some(Role::User)
    } else {
        None
    }
}

impl Role {
    /// The name of the role.
    pub fn name(&self) -> (text: String)
        ensures
            role_named(text@) == Some(*self),
    {
        proof {
            reveal_strlit("admin");
            reveal_strlit("user");
            assert("admin"@.len() != "user"@.len());
        }
        match self {
            Role::Admin => String::from_str("admin"),
            Role::User => String::from_str("user"),
        }
    }
}

/// A user to be created, once accepted.
#[derive(Debug, PartialEq, Eq)]
pub struct NewUser {
    pub phone: String,
    pub email: String,
    pub name: Option<String>,
    pub role: Role,
}

pub struct NewUserView {
    pub phone: Seq<char>,
    pub email: Seq<char>,
    pub name: Option<Seq<char>>,
    pub role: Role,
}

impl View for NewUser {
    type V = NewUserView;

    open spec fn view(&self) -> NewUserView {
        NewUserView {
            phone: self.phone@,
            email: self.email@,
            name: self.name.deep_view(),
            role: self.role,
        }
    }
}

/// Why a new user is refused.
#[derive(Clone, Copy, PartialEq, Eq, Structural, Debug)]
pub enum CreateUserError {
    /// Phone, email or role is empty.
    MissingFields,
    /// The role is neither `admin` nor `user`.
    InvalidRole,
}

/// The text that reports why a new user is refused.
pub open spec fn refusal_text(error: CreateUserError) -> Seq<char> {
    match error {
        CreateUserError::MissingFields => "phone, email y role son obligatorios"@,
        CreateUserError::InvalidRole => "role debe ser 'admin' o 'user'"@,
    }
}

impl CreateUserError {
    /// The text that reports the refusal.
    pub fn message(&self) -> (text: String)
        ensures
            text@ == refusal_text(*self),
    {
        match self {
            CreateUserError::MissingFields => String::from_str(
                "phone, email y role son obligatorios",
            ),
            CreateUserError::InvalidRole => String::from_str("role debe ser 'admin' o 'user'"),
        }
    }
}

/// The user that the cleaned values `phone`, `email`, `name` and `role` make, or why they
/// make none: phone, email and role must not be empty, and the role must be `admin` or
/// `user`. An empty name counts as no name.
pub open spec fn checked_user(
    phone: Seq<char>,
    email: Seq<char>,
    name: Option<Seq<char>>,
    role: Seq<char>,
) -> Result<NewUserView, CreateUserError> {
    if phone.len() == 0 || email.len() == 0 || role.len() == 0 {
        Err(CreateUserError::MissingFields)
    } else {
        match role_named(role) {
            None => Err(CreateUserError::InvalidRole),
            Some(role) => Ok(
                NewUserView {
                    phone,
                    email,
                    name: match name {
                        Some(given) => if given.len() == 0 {
                            None
                        } else {
                            Some(given)
                        },
                        None => None,
                    },
                    role,
                },
            ),
        }
    }
}

/// The user that the raw values of a request make: phone and name are trimmed, email and
/// role are trimmed and lower-cased, and the outcome is checked.
pub open spec fn prepared_user(
    phone: Seq<char>,
    email: Seq<char>,
    name: Option<Seq<char>>,
    role: Seq<char>,
) -> Result<NewUserView, CreateUserError> {
    checked_user(
        trimmed(phone),
        lowercased(trimmed(email)),
        match name {
            Some(given) => Some(trimmed(given)),
            None => None,
        },
        lowercased(trimmed(role)),
    )
}

/// Checks cleaned values and makes the user to be created.
pub fn check_new_user(phone: String, email: String, name: Option<String>, role: String) -> (user:
    Result<NewUser, CreateUserError>)
    ensures
        match checked_user(phone@, email@, name.deep_view(), role@) {
            Ok(accepted) => user is Ok && user->Ok_0@ == accepted,
            Err(error) => user == Err::<NewUser, CreateUserError>(error),
        },
{
    if phone.as_str().is_empty() || email.as_str().is_empty() || role.as_str().is_empty() {
        return Err(CreateUserError::MissingFields);
    }
    let role = if same_text(role.as_str(), "admin") {
        Role::Admin
    } else if same_text(role.as_str(), "user") {
        Role::User
    } else {
        return Err(CreateUserError::InvalidRole);
    };
    let name = match name {
        Some(given) => if given.as_str().is_empty() {
            None
        } else {
            Some(given)
        },
        None => None,
    };
    Ok(NewUser { phone, email, name, role })
}

/// Cleans the raw values of a request and makes the user to be created.
pub fn prepare_new_user(phone: &str, email: &str, name: Option<&str>, role: &str) -> (user: Result<
    NewUser,
    CreateUserError,
>)
    ensures
        match prepared_user(
            phone@,
            email@,
            match name {
                Some(given) => Some(given@),
                None => None,
            },
            role@,
        ) {
            Ok(accepted) => user is Ok && user->Ok_0@ == accepted,
            Err(error) => user == Err::<NewUser, CreateUserError>(error),
        },
{
    let phone = trim(phone);
    let email = lowercase(trim(email).as_str());
    let name = match name {
        Some(given) => Some(trim(given)),
        None => None,
    };
    let role = lowercase(trim(role).as_str());
    check_new_user(phone, email, name, role)
}

/// What is reported when the store refused a new user as a duplicate: which of phone and
/// email is taken already.
pub open spec fn conflict_text(phone_taken: bool, email_taken: bool) -> Seq<char> {
    if phone_taken && email_taken {
        "phone y email ya existen"@
    } else if phone_taken {
        "phone ya existe"@
    } else if email_taken {
        "email ya existe"@
    } else {
        "conflicto de unicidad"@
    }
}

/// The text that reports a duplicate.
pub fn conflict_message(phone_taken: bool, email_taken: bool) -> (text: String)
    ensures
        text@ == conflict_text(phone_taken, email_taken),
{
    if phone_taken && email_taken {
        String::from_str("phone y email ya existen")
    } else if phone_taken {
        String::from_str("phone ya existe")
    } else if email_taken {
        String::from_str("email ya existe")
    } else {
        String::from_str("conflicto de unicidad")
    }
}

} // verus!
