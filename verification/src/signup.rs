//! User-facing sign-up data, checked field by field.
use vstd::prelude::*;

verus! {

/// A user name. This library's rule for it: not empty.
pub struct Username(String);

/// A password. This library's rule for it: not empty.
pub struct Password(String);

/// An e-mail address. This library's rule for it: it holds an `@`.
pub struct Email(String);

/// Which field of a sign-up request was refused.
#[derive(Debug, Clone, Copy, PartialEq, Eq, Structural)]
pub enum ValidationError {
    Username,
    Password,
    Email,
}

/// This library's rule for user names.
pub open spec fn valid_username(s: Seq<char>) -> bool {
    s.len() > 0
}

/// This library's rule for passwords.
pub open spec fn valid_password(s: Seq<char>) -> bool {
    s.len() > 0
}

/// This library's rule for e-mail addresses.
pub open spec fn valid_email(s: Seq<char>) -> bool {
    s.contains('@')
}

impl Username {
    pub closed spec fn spec_text(&self) -> Seq<char> {
        self.0@
    }

    pub fn try_new(s: String) -> (r: Result<Username, ValidationError>)
        ensures
            valid_username(s@) ==> (r matches Ok(u) && u.spec_text() == s@),
            !valid_username(s@) ==> r == Err::<Username, ValidationError>(ValidationError::Username),
    {
        if !s.as_str().is_empty() {
            Ok(Username(s))
        } else {
            Err(ValidationError::Username)
        }
    }

    pub fn as_str(&self) -> (r: &str)
        ensures
            r@ == self.spec_text(),
    {
        self.0.as_str()
    }
}

impl Password {
    pub closed spec fn spec_text(&self) -> Seq<char> {
        self.0@
    }

    pub fn try_new(s: String) -> (r: Result<Password, ValidationError>)
        ensures
            valid_password(s@) ==> (r matches Ok(p) && p.spec_text() == s@),
            !valid_password(s@) ==> r == Err::<Password, ValidationError>(ValidationError::Password),
    {
        if !s.as_str().is_empty() {
            Ok(Password(s))
        } else {
            Err(ValidationError::Password)
        }
    }

    pub fn as_str(&self) -> (r: &str)
        ensures
            r@ == self.spec_text(),
    {
        self.0.as_str()
    }
}

impl Email {
    pub closed spec fn spec_text(&self) -> Seq<char> {
        self.0@
    }

    pub fn try_new(s: String) -> (r: Result<Email, ValidationError>)
        ensures
            valid_email(s@) ==> (r matches Ok(e) && e.spec_text() == s@),
            !valid_email(s@) ==> r == Err::<Email, ValidationError>(ValidationError::Email),
    {
        let text = s.as_str();
        let n = text.unicode_len();
        let mut found = false;
        let mut i: usize = 0;
        while i < n
            invariant
                i <= n,
                n == text@.len(),
                text@ == s@,
                found <==> exists|j: int| 0 <= j < i && text@[j] == '@',
            decreases n - i,
        {
            if text.get_char(i) == '@' {
                found = true;
            }
            i = i + 1;
        }
        if found {
            Ok(Email(s))
        } else {
            Err(ValidationError::Email)
        }
    }

    pub fn as_str(&self) -> (r: &str)
        ensures
            r@ == self.spec_text(),
    {
        self.0.as_str()
    }
}

/// User facing signup data request
pub struct Signup {
    pub username: Username,
    pub password: Password,
    pub email: Email,
}

/// The first field of a sign-up request that is refused, checking the user
/// name, then the password, then the e-mail address.
pub open spec fn first_invalid_field(username: Seq<char>, password: Seq<char>, email: Seq<char>) -> Option<ValidationError> {
    if !valid_username(username) {
        Some(ValidationError::Username)
    } else if !valid_password(password) {
        Some(ValidationError::Password)
    } else if !valid_email(email) {
        Some(ValidationError::Email)
    } else {
        None
    }
}

impl Signup {
    pub fn new(username: String, password: String, email: String) -> (r: Result<Self, ValidationError>)
        ensures
            match first_invalid_field(username@, password@, email@) {
                Some(e) => r == Err::<Signup, ValidationError>(e),
                None => r matches Ok(s) && s.username.spec_text() == username@
                    && s.password.spec_text() == password@ && s.email.spec_text() == email@,
            },
    {
        Ok(Signup {
            username: Username::try_new(username)?,
            password: Password::try_new(password)?,
            email: Email::try_new(email)?,
        })
    }
}

/// The query that looks up the user a sign-up created, and its bindings, in
/// the order they are bound.
pub struct UserLookup {
    pub query: String,
    pub bindings: Vec<(String, String)>,
}

/// The query for the new user: the users table and the e-mail address of the
/// sign-up are bound to `$table` and `$email`.
pub fn user_lookup(signup: &Signup, users_table: &str) -> (r: UserLookup)
    ensures
        r.query@ == "SELECT * FROM type::table($table) WHERE email = $email"@,
        r.bindings@.len() == 2,
        r.bindings@[0].0@ == "email"@,
        r.bindings@[0].1@ == signup.email.spec_text(),
        r.bindings@[1].0@ == "table"@,
        r.bindings@[1].1@ == users_table@,
{
    let mut bindings: Vec<(String, String)> = Vec::new();
    bindings.push(("email".to_owned(), signup.email.as_str().to_owned()));
    bindings.push(("table".to_owned(), users_table.to_owned()));
    UserLookup { query: "SELECT * FROM type::table($table) WHERE email = $email".to_owned(), bindings }
}

/// Why a sign-up did not give a user.
#[derive(Debug)]
pub enum AuthError {
    /// The database accepted the sign-up but then held no user for it.
    InternalInvariantBroken(String),
}

/// The outcome of a sign-up, given the user record that the database returns
/// for the new address afterwards: that user, or an error when there is none.
pub fn signup_outcome<U>(new_user: Option<U>) -> (r: Result<U, AuthError>)
    ensures
        new_user matches Some(u) ==> r == Ok::<U, AuthError>(u),
        new_user is None ==> (r matches Err(AuthError::InternalInvariantBroken(m))
            && m@ == "Couldn't find user after signup"@),
{
    match new_user {
        None => Err(AuthError::InternalInvariantBroken("Couldn't find user after signup".to_owned())),
        Some(user) => Ok(user),
    }
}

} // verus!
