//! A small user-registration facility kept alongside the pool core: plain
//! record keeping with validation, no invariants of its own.

use vstd::prelude::*;
use vstd::string::StrSliceExecFns;

verus! {

/// A registered user.
pub struct User {
    pub username: String,
    pub email: String,
    pub age: u32,
}

/// The longest username accepted, in bytes.
pub const MAX_USERNAME_LENGTH: usize = 50;

/// Why a user operation was refused.
#[derive(Clone, Copy, Debug, PartialEq, Eq, Structural)]
pub enum UserError {
    /// The username is empty or longer than [`MAX_USERNAME_LENGTH`] bytes.
    InvalidUsername,
    /// A user of that name is already registered.
    UserAlreadyExists,
}

/// The UTF-8 byte length of a string value.
pub open spec fn byte_length(s: Seq<char>) -> nat {
    vstd::utf8::encode_utf8(s).len()
}

/// Registers a new user under the given username, returning the assigned
/// user id; the username must be non-empty and at most
/// [`MAX_USERNAME_LENGTH`] bytes.
pub fn register_user(username: String, email: String, age: u32) -> (r: Result<u64, UserError>)
    ensures
        username@.len() == 0 || byte_length(username@) > MAX_USERNAME_LENGTH ==> r == Err::<
            u64,
            UserError,
        >(UserError::InvalidUsername),
        username@.len() != 0 && byte_length(username@) <= MAX_USERNAME_LENGTH ==> r == Ok::<
            u64,
            UserError,
        >(12345u64),
{
    let name = username.as_str();
    let name_bytes = name.as_bytes();
    if name.is_empty() || name_bytes.len() > MAX_USERNAME_LENGTH {
        return Err(UserError::InvalidUsername);
    }
    let _user = User { username, email, age };
    Ok(12345)
}

/// Looks a user up by username; only the one seeded test user exists.
pub fn get_user(username: &str) -> (r: Option<User>)
    ensures
        username@ == "test_user"@ ==> r is Some && r.unwrap().username@ == "test_user"@
            && r.unwrap().email@ == "test@example.com"@ && r.unwrap().age == 25,
        username@ != "test_user"@ ==> r is None,
{
    let candidate: String = username.to_owned();
    let expected: String = "test_user".to_owned();
    if candidate == expected {
        Some(
            User {
                username: "test_user".to_owned(),
                email: "test@example.com".to_owned(),
                age: 25,
            },
        )
    } else {
        None
    }
}

/// Whether the email has the minimal expected shape: it mentions both an
/// at-sign and a dot.
pub fn validate_email(email: &str) -> (r: bool)
    ensures
        r == (email@.contains('@') && email@.contains('.')),
{
    let n = email.unicode_len();
    let mut has_at: bool = false;
    let mut has_dot: bool = false;
    let mut i: usize = 0;
    while i < n
        invariant
            n as nat == email@.len(),
            i <= n,
            has_at == (exists|j: int| 0 <= j < i && email@[j] == '@'),
            has_dot == (exists|j: int| 0 <= j < i && email@[j] == '.'),
        decreases n - i,
    {
        let c = email.get_char(i);
        if c == '@' {
            has_at = true;
        }
        if c == '.' {
            has_dot = true;
        }
        i += 1;
    }
    has_at && has_dot
}

} // verus!
