use vstd::prelude::*;
use crate::model::{BackendError, Config, LocalUserView};

verus! {

/// What `bcrypt::verify` reports for `password` against `hash`: whether it
/// matches, or `None` where the hash cannot be read.
pub uninterp spec fn bcrypt_verdict(password: Seq<char>, hash: Seq<char>) -> Option<bool>;

/// Relies on `bcrypt::verify`: a constant-time comparison of the password
/// against a salted hash; its outcome depends on the two arguments alone.
#[verifier::external_body]
fn bcrypt_verify(password: &str, hash: &str) -> (r: Option<bool>)
    ensures
        r == bcrypt_verdict(password@, hash@),
{
    bcrypt::verify(password, hash).ok()
}

/// Relies on `bcrypt::hash`: the salt is random, and the hash it returns
/// verifies the password it was made from. A cost outside what bcrypt
/// allows gives `None`.
#[verifier::external_body]
pub(crate) fn bcrypt_hash(password: &str, cost: u32) -> (r: Option<String>)
    ensures
        r matches Some(h) ==> bcrypt_verdict(password@, h@) == Some(true),
{
    bcrypt::hash(password, cost).ok()
}

/// Whether `password` is the password of `u`; an account without a local
/// password accepts none.
pub open spec fn password_matches(u: LocalUserView, password: Seq<char>) -> bool {
    match u.local_user.password_encrypted {
        Some(h) => bcrypt_verdict(password, h@) == Some(true),
        None => false,
    }
}

/// Whether `r` is the error `e`.
pub open spec fn fails_with<T>(r: Result<T, BackendError>, e: BackendError) -> bool {
    r matches Err(x) && x == e
}

/// Checks `password` against the stored hash of `user`. A missing hash, an
/// unreadable hash and a wrong password all give `InvalidLogin`.
pub fn validate_password(user: &LocalUserView, password: &str) -> (r: Result<(), BackendError>)
    ensures
        r is Ok <==> password_matches(*user, password@),
        r is Err ==> fails_with(r, BackendError::InvalidLogin),
{
    let valid = match &user.local_user.password_encrypted {
        Some(h) => match bcrypt_verify(password, h.as_str()) {
            Some(v) => v,
            None => false,
        },
        None => false,
    };
    if !valid {
        return Err(BackendError::InvalidLogin);
    }
    Ok(())
}

/// Why a new password is refused, if it is.
pub open spec fn new_password_problem(new: Seq<char>, confirm: Seq<char>, conf: Config) -> Option<
    BackendError,
> {
    if new != confirm {
        Some(BackendError::Mismatch)
    } else if new.len() < conf.min_password_length || new.len() > conf.max_password_length {
        Some(BackendError::TooWeak)
    } else {
        None
    }
}

/// Checks a new password and its confirmation: they must agree, and the
/// password's length in characters must lie within the configured bounds.
pub fn validate_new_password(new: &str, confirm: &str, conf: &Config) -> (r: Result<(), BackendError>)
    ensures
        match new_password_problem(new@, confirm@, *conf) {
            Some(e) => fails_with(r, e),
            None => r is Ok,
        },
{
    if !crate::text::same_text(new, confirm) {
        return Err(BackendError::Mismatch);
    }
    let n = new.unicode_len();
    if n < conf.min_password_length || n > conf.max_password_length {
        return Err(BackendError::TooWeak);
    }
    Ok(())
}

} // verus!
