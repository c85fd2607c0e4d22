//! The login decision: given the stored credential row the caller looked
//! up (or none) and the password the client presented, decide the outcome.
//! Password checking itself is bcrypt's; the decision around it is
//! verified.

use vstd::prelude::*;

use crate::models::AuthResponse;

verus! {

/// The columns of a stored user row that the login decision reads. The
/// caller looks the row up by email among active users.
#[derive(Clone, Debug)]
pub struct StoredUser {
    pub id: String,
    pub password_hash: String,
    pub role: String,
}

/// Whether bcrypt accepts this password against this stored hash. The
/// outcome is a function of the two strings alone: the salt and cost are
/// embedded in the hash.
pub uninterp spec fn bcrypt_matches(password: Seq<char>, hash: Seq<char>) -> bool;

#[verifier::external_type_specification]
#[verifier::external_body]
pub struct ExBcryptError(bcrypt::BcryptError);

/// Relies on bcrypt::verify: it extracts salt and cost from the hash,
/// recomputes the digest from the password and compares, so its outcome
/// depends on the two arguments alone; it errs on a malformed hash.
#[verifier::external_body]
fn bcrypt_verify(password: &str, hash: &str) -> (r: Result<bool, bcrypt::BcryptError>)
    ensures
        r matches Ok(b) ==> b == bcrypt_matches(password@, hash@),
{
    bcrypt::verify(password, hash)
}

/// The outcome of a login once the password check came back: an accepted
/// password yields the authenticated payload, a rejected one the uniform
/// refusal.
pub fn login_response(u: &StoredUser, email: &str, valid: bool) -> (r: Result<
    AuthResponse,
    String,
>)
    ensures
        valid ==> (r matches Ok(a) && a.id@ == u.id@ && a.email@ == email@ && a.role@ == u.role@),
        !valid ==> (r matches Err(m) && m@ == "Invalid credentials"@),
{
    if valid {
        Ok(AuthResponse { id: u.id.clone(), email: email.to_owned(), role: u.role.clone() })
    } else {
        Err("Invalid credentials".to_owned())
    }
}

/// Decides a login request. A missing row and a rejected password are
/// deliberately indistinguishable to the client; a stored hash that
/// bcrypt cannot parse is reported as corrupt.
pub fn login(user: Option<&StoredUser>, email: &str, password: &str) -> (r: Result<
    AuthResponse,
    String,
>)
    ensures
        user is None ==> (r matches Err(m) && m@ == "Invalid credentials"@),
        user matches Some(u) ==> (r matches Ok(a) ==> (bcrypt_matches(
            password@,
            u.password_hash@,
        ) && a.id@ == u.id@ && a.email@ == email@ && a.role@ == u.role@)),
        user matches Some(u) ==> (r matches Err(m) ==> ((m@ == "Invalid credentials"@
            && !bcrypt_matches(password@, u.password_hash@)) || m@
            == "Invalid password hash"@)),
{
    match user {
        None => Err("Invalid credentials".to_owned()),
        Some(u) => {
            match bcrypt_verify(password, u.password_hash.as_str()) {
                Err(_) => Err("Invalid password hash".to_owned()),
                Ok(valid) => login_response(u, email, valid),
            }
        },
    }
}

} // verus!
