use vstd::prelude::*;

verus! {

/// Whether a stored string parses as a usable password hash. Names the
/// success of `argon2::PasswordHash::new` on the string, a function of
/// the string alone.
pub uninterp spec fn is_valid_password_hash(stored: Seq<char>) -> bool;

/// Whether a plaintext password matches a stored password hash. Names
/// the success of argon2's `verify_password`, which recomputes the hash
/// with the parameters and salt carried by the stored string: a
/// deterministic function of the two strings.
pub uninterp spec fn password_matches(password: Seq<char>, stored: Seq<char>) -> bool;

/// The outcome of checking a plaintext password against a stored hash.
pub(crate) enum PasswordCheck {
    /// The hash parsed and the password matches it.
    Match,
    /// The hash parsed and the password does not match it.
    Mismatch,
    /// The stored hash cannot be parsed: the stored credential is
    /// corrupt, whatever the password.
    BadHash,
}

/// Relies on argon2: `PasswordHash::new` parses the stored PHC string
/// (its success depends on the string alone, named
/// `is_valid_password_hash`), and `Argon2::default().verify_password`
/// accepts the password exactly when the recomputed hash matches (named
/// `password_matches`). The two calls stand together because the parsed
/// hash borrows the stored string.
#[verifier::external_body]
pub(crate) fn check_password(password: &str, stored: &str) -> (r: PasswordCheck)
    ensures
        r is BadHash <==> !is_valid_password_hash(stored@),
        is_valid_password_hash(stored@) ==> ((r is Match) <==> password_matches(
            password@,
            stored@,
        )),
{
    match argon2::PasswordHash::new(stored) {
        Err(_) => PasswordCheck::BadHash,
        Ok(hash) => {
            match argon2::PasswordVerifier::verify_password(
                &argon2::Argon2::default(),
                password.as_bytes(),
                &hash,
            ) {
                Ok(()) => PasswordCheck::Match,
                Err(_) => PasswordCheck::Mismatch,
            }
        },
    }
}

} // verus!
