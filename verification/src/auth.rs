use vstd::prelude::*;
use crate::facts::{Fact, FactModel, facts_model, fact_model, user_model, role_model};
use crate::keys::RootKeyPair;
use crate::password::{PasswordCheck, check_password, is_valid_password_hash, password_matches};
use crate::policy::{
    mutate_allowed, share_allowed, eval_mutate, eval_share, lemma_policies_ignore_unrecognized,
};
use crate::token::{token_facts, mint_token, verify_token};

verus! {

/// Why a token was not accepted: it failed base64 decoding, block
/// parsing or signature verification (`TokenParseError`, a hard
/// rejection), or it verified but its facts satisfy no allow rule of the
/// requested policy (`PolicyDenied`).
#[derive(Clone, Copy, Debug, PartialEq, Eq, Structural)]
pub enum AuthorizationError {
    TokenParseError,
    PolicyDenied,
}

/// Minting a token failed inside the signing layer. With a well-formed
/// root key this indicates a defect in key material, not user input.
#[derive(Clone, Copy, Debug, PartialEq, Eq, Structural)]
pub struct TokenBuildError;

/// Why `authenticate` failed outright (a wrong password is a normal
/// negative result, not an error): the stored password hash cannot be
/// parsed, or the token could not be built.
#[derive(Clone, Copy, Debug, PartialEq, Eq, Structural)]
pub enum AuthenticateError {
    StoredCredentialCorrupt,
    TokenBuild,
}

/// A user's credentials as the external credential store hands them
/// over: identity, role set and stored password hash. Read-only here.
pub struct UserRecord {
    pub user_id: String,
    pub roles: Vec<String>,
    pub hashed_password: String,
}

/// What a login attempt produced. A wrong password yields
/// `success == false` and no token; it is not an error.
#[derive(Debug, PartialEq, Eq)]
pub struct LoginResult {
    pub success: bool,
    pub message: Option<String>,
    pub token: Option<String>,
}

/// The fact set minted for a login: the user's identity fact plus one
/// role fact per role. Roles act as a set: order and repetition do not
/// matter.
pub open spec fn login_facts(uid: Seq<char>, roles: Seq<Seq<char>>) -> Set<FactModel> {
    Set::new(
        |m: FactModel|
            m == user_model(uid) || exists|k: int|
                0 <= k < roles.len() && m == role_model(uid, roles[k]),
    )
}

/// Duplicated or reordered roles mint the same fact set, so they cannot
/// change any authorization outcome decided over it.
pub proof fn lemma_duplicate_roles_same_facts(
    uid: Seq<char>,
    roles1: Seq<Seq<char>>,
    roles2: Seq<Seq<char>>,
)
    requires
        roles1.to_set() == roles2.to_set(),
    ensures
        login_facts(uid, roles1) == login_facts(uid, roles2),
{
    assert forall|m: FactModel| login_facts(uid, roles1).contains(m) implies login_facts(
        uid,
        roles2,
    ).contains(m) by {
        if m != user_model(uid) {
            let k = choose|k: int| 0 <= k < roles1.len() && m == role_model(uid, roles1[k]);
            assert(roles1.to_set().contains(roles1[k]));
            assert(roles2.to_set().contains(roles1[k]));
            let k2 = choose|k2: int| 0 <= k2 < roles2.len() && roles2[k2] == roles1[k];
            assert(m == role_model(uid, roles2[k2]));
        }
    }
    assert forall|m: FactModel| login_facts(uid, roles2).contains(m) implies login_facts(
        uid,
        roles1,
    ).contains(m) by {
        if m != user_model(uid) {
            let k = choose|k: int| 0 <= k < roles2.len() && m == role_model(uid, roles2[k]);
            assert(roles2.to_set().contains(roles2[k]));
            assert(roles1.to_set().contains(roles2[k]));
            let k2 = choose|k2: int| 0 <= k2 < roles1.len() && roles1[k2] == roles2[k];
            assert(m == role_model(uid, roles1[k2]));
        }
    }
    assert(login_facts(uid, roles1) =~= login_facts(uid, roles2));
}

/// Answers "log this user in". The credential-store lookup is performed
/// by the caller, who passes the record it found (or `None`); this keeps
/// the decision logic free of the store's transport concerns.
pub struct Authenticator {
    root: RootKeyPair,
}

impl Authenticator {
    /// The bytes of the root private key this authenticator signs with.
    pub closed spec fn root_key(&self) -> Seq<u8> {
        self.root@
    }

    /// The root keypair is injected explicitly so the component can be
    /// exercised with arbitrary keys.
    pub fn new(root: RootKeyPair) -> (a: Authenticator)
        ensures
            a.root_key() == root@,
    {
        Authenticator { root }
    }

    /// Logs a user in against the record the credential store returned.
    ///
    /// With no record, the guest path mints a token holding only the
    /// identity fact and reports a readonly login. With a record, the
    /// password is checked against the stored hash: a match mints the
    /// identity fact plus one role fact per role; a mismatch is a normal
    /// negative result. A stored hash that cannot be parsed is a
    /// recoverable error, and a minting failure is surfaced, never
    /// swallowed.
    pub fn authenticate(&self, user_id: &str, password: &str, record: Option<UserRecord>) -> (r:
        Result<LoginResult, AuthenticateError>)
        ensures
            record is None ==> (r matches Ok(lr) ==> (lr.success && (lr.message matches Some(m)
                && m@ == "readonly user"@) && (lr.token matches Some(t) && token_facts(
                t@,
                self.root_key(),
            ) == Some(login_facts(user_id@, Seq::<Seq<char>>::empty()))))),
            record is None && r is Err ==> r->Err_0 == AuthenticateError::TokenBuild,
            record matches Some(rec) ==> ((r == Err::<LoginResult, AuthenticateError>(
                AuthenticateError::StoredCredentialCorrupt,
            ))
                <==> !is_valid_password_hash(rec.hashed_password@)),
            record matches Some(rec) ==> ((is_valid_password_hash(rec.hashed_password@)
                && !password_matches(password@, rec.hashed_password@)) ==> (r matches Ok(lr)
                && !lr.success && lr.token is None && (lr.message matches Some(m) && m@
                == "incorrect password"@))),
            record matches Some(rec) ==> ((is_valid_password_hash(rec.hashed_password@)
                && password_matches(password@, rec.hashed_password@)) ==> ((r is Err ==> r->Err_0
                == AuthenticateError::TokenBuild) && (r matches Ok(lr) ==> (lr.success
                && (lr.message matches Some(m) && m@ == "authenticated"@) && (lr.token matches
            Some(t) && token_facts(t@, self.root_key()) == Some(
                login_facts(rec.user_id@, rec.roles@.map_values(|s: String| s@)),
            )))))),
    {
        match record {
            None => {
                let mut facts: Vec<Fact> = Vec::new();
                facts.push(Fact::User { id: user_id.to_owned() });
                match mint_token(&self.root, &facts) {
                    Ok(t) => {
                        proof {
                            let models = facts@.map_values(|f: Fact| fact_model(f));
                            assert(models[0] == user_model(user_id@));
                            assert forall|m: FactModel| facts_model(facts@).contains(m) implies
                                login_facts(user_id@, Seq::<Seq<char>>::empty()).contains(m) by {
                                let j = choose|j: int|
                                    0 <= j < models.len() && models[j] == m;
                                assert(j == 0);
                            }
                            assert(facts_model(facts@) =~= login_facts(
                                user_id@,
                                Seq::<Seq<char>>::empty(),
                            ));
                        }
                        Ok(
                            LoginResult {
                                success: true,
                                message: Some(String::from_str("readonly user")),
                                token: Some(t),
                            },
                        )
                    },
                    Err(_) => Err(AuthenticateError::TokenBuild),
                }
            },
            Some(rec) => {
                match check_password(password, rec.hashed_password.as_str()) {
                    PasswordCheck::BadHash => Err(AuthenticateError::StoredCredentialCorrupt),
                    PasswordCheck::Mismatch => Ok(
                        LoginResult {
                            success: false,
                            message: Some(String::from_str("incorrect password")),
                            token: None,
                        },
                    ),
                    PasswordCheck::Match => {
                        let mut facts: Vec<Fact> = Vec::new();
                        facts.push(Fact::User { id: rec.user_id.clone() });
                        let nroles: usize = rec.roles.len();
                        let mut k: usize = 0;
                        while k < nroles
                            invariant
                                nroles == rec.roles@.len(),
                                k <= nroles,
                                facts@.len() == k + 1,
                                fact_model(facts@[0]) == user_model(rec.user_id@),
                                forall|j: int| 1 <= j < facts@.len() ==> fact_model(
                                    #[trigger] facts@[j],
                                ) == role_model(rec.user_id@, rec.roles@[j - 1]@),
                            decreases nroles - k,
                        {
                            facts.push(
                                Fact::Role { id: rec.user_id.clone(), role: rec.roles[k].clone() },
                            );
                            k = k + 1;
                        }
                        match mint_token(&self.root, &facts) {
                            Ok(t) => {
                                proof {
                                    let models = facts@.map_values(|f: Fact| fact_model(f));
                                    let rviews = rec.roles@.map_values(|s: String| s@);
                                    let target = login_facts(rec.user_id@, rviews);
                                    assert forall|m: FactModel| facts_model(facts@).contains(m)
                                        implies target.contains(m) by {
                                        let j = choose|j: int|
                                            0 <= j < models.len() && models[j] == m;
                                        if j != 0 {
                                            assert(m == role_model(rec.user_id@, rviews[j - 1]));
                                        }
                                    }
                                    assert forall|m: FactModel| target.contains(m) implies
                                        facts_model(facts@).contains(m) by {
                                        if m == user_model(rec.user_id@) {
                                            assert(models[0] == m);
                                            assert(models.contains(m));
                                        } else {
                                            let k2 = choose|k2: int|
                                                0 <= k2 < rviews.len() && m == role_model(
                                                    rec.user_id@,
                                                    rviews[k2],
                                                );
                                            assert(models[k2 + 1] == m);
                                            assert(models.contains(m));
                                        }
                                    }
                                    assert(facts_model(facts@) =~= target);
                                }
                                Ok(
                                    LoginResult {
                                        success: true,
                                        message: Some(String::from_str("authenticated")),
                                        token: Some(t),
                                    },
                                )
                            },
                            Err(_) => Err(AuthenticateError::TokenBuild),
                        }
                    },
                }
            },
        }
    }
}

/// Answers "may this token perform this action": verifies the token
/// against the root public key, then evaluates the fixed policy for the
/// requested action over the verified facts. No fact is trusted before
/// the signature check.
pub struct Authorizer {
    root: RootKeyPair,
}

impl Authorizer {
    /// The bytes of the root private key whose public half verifies
    /// tokens.
    pub closed spec fn root_key(&self) -> Seq<u8> {
        self.root@
    }

    /// The root keypair is injected explicitly so the component can be
    /// exercised with arbitrary keys.
    pub fn new(root: RootKeyPair) -> (a: Authorizer)
        ensures
            a.root_key() == root@,
    {
        Authorizer { root }
    }

    /// Allows a mutation if and only if the token verifies and its facts
    /// bind some identity to both `user(<id>)` and `role(<id>, "admin")`.
    pub fn authorize_mutate(&self, token: &str) -> (r: Result<(), AuthorizationError>)
        ensures
            r is Ok <==> (token_facts(token@, self.root_key()) matches Some(fs) && mutate_allowed(
                fs,
            )),
            r == Err::<(), AuthorizationError>(AuthorizationError::TokenParseError) <==>
                token_facts(token@, self.root_key()) is None,
            r == Err::<(), AuthorizationError>(AuthorizationError::PolicyDenied) <==> (token_facts(
                token@,
                self.root_key(),
            ) matches Some(fs) && !mutate_allowed(fs)),
    {
        let facts = match verify_token(&self.root, token) {
            Ok(f) => f,
            Err(e) => {
                return Err(e);
            },
        };
        proof {
            lemma_policies_ignore_unrecognized(token_facts(token@, self.root_key())->Some_0);
        }
        if eval_mutate(&facts) {
            Ok(())
        } else {
            Err(AuthorizationError::PolicyDenied)
        }
    }

    /// Allows sharing if and only if the token verifies and its facts
    /// carry any `user(<id>)`.
    pub fn authorize_share(&self, token: &str) -> (r: Result<(), AuthorizationError>)
        ensures
            r is Ok <==> (token_facts(token@, self.root_key()) matches Some(fs) && share_allowed(
                fs,
            )),
            r == Err::<(), AuthorizationError>(AuthorizationError::TokenParseError) <==>
                token_facts(token@, self.root_key()) is None,
            r == Err::<(), AuthorizationError>(AuthorizationError::PolicyDenied) <==> (token_facts(
                token@,
                self.root_key(),
            ) matches Some(fs) && !share_allowed(fs)),
    {
        let facts = match verify_token(&self.root, token) {
            Ok(f) => f,
            Err(e) => {
                return Err(e);
            },
        };
        proof {
            lemma_policies_ignore_unrecognized(token_facts(token@, self.root_key())->Some_0);
        }
        if eval_share(&facts) {
            Ok(())
        } else {
            Err(AuthorizationError::PolicyDenied)
        }
    }
}

} // verus!
