use argon2::{Argon2, PasswordHasher};
use menu_auth::auth::{
    AuthenticateError, Authenticator, AuthorizationError, Authorizer, UserRecord,
};
use menu_auth::facts::Fact;
use menu_auth::keys::RootKeyPair;
use menu_auth::token::{mint_token, verify_token};

const ROOT_KEY_HEX: &str = "0123456789abcdef0123456789abcdef0123456789abcdef0123456789abcdef";
const OTHER_KEY_HEX: &str = "fedcba9876543210fedcba9876543210fedcba9876543210fedcba9876543210";

fn root_key() -> RootKeyPair {
    RootKeyPair::from_hex(ROOT_KEY_HEX).unwrap()
}

fn other_key() -> RootKeyPair {
    RootKeyPair::from_hex(OTHER_KEY_HEX).unwrap()
}

fn hash_of(password: &str) -> String {
    Argon2::default()
        .hash_password(password.as_bytes())
        .unwrap()
        .to_string()
}

fn record(user_id: &str, roles: &[&str], password: &str) -> UserRecord {
    UserRecord {
        user_id: user_id.to_string(),
        roles: roles.iter().map(|r| r.to_string()).collect(),
        hashed_password: hash_of(password),
    }
}

fn has_user(facts: &[Fact], who: &str) -> bool {
    facts
        .iter()
        .any(|f| matches!(f, Fact::User { id } if id == who))
}

fn has_role(facts: &[Fact], who: &str, which: &str) -> bool {
    facts
        .iter()
        .any(|f| matches!(f, Fact::Role { id, role } if id == who && role == which))
}

#[test]
fn alice_admin_logs_in_and_may_do_everything() {
    let auth = Authenticator::new(root_key());
    let result = auth
        .authenticate("alice", "correct horse", Some(record("alice", &["admin"], "correct horse")))
        .unwrap();
    assert!(result.success);
    assert_eq!(result.message.as_deref(), Some("authenticated"));
    let token = result.token.unwrap();

    let facts = verify_token(&root_key(), &token).unwrap();
    assert_eq!(facts.len(), 2);
    assert!(has_user(&facts, "alice"));
    assert!(has_role(&facts, "alice", "admin"));

    let authorizer = Authorizer::new(root_key());
    assert!(authorizer.authorize_mutate(&token).is_ok());
    assert!(authorizer.authorize_share(&token).is_ok());
}

#[test]
fn bob_without_roles_may_share_but_not_mutate() {
    let auth = Authenticator::new(root_key());
    let result = auth
        .authenticate("bob", "hunter2", Some(record("bob", &[], "hunter2")))
        .unwrap();
    assert!(result.success);
    let token = result.token.unwrap();

    let facts = verify_token(&root_key(), &token).unwrap();
    assert_eq!(facts.len(), 1);
    assert!(has_user(&facts, "bob"));

    let authorizer = Authorizer::new(root_key());
    assert_eq!(
        authorizer.authorize_mutate(&token),
        Err(AuthorizationError::PolicyDenied)
    );
    assert!(authorizer.authorize_share(&token).is_ok());
}

#[test]
fn unknown_carol_gets_readonly_token() {
    let auth = Authenticator::new(root_key());
    let result = auth.authenticate("carol", "whatever", None).unwrap();
    assert!(result.success);
    assert_eq!(result.message.as_deref(), Some("readonly user"));
    let token = result.token.unwrap();

    let facts = verify_token(&root_key(), &token).unwrap();
    assert_eq!(facts.len(), 1);
    assert!(has_user(&facts, "carol"));

    let authorizer = Authorizer::new(root_key());
    assert_eq!(
        authorizer.authorize_mutate(&token),
        Err(AuthorizationError::PolicyDenied)
    );
    assert!(authorizer.authorize_share(&token).is_ok());
}

#[test]
fn wrong_password_is_a_normal_negative_result() {
    let auth = Authenticator::new(root_key());
    let result = auth
        .authenticate("alice", "wrong guess", Some(record("alice", &["admin"], "correct horse")))
        .unwrap();
    assert!(!result.success);
    assert_eq!(result.message.as_deref(), Some("incorrect password"));
    assert!(result.token.is_none());
}

#[test]
fn corrupt_stored_hash_is_a_recoverable_error() {
    let auth = Authenticator::new(root_key());
    let rec = UserRecord {
        user_id: "dave".to_string(),
        roles: vec![],
        hashed_password: "not a phc string".to_string(),
    };
    assert_eq!(
        auth.authenticate("dave", "anything", Some(rec)),
        Err(AuthenticateError::StoredCredentialCorrupt)
    );
}

#[test]
fn minted_token_round_trips_under_the_same_key() {
    let facts = vec![
        Fact::User { id: "erin".to_string() },
        Fact::Role { id: "erin".to_string(), role: "admin".to_string() },
    ];
    let token = mint_token(&root_key(), &facts).unwrap();
    let recovered = verify_token(&root_key(), &token).unwrap();
    assert_eq!(recovered.len(), 2);
    assert!(has_user(&recovered, "erin"));
    assert!(has_role(&recovered, "erin", "admin"));
}

#[test]
fn token_fails_verification_under_another_key() {
    let facts = vec![Fact::User { id: "erin".to_string() }];
    let token = mint_token(&root_key(), &facts).unwrap();
    assert_eq!(
        verify_token(&other_key(), &token).err(),
        Some(AuthorizationError::TokenParseError)
    );
    let authorizer = Authorizer::new(other_key());
    assert_eq!(
        authorizer.authorize_share(&token),
        Err(AuthorizationError::TokenParseError)
    );
    assert_eq!(
        authorizer.authorize_mutate(&token),
        Err(AuthorizationError::TokenParseError)
    );
}

#[test]
fn empty_token_satisfies_no_policy() {
    let token = mint_token(&root_key(), &vec![]).unwrap();
    let authorizer = Authorizer::new(root_key());
    assert_eq!(
        authorizer.authorize_share(&token),
        Err(AuthorizationError::PolicyDenied)
    );
    assert_eq!(
        authorizer.authorize_mutate(&token),
        Err(AuthorizationError::PolicyDenied)
    );
}

#[test]
fn tampering_any_character_breaks_the_token() {
    let facts = vec![
        Fact::User { id: "alice".to_string() },
        Fact::Role { id: "alice".to_string(), role: "admin".to_string() },
    ];
    let token = mint_token(&root_key(), &facts).unwrap();
    let authorizer = Authorizer::new(root_key());
    assert!(authorizer.authorize_share(&token).is_ok());

    for pos in 0..token.len() {
        let mut bytes = token.clone().into_bytes();
        bytes[pos] = if bytes[pos] == b'A' { b'B' } else { b'A' };
        let tampered = String::from_utf8(bytes).unwrap();
        assert_eq!(
            authorizer.authorize_share(&tampered),
            Err(AuthorizationError::TokenParseError),
            "tampered position {} was accepted",
            pos
        );
        assert_eq!(
            authorizer.authorize_mutate(&tampered),
            Err(AuthorizationError::TokenParseError),
            "tampered position {} was accepted",
            pos
        );
    }
}

#[test]
fn garbage_token_is_a_parse_error() {
    let authorizer = Authorizer::new(root_key());
    assert_eq!(
        authorizer.authorize_share("definitely %% not a token"),
        Err(AuthorizationError::TokenParseError)
    );
    assert_eq!(
        authorizer.authorize_mutate(""),
        Err(AuthorizationError::TokenParseError)
    );
}

#[test]
fn duplicate_roles_mint_the_same_fact_set() {
    let auth = Authenticator::new(root_key());
    let result = auth
        .authenticate(
            "frank",
            "pw",
            Some(record("frank", &["admin", "admin"], "pw")),
        )
        .unwrap();
    let token = result.token.unwrap();
    let facts = verify_token(&root_key(), &token).unwrap();
    assert_eq!(facts.len(), 2);
    assert!(has_user(&facts, "frank"));
    assert!(has_role(&facts, "frank", "admin"));

    let authorizer = Authorizer::new(root_key());
    assert!(authorizer.authorize_mutate(&token).is_ok());
}

#[test]
fn several_roles_become_several_role_facts() {
    let auth = Authenticator::new(root_key());
    let result = auth
        .authenticate(
            "grace",
            "pw",
            Some(record("grace", &["admin", "editor"], "pw")),
        )
        .unwrap();
    let token = result.token.unwrap();
    let facts = verify_token(&root_key(), &token).unwrap();
    assert_eq!(facts.len(), 3);
    assert!(has_user(&facts, "grace"));
    assert!(has_role(&facts, "grace", "admin"));
    assert!(has_role(&facts, "grace", "editor"));
}

#[test]
fn appended_block_facts_are_not_trusted() {
    let auth = Authenticator::new(root_key());
    let token = auth
        .authenticate("carol", "whatever", None)
        .unwrap()
        .token
        .unwrap();
    let authorizer = Authorizer::new(root_key());
    assert!(authorizer.authorize_share(&token).is_ok());
    assert_eq!(
        authorizer.authorize_mutate(&token),
        Err(AuthorizationError::PolicyDenied)
    );

    // Anyone holding a token can append a block with facts of their
    // choosing: append() signs with the ephemeral key carried in the
    // token itself, no root key involved.
    let public = biscuit_auth::PrivateKey::from_bytes(
        &hex::decode(ROOT_KEY_HEX).unwrap(),
        biscuit_auth::Algorithm::Ed25519,
    )
    .unwrap()
    .public();
    let parsed = biscuit_auth::Biscuit::from_base64(&token, public).unwrap();
    let block = biscuit_auth::builder::BlockBuilder::new()
        .fact(biscuit_auth::builder::fact(
            "role",
            &[
                biscuit_auth::builder::string("carol"),
                biscuit_auth::builder::string("admin"),
            ],
        ))
        .unwrap();
    let forged = parsed.append(block).unwrap().to_base64().unwrap();

    // The forged role fact must never reach the policies: the token is
    // rejected outright.
    assert_eq!(
        authorizer.authorize_mutate(&forged),
        Err(AuthorizationError::TokenParseError)
    );
    assert_eq!(
        authorizer.authorize_share(&forged),
        Err(AuthorizationError::TokenParseError)
    );
    assert_eq!(
        verify_token(&root_key(), &forged).err(),
        Some(AuthorizationError::TokenParseError)
    );
}
