use vstd::prelude::*;
use biscuit_auth::builder::Fact as DatalogFact;
use biscuit_auth::builder::Term;
use biscuit_auth::{Algorithm, Biscuit, KeyPair, PrivateKey};
use crate::auth::{AuthorizationError, TokenBuildError};
use crate::facts::{
    Fact, FactModel, RawFact, Arg, WireFact, facts_model, fact_model, wire_model, raw_model,
    recognized, decode_fact, encode_fact,
};
use crate::keys::RootKeyPair;

verus! {

/// What a capability token means under a given root key: `Some` of the
/// set of fact models recovered from its single authority block when
/// base64 decoding, block parsing and the signature chain all check out
/// against the public key derived from `root_key`, and `None` when the
/// token is rejected. A token carrying appended blocks is rejected
/// outright: this system only ever produces and consumes a single
/// authority block, and facts in appended blocks are placed there by
/// the token's holder, not signed by the root key, so they must never
/// reach the policies. This names the (deterministic) outcome of the
/// parse-and-verify pipeline in `biscuit_parse` below; nothing in this
/// crate states what the value is for a particular token, so every
/// claim about token contents flows through the minting and parsing
/// contracts below.
pub uninterp spec fn token_facts(token: Seq<char>, root_key: Seq<u8>) -> Option<Set<FactModel>>;

/// Relies on biscuit_auth: `BiscuitBuilder::fact` records exactly the
/// given facts in the authority block, `build` signs it with the keypair
/// derived from the private-key bytes (`PrivateKey::from_bytes`,
/// `KeyPair::from`), and `to_base64` serializes the token such that the
/// parse pipeline named by `token_facts` accepts it under the same root
/// key and recovers exactly the facts that were put in.
#[verifier::external_body]
fn biscuit_mint(root_key: &Vec<u8>, facts: &Vec<WireFact>) -> (r: Result<String, TokenBuildError>)
    ensures
        r is Ok ==> token_facts(r->Ok_0@, root_key@) == Some(
            facts@.map_values(|w: WireFact| wire_model(w)).to_set(),
        ),
{
    let private = PrivateKey::from_bytes(root_key, Algorithm::Ed25519).map_err(|_| TokenBuildError)?;
    let keypair = KeyPair::from(&private);
    let mut builder = Biscuit::builder();
    for w in facts.iter() {
        let terms: Vec<Term> = w.args.iter().map(|a| Term::Str(a.clone())).collect();
        builder = builder.fact(DatalogFact::new(w.name.clone(), terms)).map_err(|_| TokenBuildError)?;
    }
    builder.build(&keypair).map_err(|_| TokenBuildError)?.to_base64().map_err(|_| TokenBuildError)
}

/// Relies on biscuit_auth: `Biscuit::from_base64` checks base64, block
/// structure and the signature chain against the public key derived from
/// the private-key bytes, and `Biscuit::authorizer` followed by
/// `Authorizer::dump` reports exactly the set of facts loaded from the
/// token (before any rule runs). `Biscuit::block_count` gates the token
/// to its single authority block: anyone holding a token can append a
/// block with facts of their choosing (`Biscuit::append` signs with the
/// ephemeral key the token itself carries, no root key needed), so a
/// multi-block token is rejected as a parse error before any fact is
/// handed out. Acceptance and the recovered fact set are the outcome
/// named by `token_facts`; the facts come back in no fixed order, so
/// only their set is stated.
#[verifier::external_body]
fn biscuit_parse(root_key: &Vec<u8>, token: &str) -> (r: Result<Vec<RawFact>, AuthorizationError>)
    ensures
        r is Ok <==> token_facts(token@, root_key@) is Some,
        r is Ok ==> Some(r->Ok_0@.map_values(|rf: RawFact| raw_model(rf)).to_set()) == token_facts(
            token@,
            root_key@,
        ),
        r is Err ==> r->Err_0 == AuthorizationError::TokenParseError,
{
    let reject = AuthorizationError::TokenParseError;
    let private = PrivateKey::from_bytes(root_key, Algorithm::Ed25519).map_err(|_| reject)?;
    let biscuit = Biscuit::from_base64(token, private.public()).map_err(|_| reject)?;
    if biscuit.block_count() != 1 {
        return Err(reject);
    }
    let (bfacts, _, _, _) = biscuit.authorizer().map_err(|_| reject)?.dump();
    Ok(bfacts.into_iter().map(|f| RawFact {
        name: f.predicate.name,
        args: f.predicate.terms.into_iter().map(|t| match t {
            Term::Str(s) => Arg::Text(s),
            _ => Arg::Other,
        }).collect(),
    }).collect())
}

/// Builds a signed capability token whose single authority block carries
/// exactly the given facts. On success, the token verifies under the
/// same root key back to exactly those facts (as a set: repeating a fact
/// adds nothing).
pub fn mint_token(root: &RootKeyPair, facts: &Vec<Fact>) -> (r: Result<String, TokenBuildError>)
    ensures
        r is Ok ==> token_facts(r->Ok_0@, root@) == Some(facts_model(facts@)),
{
    let mut wire: Vec<WireFact> = Vec::new();
    let n: usize = facts.len();
    let mut i: usize = 0;
    while i < n
        invariant
            n == facts@.len(),
            i <= n,
            wire@.len() == i,
            forall|j: int| 0 <= j < i ==> wire_model(#[trigger] wire@[j]) == fact_model(facts@[j]),
        decreases n - i,
    {
        wire.push(encode_fact(&facts[i]));
        i = i + 1;
    }
    let t = biscuit_mint(root.key_bytes(), &wire)?;
    proof {
        assert(wire@.map_values(|w: WireFact| wire_model(w)) =~= facts@.map_values(
            |f: Fact| fact_model(f),
        ));
    }
    Ok(t)
}

/// Parses and signature-checks a token against the root key, then
/// decodes its facts into the structured form. Returns `Ok` exactly when
/// the token verifies; the result then carries exactly the recognized
/// facts of the token. A rejected token is a `TokenParseError`, never a
/// silent deny. Only the single authority block this system mints is
/// accepted: a token with appended blocks is rejected, since anyone
/// holding a token can append facts without the root key.
pub fn verify_token(root: &RootKeyPair, token: &str) -> (r: Result<Vec<Fact>, AuthorizationError>)
    ensures
        r is Ok <==> token_facts(token@, root@) is Some,
        r is Err ==> r->Err_0 == AuthorizationError::TokenParseError,
        r is Ok ==> (token_facts(token@, root@) matches Some(fs) && facts_model(r->Ok_0@)
            == fs.filter(|m: FactModel| recognized(m))),
{
    let raws = biscuit_parse(root.key_bytes(), token)?;
    let ghost token_set = token_facts(token@, root@)->Some_0;
    let ghost raw_models = raws@.map_values(|rf: RawFact| raw_model(rf));
    let mut out: Vec<Fact> = Vec::new();
    let n: usize = raws.len();
    let mut i: usize = 0;
    while i < n
        invariant
            n == raws@.len(),
            i <= n,
            raw_models == raws@.map_values(|rf: RawFact| raw_model(rf)),
            forall|k: int| 0 <= k < out@.len() ==> exists|j: int|
                0 <= j < i && fact_model(#[trigger] out@[k]) == raw_models[j],
            forall|j: int| 0 <= j < i && recognized(#[trigger] raw_models[j]) ==> out@.map_values(
                |f: Fact| fact_model(f),
            ).contains(raw_models[j]),
        decreases n - i,
    {
        match decode_fact(&raws[i]) {
            Some(f) => {
                let ghost prev = out@;
                let ghost fm = fact_model(f);
                out.push(f);
                proof {
                    let prev_map = prev.map_values(|f2: Fact| fact_model(f2));
                    let new_map = out@.map_values(|f2: Fact| fact_model(f2));
                    assert(new_map =~= prev_map.push(fm));
                    assert(fm == raw_models[i as int]);
                    assert forall|k: int| 0 <= k < out@.len() implies exists|j: int|
                        0 <= j < i + 1 && fact_model(#[trigger] out@[k]) == raw_models[j] by {
                        if k < prev.len() {
                            assert(out@[k] == prev[k]);
                            let j = choose|j: int|
                                0 <= j < i && fact_model(prev[k]) == raw_models[j];
                            assert(0 <= j < i + 1 && fact_model(out@[k]) == raw_models[j]);
                        } else {
                            assert(out@[k] == f);
                            assert(0 <= i < i + 1 && fact_model(out@[k]) == raw_models[i as int]);
                        }
                    }
                    assert forall|j: int| 0 <= j < i + 1 && recognized(#[trigger] raw_models[j])
                        implies new_map.contains(raw_models[j]) by {
                        if j < i {
                            assert(prev_map.contains(raw_models[j]));
                            let k = choose|k: int|
                                0 <= k < prev_map.len() && prev_map[k] == raw_models[j];
                            assert(new_map[k] == raw_models[j]);
                        } else {
                            assert(new_map[new_map.len() - 1] == raw_models[j]);
                        }
                    }
                }
            },
            None => {
                proof {
                    assert(!recognized(raw_models[i as int]));
                    assert forall|k: int| 0 <= k < out@.len() implies exists|j: int|
                        0 <= j < i + 1 && fact_model(#[trigger] out@[k]) == raw_models[j] by {
                        let j = choose|j: int|
                            0 <= j < i && fact_model(out@[k]) == raw_models[j];
                        assert(0 <= j < i + 1 && fact_model(out@[k]) == raw_models[j]);
                    }
                }
            },
        }
        i = i + 1;
    }
    proof {
        assert forall|m: FactModel| facts_model(out@).contains(m) implies token_set.filter(
            |m2: FactModel| recognized(m2),
        ).contains(m) by {
            let k = choose|k: int|
                0 <= k < out@.len() && fact_model(out@[k]) == m;
            assert(out@.map_values(|f: Fact| fact_model(f))[k] == m);
            let j = choose|j: int| 0 <= j < raws@.len() && fact_model(out@[k]) == raw_models[j];
            assert(raw_models.to_set().contains(m));
            assert(recognized(m)) by {
                match out@[k] {
                    Fact::User { id } => {},
                    Fact::Role { id, role } => {},
                }
            }
        }
        assert forall|m: FactModel| token_set.filter(|m2: FactModel| recognized(m2)).contains(m)
            implies facts_model(out@).contains(m) by {
            assert(raw_models.to_set().contains(m));
            let j = choose|j: int| 0 <= j < raw_models.len() && raw_models[j] == m;
            assert(recognized(raw_models[j]));
            assert(out@.map_values(|f: Fact| fact_model(f)).contains(m));
        }
        assert(facts_model(out@) =~= token_set.filter(|m2: FactModel| recognized(m2)));
    }
    Ok(out)
}

} // verus!
