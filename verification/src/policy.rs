use vstd::prelude::*;
use crate::facts::{
    Fact, FactModel, facts_model, fact_model, user_model, role_model, is_user_model,
    is_role_model, recognized,
};

verus! {

/// The mutate policy: allow if and only if some binding of one user
/// identity appears both as `user(<id>)` and as `role(<id>, "admin")`;
/// otherwise the terminal rule denies.
pub open spec fn mutate_allowed(fs: Set<FactModel>) -> bool {
    exists|u: Seq<char>|
        #[trigger] fs.contains(user_model(u)) && fs.contains(role_model(u, "admin"@))
}

/// The share policy: allow if and only if the facts carry any
/// `user(<id>)`; otherwise deny.
pub open spec fn share_allowed(fs: Set<FactModel>) -> bool {
    exists|u: Seq<char>| #[trigger] fs.contains(user_model(u))
}

/// A pair of structured facts that satisfies the mutate rule body:
/// `user(<id>)` together with `role(<id>, "admin")` for the same
/// identity.
pub open spec fn admin_pair(a: Fact, b: Fact) -> bool {
    a matches Fact::User { id: u } && (b matches Fact::Role { id: v, role: r } && v@ == u@
        && r@ == "admin"@)
}

/// Over structured facts, the mutate policy is the existence of an
/// admin pair.
pub proof fn lemma_mutate_allowed_pairs(fs: Seq<Fact>)
    ensures
        mutate_allowed(facts_model(fs)) <==> exists|i: int, j: int|
            0 <= i < fs.len() && 0 <= j < fs.len() && #[trigger] admin_pair(fs[i], fs[j]),
{
    let models = fs.map_values(|f: Fact| fact_model(f));
    if mutate_allowed(facts_model(fs)) {
        let u = choose|u: Seq<char>|
            #[trigger] facts_model(fs).contains(user_model(u)) && facts_model(fs).contains(
                role_model(u, "admin"@),
            );
        let i = choose|i: int| 0 <= i < models.len() && models[i] == user_model(u);
        let j = choose|j: int| 0 <= j < models.len() && models[j] == role_model(u, "admin"@);
        match fs[i] {
            Fact::User { id } => {
                assert(seq![Some(id@)][0] == seq![Some(u)][0]);
            },
            Fact::Role { id, role } => {
                assert(fact_model(fs[i]).1.len() == 2);
            },
        }
        match fs[j] {
            Fact::User { id } => {
                assert(fact_model(fs[j]).1.len() == 1);
            },
            Fact::Role { id, role } => {
                assert(seq![Some(id@), Some(role@)][0] == seq![Some(u), Some("admin"@)][0]);
                assert(seq![Some(id@), Some(role@)][1] == seq![Some(u), Some("admin"@)][1]);
            },
        }
        assert(admin_pair(fs[i], fs[j]));
    }
    if exists|i: int, j: int|
        0 <= i < fs.len() && 0 <= j < fs.len() && #[trigger] admin_pair(fs[i], fs[j]) {
        let (i, j) = choose|i: int, j: int|
            0 <= i < fs.len() && 0 <= j < fs.len() && #[trigger] admin_pair(fs[i], fs[j]);
        match fs[i] {
            Fact::User { id } => {
                assert(models[i] == user_model(id@));
                assert(facts_model(fs).contains(user_model(id@)));
                assert(models[j] == role_model(id@, "admin"@));
                assert(facts_model(fs).contains(role_model(id@, "admin"@)));
            },
            Fact::Role { id, role } => {
                assert(false);
            },
        }
    }
}

/// Over structured facts, the share policy is the existence of a user
/// fact.
pub proof fn lemma_share_allowed_user(fs: Seq<Fact>)
    ensures
        share_allowed(facts_model(fs)) <==> exists|i: int|
            0 <= i < fs.len() && #[trigger] fs[i] is User,
{
    let models = fs.map_values(|f: Fact| fact_model(f));
    if share_allowed(facts_model(fs)) {
        let u = choose|u: Seq<char>| #[trigger] facts_model(fs).contains(user_model(u));
        let i = choose|i: int| 0 <= i < models.len() && models[i] == user_model(u);
        match fs[i] {
            Fact::User { id } => {
                assert(fs[i] is User);
            },
            Fact::Role { id, role } => {
                assert(fact_model(fs[i]).1.len() == 2);
            },
        }
    }
    if exists|i: int| 0 <= i < fs.len() && #[trigger] fs[i] is User {
        let i = choose|i: int| 0 <= i < fs.len() && #[trigger] fs[i] is User;
        match fs[i] {
            Fact::User { id } => {
                assert(models[i] == user_model(id@));
                assert(facts_model(fs).contains(user_model(id@)));
            },
            Fact::Role { id, role } => {
                assert(false);
            },
        }
    }
}

/// The policies look only at the recognized fact shapes: restricting a
/// fact set to them changes no decision.
pub proof fn lemma_policies_ignore_unrecognized(fs: Set<FactModel>)
    ensures
        mutate_allowed(fs.filter(|m: FactModel| recognized(m))) == mutate_allowed(fs),
        share_allowed(fs.filter(|m: FactModel| recognized(m))) == share_allowed(fs),
{
    let filtered = fs.filter(|m: FactModel| recognized(m));
    assert forall|u: Seq<char>| #[trigger] fs.contains(user_model(u)) implies filtered.contains(
        user_model(u),
    ) by {
        assert(is_user_model(user_model(u)));
    }
    assert forall|u: Seq<char>| #[trigger] fs.contains(role_model(u, "admin"@)) implies filtered
        .contains(role_model(u, "admin"@)) by {
        assert(is_role_model(role_model(u, "admin"@)));
    }
}

/// A token carrying no facts at all satisfies neither policy: both fall
/// through to the terminal deny.
pub proof fn lemma_empty_facts_denied()
    ensures
        !mutate_allowed(Set::<FactModel>::empty()),
        !share_allowed(Set::<FactModel>::empty()),
{
}

/// Evaluates the mutate policy over structured facts.
pub fn eval_mutate(facts: &Vec<Fact>) -> (b: bool)
    ensures
        b == mutate_allowed(facts_model(facts@)),
{
    proof {
        lemma_mutate_allowed_pairs(facts@);
    }
    let admin: String = String::from_str("admin");
    let n: usize = facts.len();
    let mut i: usize = 0;
    while i < n
        invariant
            n == facts@.len(),
            i <= n,
            forall|i2: int, j2: int|
                0 <= i2 < i && 0 <= j2 < n ==> !#[trigger] admin_pair(facts@[i2], facts@[j2]),
            admin@ == "admin"@,
        decreases n - i,
    {
        match &facts[i] {
            Fact::User { id } => {
                let mut j: usize = 0;
                while j < n
                    invariant
                        n == facts@.len(),
                        i < n,
                        j <= n,
                        facts@[i as int] matches Fact::User { id: u } && u@ == id@,
                        forall|j2: int| 0 <= j2 < j ==> !#[trigger] admin_pair(
                            facts@[i as int],
                            facts@[j2],
                        ),
                        admin@ == "admin"@,
                    decreases n - j,
                {
                    match &facts[j] {
                        Fact::Role { id: rid, role } => {
                            if rid.eq(id) && role.eq(&admin) {
                                proof {
                                    lemma_mutate_allowed_pairs(facts@);
                                    assert(admin_pair(facts@[i as int], facts@[j as int]));
                                    assert(exists|i2: int, j2: int|
                                        0 <= i2 < facts@.len() && 0 <= j2 < facts@.len()
                                            && #[trigger] admin_pair(facts@[i2], facts@[j2]));
                                }
                                return true;
                            }
                        },
                        Fact::User { .. } => {},
                    }
                    j = j + 1;
                }
            },
            Fact::Role { .. } => {
                proof {
                    assert forall|j2: int| 0 <= j2 < n implies !#[trigger] admin_pair(
                        facts@[i as int],
                        facts@[j2],
                    ) by {}
                }
            },
        }
        i = i + 1;
    }
    false
}

/// Evaluates the share policy over structured facts.
pub fn eval_share(facts: &Vec<Fact>) -> (b: bool)
    ensures
        b == share_allowed(facts_model(facts@)),
{
    proof {
        lemma_share_allowed_user(facts@);
    }
    let n: usize = facts.len();
    let mut i: usize = 0;
    while i < n
        invariant
            n == facts@.len(),
            i <= n,
            forall|i2: int| 0 <= i2 < i ==> !(#[trigger] facts@[i2] is User),
        decreases n - i,
    {
        match &facts[i] {
            Fact::User { .. } => {
                proof {
                    lemma_share_allowed_user(facts@);
                    assert(facts@[i as int] is User);
                    assert(exists|i2: int| 0 <= i2 < facts@.len() && #[trigger] facts@[i2] is User);
                }
                return true;
            },
            Fact::Role { .. } => {},
        }
        i = i + 1;
    }
    false
}

} // verus!
