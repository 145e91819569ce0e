use vstd::prelude::*;

verus! {

/// An atomic claim carried inside a capability token, in the structured
/// form the policy evaluator works on. Only these two shapes are ever
/// minted, and only they matter to the fixed policies.
#[derive(Debug, PartialEq, Eq)]
pub enum Fact {
    /// The token bearer's identity: `user(<id>)`.
    User { id: String },
    /// A role held by an identity: `role(<id>, <role>)`.
    Role { id: String, role: String },
}

/// The mathematical model of one fact on the wire: a predicate name and
/// its arguments. An argument is `Some(text)` for a string argument and
/// `None` for an argument of any other datalog kind, which the policies
/// never match.
pub type FactModel = (Seq<char>, Seq<Option<Seq<char>>>);

/// Model of `user(<id>)`.
pub open spec fn user_model(u: Seq<char>) -> FactModel {
    ("user"@, seq![Some(u)])
}

/// Model of `role(<id>, <role>)`.
pub open spec fn role_model(u: Seq<char>, r: Seq<char>) -> FactModel {
    ("role"@, seq![Some(u), Some(r)])
}

/// Model of a structured fact.
pub open spec fn fact_model(f: Fact) -> FactModel {
    match f {
        Fact::User { id } => user_model(id@),
        Fact::Role { id, role } => role_model(id@, role@),
    }
}

/// The set of fact models carried by a list of structured facts. Tokens
/// hold facts as a set: how often a fact is listed does not matter.
pub open spec fn facts_model(fs: Seq<Fact>) -> Set<FactModel> {
    fs.map_values(|f: Fact| fact_model(f)).to_set()
}

/// A fact model with the shape of `user(<id>)`.
pub open spec fn is_user_model(m: FactModel) -> bool {
    m.0 == "user"@ && m.1.len() == 1 && m.1[0] is Some
}

/// A fact model with the shape of `role(<id>, <role>)`.
pub open spec fn is_role_model(m: FactModel) -> bool {
    m.0 == "role"@ && m.1.len() == 2 && m.1[0] is Some && m.1[1] is Some
}

/// The fact shapes that the fixed policies can match.
pub open spec fn recognized(m: FactModel) -> bool {
    is_user_model(m) || is_role_model(m)
}

/// A fact as handed to the signing layer when a token is minted: a
/// predicate name and string arguments.
pub(crate) struct WireFact {
    pub name: String,
    pub args: Vec<String>,
}

/// Model of a wire fact: every argument is a string argument.
pub(crate) open spec fn wire_model(w: WireFact) -> FactModel {
    (w.name@, w.args@.map_values(|a: String| Some(a@)))
}

/// One argument of a fact as recovered from a verified token. Arguments
/// of non-string datalog kinds are kept opaque: the policies never bind
/// them.
pub(crate) enum Arg {
    Text(String),
    Other,
}

/// A fact as recovered from a verified token, before it is decoded into
/// the structured form.
pub(crate) struct RawFact {
    pub name: String,
    pub args: Vec<Arg>,
}

/// Model of one recovered argument.
pub(crate) open spec fn arg_model(a: Arg) -> Option<Seq<char>> {
    match a {
        Arg::Text(s) => Some(s@),
        Arg::Other => None,
    }
}

/// Model of a recovered fact.
pub(crate) open spec fn raw_model(rf: RawFact) -> FactModel {
    (rf.name@, rf.args@.map_values(|a: Arg| arg_model(a)))
}

/// Turns a structured fact into its wire form.
pub(crate) fn encode_fact(f: &Fact) -> (w: WireFact)
    ensures
        wire_model(w) == fact_model(*f),
{
    match f {
        Fact::User { id } => {
            let mut args: Vec<String> = Vec::new();
            args.push(id.clone());
            let w = WireFact { name: String::from_str("user"), args };
            proof {
                assert(wire_model(w).1 =~= fact_model(*f).1);
            }
            w
        },
        Fact::Role { id, role } => {
            let mut args: Vec<String> = Vec::new();
            args.push(id.clone());
            args.push(role.clone());
            let w = WireFact { name: String::from_str("role"), args };
            proof {
                assert(wire_model(w).1 =~= fact_model(*f).1);
            }
            w
        },
    }
}

/// Decodes a recovered fact into the structured form, accepting exactly
/// the shapes the policies can match.
pub(crate) fn decode_fact(rf: &RawFact) -> (r: Option<Fact>)
    ensures
        r is Some <==> recognized(raw_model(*rf)),
        r is Some ==> fact_model(r->0) == raw_model(*rf),
{
    if rf.name.eq(&String::from_str("user")) && rf.args.len() == 1 {
        match &rf.args[0] {
            Arg::Text(s) => {
                let f = Fact::User { id: s.clone() };
                proof {
                    assert(raw_model(*rf).1 =~= fact_model(f).1);
                }
                Some(f)
            },
            Arg::Other => {
                proof {
                    assert(raw_model(*rf).1[0] is None);
                }
                None
            },
        }
    } else if rf.name.eq(&String::from_str("role")) && rf.args.len() == 2 {
        match &rf.args[0] {
            Arg::Text(a) => {
                match &rf.args[1] {
                    Arg::Text(b) => {
                        let f = Fact::Role { id: a.clone(), role: b.clone() };
                        proof {
                            assert(raw_model(*rf).1 =~= fact_model(f).1);
                        }
                        Some(f)
                    },
                    Arg::Other => {
                        proof {
                            assert(raw_model(*rf).1[1] is None);
                        }
                        None
                    },
                }
            },
            Arg::Other => {
                proof {
                    assert(raw_model(*rf).1[0] is None);
                }
                None
            },
        }
    } else {
        None
    }
}

} // verus!
