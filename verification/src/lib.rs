//! Issues and verifies signed capability tokens and evaluates the fixed
//! authorization policies over the facts those tokens carry.
//!
//! The crate is organized leaf-first: `keys` loads the root keypair,
//! `facts` models the claims a token carries, `password` checks
//! plaintext passwords against stored hashes, `token` mints and
//! verifies signed tokens, `policy` evaluates the fixed allow/deny
//! rules, and `auth` wires these into the authenticate and authorize
//! entry points.

pub mod auth;
pub mod facts;
pub mod keys;
pub mod password;
pub mod policy;
pub mod token;
