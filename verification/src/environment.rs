//! A process environment as a mathematical object: an association of
//! variable names with values.

use vstd::prelude::*;

verus! {

/// An environment: the variables that are set, each with its value.
pub type Environment = Map<Seq<char>, Seq<char>>;

/// The value of `name` in `env`, or `None` where `name` is not set.
pub open spec fn variable(env: Environment, name: Seq<char>) -> Option<Seq<char>> {
    if env.dom().contains(name) {
        Some(env[name])
    } else {
        None
    }
}

/// `lookup` reads `env`: whatever it returns for a name is that name's value
/// in `env`, and it returns `None` exactly for the names that are not set.
pub open spec fn reads<F: Fn(&str) -> Option<String>>(lookup: F, env: Environment) -> bool {
    forall|name: &str, found: Option<String>| #[trigger]
        lookup.ensures((name,), found) ==> found.deep_view() == variable(env, name@)
}

} // verus!
