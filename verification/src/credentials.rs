//! The credential pair, the accessor that builds it, and the laws of both.

use crate::environment::{reads, variable, Environment};
use vstd::prelude::*;

verus! {

/// Name of the environment variable that holds the access identifier.
pub const ACCESS_KEY_VARIABLE: &'static str = "AWS_ACCESS_KEY_ID";

/// Name of the environment variable that holds the secret value.
pub const SECRET_KEY_VARIABLE: &'static str = "AWS_SECRET_ACCESS_KEY";

/// What one lookup contributes to the pair: the value that was found,
/// unchanged, or the empty string where nothing was found.
pub open spec fn value_or_empty(found: Option<Seq<char>>) -> Seq<char> {
    match found {
        Some(value) => value,
        None => Seq::<char>::empty(),
    }
}

/// The credential pair that two lookup outcomes give: the access identifier
/// first, the secret value second.
pub open spec fn pair_of(access_key_id: Option<Seq<char>>, secret_access_key: Option<Seq<char>>) -> (
    Seq<char>,
    Seq<char>,
) {
    (value_or_empty(access_key_id), value_or_empty(secret_access_key))
}

/// The credential pair that `env` holds.
pub open spec fn credentials_in(env: Environment) -> (Seq<char>, Seq<char>) {
    pair_of(variable(env, ACCESS_KEY_VARIABLE@), variable(env, SECRET_KEY_VARIABLE@))
}

/// `pair` is a pair that the accessor may return when it reads through
/// `lookup`: there are outcomes of looking the two variables up that give it.
pub open spec fn obtained_through<F: Fn(&str) -> Option<String>>(
    lookup: F,
    pair: (String, String),
) -> bool {
    exists|access_key_id: Option<String>, secret_access_key: Option<String>|
        {
            &&& #[trigger] lookup.ensures((ACCESS_KEY_VARIABLE,), access_key_id)
            &&& #[trigger] lookup.ensures((SECRET_KEY_VARIABLE,), secret_access_key)
            &&& pair.deep_view() == pair_of(
                access_key_id.deep_view(),
                secret_access_key.deep_view(),
            )
        }
}

/// Builds the credential pair from the outcomes of the two lookups. A value
/// that was found is kept as it is; one that was not becomes the empty string.
pub fn credential_pair(access_key_id: Option<String>, secret_access_key: Option<String>) -> (pair: (
    String,
    String,
))
    ensures
        pair.deep_view() == pair_of(access_key_id.deep_view(), secret_access_key.deep_view()),
{
    let access_key = match access_key_id {
        Some(value) => value,
        None => String::new(),
    };
    let secret_key = match secret_access_key {
        Some(value) => value,
        None => String::new(),
    };
    (access_key, secret_key)
}

/// The accessor: looks the access identifier up, then the secret value, and
/// returns the pair of them. It cannot fail.
pub fn get_aws_credentials<F: Fn(&str) -> Option<String>>(lookup: F) -> (pair: (String, String))
    requires
        lookup.requires((ACCESS_KEY_VARIABLE,)),
        lookup.requires((SECRET_KEY_VARIABLE,)),
    ensures
        obtained_through(lookup, pair),
{
    let access_key_id = lookup(ACCESS_KEY_VARIABLE);
    let secret_access_key = lookup(SECRET_KEY_VARIABLE);
    credential_pair(access_key_id, secret_access_key)
}

/// Read from an environment, the accessor returns the pair that the
/// environment holds.
pub proof fn lemma_accessor_returns_environment_pair<F: Fn(&str) -> Option<String>>(
    lookup: F,
    env: Environment,
    pair: (String, String),
)
    requires
        reads(lookup, env),
        obtained_through(lookup, pair),
    ensures
        pair.deep_view() == credentials_in(env),
{
}

/// Where both variables are set, the pair holds exactly their values.
pub proof fn lemma_set_values_are_returned_unchanged(env: Environment)
    requires
        env.dom().contains(ACCESS_KEY_VARIABLE@),
        env.dom().contains(SECRET_KEY_VARIABLE@),
    ensures
        credentials_in(env) == (env[ACCESS_KEY_VARIABLE@], env[SECRET_KEY_VARIABLE@]),
{
}

/// Where the access identifier is not set, the first element is empty.
pub proof fn lemma_unset_access_key_is_empty(env: Environment)
    requires
        !env.dom().contains(ACCESS_KEY_VARIABLE@),
    ensures
        credentials_in(env).0 == Seq::<char>::empty(),
{
}

/// Where the secret value is not set, the second element is empty.
pub proof fn lemma_unset_secret_key_is_empty(env: Environment)
    requires
        !env.dom().contains(SECRET_KEY_VARIABLE@),
    ensures
        credentials_in(env).1 == Seq::<char>::empty(),
{
}

/// Where neither variable is set, the pair is two empty strings.
pub proof fn lemma_both_unset_gives_empty_pair(env: Environment)
    requires
        !env.dom().contains(ACCESS_KEY_VARIABLE@),
        !env.dom().contains(SECRET_KEY_VARIABLE@),
    ensures
        credentials_in(env) == (Seq::<char>::empty(), Seq::<char>::empty()),
{
}

/// The pair depends on the two variables alone: environments that agree on
/// both hold the same pair, whatever else differs between them.
pub proof fn lemma_only_the_two_variables_matter(first: Environment, second: Environment)
    requires
        variable(first, ACCESS_KEY_VARIABLE@) == variable(second, ACCESS_KEY_VARIABLE@),
        variable(first, SECRET_KEY_VARIABLE@) == variable(second, SECRET_KEY_VARIABLE@),
    ensures
        credentials_in(first) == credentials_in(second),
{
}

/// Two calls of the accessor that read the same environment return the same
/// pair.
pub proof fn lemma_repeated_calls_agree<F: Fn(&str) -> Option<String>, G: Fn(&str) -> Option<String>>(
    first_lookup: F,
    second_lookup: G,
    env: Environment,
    first: (String, String),
    second: (String, String),
)
    requires
        reads(first_lookup, env),
        reads(second_lookup, env),
        obtained_through(first_lookup, first),
        obtained_through(second_lookup, second),
    ensures
        first.deep_view() == second.deep_view(),
{
    lemma_accessor_returns_environment_pair(first_lookup, env, first);
    lemma_accessor_returns_environment_pair(second_lookup, env, second);
}

} // verus!
