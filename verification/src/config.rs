//! The endpoints a node talks to, resolved from the variables of its process.

use vstd::prelude::*;
use crate::environment::Environment;

verus! {

/// Name of the variable that holds the address of the origin chain.
pub const ENV_ORIGIN_ADDRESS: &'static str = "MOSAIC_ORIGIN_ADDRESS";

/// Name of the variable that holds the address of the auxiliary chain.
pub const ENV_AUXILIARY_ADDRESS: &'static str = "MOSAIC_AUXILIARY_ADDRESS";

/// Address of the origin chain where its variable is not set.
pub const DEFAULT_ORIGIN_ADDRESS: &'static str = "http://127.0.0.1:8545";

/// Address of the auxiliary chain where its variable is not set.
pub const DEFAULT_AUXILIARY_ADDRESS: &'static str = "http://127.0.0.1:8546";

/// What a `Config` holds, as text.
pub struct ConfigView {
    pub origin_address: Seq<char>,
    pub auxiliary_address: Seq<char>,
}

/// The value that `env` binds `name` to, verbatim, or `default` where it
/// binds none.
pub open spec fn bound_or(
    env: Map<Seq<char>, Seq<char>>,
    name: Seq<char>,
    default: Seq<char>,
) -> Seq<char> {
    if env.contains_key(name) {
        env[name]
    } else {
        default
    }
}

/// The configuration that an environment resolves to: each address comes
/// from its own variable, or is its own default.
pub open spec fn resolved(env: Map<Seq<char>, Seq<char>>) -> ConfigView {
    ConfigView {
        origin_address: bound_or(env, ENV_ORIGIN_ADDRESS@, DEFAULT_ORIGIN_ADDRESS@),
        auxiliary_address: bound_or(env, ENV_AUXILIARY_ADDRESS@, DEFAULT_AUXILIARY_ADDRESS@),
    }
}

/// Global config for running a mosaic node.
#[derive(Debug, PartialEq, Eq)]
pub struct Config {
    /// Address of the origin chain, e.g. "127.0.0.1:8485"
    origin_address: String,
    /// Address of the auxiliary chain, e.g. "127.0.0.1:8486"
    auxiliary_address: String,
}

impl View for Config {
    type V = ConfigView;

    closed spec fn view(&self) -> ConfigView {
        ConfigView {
            origin_address: self.origin_address@,
            auxiliary_address: self.auxiliary_address@,
        }
    }
}

fn lookup_or(env: &Environment, name: &str, default: &str) -> (address: String)
    ensures
        address@ == bound_or(env@, name@, default@),
{
    match env.get(name) {
        Some(address) => address,
        None => default.to_owned(),
    }
}

impl Config {
    /// Creates a config from the variables of `env`. In case a variable is
    /// not set, a default fallback is used, so every environment resolves.
    pub fn new(env: &Environment) -> (config: Result<Config, &'static str>)
        ensures
            config is Ok,
            config->Ok_0@ == resolved(env@),
    {
        let origin_address: String = lookup_or(env, ENV_ORIGIN_ADDRESS, DEFAULT_ORIGIN_ADDRESS);
        let auxiliary_address: String = lookup_or(
            env,
            ENV_AUXILIARY_ADDRESS,
            DEFAULT_AUXILIARY_ADDRESS,
        );
        Ok(Config { origin_address, auxiliary_address })
    }

    /// Address of the origin chain.
    pub fn origin_address(&self) -> (address: &str)
        ensures
            address@ == self@.origin_address,
    {
        self.origin_address.as_str()
    }

    /// Address of the auxiliary chain.
    pub fn auxiliary_address(&self) -> (address: &str)
        ensures
            address@ == self@.auxiliary_address,
    {
        self.auxiliary_address.as_str()
    }
}

/// The two variables have different names.
pub proof fn lemma_names_differ()
    ensures
        ENV_ORIGIN_ADDRESS@ != ENV_AUXILIARY_ADDRESS@,
{
    reveal_strlit("MOSAIC_ORIGIN_ADDRESS");
    reveal_strlit("MOSAIC_AUXILIARY_ADDRESS");
    assert(ENV_ORIGIN_ADDRESS@.len() == 21);
    assert(ENV_AUXILIARY_ADDRESS@.len() == 24);
}

/// Where neither variable is set, both addresses are the defaults.
pub proof fn lemma_neither_set(env: Map<Seq<char>, Seq<char>>)
    requires
        !env.contains_key(ENV_ORIGIN_ADDRESS@),
        !env.contains_key(ENV_AUXILIARY_ADDRESS@),
    ensures
        resolved(env) == (ConfigView {
            origin_address: DEFAULT_ORIGIN_ADDRESS@,
            auxiliary_address: DEFAULT_AUXILIARY_ADDRESS@,
        }),
{
}

/// Where only the origin variable is set, the origin address is its value
/// and the auxiliary address is the default.
pub proof fn lemma_origin_only_set(env: Map<Seq<char>, Seq<char>>, origin: Seq<char>)
    requires
        env.contains_key(ENV_ORIGIN_ADDRESS@),
        env[ENV_ORIGIN_ADDRESS@] == origin,
        !env.contains_key(ENV_AUXILIARY_ADDRESS@),
    ensures
        resolved(env) == (ConfigView {
            origin_address: origin,
            auxiliary_address: DEFAULT_AUXILIARY_ADDRESS@,
        }),
{
}

/// Where both variables are set, the addresses are exactly their values.
pub proof fn lemma_both_set(
    env: Map<Seq<char>, Seq<char>>,
    origin: Seq<char>,
    auxiliary: Seq<char>,
)
    requires
        env.contains_key(ENV_ORIGIN_ADDRESS@),
        env[ENV_ORIGIN_ADDRESS@] == origin,
        env.contains_key(ENV_AUXILIARY_ADDRESS@),
        env[ENV_AUXILIARY_ADDRESS@] == auxiliary,
    ensures
        resolved(env) == (ConfigView { origin_address: origin, auxiliary_address: auxiliary }),
{
}

/// Two configs resolved from environments that agree on the two variables
/// are equal field by field. In particular, resolving one unchanged
/// environment twice gives the same config twice.
pub proof fn lemma_resolution_repeats(
    first: Map<Seq<char>, Seq<char>>,
    second: Map<Seq<char>, Seq<char>>,
)
    requires
        first.contains_key(ENV_ORIGIN_ADDRESS@) == second.contains_key(ENV_ORIGIN_ADDRESS@),
        first.contains_key(ENV_ORIGIN_ADDRESS@) ==> first[ENV_ORIGIN_ADDRESS@]
            == second[ENV_ORIGIN_ADDRESS@],
        first.contains_key(ENV_AUXILIARY_ADDRESS@) == second.contains_key(ENV_AUXILIARY_ADDRESS@),
        first.contains_key(ENV_AUXILIARY_ADDRESS@) ==> first[ENV_AUXILIARY_ADDRESS@]
            == second[ENV_AUXILIARY_ADDRESS@],
    ensures
        resolved(first).origin_address == resolved(second).origin_address,
        resolved(first).auxiliary_address == resolved(second).auxiliary_address,
{
}

/// Setting or unsetting the auxiliary variable never changes the resolved
/// origin address, and setting or unsetting the origin variable never
/// changes the resolved auxiliary address.
pub proof fn lemma_variables_independent(env: Map<Seq<char>, Seq<char>>, value: Seq<char>)
    ensures
        resolved(env.insert(ENV_AUXILIARY_ADDRESS@, value)).origin_address == resolved(
            env,
        ).origin_address,
        resolved(env.remove(ENV_AUXILIARY_ADDRESS@)).origin_address == resolved(
            env,
        ).origin_address,
        resolved(env.insert(ENV_ORIGIN_ADDRESS@, value)).auxiliary_address == resolved(
            env,
        ).auxiliary_address,
        resolved(env.remove(ENV_ORIGIN_ADDRESS@)).auxiliary_address == resolved(
            env,
        ).auxiliary_address,
{
    lemma_names_differ();
}

/// Both addresses of a resolved config are populated, unless the
/// environment sets one of the two variables to the empty text.
pub proof fn lemma_resolved_is_populated(env: Map<Seq<char>, Seq<char>>)
    requires
        env.contains_key(ENV_ORIGIN_ADDRESS@) ==> env[ENV_ORIGIN_ADDRESS@].len() > 0,
        env.contains_key(ENV_AUXILIARY_ADDRESS@) ==> env[ENV_AUXILIARY_ADDRESS@].len() > 0,
    ensures
        resolved(env).origin_address.len() > 0,
        resolved(env).auxiliary_address.len() > 0,
{
    reveal_strlit("http://127.0.0.1:8545");
    reveal_strlit("http://127.0.0.1:8546");
}

} // verus!
