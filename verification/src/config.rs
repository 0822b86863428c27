//! The five parameters of a connection and the environment they are read from.

use vstd::prelude::*;

verus! {

/// Name of the variable that holds the user identity.
pub const KEY_USERNAME: &'static str = "USERNAME";

/// Name of the variable that holds the password.
pub const KEY_PASSWORD: &'static str = "PASSWORD";

/// Name of the variable that holds the base32 shared secret.
pub const KEY_TOTP_SECRET: &'static str = "TOTP_SECRET";

/// Name of the variable that holds the gateway address.
pub const KEY_HOST: &'static str = "HOST";

/// Name of the variable that holds the route specification.
pub const KEY_ROUTE_CIDR: &'static str = "ROUTE_CIDR";

/// What a list of bindings means: each binding overrides the earlier ones
/// that have its key.
pub open spec fn bindings(entries: Seq<(String, String)>) -> Map<Seq<char>, Seq<char>>
    decreases entries.len(),
{
    if entries.len() == 0 {
        Map::empty()
    } else {
        bindings(entries.drop_last()).insert(entries.last().0@, entries.last().1@)
    }
}

/// A snapshot of environment variables: a finite map from names to values.
pub struct Environment {
    entries: Vec<(String, String)>,
}

impl View for Environment {
    type V = Map<Seq<char>, Seq<char>>;

    closed spec fn view(&self) -> Map<Seq<char>, Seq<char>> {
        bindings(self.entries@)
    }
}

impl Environment {
    /// The environment in which no variable is set.
    pub fn new() -> (env: Environment)
        ensures
            env@ == Map::<Seq<char>, Seq<char>>::empty(),
    {
        Environment { entries: Vec::new() }
    }

    /// Sets `key` to `value`, replacing what `key` was set to before.
    pub fn set(&mut self, key: &str, value: &str)
        ensures
            final(self)@ == old(self)@.insert(key@, value@),
    {
        let ghost before = self.entries@;
        self.entries.push((key.to_owned(), value.to_owned()));
        proof {
            assert(self.entries@.drop_last() =~= before);
        }
    }

    /// The value of `key`, if it is set.
    pub fn get(&self, key: &str) -> (value: Option<String>)
        ensures
            value is Some <==> self@.contains_key(key@),
            value matches Some(v) ==> v@ == self@[key@],
    {
        let wanted = key.to_owned();
        let mut found: Option<String> = None;
        let mut i: usize = 0;
        while i < self.entries.len()
            invariant
                i <= self.entries@.len(),
                wanted@ == key@,
                found is Some <==> bindings(self.entries@.take(i as int)).contains_key(key@),
                found matches Some(v) ==> v@ == bindings(self.entries@.take(i as int))[key@],
            decreases self.entries@.len() - i,
        {
            proof {
                let next = self.entries@.take(i + 1);
                assert(next.drop_last() =~= self.entries@.take(i as int));
                assert(next.last() == self.entries@[i as int]);
            }
            if self.entries[i].0 == wanted {
                found = Some(self.entries[i].1.clone());
            }
            i += 1;
        }
        proof {
            assert(self.entries@.take(i as int) =~= self.entries@);
        }
        found
    }
}

/// The first of the five required names that `env` leaves unset, in the
/// order user, password, secret, host, route.
pub open spec fn first_missing(env: Map<Seq<char>, Seq<char>>) -> Option<Seq<char>> {
    if !env.contains_key(KEY_USERNAME@) {
        Some(KEY_USERNAME@)
    } else if !env.contains_key(KEY_PASSWORD@) {
        Some(KEY_PASSWORD@)
    } else if !env.contains_key(KEY_TOTP_SECRET@) {
        Some(KEY_TOTP_SECRET@)
    } else if !env.contains_key(KEY_HOST@) {
        Some(KEY_HOST@)
    } else if !env.contains_key(KEY_ROUTE_CIDR@) {
        Some(KEY_ROUTE_CIDR@)
    } else {
        None
    }
}

/// Why no configuration could be built.
#[derive(Debug)]
pub enum ConfigError {
    /// The named variable is not set.
    Missing(String),
}

impl ConfigError {
    /// The name of the variable that is not set.
    pub open spec fn key(&self) -> Seq<char> {
        match self {
            ConfigError::Missing(key) => key@,
        }
    }

    /// The text shown to the user: the variable's name, then ` not set`.
    pub fn message(&self) -> (text: String)
        ensures
            text@ == self.key() + " not set"@,
    {
        match self {
            ConfigError::Missing(key) => key.clone().concat(" not set"),
        }
    }
}

/// The mathematical value of a [`Config`].
pub ghost struct ConfigView {
    pub username: Seq<char>,
    pub password: Seq<char>,
    pub totp_secret: Seq<char>,
    pub host: Seq<char>,
    pub route_cidr: Seq<char>,
}

/// What `env` configures, provided that it sets all five names.
pub open spec fn configured(env: Map<Seq<char>, Seq<char>>) -> ConfigView {
    ConfigView {
        username: env[KEY_USERNAME@],
        password: env[KEY_PASSWORD@],
        totp_secret: env[KEY_TOTP_SECRET@],
        host: env[KEY_HOST@],
        route_cidr: env[KEY_ROUTE_CIDR@],
    }
}

/// The parameters of one connection, read once per invocation.
#[derive(Debug)]
pub struct Config {
    pub username: String,
    pub password: String,
    pub totp_secret: String,
    pub host: String,
    pub route_cidr: String,
}

impl View for Config {
    type V = ConfigView;

    open spec fn view(&self) -> ConfigView {
        ConfigView {
            username: self.username@,
            password: self.password@,
            totp_secret: self.totp_secret@,
            host: self.host@,
            route_cidr: self.route_cidr@,
        }
    }
}

/// The five required names, in the order in which they are looked up.
pub open spec fn required_keys() -> Seq<Seq<char>> {
    seq![KEY_USERNAME@, KEY_PASSWORD@, KEY_TOTP_SECRET@, KEY_HOST@, KEY_ROUTE_CIDR@]
}

impl Config {
    /// The names of the variables that a configuration is built from.
    pub fn keys() -> (keys: Vec<&'static str>)
        ensures
            keys@.len() == 5,
            forall|i: int| 0 <= i < 5 ==> (#[trigger] keys@[i])@ == required_keys()[i],
    {
        let mut keys: Vec<&'static str> = Vec::new();
        keys.push(KEY_USERNAME);
        keys.push(KEY_PASSWORD);
        keys.push(KEY_TOTP_SECRET);
        keys.push(KEY_HOST);
        keys.push(KEY_ROUTE_CIDR);
        keys
    }

    /// Builds the configuration from `env`. All five names must be set; the
    /// error names the first one that is not.
    pub fn from_env(env: &Environment) -> (r: Result<Config, ConfigError>)
        ensures
            match r {
                Ok(config) => first_missing(env@) is None && config@ == configured(env@),
                Err(e) => first_missing(env@) == Some(e.key()),
            },
    {
        Ok(
            Config {
                username: Self::get_env(env, KEY_USERNAME)?,
                password: Self::get_env(env, KEY_PASSWORD)?,
                totp_secret: Self::get_env(env, KEY_TOTP_SECRET)?,
                host: Self::get_env(env, KEY_HOST)?,
                route_cidr: Self::get_env(env, KEY_ROUTE_CIDR)?,
            },
        )
    }

    fn get_env(env: &Environment, key: &str) -> (r: Result<String, ConfigError>)
        ensures
            match r {
                Ok(value) => env@.contains_key(key@) && value@ == env@[key@],
                Err(e) => !env@.contains_key(key@) && e.key() == key@,
            },
    {
        match env.get(key) {
            Some(value) => Ok(value),
            None => Err(ConfigError::Missing(key.to_owned())),
        }
    }
}

/// An environment that sets all five names lacks none of them, so a
/// configuration is built from it.
pub proof fn lemma_complete_environment_lacks_nothing(env: Map<Seq<char>, Seq<char>>)
    requires
        forall|i: int| 0 <= i < 5 ==> env.contains_key(#[trigger] required_keys()[i]),
    ensures
        first_missing(env) is None,
{
    assert(env.contains_key(required_keys()[0]));
    assert(env.contains_key(required_keys()[1]));
    assert(env.contains_key(required_keys()[2]));
    assert(env.contains_key(required_keys()[3]));
    assert(env.contains_key(required_keys()[4]));
}

/// Where one of the five names is unset and the other four are set, the
/// unset one is the name that the error carries.
pub proof fn lemma_single_missing_key_is_named(env: Map<Seq<char>, Seq<char>>, missing: int)
    requires
        0 <= missing < 5,
        !env.contains_key(required_keys()[missing]),
        forall|i: int|
            0 <= i < 5 && i != missing ==> env.contains_key(#[trigger] required_keys()[i]),
    ensures
        first_missing(env) == Some(required_keys()[missing]),
{
    assert(missing != 0 ==> env.contains_key(required_keys()[0]));
    assert(missing != 1 ==> env.contains_key(required_keys()[1]));
    assert(missing != 2 ==> env.contains_key(required_keys()[2]));
    assert(missing != 3 ==> env.contains_key(required_keys()[3]));
    assert(missing != 4 ==> env.contains_key(required_keys()[4]));
}

/// Whatever is missing, the name that the error carries is one of the five
/// and is unset, and every name before it is set.
pub proof fn lemma_named_key_is_first_unset(env: Map<Seq<char>, Seq<char>>)
    requires
        first_missing(env) is Some,
    ensures
        exists|i: int|
            0 <= i < 5 && first_missing(env) == Some(#[trigger] required_keys()[i])
                && !env.contains_key(required_keys()[i]) && forall|j: int|
                0 <= j < i ==> env.contains_key(#[trigger] required_keys()[j]),
{
    let i: int = if !env.contains_key(KEY_USERNAME@) {
        0
    } else if !env.contains_key(KEY_PASSWORD@) {
        1
    } else if !env.contains_key(KEY_TOTP_SECRET@) {
        2
    } else if !env.contains_key(KEY_HOST@) {
        3
    } else {
        4
    };
    assert(first_missing(env) == Some(required_keys()[i]));
    assert(forall|j: int| 0 <= j < i ==> env.contains_key(#[trigger] required_keys()[j]));
}

} // verus!
