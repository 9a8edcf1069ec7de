use vstd::prelude::*;
use vstd::string::StringExecFns;
use crate::request::Credentials;

verus! {

/// A setting read once at startup.
#[derive(Clone, Copy, Debug, PartialEq, Eq, Structural)]
pub enum Setting {
    User,
    Password,
    Url,
}

/// What the environment holds for a setting.
#[derive(Clone, Debug)]
pub enum EnvValue {
    Absent,
    NotUnicode,
    Text(String),
}

/// A setting that keeps the exporter from starting.
#[derive(Clone, Copy, Debug, PartialEq, Eq, Structural)]
pub enum ConfigError {
    Missing(Setting),
    NotUnicode(Setting),
}

impl Setting {
    pub open spec fn spec_env_name(self) -> Seq<char> {
        match self {
            Setting::User => "NUN_USER"@,
            Setting::Password => "NUN_PWD"@,
            Setting::Url => "NUN_URL"@,
        }
    }

    /// The environment variable that holds the setting.
    pub fn env_name(&self) -> (r: &'static str)
        ensures
            r@ == self.spec_env_name(),
    {
        match self {
            Setting::User => "NUN_USER",
            Setting::Password => "NUN_PWD",
            Setting::Url => "NUN_URL",
        }
    }
}

impl ConfigError {
    pub open spec fn spec_message(self) -> Seq<char> {
        match self {
            ConfigError::Missing(s) => "env "@ + s.spec_env_name() + " is mandatory"@,
            ConfigError::NotUnicode(s) => "env "@ + s.spec_env_name() + " is not valid unicode"@,
        }
    }

    /// A diagnostic that names the setting.
    pub fn message(&self) -> (r: String)
        ensures
            r@ == self.spec_message(),
    {
        let mut m = "env ".to_owned();
        match self {
            ConfigError::Missing(s) => {
                m.append(s.env_name());
                m.append(" is mandatory");
            },
            ConfigError::NotUnicode(s) => {
                m.append(s.env_name());
                m.append(" is not valid unicode");
            },
        }
        proof {
            assert(m@ =~= self.spec_message());
        }
        m
    }
}

pub open spec fn spec_resolve(setting: Setting, value: EnvValue) -> Result<Seq<char>, ConfigError> {
    match value {
        EnvValue::Absent => Err(ConfigError::Missing(setting)),
        EnvValue::NotUnicode => Err(ConfigError::NotUnicode(setting)),
        EnvValue::Text(s) => Ok(s@),
    }
}

/// The text of a setting, or why it cannot be had.
pub fn resolve_setting(setting: Setting, value: EnvValue) -> (r: Result<String, ConfigError>)
    ensures
        match r {
            Ok(s) => spec_resolve(setting, value) == Ok::<Seq<char>, ConfigError>(s@),
            Err(e) => spec_resolve(setting, value) == Err::<Seq<char>, ConfigError>(e),
        },
{
    match value {
        EnvValue::Absent => Err(ConfigError::Missing(setting)),
        EnvValue::NotUnicode => Err(ConfigError::NotUnicode(setting)),
        EnvValue::Text(s) => Ok(s),
    }
}

/// Where the node is and how to log in to it.
#[derive(Clone, Debug)]
pub struct Config {
    pub credentials: Credentials,
    pub url: String,
}

impl Config {
    /// Builds the configuration from the three settings; the first one that
    /// cannot be had, in the order user, password, url, is reported.
    pub fn from_values(user: EnvValue, password: EnvValue, url: EnvValue) -> (r: Result<
        Config,
        ConfigError,
    >)
        ensures
            match r {
                Ok(c) => {
                    &&& spec_resolve(Setting::User, user) == Ok::<Seq<char>, ConfigError>(
                        c.credentials.username@,
                    )
                    &&& spec_resolve(Setting::Password, password) == Ok::<Seq<char>, ConfigError>(
                        c.credentials.password@,
                    )
                    &&& spec_resolve(Setting::Url, url) == Ok::<Seq<char>, ConfigError>(c.url@)
                },
                Err(e) => {
                    ||| spec_resolve(Setting::User, user) == Err::<Seq<char>, ConfigError>(e)
                    ||| (spec_resolve(Setting::User, user) is Ok && spec_resolve(
                        Setting::Password,
                        password,
                    ) == Err::<Seq<char>, ConfigError>(e))
                    ||| (spec_resolve(Setting::User, user) is Ok && spec_resolve(
                        Setting::Password,
                        password,
                    ) is Ok && spec_resolve(Setting::Url, url) == Err::<Seq<char>, ConfigError>(e))
                },
            },
    {
        let username = match resolve_setting(Setting::User, user) {
            Ok(s) => s,
            Err(e) => return Err(e),
        };
        let password = match resolve_setting(Setting::Password, password) {
            Ok(s) => s,
            Err(e) => return Err(e),
        };
        let url = match resolve_setting(Setting::Url, url) {
            Ok(s) => s,
            Err(e) => return Err(e),
        };
        Ok(Config { credentials: Credentials { username, password }, url })
    }
}

} // verus!
