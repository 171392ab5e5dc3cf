use vstd::prelude::*;
use vstd::string::StringExecFns;

use crate::error::ProwlError;
use crate::text::{clone_opt, opt_view, text_eq};

verus! {

/// The application name used when no source supplies one.
pub open spec fn default_application() -> Seq<char> {
    "prowl-cli"@
}

/// The persisted configuration: three optional fields. The same record holds
/// what the environment supplies.
#[derive(Debug, Clone, Default)]
pub struct Config {
    pub api_key: Option<String>,
    pub provider_key: Option<String>,
    pub application: Option<String>,
}

/// The first of three sources that holds a value.
pub open spec fn first_of(
    a: Option<Seq<char>>,
    b: Option<Seq<char>>,
    c: Option<Seq<char>>,
) -> Option<Seq<char>> {
    if a is Some {
        a
    } else if b is Some {
        b
    } else {
        c
    }
}

/// The message of the error for a key that `set` does not know.
pub open spec fn unknown_key_message(key: Seq<char>) -> Seq<char> {
    "Unknown config key: "@ + key + ". Valid keys are: api_key, provider_key, application"@
}

fn str_opt(o: Option<&str>) -> (r: Option<String>)
    ensures
        opt_view(r) == match o {
            Some(s) => Some(s@),
            None => None::<Seq<char>>,
        },
{
    match o {
        Some(s) => Some(String::from_str(s)),
        None => None,
    }
}

fn first_present(a: Option<String>, b: &Option<String>, c: &Option<String>) -> (r: Option<String>)
    ensures
        opt_view(r) == first_of(opt_view(a), opt_view(*b), opt_view(*c)),
{
    match a {
        Some(v) => Some(v),
        None => match b {
            Some(v) => Some(v.clone()),
            None => clone_opt(c),
        },
    }
}

impl Config {
    /// The record written by `config init`: only the default application name.
    pub fn initial() -> (r: Config)
        ensures
            r.api_key is None,
            r.provider_key is None,
            opt_view(r.application) == Some(default_application()),
    {
        Config { api_key: None, provider_key: None, application: Some(String::from_str("prowl-cli")) }
    }

    /// Sets the field called `key` to `value`; any key other than `api_key`,
    /// `provider_key` and `application` is refused and nothing changes.
    pub fn set(&mut self, key: &str, value: &str) -> (r: Result<(), ProwlError>)
        ensures
            key@ == "api_key"@ ==> {
                &&& r is Ok
                &&& opt_view(final(self).api_key) == Some(value@)
                &&& final(self).provider_key == old(self).provider_key
                &&& final(self).application == old(self).application
            },
            key@ == "provider_key"@ ==> {
                &&& r is Ok
                &&& opt_view(final(self).provider_key) == Some(value@)
                &&& final(self).api_key == old(self).api_key
                &&& final(self).application == old(self).application
            },
            key@ == "application"@ ==> {
                &&& r is Ok
                &&& opt_view(final(self).application) == Some(value@)
                &&& final(self).api_key == old(self).api_key
                &&& final(self).provider_key == old(self).provider_key
            },
            key@ != "api_key"@ && key@ != "provider_key"@ && key@ != "application"@ ==> {
                &&& *final(self) == *old(self)
                &&& match r {
                    Err(ProwlError::Config(m)) => m@ == unknown_key_message(key@),
                    _ => false,
                }
            },
    {
        proof {
            reveal_strlit("api_key");
            reveal_strlit("provider_key");
            reveal_strlit("application");
            assert("api_key"@.len() == 7);
            assert("api_key"@[0] == 'a');
            assert("provider_key"@[0] == 'p');
        }
        if text_eq(key, "api_key") {
            self.api_key = Some(String::from_str(value));
            Ok(())
        } else if text_eq(key, "provider_key") {
            self.provider_key = Some(String::from_str(value));
            Ok(())
        } else if text_eq(key, "application") {
            self.application = Some(String::from_str(value));
            Ok(())
        } else {
            let m = String::from_str("Unknown config key: ").concat(key).concat(
                ". Valid keys are: api_key, provider_key, application",
            );
            Err(ProwlError::Config(m))
        }
    }
}

/// Precedence of the sources: an explicit value wins over the environment, the
/// environment over the file, and the file over the built-in application name.
pub proof fn precedence(
    explicit: Option<Seq<char>>,
    env: Option<Seq<char>>,
    file: Option<Seq<char>>,
)
    ensures
        explicit is Some ==> first_of(explicit, env, file) == explicit,
        explicit is None && env is Some ==> first_of(explicit, env, file) == env,
        explicit is None && env is None ==> first_of(explicit, env, file) == file,
        explicit is None && env is None && file is None <==> first_of(
            first_of(explicit, env, file),
            Some(default_application()),
            None,
        ) == Some(default_application()) && first_of(explicit, env, file) is None,
{
}

/// The effective configuration of one invocation.
#[derive(Debug, Clone)]
pub struct ResolvedConfig {
    pub api_key: Option<String>,
    pub provider_key: Option<String>,
    pub application: String,
}

impl ResolvedConfig {
    /// Merges the sources field by field: an explicit value wins over the
    /// environment, which wins over the file; the application name falls back to
    /// `prowl-cli`.
    pub fn resolve(
        cli_api_key: Option<&str>,
        cli_provider_key: Option<&str>,
        cli_application: Option<&str>,
        env: &Config,
        file: &Config,
    ) -> (r: ResolvedConfig)
        ensures
            opt_view(r.api_key) == first_of(
                match cli_api_key {
                    Some(s) => Some(s@),
                    None => None,
                },
                opt_view(env.api_key),
                opt_view(file.api_key),
            ),
            opt_view(r.provider_key) == first_of(
                match cli_provider_key {
                    Some(s) => Some(s@),
                    None => None,
                },
                opt_view(env.provider_key),
                opt_view(file.provider_key),
            ),
            Some(r.application@) == first_of(
                first_of(
                    match cli_application {
                        Some(s) => Some(s@),
                        None => None,
                    },
                    opt_view(env.application),
                    opt_view(file.application),
                ),
                Some(default_application()),
                None,
            ),
    {
        let api_key = first_present(str_opt(cli_api_key), &env.api_key, &file.api_key);
        let provider_key = first_present(
            str_opt(cli_provider_key),
            &env.provider_key,
            &file.provider_key,
        );
        let application = match first_present(
            str_opt(cli_application),
            &env.application,
            &file.application,
        ) {
            Some(a) => a,
            None => String::from_str("prowl-cli"),
        };
        ResolvedConfig { api_key, provider_key, application }
    }

    /// The API key, or `MissingApiKey` when no source supplied one.
    pub fn require_api_key(&self) -> (r: Result<&str, ProwlError>)
        ensures
            match r {
                Ok(k) => opt_view(self.api_key) == Some(k@),
                Err(e) => self.api_key is None && e is MissingApiKey,
            },
    {
        match &self.api_key {
            Some(k) => Ok(k.as_str()),
            None => Err(ProwlError::MissingApiKey),
        }
    }

    /// The provider key, or `MissingProviderKey` when no source supplied one.
    pub fn require_provider_key(&self) -> (r: Result<&str, ProwlError>)
        ensures
            match r {
                Ok(k) => opt_view(self.provider_key) == Some(k@),
                Err(e) => self.provider_key is None && e is MissingProviderKey,
            },
    {
        match &self.provider_key {
            Some(k) => Ok(k.as_str()),
            None => Err(ProwlError::MissingProviderKey),
        }
    }
}

} // verus!
