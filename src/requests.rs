use vstd::prelude::*;
use vstd::string::StringExecFns;

use crate::cli::{RegisterArgs, SendArgs};
use crate::config::ResolvedConfig;
use crate::error::ProwlError;
use crate::text::{clone_opt, int_decimal, int_text, opt_view, text_eq};
use crate::types::{RegisterRequest, SendRequest, TokenRequest, VerifyRequest};

verus! {

/// The keys joined with commas, in order, each kept as it is.
pub open spec fn comma_joined(keys: Seq<Seq<char>>) -> Seq<char>
    decreases keys.len(),
{
    if keys.len() == 0 {
        seq![]
    } else if keys.len() == 1 {
        keys[0]
    } else {
        comma_joined(keys.drop_last()) + seq![','] + keys.last()
    }
}

/// The characters of each string of a list.
pub open spec fn views(v: Seq<String>) -> Seq<Seq<char>> {
    v.map_values(|k: String| k@)
}

/// The characters of each name and value of a list of pairs.
pub open spec fn pair_views(v: Seq<(String, String)>) -> Seq<(Seq<char>, Seq<char>)> {
    v.map_values(|p: (String, String)| (p.0@, p.1@))
}

/// The address that every request goes to, before its endpoint.
pub open spec fn base_url() -> Seq<char> {
    "https://api.prowlapp.com/publicapi"@
}

/// The key field of a notification: the resolved key, then each further key.
pub fn combine_keys(primary: &str, extra: &Vec<String>) -> (r: String)
    ensures
        r@ == comma_joined(seq![primary@] + views(extra@)),
{
    let mut s = String::from_str(primary);
    let mut i: usize = 0;
    proof {
        assert(seq![primary@] + views(extra@.subrange(0, 0)) =~= seq![primary@]);
    }
    while i < extra.len()
        invariant
            0 <= i <= extra@.len(),
            s@ == comma_joined(seq![primary@] + views(extra@.subrange(0, i as int))),
        decreases extra@.len() - i,
    {
        let ghost before = seq![primary@] + views(extra@.subrange(0, i as int));
        let ghost after = seq![primary@] + views(extra@.subrange(0, i + 1));
        proof {
            assert(after.drop_last() =~= before);
            assert(after.last() == extra@[i as int]@);
            reveal_strlit(",");
        }
        s.append(",");
        s.append(extra[i].as_str());
        proof {
            assert(s@ =~= comma_joined(after));
        }
        i = i + 1;
    }
    proof {
        assert(extra@.subrange(0, extra@.len() as int) =~= extra@);
    }
    s
}

impl SendRequest {
    /// The form fields of the request, in the order they are sent.
    pub open spec fn form_fields(&self) -> Seq<(Seq<char>, Seq<char>)> {
        let base = seq![
            ("apikey"@, self.apikey@),
            ("application"@, self.application@),
            ("event"@, self.event@),
            ("description"@, self.description@),
            ("priority"@, int_decimal(self.priority as int)),
        ];
        let with_url = match self.url {
            Some(u) => base.push(("url"@, u@)),
            None => base,
        };
        match self.providerkey {
            Some(p) => with_url.push(("providerkey"@, p@)),
            None => with_url,
        }
    }

    /// The form fields of the request, in the order they are sent.
    pub fn form(&self) -> (r: Vec<(String, String)>)
        ensures
            pair_views(r@) == self.form_fields(),
    {
        let mut v: Vec<(String, String)> = Vec::new();
        v.push((String::from_str("apikey"), self.apikey.clone()));
        v.push((String::from_str("application"), self.application.clone()));
        v.push((String::from_str("event"), self.event.clone()));
        v.push((String::from_str("description"), self.description.clone()));
        v.push((String::from_str("priority"), int_text(self.priority as i64)));
        if let Some(url) = &self.url {
            v.push((String::from_str("url"), url.clone()));
        }
        if let Some(p) = &self.providerkey {
            v.push((String::from_str("providerkey"), p.clone()));
        }
        proof {
            assert(pair_views(v@) =~= self.form_fields());
        }
        v
    }

    /// The form to post, once the request passes validation; nothing is built
    /// for a request that fails it.
    pub fn checked_form(&self) -> (r: Result<Vec<(String, String)>, ProwlError>)
        ensures
            match r {
                Ok(f) => self.validation_failure() is None && pair_views(f@) == self.form_fields(),
                Err(e) => self.validation_failure() == Some(e),
            },
    {
        match self.validate() {
            Ok(()) => Ok(self.form()),
            Err(e) => Err(e),
        }
    }
}

impl VerifyRequest {
    /// The address of the key check, with its query.
    pub open spec fn spec_url(&self) -> Seq<char> {
        base_url() + "/verify?apikey="@ + self.apikey@ + match self.providerkey {
            Some(p) => "&providerkey="@ + p@,
            None => seq![],
        }
    }

    /// The address of the key check, with its query.
    pub fn url(&self) -> (r: String)
        ensures
            r@ == self.spec_url(),
    {
        let mut u = String::from_str("https://api.prowlapp.com/publicapi").concat(
            "/verify?apikey=",
        ).concat(self.apikey.as_str());
        if let Some(p) = &self.providerkey {
            u.append("&providerkey=");
            u.append(p.as_str());
        }
        proof {
            assert(u@ =~= self.spec_url());
        }
        u
    }
}

impl TokenRequest {
    /// The address of the token retrieval, with its query.
    pub open spec fn spec_url(&self) -> Seq<char> {
        base_url() + "/retrieve/token?providerkey="@ + self.providerkey@
    }

    /// The address of the token retrieval, with its query.
    pub fn url(&self) -> (r: String)
        ensures
            r@ == self.spec_url(),
    {
        String::from_str("https://api.prowlapp.com/publicapi").concat(
            "/retrieve/token?providerkey=",
        ).concat(self.providerkey.as_str())
    }
}

impl RegisterRequest {
    /// The address of the API key retrieval, with its query.
    pub open spec fn spec_url(&self) -> Seq<char> {
        base_url() + "/retrieve/apikey?providerkey="@ + self.providerkey@ + "&token="@
            + self.token@
    }

    /// The address of the API key retrieval, with its query.
    pub fn url(&self) -> (r: String)
        ensures
            r@ == self.spec_url(),
    {
        String::from_str("https://api.prowlapp.com/publicapi").concat(
            "/retrieve/apikey?providerkey=",
        ).concat(self.providerkey.as_str()).concat("&token=").concat(self.token.as_str())
    }
}

/// The message argument asks for the description to be read from standard input.
pub fn reads_stdin(message: &str) -> (r: bool)
    ensures
        r == (message@ == "-"@),
{
    text_eq(message, "-")
}

/// The notification that `send` would post, from its arguments, the resolved
/// configuration and the description text.
pub fn build_send_request(args: &SendArgs, config: &ResolvedConfig, description: String) -> (r:
    Result<SendRequest, ProwlError>)
    ensures
        match r {
            Err(e) => config.api_key is None && e is MissingApiKey,
            Ok(req) => {
                &&& config.api_key is Some
                &&& req.apikey@ == comma_joined(
                    seq![config.api_key->Some_0@] + views(args.to@),
                )
                &&& req.application@ == config.application@
                &&& req.event@ == args.event@
                &&& req.description@ == description@
                &&& req.priority == args.priority.spec_i8()
                &&& opt_view(req.url) == opt_view(args.url)
                &&& opt_view(req.providerkey) == opt_view(config.provider_key)
            },
        },
{
    let key = match config.require_api_key() {
        Ok(k) => k,
        Err(e) => return Err(e),
    };
    Ok(
        SendRequest {
            apikey: combine_keys(key, &args.to),
            application: config.application.clone(),
            event: args.event.clone(),
            description,
            priority: args.priority.as_i8(),
            url: clone_opt(&args.url),
            providerkey: clone_opt(&config.provider_key),
        },
    )
}

/// The key check that `verify` would make.
pub fn build_verify_request(config: &ResolvedConfig) -> (r: Result<VerifyRequest, ProwlError>)
    ensures
        match r {
            Err(e) => config.api_key is None && e is MissingApiKey,
            Ok(req) => opt_view(config.api_key) == Some(req.apikey@) && opt_view(req.providerkey)
                == opt_view(config.provider_key),
        },
{
    let key = match config.require_api_key() {
        Ok(k) => k,
        Err(e) => return Err(e),
    };
    Ok(VerifyRequest { apikey: String::from_str(key), providerkey: clone_opt(&config.provider_key) })
}

/// The token retrieval that `token` would make.
pub fn build_token_request(config: &ResolvedConfig) -> (r: Result<TokenRequest, ProwlError>)
    ensures
        match r {
            Err(e) => config.provider_key is None && e is MissingProviderKey,
            Ok(req) => opt_view(config.provider_key) == Some(req.providerkey@),
        },
{
    let key = match config.require_provider_key() {
        Ok(k) => k,
        Err(e) => return Err(e),
    };
    Ok(TokenRequest { providerkey: String::from_str(key) })
}

/// The API key retrieval that `register` would make.
pub fn build_register_request(args: &RegisterArgs, config: &ResolvedConfig) -> (r: Result<
    RegisterRequest,
    ProwlError,
>)
    ensures
        match r {
            Err(e) => config.provider_key is None && e is MissingProviderKey,
            Ok(req) => opt_view(config.provider_key) == Some(req.providerkey@) && req.token@
                == args.token@,
        },
{
    let key = match config.require_provider_key() {
        Ok(k) => k,
        Err(e) => return Err(e),
    };
    Ok(RegisterRequest { providerkey: String::from_str(key), token: args.token.clone() })
}

} // verus!
