use vstd::prelude::*;

use crate::error::ProwlError;
use crate::text::opt_view;

verus! {

/// The length of a text in bytes, as UTF-8 encodes it (what `str::len` returns).
pub open spec fn byte_len(t: Seq<char>) -> usize {
    vstd::utf8::encode_utf8(t).len() as usize
}

/// Longest event title, in bytes.
pub const MAX_EVENT_LEN: usize = 1024;

/// Longest description, in bytes.
pub const MAX_DESCRIPTION_LEN: usize = 10000;

/// Longest attached URL, in bytes.
pub const MAX_URL_LEN: usize = 512;

/// Longest application name, in bytes.
pub const MAX_APPLICATION_LEN: usize = 256;

/// A notification to send.
#[derive(Debug, Clone)]
pub struct SendRequest {
    /// One or more API keys, joined with commas.
    pub apikey: String,
    pub application: String,
    pub event: String,
    pub description: String,
    pub priority: i8,
    pub url: Option<String>,
    pub providerkey: Option<String>,
}

impl SendRequest {
    /// The first limit that the request breaks, in the order event, description,
    /// URL, application, priority; `None` when it breaks none.
    pub open spec fn validation_failure(&self) -> Option<ProwlError> {
        if byte_len(self.event@) > MAX_EVENT_LEN {
            Some(
                ProwlError::MessageTooLong {
                    length: byte_len(self.event@),
                    max: MAX_EVENT_LEN,
                },
            )
        } else if byte_len(self.description@) > MAX_DESCRIPTION_LEN {
            Some(
                ProwlError::MessageTooLong {
                    length: byte_len(self.description@),
                    max: MAX_DESCRIPTION_LEN,
                },
            )
        } else if self.url is Some && byte_len(self.url->Some_0@) > MAX_URL_LEN {
            Some(
                ProwlError::MessageTooLong {
                    length: byte_len(self.url->Some_0@),
                    max: MAX_URL_LEN,
                },
            )
        } else if byte_len(self.application@) > MAX_APPLICATION_LEN {
            Some(
                ProwlError::MessageTooLong {
                    length: byte_len(self.application@),
                    max: MAX_APPLICATION_LEN,
                },
            )
        } else if !(-2 <= self.priority <= 2) {
            Some(ProwlError::InvalidPriority)
        } else {
            None
        }
    }

    /// Checks the size limits and the priority domain.
    pub fn validate(&self) -> (r: Result<(), ProwlError>)
        ensures
            match r {
                Ok(()) => self.validation_failure() is None,
                Err(e) => self.validation_failure() == Some(e),
            },
    {
        let event_len = self.event.as_str().len();
        if event_len > MAX_EVENT_LEN {
            return Err(ProwlError::MessageTooLong { length: event_len, max: MAX_EVENT_LEN });
        }
        let description_len = self.description.as_str().len();
        if description_len > MAX_DESCRIPTION_LEN {
            return Err(
                ProwlError::MessageTooLong { length: description_len, max: MAX_DESCRIPTION_LEN },
            );
        }
        if let Some(url) = &self.url {
            let url_len = url.as_str().len();
            if url_len > MAX_URL_LEN {
                return Err(ProwlError::MessageTooLong { length: url_len, max: MAX_URL_LEN });
            }
        }
        let application_len = self.application.as_str().len();
        if application_len > MAX_APPLICATION_LEN {
            return Err(
                ProwlError::MessageTooLong { length: application_len, max: MAX_APPLICATION_LEN },
            );
        }
        if !(-2 <= self.priority && self.priority <= 2) {
            return Err(ProwlError::InvalidPriority);
        }
        Ok(())
    }
}

/// An event title over its limit is always refused, with its length and the limit.
pub proof fn event_limit(r: SendRequest)
    requires
        byte_len(r.event@) > MAX_EVENT_LEN,
    ensures
        r.validation_failure() == Some(
            ProwlError::MessageTooLong { length: byte_len(r.event@), max: MAX_EVENT_LEN },
        ),
{
}

/// A description over its limit is refused with its length and the limit,
/// whenever the event title keeps to its own limit (that one is checked first).
pub proof fn description_limit(r: SendRequest)
    requires
        byte_len(r.event@) <= MAX_EVENT_LEN,
        byte_len(r.description@) > MAX_DESCRIPTION_LEN,
    ensures
        r.validation_failure() == Some(
            ProwlError::MessageTooLong {
                length: byte_len(r.description@),
                max: MAX_DESCRIPTION_LEN,
            },
        ),
{
}

/// A URL over its limit is refused with its length and the limit, whenever the
/// event title and the description keep to theirs.
pub proof fn url_limit(r: SendRequest)
    requires
        byte_len(r.event@) <= MAX_EVENT_LEN,
        byte_len(r.description@) <= MAX_DESCRIPTION_LEN,
        r.url is Some,
        byte_len(r.url->Some_0@) > MAX_URL_LEN,
    ensures
        r.validation_failure() == Some(
            ProwlError::MessageTooLong { length: byte_len(r.url->Some_0@), max: MAX_URL_LEN },
        ),
{
}

/// An application name over its limit is refused with its length and the limit,
/// whenever the event title, the description and the URL keep to theirs.
pub proof fn application_limit(r: SendRequest)
    requires
        byte_len(r.event@) <= MAX_EVENT_LEN,
        byte_len(r.description@) <= MAX_DESCRIPTION_LEN,
        r.url is Some ==> byte_len(r.url->Some_0@) <= MAX_URL_LEN,
        byte_len(r.application@) > MAX_APPLICATION_LEN,
    ensures
        r.validation_failure() == Some(
            ProwlError::MessageTooLong {
                length: byte_len(r.application@),
                max: MAX_APPLICATION_LEN,
            },
        ),
{
}

/// With every text within its limit, validation accepts exactly the priorities
/// -2, -1, 0, 1 and 2, and refuses every other one with the priority error.
pub proof fn priority_domain(r: SendRequest)
    requires
        byte_len(r.event@) <= MAX_EVENT_LEN,
        byte_len(r.description@) <= MAX_DESCRIPTION_LEN,
        r.url is Some ==> byte_len(r.url->Some_0@) <= MAX_URL_LEN,
        byte_len(r.application@) <= MAX_APPLICATION_LEN,
    ensures
        r.validation_failure() is None <==> (r.priority == -2 || r.priority == -1 || r.priority
            == 0 || r.priority == 1 || r.priority == 2),
        !(-2 <= r.priority <= 2) ==> r.validation_failure() == Some(ProwlError::InvalidPriority),
{
}

/// A request of one of the five levels, with every text within its limit, passes
/// validation.
pub proof fn levels_pass(r: SendRequest, p: crate::cli::Priority)
    requires
        byte_len(r.event@) <= MAX_EVENT_LEN,
        byte_len(r.description@) <= MAX_DESCRIPTION_LEN,
        r.url is Some ==> byte_len(r.url->Some_0@) <= MAX_URL_LEN,
        byte_len(r.application@) <= MAX_APPLICATION_LEN,
        r.priority == p.spec_i8(),
    ensures
        r.validation_failure() is None,
{
}

/// A request to check an API key.
#[derive(Debug, Clone)]
pub struct VerifyRequest {
    pub apikey: String,
    pub providerkey: Option<String>,
}

/// A request for a registration token.
#[derive(Debug, Clone)]
pub struct TokenRequest {
    pub providerkey: String,
}

/// A request for the API key behind an approved token.
#[derive(Debug, Clone)]
pub struct RegisterRequest {
    pub providerkey: String,
    pub token: String,
}

/// The successful outcome of an API call.
#[derive(Debug, Clone)]
pub struct ApiResponse {
    pub success: bool,
    pub code: i32,
    pub remaining: Option<i32>,
    pub reset_date: Option<String>,
    pub token: Option<String>,
    pub token_url: Option<String>,
    pub apikey: Option<String>,
    pub error_message: Option<String>,
}

/// `r` is the plain success record with these fields and nothing retrieved.
pub open spec fn is_plain_success(
    r: ApiResponse,
    code: i32,
    remaining: Option<i32>,
    reset_date: Option<Seq<char>>,
) -> bool {
    &&& r.success
    &&& r.code == code
    &&& r.remaining == remaining
    &&& opt_view(r.reset_date) == reset_date
    &&& r.token is None
    &&& r.token_url is None
    &&& r.apikey is None
    &&& r.error_message is None
}

impl ApiResponse {
    /// A success record with nothing retrieved.
    pub fn success(code: i32, remaining: Option<i32>, reset_date: Option<String>) -> (r: Self)
        ensures
            is_plain_success(r, code, remaining, opt_view(reset_date)),
    {
        ApiResponse {
            success: true,
            code,
            remaining,
            reset_date,
            token: None,
            token_url: None,
            apikey: None,
            error_message: None,
        }
    }

    /// The same record, carrying a registration token and its approval URL.
    pub fn with_token(self, token: String, url: String) -> (r: Self)
        ensures
            r == (ApiResponse { token: Some(token), token_url: Some(url), ..self }),
    {
        let mut r = self;
        r.token = Some(token);
        r.token_url = Some(url);
        r
    }

    /// The same record, carrying a retrieved API key.
    pub fn with_apikey(self, apikey: String) -> (r: Self)
        ensures
            r == (ApiResponse { apikey: Some(apikey), ..self }),
    {
        let mut r = self;
        r.apikey = Some(apikey);
        r
    }
}

} // verus!
