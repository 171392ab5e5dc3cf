use vstd::prelude::*;
use vstd::string::StringExecFns;

use crate::text::{int_decimal, int_text, nat_decimal, nat_text};

verus! {

/// Every failure of the library, threaded back unchanged to the caller.
#[derive(Debug, Clone)]
pub enum ProwlError {
    /// The HTTP exchange failed.
    Http(String),
    /// The response body is not a document of the expected shape.
    XmlParse(String),
    /// The configuration file or a configuration operation failed.
    Config(String),
    /// A local I/O operation failed.
    Io(String),
    /// The service answered with an error code.
    Api { code: i32, message: String },
    /// No API key was supplied by any source.
    MissingApiKey,
    /// No provider key was supplied by any source.
    MissingProviderKey,
    /// The priority lies outside -2 ..= 2.
    InvalidPriority,
    /// A field is longer than its limit, in bytes.
    MessageTooLong { length: usize, max: usize },
    /// A registration token was asked for before the user approved it.
    TokenNotApproved,
}

/// The message that stands for an API error code when the service sent none.
pub open spec fn default_api_message(code: int) -> Seq<char> {
    if code == 400 {
        "Bad request - invalid parameters"@
    } else if code == 401 {
        "Unauthorized - invalid API key"@
    } else if code == 406 {
        "Not acceptable - rate limit exceeded"@
    } else if code == 409 {
        "Not approved - token has not been approved yet"@
    } else if code == 500 {
        "Internal server error"@
    } else {
        "Unknown error code: "@ + int_decimal(code)
    }
}

/// The API error for `code`, with `message` or else the code's standard message.
pub open spec fn is_api_error(e: ProwlError, code: i32, message: Option<Seq<char>>) -> bool {
    match e {
        ProwlError::Api { code: c, message: m } => c == code && m@ == match message {
            Some(t) => t,
            None => default_api_message(code as int),
        },
        _ => false,
    }
}

impl ProwlError {
    /// The process exit status that stands for this failure.
    pub open spec fn spec_exit_code(&self) -> i32 {
        match self {
            ProwlError::Api { code, .. } => {
                if *code == 401 {
                    2
                } else if *code == 406 {
                    3
                } else if *code == 409 {
                    4
                } else {
                    1
                }
            },
            ProwlError::MissingApiKey | ProwlError::MissingProviderKey => 2,
            ProwlError::TokenNotApproved => 4,
            _ => 1,
        }
    }

    /// The text shown to the user for this failure.
    pub open spec fn spec_message(&self) -> Seq<char> {
        match self {
            ProwlError::Http(s) => "HTTP request failed: "@ + s@,
            ProwlError::XmlParse(s) => "XML parsing failed: "@ + s@,
            ProwlError::Config(s) => "Config file error: "@ + s@,
            ProwlError::Io(s) => "IO error: "@ + s@,
            ProwlError::Api { code, message } => "API error ("@ + int_decimal(*code as int) + "): "@
                + message@,
            ProwlError::MissingApiKey =>
                "No API key provided. Set via --api-key, PROWL_API_KEY env var, or config file"@,
            ProwlError::MissingProviderKey =>
                "No provider key provided. Set via --provider-key or PROWL_PROVIDER_KEY env var"@,
            ProwlError::InvalidPriority => "Invalid priority: must be between -2 and 2"@,
            ProwlError::MessageTooLong { length, max } => "Message too long: "@ + nat_decimal(
                *length as nat,
            ) + " bytes (max "@ + nat_decimal(*max as nat) + ")"@,
            ProwlError::TokenNotApproved => "Token not yet approved"@,
        }
    }

    /// The API error for `code`; without a message, the code's standard one.
    pub fn from_api_code(code: i32, message: Option<String>) -> (r: ProwlError)
        ensures
            is_api_error(r, code, crate::text::opt_view(message)),
    {
        let message = match message {
            Some(m) => m,
            None => {
                if code == 400 {
                    String::from_str("Bad request - invalid parameters")
                } else if code == 401 {
                    String::from_str("Unauthorized - invalid API key")
                } else if code == 406 {
                    String::from_str("Not acceptable - rate limit exceeded")
                } else if code == 409 {
                    String::from_str("Not approved - token has not been approved yet")
                } else if code == 500 {
                    String::from_str("Internal server error")
                } else {
                    let mut m = String::from_str("Unknown error code: ");
                    let digits = int_text(code as i64);
                    m.append(digits.as_str());
                    m
                }
            },
        };
        ProwlError::Api { code, message }
    }

    /// The process exit status that stands for this failure.
    pub fn exit_code(&self) -> (r: i32)
        ensures
            r == self.spec_exit_code(),
    {
        match self {
            ProwlError::Api { code, .. } => {
                if *code == 401 {
                    2
                } else if *code == 406 {
                    3
                } else if *code == 409 {
                    4
                } else {
                    1
                }
            },
            ProwlError::MissingApiKey | ProwlError::MissingProviderKey => 2,
            ProwlError::TokenNotApproved => 4,
            _ => 1,
        }
    }

    /// The text shown to the user for this failure.
    pub fn message(&self) -> (r: String)
        ensures
            r@ == self.spec_message(),
    {
        match self {
            ProwlError::Http(s) => String::from_str("HTTP request failed: ").concat(s.as_str()),
            ProwlError::XmlParse(s) => String::from_str("XML parsing failed: ").concat(s.as_str()),
            ProwlError::Config(s) => String::from_str("Config file error: ").concat(s.as_str()),
            ProwlError::Io(s) => String::from_str("IO error: ").concat(s.as_str()),
            ProwlError::Api { code, message } => {
                let digits = int_text(*code as i64);
                String::from_str("API error (").concat(digits.as_str()).concat("): ").concat(
                    message.as_str(),
                )
            },
            ProwlError::MissingApiKey => String::from_str(
                "No API key provided. Set via --api-key, PROWL_API_KEY env var, or config file",
            ),
            ProwlError::MissingProviderKey => String::from_str(
                "No provider key provided. Set via --provider-key or PROWL_PROVIDER_KEY env var",
            ),
            ProwlError::InvalidPriority => String::from_str(
                "Invalid priority: must be between -2 and 2",
            ),
            ProwlError::MessageTooLong { length, max } => {
                let l = nat_text(*length as u64);
                let m = nat_text(*max as u64);
                String::from_str("Message too long: ").concat(l.as_str()).concat(
                    " bytes (max ",
                ).concat(m.as_str()).concat(")")
            },
            ProwlError::TokenNotApproved => String::from_str("Token not yet approved"),
        }
    }
}

} // verus!
