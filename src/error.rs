//! Errors of the backend and of its provider adapters.

use vstd::prelude::*;
use vstd::string::StringExecFns;

verus! {

/// What can go wrong in a request.
#[derive(Debug, Clone, PartialEq, Eq)]
pub enum Error {
    /// API key is missing for a provider
    MissingApiKey(String),
    /// Provider not yet implemented
    ProviderNotImplemented(String),
    /// HTTP request error
    HttpError(String),
    /// API returned an error response
    ApiError(String),
    /// Failed to parse API response
    ParseError(String),
    /// No choices in API response
    NoChoicesInResponse,
    /// Prompt not found in queue
    PromptNotFound(usize),
    /// Rate limit exceeded
    RateLimitExceeded,
    /// Context window exceeded
    ContextWindowExceeded,
    /// Invalid configuration
    InvalidConfiguration(String),
    /// Timeout error
    Timeout,
    /// Generic error
    Other(String),
}

/// The failures after which a request is tried again on another candidate.
pub open spec fn retryable(e: Error) -> bool {
    match e {
        Error::RateLimitExceeded | Error::HttpError(_) | Error::Timeout | Error::ApiError(_) => true,
        _ => false,
    }
}

impl Error {
    /// An equal copy of this error.
    pub fn duplicate(&self) -> (r: Error)
        ensures
            r == *self,
    {
        match self {
            Error::MissingApiKey(s) => Error::MissingApiKey(s.clone()),
            Error::ProviderNotImplemented(s) => Error::ProviderNotImplemented(s.clone()),
            Error::HttpError(s) => Error::HttpError(s.clone()),
            Error::ApiError(s) => Error::ApiError(s.clone()),
            Error::ParseError(s) => Error::ParseError(s.clone()),
            Error::NoChoicesInResponse => Error::NoChoicesInResponse,
            Error::PromptNotFound(id) => Error::PromptNotFound(*id),
            Error::RateLimitExceeded => Error::RateLimitExceeded,
            Error::ContextWindowExceeded => Error::ContextWindowExceeded,
            Error::InvalidConfiguration(s) => Error::InvalidConfiguration(s.clone()),
            Error::Timeout => Error::Timeout,
            Error::Other(s) => Error::Other(s.clone()),
        }
    }

    /// Whether failover may try the request again after this failure.
    pub fn is_retryable(&self) -> (r: bool)
        ensures
            r == retryable(*self),
    {
        match self {
            Error::RateLimitExceeded | Error::HttpError(_) | Error::Timeout | Error::ApiError(_) => true,
            _ => false,
        }
    }
}

/// The decimal digit for `d`.
pub open spec fn digit_char(d: nat) -> char {
    if d == 0 { '0' }
    else if d == 1 { '1' }
    else if d == 2 { '2' }
    else if d == 3 { '3' }
    else if d == 4 { '4' }
    else if d == 5 { '5' }
    else if d == 6 { '6' }
    else if d == 7 { '7' }
    else if d == 8 { '8' }
    else { '9' }
}

/// `n` written in decimal, without leading zeros.
pub open spec fn decimal(n: nat) -> Seq<char>
    decreases n,
{
    if n < 10 {
        seq![digit_char(n)]
    } else {
        decimal(n / 10).push(digit_char(n % 10))
    }
}

/// The human-readable text of an error.
pub open spec fn error_text(e: Error) -> Seq<char> {
    match e {
        Error::MissingApiKey(p) => "Missing API key for: "@ + p@,
        Error::ProviderNotImplemented(p) => "Provider not yet implemented: "@ + p@,
        Error::HttpError(m) => "HTTP error: "@ + m@,
        Error::ApiError(m) => "API error: "@ + m@,
        Error::ParseError(m) => "Parse error: "@ + m@,
        Error::NoChoicesInResponse => "API response contained no choices"@,
        Error::PromptNotFound(id) => "Prompt not found in queue: "@ + decimal(id as nat),
        Error::RateLimitExceeded => "API rate limit exceeded"@,
        Error::ContextWindowExceeded => "Request exceeds model context window"@,
        Error::InvalidConfiguration(m) => "Invalid configuration: "@ + m@,
        Error::Timeout => "Request timed out"@,
        Error::Other(m) => "Error: "@ + m@,
    }
}

fn digit_str(d: usize) -> (r: &'static str)
    requires
        d < 10,
    ensures
        r@ == seq![digit_char(d as nat)],
{
    proof {
        reveal_strlit("0");
        reveal_strlit("1");
        reveal_strlit("2");
        reveal_strlit("3");
        reveal_strlit("4");
        reveal_strlit("5");
        reveal_strlit("6");
        reveal_strlit("7");
        reveal_strlit("8");
        reveal_strlit("9");
    }
    if d == 0 { "0" }
    else if d == 1 { "1" }
    else if d == 2 { "2" }
    else if d == 3 { "3" }
    else if d == 4 { "4" }
    else if d == 5 { "5" }
    else if d == 6 { "6" }
    else if d == 7 { "7" }
    else if d == 8 { "8" }
    else { "9" }
}

/// Writes `n` in decimal.
pub fn decimal_string(n: usize) -> (r: String)
    ensures
        r@ == decimal(n as nat),
    decreases n,
{
    if n < 10 {
        String::from_str(digit_str(n))
    } else {
        let mut s = decimal_string(n / 10);
        s.append(digit_str(n % 10));
        s
    }
}

fn prefixed(prefix: &str, m: &String) -> (r: String)
    ensures
        r@ == prefix@ + m@,
{
    let mut s = String::from_str(prefix);
    s.append(m.as_str());
    s
}

impl Error {
    /// The human-readable text of this error.
    pub fn to_string(&self) -> (r: String)
        ensures
            r@ == error_text(*self),
    {
        match self {
            Error::MissingApiKey(p) => prefixed("Missing API key for: ", p),
            Error::ProviderNotImplemented(p) => prefixed("Provider not yet implemented: ", p),
            Error::HttpError(m) => prefixed("HTTP error: ", m),
            Error::ApiError(m) => prefixed("API error: ", m),
            Error::ParseError(m) => prefixed("Parse error: ", m),
            Error::NoChoicesInResponse => String::from_str("API response contained no choices"),
            Error::PromptNotFound(id) => {
                let digits = decimal_string(*id);
                prefixed("Prompt not found in queue: ", &digits)
            },
            Error::RateLimitExceeded => String::from_str("API rate limit exceeded"),
            Error::ContextWindowExceeded => String::from_str("Request exceeds model context window"),
            Error::InvalidConfiguration(m) => prefixed("Invalid configuration: ", m),
            Error::Timeout => String::from_str("Request timed out"),
            Error::Other(m) => prefixed("Error: ", m),
        }
    }
}

impl From<String> for Error {
    fn from(s: String) -> (r: Error) {
        Error::Other(s)
    }
}

impl vstd::std_specs::convert::FromSpecImpl<String> for Error {
    open spec fn obeys_from_spec() -> bool {
        true
    }

    open spec fn from_spec(s: String) -> Error {
        Error::Other(s)
    }
}

/// Whether `e` is a generic error with text `t`.
pub open spec fn is_other_with(e: Error, t: Seq<char>) -> bool {
    e matches Error::Other(m) && m@ == t
}

impl From<&str> for Error {
    fn from(s: &str) -> (r: Error)
        ensures
            is_other_with(r, s@),
    {
        Error::Other(String::from_str(s))
    }
}

impl vstd::std_specs::convert::FromSpecImpl<&str> for Error {
    open spec fn obeys_from_spec() -> bool {
        false
    }

    open spec fn from_spec(s: &str) -> Error {
        choose|e: Error| #[trigger] is_other_with(e, s@)
    }
}

} // verus!
