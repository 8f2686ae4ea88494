//! Error types for provider and cascade operations.

use vstd::prelude::*;
use vstd::string::StringExecFns;

use crate::text::{decimal, u64_to_decimal};

verus! {

/// Errors from a single LLM provider request.
#[derive(Clone, Debug)]
pub enum ProviderError {
    /// The provider returned a non-success HTTP status.
    Http {
        /// HTTP status code.
        status: u16,
        /// Response body.
        body: String,
        /// Seconds to wait before retrying, if provided by the server.
        retry_after: Option<u64>,
    },
    /// The HTTP request itself failed (network, DNS, TLS, etc.); the text of the
    /// transport error.
    Request(String),
    /// The response body could not be parsed into the expected format.
    Parse(String),
    /// No API key was found for this provider.
    MissingApiKey(String),
    /// A catch-all for other provider-specific errors.
    Other(String),
}

/// The model of a [`ProviderError`].
pub enum ProviderErrorV {
    Http { status: u16, body: Seq<char>, retry_after: Option<u64> },
    Request(Seq<char>),
    Parse(Seq<char>),
    MissingApiKey(Seq<char>),
    Other(Seq<char>),
}

impl View for ProviderError {
    type V = ProviderErrorV;

    open spec fn view(&self) -> ProviderErrorV {
        match self {
            ProviderError::Http { status, body, retry_after } => ProviderErrorV::Http {
                status: *status,
                body: body@,
                retry_after: *retry_after,
            },
            ProviderError::Request(t) => ProviderErrorV::Request(t@),
            ProviderError::Parse(t) => ProviderErrorV::Parse(t@),
            ProviderError::MissingApiKey(t) => ProviderErrorV::MissingApiKey(t@),
            ProviderError::Other(t) => ProviderErrorV::Other(t@),
        }
    }
}

/// The text of an error, as its `Display` writes it.
pub open spec fn provider_error_text(e: ProviderErrorV) -> Seq<char> {
    match e {
        ProviderErrorV::Http { status, body, .. } => "HTTP "@ + decimal(status as nat) + ": "@
            + body,
        ProviderErrorV::Request(t) => "Request failed: "@ + t,
        ProviderErrorV::Parse(t) => "Response parse error: "@ + t,
        ProviderErrorV::MissingApiKey(t) => "API key not configured for provider '"@ + t + "'"@,
        ProviderErrorV::Other(t) => "Provider error: "@ + t,
    }
}

impl ProviderError {
    /// Returns the HTTP status code, if this was an HTTP error.
    pub fn http_status(&self) -> (r: Option<u16>)
        ensures
            r == match self@ {
                ProviderErrorV::Http { status, .. } => Some(status),
                _ => None,
            },
    {
        match self {
            ProviderError::Http { status, .. } => Some(*status),
            _ => None,
        }
    }

    /// Returns the `Retry-After` header value in seconds, if present.
    pub fn retry_after_seconds(&self) -> (r: Option<u64>)
        ensures
            r == match self@ {
                ProviderErrorV::Http { retry_after, .. } => retry_after,
                _ => None,
            },
    {
        match self {
            ProviderError::Http { retry_after, .. } => *retry_after,
            _ => None,
        }
    }

    /// Returns `true` if the provider returned HTTP 429 (rate limited).
    pub fn is_rate_limited(&self) -> (r: bool)
        ensures
            r == (self@ matches ProviderErrorV::Http { status, .. } && status == 429),
    {
        match self {
            ProviderError::Http { status, .. } => *status == 429,
            _ => false,
        }
    }

    /// The text of the error (what its `Display` writes).
    pub fn to_text(&self) -> (r: String)
        ensures
            r@ == provider_error_text(self@),
    {
        match self {
            ProviderError::Http { status, body, .. } => {
                let mut r = String::from_str("HTTP ");
                let d = u64_to_decimal(*status as u64);
                r.append(d.as_str());
                r.append(": ");
                r.append(body.as_str());
                r
            },
            ProviderError::Request(t) => {
                let mut r = String::from_str("Request failed: ");
                r.append(t.as_str());
                r
            },
            ProviderError::Parse(t) => {
                let mut r = String::from_str("Response parse error: ");
                r.append(t.as_str());
                r
            },
            ProviderError::MissingApiKey(t) => {
                let mut r = String::from_str("API key not configured for provider '");
                r.append(t.as_str());
                r.append("'");
                r
            },
            ProviderError::Other(t) => {
                let mut r = String::from_str("Provider error: ");
                r.append(t.as_str());
                r
            },
        }
    }
}

/// All providers in a cascade failed.
#[derive(Clone, Debug)]
pub struct CascadeError {
    /// Name of the cascade that failed.
    pub cascade_name: String,
    /// Combined error messages from each failed entry.
    pub message: String,
    /// Absolute path to the persisted `.json` file containing the failed conversation.
    pub failed_prompt_path: String,
}

/// The text of a cascade error, as its `Display` writes it.
pub open spec fn cascade_error_text(name: Seq<char>, message: Seq<char>, path: Seq<char>) -> Seq<
    char,
> {
    "All providers in cascade '"@ + name + "' failed: "@ + message
        + "\nFailed prompt persisted to: "@ + path
}

impl CascadeError {
    /// The text of the error (what its `Display` writes).
    pub fn to_text(&self) -> (r: String)
        ensures
            r@ == cascade_error_text(self.cascade_name@, self.message@, self.failed_prompt_path@),
    {
        let mut r = String::from_str("All providers in cascade '");
        r.append(self.cascade_name.as_str());
        r.append("' failed: ");
        r.append(self.message.as_str());
        r.append("\nFailed prompt persisted to: ");
        r.append(self.failed_prompt_path.as_str());
        r
    }
}

} // verus!
