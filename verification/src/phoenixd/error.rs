//! Errors of the PhoenixD client.
use vstd::prelude::*;

verus! {

/// Errors talking to PhoenixD. `Http` holds the transport error's text.
#[derive(Debug, PartialEq, Eq)]
pub enum PhoenixdError {
    Http(String),
    Api { message: String },
    Deserialize(String),
}

/// The human-readable message of each error.
pub open spec fn phoenixd_error_message(e: PhoenixdError) -> Seq<char> {
    match e {
        PhoenixdError::Http(m) => "HTTP error: "@ + m@,
        PhoenixdError::Api { message } => "API error: "@ + message@,
        PhoenixdError::Deserialize(m) => "Deserialization error: "@ + m@,
    }
}

/// The command-line error code of each error.
pub open spec fn phoenixd_error_code(e: PhoenixdError) -> Seq<char> {
    match e {
        PhoenixdError::Http(_) => "HTTP_ERROR"@,
        PhoenixdError::Api { .. } => "API_ERROR"@,
        PhoenixdError::Deserialize(_) => "DESERIALIZE_ERROR"@,
    }
}

impl PhoenixdError {
    /// Human-readable description of the error.
    pub fn message(&self) -> (r: String)
        ensures
            r@ == phoenixd_error_message(*self),
    {
        let (prefix, detail) = match self {
            PhoenixdError::Http(m) => ("HTTP error: ", m),
            PhoenixdError::Api { message } => ("API error: ", message),
            PhoenixdError::Deserialize(m) => ("Deserialization error: ", m),
        };
        let mut r = String::from_str(prefix);
        r.append(detail.as_str());
        r
    }

    /// Command-line error code.
    pub fn code(&self) -> (r: &'static str)
        ensures
            r@ == phoenixd_error_code(*self),
    {
        match self {
            PhoenixdError::Http(_) => "HTTP_ERROR",
            PhoenixdError::Api { .. } => "API_ERROR",
            PhoenixdError::Deserialize(_) => "DESERIALIZE_ERROR",
        }
    }

    /// Only transport errors are worth retrying.
    pub fn retryable(&self) -> (r: bool)
        ensures
            r == (*self is Http),
    {
        match self {
            PhoenixdError::Http(_) => true,
            _ => false,
        }
    }
}

} // verus!
