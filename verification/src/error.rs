//! The error taxonomy every fallible operation of the client collapses into.

use vstd::prelude::*;

verus! {

/// Stable error taxonomy surfaced to callers.
///
/// - `Network`: the transport failed before any HTTP status was available
///   (connection, DNS, TLS, timeout).
/// - `Http(status)`: the server answered with a non-success status.
/// - `Decode`: the body did not parse into the expected shape; carries the
///   request path and the raw body text for diagnosis.
/// - `Config`: invalid local configuration (bad URL or port), detected
///   before any network call.
/// - `Lock`: an internal synchronization primitive could not be acquired.
#[derive(Debug)]
pub enum ApiError {
    Network(String),
    Http(u16),
    Decode { path: String, detail: String },
    Config(String),
    Lock,
}

impl ApiError {
    /// True of the variants that report a failed HTTP status.
    pub open spec fn is_http(&self) -> bool {
        matches!(self, ApiError::Http(_))
    }

    /// The status carried by an `Http` error.
    pub open spec fn http_status(&self) -> u16
        recommends
            self.is_http(),
    {
        match self {
            ApiError::Http(s) => *s,
            _ => arbitrary(),
        }
    }

    /// A short display-ready description of the error class: one fixed
    /// text per variant of the taxonomy.
    pub fn message(&self) -> (r: String)
        ensures
            r@.len() > 0,
            self matches ApiError::Network(_) ==> r@ == "network failure"@,
            self matches ApiError::Http(_) ==> r@ == "server returned an error status"@,
            self matches ApiError::Decode { .. } ==> r@ == "response could not be decoded"@,
            self matches ApiError::Config(_) ==> r@ == "invalid configuration"@,
            self matches ApiError::Lock ==> r@ == "internal lock failure"@,
    {
        let r = match self {
            ApiError::Network(_) => String::from_str("network failure"),
            ApiError::Http(_) => String::from_str("server returned an error status"),
            ApiError::Decode { .. } => String::from_str("response could not be decoded"),
            ApiError::Config(_) => String::from_str("invalid configuration"),
            ApiError::Lock => String::from_str("internal lock failure"),
        };
        proof {
            reveal_strlit("network failure");
            reveal_strlit("server returned an error status");
            reveal_strlit("response could not be decoded");
            reveal_strlit("invalid configuration");
            reveal_strlit("internal lock failure");
        }
        r
    }
}

} // verus!
