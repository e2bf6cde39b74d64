//! Error handling: the single error type that every fallible operation of
//! this crate reports, tagged with the failure domain it came from.

use vstd::prelude::*;
use vstd::string::StringExecFns;

verus! {

/// Wrapper for errors. `source` names the originating failure domain
/// (empty for application-level failures synthesized by this crate) and
/// `message` carries the human-readable diagnostic.
#[derive(Debug, PartialEq)]
pub struct ApiError {
    pub source: String,
    pub message: String,
}

impl ApiError {
    /// Constructs an application-level error: empty tag, the given message.
    pub fn application(message: String) -> (e: ApiError)
        ensures
            e.source@ == Seq::<char>::empty(),
            e.message == message,
    {
        ApiError { source: String::new(), message }
    }

    /// Renders the error for display: `API error: <message>` when the tag
    /// is empty, `API error from '<tag>': <message>` otherwise.
    pub fn render(&self) -> (r: String)
        ensures
            self.source@.len() == 0 ==> r@ == "API error: "@ + self.message@,
            self.source@.len() > 0 ==> r@ == "API error from '"@ + self.source@ + "': "@
                + self.message@,
    {
        if self.source.as_str().is_empty() {
            let mut r = "API error: ".to_owned();
            r.append(self.message.as_str());
            r
        } else {
            let mut r = "API error from '".to_owned();
            r.append(self.source.as_str());
            r.append("': ");
            r.append(self.message.as_str());
            r
        }
    }
}

impl From<String> for ApiError {
    fn from(error: String) -> (e: Self)
        ensures
            e.source@ == Seq::<char>::empty(),
            e.message == error,
    {
        ApiError { source: String::new(), message: error }
    }
}

impl vstd::std_specs::convert::FromSpecImpl<String> for ApiError {
    open spec fn obeys_from_spec() -> bool {
        false
    }

    open spec fn from_spec(v: String) -> Self {
        arbitrary()
    }
}

impl From<reqwest::Error> for ApiError {
    fn from(error: reqwest::Error) -> (e: Self)
        ensures
            e.source@ == "reqwest::Error"@,
    {
        ApiError {
            source: "reqwest::Error".to_owned(),
            message: crate::ext::reqwest_error_text(&error),
        }
    }
}

impl vstd::std_specs::convert::FromSpecImpl<reqwest::Error> for ApiError {
    open spec fn obeys_from_spec() -> bool {
        false
    }

    open spec fn from_spec(v: reqwest::Error) -> Self {
        arbitrary()
    }
}

impl From<std::io::Error> for ApiError {
    fn from(error: std::io::Error) -> (e: Self)
        ensures
            e.source@ == "std::io::Error"@,
    {
        ApiError {
            source: "std::io::Error".to_owned(),
            message: crate::ext::io_error_text(&error),
        }
    }
}

impl vstd::std_specs::convert::FromSpecImpl<std::io::Error> for ApiError {
    open spec fn obeys_from_spec() -> bool {
        false
    }

    open spec fn from_spec(v: std::io::Error) -> Self {
        arbitrary()
    }
}

impl From<serde_json::Error> for ApiError {
    fn from(error: serde_json::Error) -> (e: Self)
        ensures
            e.source@ == "serde_json::error::Error"@,
    {
        ApiError {
            source: "serde_json::error::Error".to_owned(),
            message: crate::ext::json_error_text(&error),
        }
    }
}

impl vstd::std_specs::convert::FromSpecImpl<serde_json::Error> for ApiError {
    open spec fn obeys_from_spec() -> bool {
        false
    }

    open spec fn from_spec(v: serde_json::Error) -> Self {
        arbitrary()
    }
}

impl From<http::method::InvalidMethod> for ApiError {
    fn from(error: http::method::InvalidMethod) -> (e: Self)
        ensures
            e.source@ == "http::method::InvalidMethod"@,
    {
        ApiError {
            source: "http::method::InvalidMethod".to_owned(),
            message: crate::ext::method_error_text(&error),
        }
    }
}

impl vstd::std_specs::convert::FromSpecImpl<http::method::InvalidMethod> for ApiError {
    open spec fn obeys_from_spec() -> bool {
        false
    }

    open spec fn from_spec(v: http::method::InvalidMethod) -> Self {
        arbitrary()
    }
}

} // verus!
