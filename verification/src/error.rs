use vstd::prelude::*;

verus! {

/// The error taxonomy of the proxy. Every failure a request can run into is
/// one of these, and each maps to exactly one HTTP status code.
#[derive(Debug)]
pub enum ProxyError {
    /// Malformed body, unknown multipart field, wrong field kind, unparsable
    /// numeric or size value, or a missing required field.
    Validation(String),
    /// No backend registered for a class, an admin unregister of an unknown
    /// address, or an edit request whose image was never stored.
    NotFound(String),
    /// Transport-level failure while talking to a backend.
    Upstream(String),
    /// Unrecognized request path.
    UnknownRoute,
}

impl ProxyError {
    /// The HTTP status code a caller sees for this error.
    pub open spec fn spec_status(&self) -> u16 {
        match self {
            ProxyError::Validation(_) => 400,
            ProxyError::NotFound(_) => 404,
            ProxyError::Upstream(_) => 502,
            ProxyError::UnknownRoute => 404,
        }
    }

    /// The message carried by the error, empty for `UnknownRoute`.
    pub open spec fn spec_message(&self) -> Seq<char> {
        match self {
            ProxyError::Validation(m) => m@,
            ProxyError::NotFound(m) => m@,
            ProxyError::Upstream(m) => m@,
            ProxyError::UnknownRoute => Seq::<char>::empty(),
        }
    }

    pub fn status(&self) -> (r: u16)
        ensures
            r == self.spec_status(),
    {
        match self {
            ProxyError::Validation(_) => 400,
            ProxyError::NotFound(_) => 404,
            ProxyError::Upstream(_) => 502,
            ProxyError::UnknownRoute => 404,
        }
    }

    pub fn message(&self) -> (r: String)
        ensures
            r@ == self.spec_message(),
    {
        match self {
            ProxyError::Validation(m) => m.clone(),
            ProxyError::NotFound(m) => m.clone(),
            ProxyError::Upstream(m) => m.clone(),
            ProxyError::UnknownRoute => String::new(),
        }
    }
}

} // verus!
