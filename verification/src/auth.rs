use vstd::prelude::*;

verus! {

/// Gemini API authorization.
///
/// Holds the static API key; the unverified shell serializes it to
/// `?key=<API KEY>` when issuing a request.
#[derive(Clone, Debug, PartialEq)]
pub struct Authentication {
    pub key: String,
}

impl Authentication {
    /// Create an authorization value from the provided key.
    pub fn new(api_key: &str) -> (auth: Authentication)
        ensures
            auth.key@ == api_key@,
    {
        Authentication { key: api_key.to_owned() }
    }
}

} // verus!
