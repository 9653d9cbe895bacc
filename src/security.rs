use vstd::prelude::*;

verus! {

/// Proof that a request carried the service's API key.
#[derive(Debug)]
pub struct ApiKey;

impl ApiKey {
    /// Admits a request whose `authorization` header equals the configured key exactly.
    pub fn check(header: Option<&str>, expected: &str) -> (r: Option<ApiKey>)
        ensures
            r is Some <==> (header matches Some(h) && h@ == expected@),
    {
        match header {
            Some(h) => if crate::text::text_equals(h, expected) {
                Some(ApiKey)
            } else {
                None
            },
            None => None,
        }
    }
}

} // verus!
