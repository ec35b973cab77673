//! Request identifiers for tracing.

use vstd::prelude::*;
use crate::ids::IdGenerator;
use crate::text::starts_with_seq;

verus! {

/// A request identifier carried through one request's processing.
pub struct RequestId(pub String);

impl RequestId {
    /// Returns the request ID string.
    pub fn as_str(&self) -> (r: &str)
        ensures
            r@ == self.0@,
    {
        self.0.as_str()
    }

    /// Creates a fresh request ID (a hyphenated UUID string).
    pub fn new() -> (r: Self)
        ensures
            r.0@.len() == 36,
    {
        RequestId(IdGenerator::request_id())
    }
}

impl Default for RequestId {
    /// A fresh request ID.
    fn default() -> (r: Self)
        ensures
            r.0@.len() == 36,
    {
        RequestId::new()
    }
}

impl From<String> for RequestId {
    fn from(s: String) -> (r: Self) {
        RequestId(s)
    }
}

impl vstd::std_specs::convert::FromSpecImpl<String> for RequestId {
    open spec fn obeys_from_spec() -> bool {
        true
    }

    open spec fn from_spec(s: String) -> Self {
        RequestId(s)
    }
}

impl From<&str> for RequestId {
    fn from(s: &str) -> (r: Self)
        ensures
            r.0@ == s@,
    {
        RequestId(s.to_owned())
    }
}

impl vstd::std_specs::convert::FromSpecImpl<&str> for RequestId {
    // a spec-level value cannot be built from a borrowed slice, so the
    // conversion is specified by the ensures on `from` alone
    open spec fn obeys_from_spec() -> bool {
        false
    }

    open spec fn from_spec(s: &str) -> Self {
        RequestId(vstd::pervasive::arbitrary())
    }
}

/// The id a request runs under: the id it already carries, or a fresh one.
pub fn resolve_request_id(existing: Option<String>) -> (r: String)
    ensures
        match existing {
            Some(s) => r == s,
            None => r@.len() == 36,
        },
{
    match existing {
        Some(s) => s,
        None => IdGenerator::request_id(),
    }
}

/// Extracts the bearer token from an authorization header value: the text
/// after the `Bearer ` scheme prefix, when the value carries one.
pub fn extract_bearer_token(header: &str) -> (r: Option<String>)
    ensures
        match r {
            Some(t) => starts_with_seq(header@, "Bearer "@) && t@ == header@.skip(7),
            None => !starts_with_seq(header@, "Bearer "@),
        },
{
    let v = crate::text::chars_vec(header);
    let p = crate::text::chars_vec("Bearer ");
    proof {
        reveal_strlit("Bearer ");
    }
    if crate::text::starts_with_chars(v.as_slice(), p.as_slice()) {
        let rest = crate::text::subrange_vec(v.as_slice(), 7, v.len());
        proof {
            assert(rest@ =~= header@.skip(7));
        }
        Some(crate::text::chars_to_string(rest.as_slice()))
    } else {
        None
    }
}

} // verus!
