//! Unique identifier generation.

use vstd::prelude::*;
use vstd::string::StrSliceExecFns;

verus! {

/// Relies on `uuid::Uuid::new_v4` and its `Display` impl: a fresh random
/// version-4 UUID rendered in the hyphenated form, which is exactly 36
/// characters long.
#[verifier::external_body]
fn fresh_uuid_string() -> (r: String)
    ensures
        r@.len() == 36,
{
    uuid::Uuid::new_v4().to_string()
}

/// Generates unique identifiers for various entities.
pub struct IdGenerator;

impl IdGenerator {
    /// Generates a unique connection ID: a hyphenated UUID string.
    pub fn connection_id() -> (r: String)
        ensures
            r@.len() == 36,
    {
        fresh_uuid_string()
    }

    /// Generates a unique request ID: a hyphenated UUID string.
    pub fn request_id() -> (r: String)
        ensures
            r@.len() == 36,
    {
        fresh_uuid_string()
    }

    /// Generates a short unique ID: the first 8 characters of a UUID string.
    pub fn short_id() -> (r: String)
        ensures
            r@.len() == 8,
    {
        let full = fresh_uuid_string();
        let cut = full.as_str().substring_char(0, 8);
        cut.to_owned()
    }
}

} // verus!
