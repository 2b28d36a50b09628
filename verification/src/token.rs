//! Session token generation, delegated to the uuid crate.

use vstd::prelude::*;

verus! {

/// Relies on `uuid::Uuid::new_v4` and its `Display` form: a random
/// version-4 UUID rendered as 36 hyphenated lower-case hex characters.
/// Nothing beyond the length is promised: the value is random.
#[verifier::external_body]
pub(crate) fn generate_token() -> (r: String)
    ensures
        r@.len() == 36,
{
    uuid::Uuid::new_v4().to_string()
}

} // verus!
