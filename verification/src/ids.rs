//! Short random identifiers for resources created without a name.

use vstd::prelude::*;
use vstd::string::StrSliceExecFns;

verus! {

/// Relies on `uuid::Uuid::new_v4` and the `Display` form of a UUID:
/// a fresh random UUID printed as 36 ASCII characters in hyphenated
/// lower-case hex.
#[verifier::external_body]
fn uuid_string() -> (r: String)
    ensures
        r@.len() == 36,
        vstd::string::string_is_ascii(&r),
{
    uuid::Uuid::new_v4().to_string()
}

/// A fresh random identifier of eight characters, the opening of a
/// random UUID.
pub fn get_random_string() -> (r: String)
    ensures
        r@.len() == 8,
{
    let u = uuid_string();
    let s = u.as_str().substring_ascii(0, 8);
    s.to_owned()
}

} // verus!
