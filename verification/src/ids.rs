use vstd::prelude::*;

verus! {

/// Draws a random version-4 UUID with `uuid::Uuid::new_v4` and returns its
/// text form. Nothing is claimed of the text: each call draws anew.
#[verifier::external_body]
pub(crate) fn fresh_id() -> (r: String) {
    uuid::Uuid::new_v4().to_string()
}

} // verus!
