//! What the service hands the transport layer: fixed response texts, and the
//! classification of failures into a status and a sanitized cause message.

use vstd::prelude::*;
use crate::article::Failure;

verus! {

/// The greeting served at the root path.
pub fn hello_world() -> (r: &'static str)
    ensures
        r@ == "Hello, world!"@,
{
    "Hello, world!"
}

/// The listing operation is a documented stub: it always returns this fixed
/// placeholder, whatever the store holds, until real listing is implemented.
pub fn list_articles() -> (r: &'static str)
    ensures
        r@ == "Article list not yet implemented."@,
{
    "Article list not yet implemented."
}

/// The status class the boundary reports for a failure: every failure is
/// mapped to a client-error status of 400, the behavior the service
/// currently presents.
pub fn failure_status(f: &Failure) -> (code: u16)
    ensures
        code == 400,
{
    match f {
        Failure::ValidationFailed(_) => 400,
        Failure::NotFound => 400,
        Failure::StorageFailed(_) => 400,
    }
}

/// The sanitized, human-readable cause the boundary may surface for a
/// failure: the carried message, or a fixed non-empty text for a missing
/// row. Nothing beyond these strings ever leaks out.
pub fn failure_message(f: &Failure) -> (r: String)
    ensures
        f matches Failure::ValidationFailed(m) ==> r@ == m@,
        f is NotFound ==> r@ == "no article found for the requested id"@ && r@.len() > 0,
        f matches Failure::StorageFailed(m) ==> r@ == m@,
{
    match f {
        Failure::ValidationFailed(m) => m.clone(),
        Failure::NotFound => {
            proof {
                reveal_strlit("no article found for the requested id");
            }
            "no article found for the requested id".to_owned()
        },
        Failure::StorageFailed(m) => m.clone(),
    }
}

} // verus!
