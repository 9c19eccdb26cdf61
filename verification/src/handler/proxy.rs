//! What of a proxied request is taken in before it is routed.
//!
//! The body is buffered, so that it can be sent to a second upstream.

use vstd::prelude::*;

verus! {

/// The largest request body that is buffered: 32 MiB.
pub const MAX_BODY_BYTES: usize = 33_554_432;

/// An answer that the router gives in place of an upstream's.
#[derive(Debug, Clone, Copy, PartialEq, Eq)]
pub struct Refusal {
    /// The HTTP status.
    pub status: u16,
    /// The body.
    pub message: &'static str,
}

/// Decide on a request by its body: `buffered` is its length, or `None` where
/// reading it failed.
///
/// # Errors
///
/// A body that cannot be read, like one longer than [`MAX_BODY_BYTES`], is
/// refused with status 400.
pub fn admit_body(buffered: Option<usize>) -> (admitted: Result<usize, Refusal>)
    ensures
        match admitted {
            Ok(n) => buffered == Some(n) && n <= MAX_BODY_BYTES,
            Err(refusal) => {
                &&& buffered matches Some(n) ==> n > MAX_BODY_BYTES
                &&& refusal.status == 400
                &&& refusal.message@ == "failed to read request body"@
            },
        },
        admitted is Ok <==> (buffered matches Some(n) && n <= 33_554_432),
{
    if let Some(n) = buffered {
        if n <= MAX_BODY_BYTES {
            return Ok(n);
        }
    }
    Err(Refusal { status: 400, message: "failed to read request body" })
}

/// The path that a request is routed by and forwarded with: path and query
/// where the URI has them as one, else the path alone.
pub fn request_target(path_and_query: Option<&str>, path: &str) -> (target: String)
    ensures
        target@ == match path_and_query {
            Some(pq) => pq@,
            None => path@,
        },
{
    match path_and_query {
        Some(pq) => pq.to_owned(),
        None => path.to_owned(),
    }
}

}
