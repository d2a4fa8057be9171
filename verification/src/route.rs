//! The route table. It has one entry.

use vstd::prelude::*;
use vstd::utf8::{encode_utf8, encode_utf8_decode_utf8};
use crate::error::{untraced, ClassifiedError, ErrorKindView};

verus! {

/// The endpoints of the service.
#[derive(Clone, Copy, Debug, PartialEq, Eq, Structural)]
pub enum Endpoint {
    /// `POST /sign`: verify a payload's signature and answer with a signed
    /// artifact.
    Sign,
}

/// Whether a request with this method and path is for the signing endpoint.
/// Both are compared as they are written: `post` is not `POST`.
pub open spec fn is_sign_route(method: Seq<char>, path: Seq<char>) -> bool {
    method == "POST"@ && path == "/sign"@
}

/// Whether two texts hold the same characters.
///
/// The texts are compared by their bytes. That settles it for the characters
/// too, since a text can be read back from its bytes.
fn same_text(a: &str, b: &str) -> (same: bool)
    ensures
        same == (a@ == b@),
{
    let x = a.as_bytes();
    let y = b.as_bytes();
    proof {
        encode_utf8_decode_utf8(a@);
        encode_utf8_decode_utf8(b@);
    }
    if x.len() != y.len() {
        return false;
    }
    let mut i: usize = 0;
    while i < x.len()
        invariant
            i <= x.len(),
            x.len() == y.len(),
            x@ == encode_utf8(a@),
            y@ == encode_utf8(b@),
            forall|j: int| 0 <= j < i ==> x@[j] == y@[j],
        decreases x.len() - i,
    {
        if x[i] != y[i] {
            return false;
        }
        i += 1;
    }
    assert(x@ =~= y@);
    true
}

/// Finds the endpoint that a request is for, or fails with `RouteNotFound`.
/// The signing endpoint answers to `POST /sign` and to nothing else.
pub fn route(method: &str, path: &str) -> (found: Result<Endpoint, ClassifiedError>)
    ensures
        found is Ok <==> is_sign_route(method@, path@),
        match found {
            Ok(endpoint) => endpoint == Endpoint::Sign,
            Err(error) => error@ == untraced(ErrorKindView::RouteNotFound),
        },
{
    if same_text(method, "POST") && same_text(path, "/sign") {
        Ok(Endpoint::Sign)
    } else {
        Err(ClassifiedError::route_not_found())
    }
}

} // verus!
