//! The credentials that each request carries for the upstream API.
//!
//! The service holds no credentials of its own: every client sends
//! `Authorization: Basic <base64(token_name:secret)>`, and that header is
//! passed on upstream.
use vstd::prelude::*;

use crate::error::{ErrorKind, ServiceError};

verus! {

/// A byte that may stand in header text: visible ASCII or a tab (the test
/// that `HeaderValue::to_str` makes of each byte).
pub open spec fn is_visible_ascii(b: u8) -> bool {
    (32 <= b && b < 127) || b == 9
}

/// Every byte of `bytes` is visible ASCII, so the header reads as text.
pub open spec fn is_header_text(bytes: Seq<u8>) -> bool {
    forall|i: int| 0 <= i < bytes.len() ==> is_visible_ascii(#[trigger] bytes[i])
}

/// The bytes of `Basic `, the scheme of HTTP Basic credentials.
pub open spec fn basic_scheme() -> Seq<u8> {
    seq![66u8, 97u8, 115u8, 105u8, 99u8, 32u8]
}

pub const MISSING_HEADER: &'static str =
    "Missing Authorization header. Configure your MCP client with HTTP Basic auth using \
     your Domeneshop API token name as username and its secret as password \
     (https://www.domeneshop.no/admin?view=api).";

pub const NOT_TEXT: &'static str = "Authorization header contains non-ASCII bytes";

pub const NOT_BASIC: &'static str =
    "Authorization must be HTTP Basic: `Basic <base64(token_name:secret)>`.";

pub fn visible_ascii(b: u8) -> (r: bool)
    ensures
        r == is_visible_ascii(b),
{
    (32 <= b && b < 127) || b == 9
}

/// Header text is exactly the bytes from 32 through 126 and the tab: every
/// visible ASCII byte (`=` of base64 padding among them) is accepted, and no
/// other byte is.
pub proof fn lemma_header_text_bytes(v: Seq<u8>)
    ensures
        is_header_text(v) <==> (forall|i: int| 0 <= i < v.len() ==> (32 <= #[trigger] v[i] <= 126 || v[i] == 9)),
        forall|b: u8| (32 <= b && b <= 126) || b == 9 ==> #[trigger] is_visible_ascii(b),
        forall|b: u8| !((32 <= b && b <= 126) || b == 9) ==> !#[trigger] is_visible_ascii(b),
{
}

/// A header that begins with `Basic ` and is made of visible ASCII bytes and
/// tabs is accepted.
pub proof fn lemma_basic_text_accepted(v: Seq<u8>)
    requires
        forall|i: int| 0 <= i < v.len() ==> (32 <= #[trigger] v[i] <= 126 || v[i] == 9),
        6 <= v.len(),
        v[0] == 66 && v[1] == 97 && v[2] == 115 && v[3] == 105 && v[4] == 99 && v[5] == 32,
    ensures
        is_header_text(v),
        basic_scheme().len() <= v.len() && v.take(basic_scheme().len() as int) == basic_scheme(),
{
    assert(v.take(6) =~= basic_scheme());
}

/// The `Authorization` header of a request, given by its bytes (`None` where
/// the request has none), checked to hold HTTP Basic credentials; the
/// header is handed back unchanged. Each refusal is an invalid request.
pub fn authorization_header(value: Option<&[u8]>) -> (r: Result<Vec<u8>, ServiceError>)
    ensures
        match value {
            None => r matches Err(e) && e.is(ErrorKind::InvalidRequest, MISSING_HEADER@),
            Some(v) => if !is_header_text(v@) {
                r matches Err(e) && e.is(ErrorKind::InvalidRequest, NOT_TEXT@)
            } else if !(basic_scheme().len() <= v@.len() && v@.take(
                basic_scheme().len() as int,
            ) == basic_scheme()) {
                r matches Err(e) && e.is(ErrorKind::InvalidRequest, NOT_BASIC@)
            } else {
                r matches Ok(h) && h@ == v@
            },
        },
        match value {
            Some(v) => (forall|i: int| 0 <= i < v@.len() ==> (32 <= #[trigger] v@[i] <= 126 || v@[i] == 9))
                && 6 <= v@.len() && v@[0] == 66 && v@[1] == 97 && v@[2] == 115 && v@[3] == 105
                && v@[4] == 99 && v@[5] == 32 ==> (r matches Ok(h) && h@ == v@),
            None => true,
        },
{
    let v = match value {
        None => return Err(ServiceError::invalid_request(MISSING_HEADER.to_owned())),
        Some(v) => v,
    };
    let mut i: usize = 0;
    while i < v.len()
        invariant
            i <= v@.len(),
            value == Some(v),
            forall|j: int| 0 <= j < i ==> is_visible_ascii(#[trigger] v@[j]),
        decreases v@.len() - i,
    {
        if !visible_ascii(v[i]) {
            return Err(ServiceError::invalid_request(NOT_TEXT.to_owned()));
        }
        i = i + 1;
    }
    let scheme: [u8; 6] = [66u8, 97u8, 115u8, 105u8, 99u8, 32u8];
    assert(scheme@ =~= basic_scheme());
    if v.len() < 6 {
        return Err(ServiceError::invalid_request(NOT_BASIC.to_owned()));
    }
    let mut k: usize = 0;
    while k < 6
        invariant
            k <= 6 <= v@.len(),
            value == Some(v),
            is_header_text(v@),
            scheme@ == basic_scheme(),
            forall|j: int| 0 <= j < k ==> v@[j] == basic_scheme()[j],
        decreases 6 - k,
    {
        if v[k] != scheme[k] {
            assert(v@.take(6)[k as int] != basic_scheme()[k as int]);
            return Err(ServiceError::invalid_request(NOT_BASIC.to_owned()));
        }
        k = k + 1;
    }
    assert(v@.take(6) =~= basic_scheme());
    Ok(vstd::slice::slice_to_vec(v))
}

} // verus!
