//! The bearer credential of an `Authorization` header.

use actix_web::http::header::HeaderValue;
use actix_web_httpauth::headers::authorization::{Bearer, Scheme};
use vstd::prelude::*;

verus! {

/// Whether a header value may hold this byte and still be read as text:
/// printable ASCII, or a tab.
pub open spec fn is_visible(byte: u8) -> bool {
    32 <= byte < 127 || byte == 9
}

/// The bytes of `Bearer` and the space that follows it.
pub open spec fn bearer_prefix() -> Seq<u8> {
    seq![66u8, 101u8, 97u8, 114u8, 101u8, 114u8, 32u8]
}

/// The token that an `Authorization` header value carries: what follows
/// `Bearer` and one space, in a value of at least eight visible bytes. `None`
/// for any other value, so for another scheme and for `Bearer` with nothing
/// behind it.
pub open spec fn bearer_token(header: Seq<u8>) -> Option<Seq<char>> {
    if header.len() >= 8 && (forall|i: int| 0 <= i < header.len() ==> is_visible(#[trigger] header[i]))
        && header.subrange(0, 7) == bearer_prefix() {
        Some(header.skip(7).map_values(|byte: u8| byte as char))
    } else {
        None
    }
}

/// `Bearer::parse` of actix-web-httpauth on the header value that
/// `HeaderValue::from_bytes` makes of `header`. Trusted: that the two together
/// accept exactly the values that `bearer_token` describes, and hand back the
/// text behind the first space.
#[verifier::external_body]
pub(crate) fn parse_bearer(header: &[u8]) -> (token: Option<String>)
    ensures
        token.deep_view() == bearer_token(header@),
{
    let value = HeaderValue::from_bytes(header).ok()?;
    let bearer = Bearer::parse(&value).ok()?;
    Some(bearer.token().to_string())
}

} // verus!
