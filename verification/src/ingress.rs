//! The checks every request passes before the routes: the client address
//! behind the proxy, and the checks on encrypted JSON bodies.

use vstd::prelude::*;
use crate::auth::RequestContext;
use crate::local_api::HeaderField;
use crate::paths::{find_char_from, find_from, lemma_find_from};
use crate::text::{chars_of, has_prefix, starts_with, string_from_chars, trim_bounds, trimmed};

verus! {

/// The client address a request reports: the first entry of
/// `x-forwarded-for`, trimmed; else `x-real-ip` as sent; else none.
pub open spec fn reported_client_ip(forwarded_for: HeaderField, real_ip: HeaderField) -> Option<Seq<char>> {
    match forwarded_for.text() {
        Some(s) => Some(trimmed(s.subrange(0, find_from(s, ',', 0)))),
        None => real_ip.text(),
    }
}

/// Reads `reported_client_ip`.
pub fn forwarded_client_ip(forwarded_for: &HeaderField, real_ip: &HeaderField) -> (r: Option<String>)
    ensures
        match reported_client_ip(*forwarded_for, *real_ip) {
            Some(ip) => r matches Some(s) && s@ == ip,
            None => r is None,
        },
{
    match forwarded_for {
        HeaderField::Text(s) => {
            let cs = chars_of(s.as_str());
            proof {
                lemma_find_from(cs@, ',', 0);
            }
            let k = find_char_from(&cs, ',', 0);
            let first = string_from_chars(&cs, 0, k);
            let fcs = chars_of(first.as_str());
            let (a, b) = trim_bounds(&fcs);
            Some(string_from_chars(&fcs, a, b))
        },
        _ => match real_ip {
            HeaderField::Text(s) => Some(s.clone()),
            _ => None,
        },
    }
}

/// The context of a request arriving through the proxy. Only connections
/// from the loopback interface (the proxy) are served: `peer_loopback` is
/// whether the peer address is a loopback address, `None` when the peer is
/// unknown. `None` refuses the request (403).
pub fn proxied_request_context(
    peer_loopback: Option<bool>,
    forwarded_for: &HeaderField,
    real_ip: &HeaderField,
) -> (r: Option<RequestContext>)
    ensures
        peer_loopback == Some(false) ==> r is None,
        peer_loopback != Some(false) ==> (r matches Some(c) && c.current_user is None
            && c.current_team_uuid is None && c.current_workspace_uuid is None
            && c.resource_identifier is None && match reported_client_ip(*forwarded_for, *real_ip) {
                Some(ip) => c.current_ip matches Some(s) && s@ == ip,
                None => c.current_ip is None,
            }),
{
    if peer_loopback == Some(false) {
        return None;
    }
    let mut c = RequestContext::new();
    c.current_ip = forwarded_client_ip(forwarded_for, real_ip);
    Some(c)
}

/// `application/json`.
pub open spec fn json_media_type() -> Seq<char> {
    seq!['a', 'p', 'p', 'l', 'i', 'c', 'a', 't', 'i', 'o', 'n', '/', 'j', 's', 'o', 'n']
}

/// Whether a body is JSON by its `Content-Type`: the header's text begins
/// with `application/json`.
pub fn is_json_content_type(content_type: &HeaderField) -> (b: bool)
    ensures
        b == match content_type.text() {
            Some(t) => has_prefix(t, json_media_type()),
            None => false,
        },
{
    match content_type {
        HeaderField::Text(t) => {
            proof {
                reveal_strlit("application/json");
                assert("application/json"@ =~= json_media_type());
            }
            starts_with(&chars_of(t.as_str()), "application/json")
        },
        _ => false,
    }
}

/// Why an encrypted request is refused.
#[derive(Clone, Copy, Debug, PartialEq, Eq, Structural)]
pub enum BodyFailure {
    /// 400: the body is not a usable encrypted request.
    BadRequest,
    /// 401: the request does not carry the application secret.
    Unauthorized,
}

/// A JSON body must arrive encrypted.
pub fn require_encrypted(encrypted: bool) -> (r: Result<(), BodyFailure>)
    ensures
        encrypted <==> r is Ok,
        !encrypted ==> r == Err::<(), BodyFailure>(BodyFailure::BadRequest),
{
    if encrypted {
        Ok(())
    } else {
        Err(BodyFailure::BadRequest)
    }
}

/// The `api_secret` member of a decrypted JSON body.
#[derive(Clone, Debug, PartialEq, Eq)]
pub enum ApiSecretField {
    /// The body has no such member (or is not an object).
    Missing,
    /// The member is this string.
    Text(String),
    /// The member is not a string.
    Other,
}

/// A decrypted body is accepted when its `api_secret` is the application
/// secret; a missing member is a bad request, any other value unauthorized.
pub fn check_api_secret(field: &ApiSecretField, secret: &str) -> (r: Result<(), BodyFailure>)
    ensures
        match field {
            ApiSecretField::Missing => r == Err::<(), BodyFailure>(BodyFailure::BadRequest),
            ApiSecretField::Text(s) => if s@ == secret@ {
                r is Ok
            } else {
                r == Err::<(), BodyFailure>(BodyFailure::Unauthorized)
            },
            ApiSecretField::Other => r == Err::<(), BodyFailure>(BodyFailure::Unauthorized),
        },
{
    match field {
        ApiSecretField::Missing => Err(BodyFailure::BadRequest),
        ApiSecretField::Text(s) => {
            if crate::text::equals(&chars_of(s.as_str()), secret) {
                Ok(())
            } else {
                Err(BodyFailure::Unauthorized)
            }
        },
        ApiSecretField::Other => Err(BodyFailure::Unauthorized),
    }
}

} // verus!
