//! Local API credentials: which requests carry them, how they are read from
//! the headers, and whether a request is sent to the local API checks at all.
//! The checks themselves (key, permission, rate limits) are the protocol in
//! `authorization`.

use vstd::prelude::*;
use crate::paths::{find_char_from, find_from, is_local_api_management, is_local_api_management_path};
use crate::text::{chars_of, string_from_chars, trim_bounds, trimmed};

verus! {

/// One request header, as the checks read it.
#[derive(Clone, Debug, PartialEq, Eq)]
pub enum HeaderField {
    /// The header is not sent.
    Absent,
    /// The header is sent, but its value is not visible ASCII text.
    Opaque,
    /// The header is sent with this text.
    Text(String),
}

impl HeaderField {
    /// The text of the header, when it has one.
    pub open spec fn text(self) -> Option<Seq<char>> {
        match self {
            HeaderField::Text(s) => Some(s@),
            _ => None,
        }
    }

    /// Whether the header is sent at all.
    pub open spec fn present(self) -> bool {
        !(self is Absent)
    }
}

/// The three local API headers: `x-local-api-auth` (`key:permission`),
/// `x-local-api-key` and `x-local-api-permission`.
#[derive(Clone, Debug, PartialEq, Eq)]
pub struct LocalApiHeaders {
    pub auth: HeaderField,
    pub key: HeaderField,
    pub permission: HeaderField,
}

/// Whether a request carries local API credentials: the combined header, or
/// both separate headers.
pub open spec fn carries_local_api_credentials(h: LocalApiHeaders) -> bool {
    h.auth.present() || (h.key.present() && h.permission.present())
}

/// Decides `carries_local_api_credentials(*h)`.
pub fn has_local_api_auth_headers(h: &LocalApiHeaders) -> (b: bool)
    ensures
        b == carries_local_api_credentials(*h),
{
    let auth = match &h.auth {
        HeaderField::Absent => false,
        _ => true,
    };
    let key = match &h.key {
        HeaderField::Absent => false,
        _ => true,
    };
    let permission = match &h.permission {
        HeaderField::Absent => false,
        _ => true,
    };
    auth || (key && permission)
}

/// The credentials from the separate headers: both trimmed, both non-empty.
pub open spec fn separate_credentials(h: LocalApiHeaders) -> Option<(Seq<char>, Seq<char>)> {
    match (h.key.text(), h.permission.text()) {
        (Some(k), Some(p)) => if trimmed(k).len() > 0 && trimmed(p).len() > 0 {
            Some((trimmed(k), trimmed(p)))
        } else {
            None
        },
        _ => None,
    }
}

/// The credentials a request carries. The combined header wins when both of
/// its trimmed halves around the first `:` are non-empty; a combined header
/// without any `:` rejects the request outright; otherwise the separate
/// headers are read.
pub open spec fn parsed_credentials(h: LocalApiHeaders) -> Option<(Seq<char>, Seq<char>)> {
    match h.auth.text() {
        Some(c) => {
            let k = find_from(c, ':', 0);
            if k >= c.len() {
                None
            } else {
                let key = trimmed(c.subrange(0, k));
                let permission = trimmed(c.subrange(k + 1, c.len() as int));
                if key.len() > 0 && permission.len() > 0 {
                    Some((key, permission))
                } else {
                    separate_credentials(h)
                }
            }
        },
        None => separate_credentials(h),
    }
}

/// `s[from..to]` trimmed of whitespace.
fn trimmed_part(s: &Vec<char>, from: usize, to: usize) -> (r: String)
    requires
        from <= to <= s@.len(),
    ensures
        r@ == trimmed(s@.subrange(from as int, to as int)),
{
    let part = string_from_chars(s, from, to);
    let cs = chars_of(part.as_str());
    let (a, b) = trim_bounds(&cs);
    string_from_chars(&cs, a, b)
}

/// The trimmed text of a header, when it has text.
fn trimmed_text(f: &HeaderField) -> (r: Option<String>)
    ensures
        match f.text() {
            Some(t) => r is Some && r->0@ == trimmed(t),
            None => r is None,
        },
{
    match f {
        HeaderField::Text(t) => {
            let cs = chars_of(t.as_str());
            assert(cs@.subrange(0, cs@.len() as int) =~= cs@);
            Some(trimmed_part(&cs, 0, cs.len()))
        },
        _ => None,
    }
}

/// Reads the local API credentials of a request as `(api_key, permission_code)`.
pub fn parse_local_api_auth(h: &LocalApiHeaders) -> (r: Option<(String, String)>)
    ensures
        match parsed_credentials(*h) {
            Some((k, p)) => r matches Some((a, b)) && a@ == k && b@ == p,
            None => r is None,
        },
{
    if let HeaderField::Text(combined) = &h.auth {
        let cs = chars_of(combined.as_str());
        proof {
            crate::paths::lemma_find_from(cs@, ':', 0);
        }
        let k = find_char_from(&cs, ':', 0);
        if k >= cs.len() {
            return None;
        }
        let key = trimmed_part(&cs, 0, k);
        let permission = trimmed_part(&cs, k + 1, cs.len());
        if key.unicode_len() > 0 && permission.unicode_len() > 0 {
            return Some((key, permission));
        }
    }
    let key = trimmed_text(&h.key);
    let permission = trimmed_text(&h.permission);
    match (key, permission) {
        (Some(k), Some(p)) => {
            if k.unicode_len() > 0 && p.unicode_len() > 0 {
                Some((k, p))
            } else {
                None
            }
        },
        _ => None,
    }
}

/// What the local API check does with a request before any lookup.
#[derive(Clone, Debug, PartialEq, Eq)]
pub enum LocalApiDecision {
    /// The request goes on unchanged.
    PassThrough,
    /// The request is authorized with these credentials.
    Authorize { api_key: String, permission_code: String },
}

/// Decides the local API check: `OPTIONS` requests, the management routes and
/// requests without readable credentials pass through.
pub fn local_api_decision(method: &str, path: &str, headers: &LocalApiHeaders) -> (g: LocalApiDecision)
    ensures
        (method@ == "OPTIONS"@ || is_local_api_management(path@) || parsed_credentials(*headers) is None)
            ==> g is PassThrough,
        !(method@ == "OPTIONS"@ || is_local_api_management(path@)) ==> match parsed_credentials(*headers) {
            Some((k, p)) => g matches LocalApiDecision::Authorize { api_key, permission_code }
                && api_key@ == k && permission_code@ == p,
            None => g is PassThrough,
        },
{
    let m = chars_of(method);
    let options = crate::text::equals(&m, "OPTIONS");
    if options || is_local_api_management_path(path) {
        return LocalApiDecision::PassThrough;
    }
    match parse_local_api_auth(headers) {
        Some((api_key, permission_code)) => LocalApiDecision::Authorize { api_key, permission_code },
        None => LocalApiDecision::PassThrough,
    }
}

} // verus!
