//! The values stored for a request's optional fields: defaults of cookie
//! and tag records, ordering of imported URLs, search patterns and counters.

use vstd::prelude::*;
use crate::queries::like_pattern;
use crate::text::{chars_of, string_from_chars, trim_bounds, trimmed};

verus! {

/// A cookie as a request supplies it.
#[derive(Clone, Debug, PartialEq, Eq)]
pub struct CookieInput {
    pub site_input: String,
    pub domain: String,
    pub name: String,
    pub value: String,
    pub path: Option<String>,
    pub http_only: Option<bool>,
    pub secure: Option<bool>,
    pub same_site: Option<String>,
}

/// A cookie as it is stored.
#[derive(Clone, Debug, PartialEq, Eq)]
pub struct CookieRecord {
    pub site_input: String,
    pub domain: String,
    pub name: String,
    pub value: String,
    pub path: String,
    pub http_only: bool,
    pub secure: bool,
    pub same_site: String,
}

/// The stored cookie: path `/`, not HTTP-only, not secure and same-site
/// `Lax` unless the request says otherwise.
pub fn cookie_record(c: &CookieInput) -> (r: CookieRecord)
    ensures
        r.site_input@ == c.site_input@,
        r.domain@ == c.domain@,
        r.name@ == c.name@,
        r.value@ == c.value@,
        r.path@ == match c.path {
            Some(p) => p@,
            None => "/"@,
        },
        r.http_only == match c.http_only {
            Some(b) => b,
            None => false,
        },
        r.secure == match c.secure {
            Some(b) => b,
            None => false,
        },
        r.same_site@ == match c.same_site {
            Some(s) => s@,
            None => "Lax"@,
        },
{
    CookieRecord {
        site_input: c.site_input.clone(),
        domain: c.domain.clone(),
        name: c.name.clone(),
        value: c.value.clone(),
        path: match &c.path {
            Some(p) => p.clone(),
            None => "/".to_owned(),
        },
        http_only: match c.http_only {
            Some(b) => b,
            None => false,
        },
        secure: match c.secure {
            Some(b) => b,
            None => false,
        },
        same_site: match &c.same_site {
            Some(s) => s.clone(),
            None => "Lax".to_owned(),
        },
    }
}

/// The colour of a new tag: the requested one, `gray` by default.
pub fn tag_color(color: Option<&str>) -> (r: &str)
    ensures
        r@ == match color {
            Some(c) => c@,
            None => "gray"@,
        },
{
    match color {
        Some(c) => c,
        None => "gray",
    }
}

/// A URL to store for an environment, with its position.
#[derive(Clone, Debug, PartialEq, Eq)]
pub struct UrlRecord {
    pub url: String,
    pub title: Option<String>,
    pub sort_order: i32,
}

/// The URLs of a batch import, each ordered by its position in the batch
/// (as a 32-bit position).
pub fn url_records(urls: &Vec<(String, Option<String>)>) -> (r: Vec<UrlRecord>)
    ensures
        r@.len() == urls@.len(),
        forall|i: int| 0 <= i < urls@.len() ==> {
            &&& (#[trigger] r@[i]).url@ == urls@[i].0@
            &&& r@[i].title == urls@[i].1
            &&& r@[i].sort_order == i as i32
        },
{
    let mut r: Vec<UrlRecord> = Vec::new();
    let mut i: usize = 0;
    while i < urls.len()
        invariant
            i <= urls@.len(),
            r@.len() == i,
            forall|j: int| 0 <= j < i ==> {
                &&& (#[trigger] r@[j]).url@ == urls@[j].0@
                &&& r@[j].title == urls@[j].1
                &&& r@[j].sort_order == j as i32
            },
        decreases urls@.len() - i,
    {
        let (url, title) = &urls[i];
        r.push(UrlRecord { url: url.clone(), title: title.clone(), sort_order: i as i32 });
        i = i + 1;
    }
    r
}

/// The search pattern of a platform-account listing: the keyword trimmed of
/// whitespace, between `%` signs.
pub fn account_keyword_pattern(keyword: &str) -> (s: String)
    ensures
        s@ == like_pattern(trimmed(keyword@)),
{
    let cs = chars_of(keyword);
    let (a, b) = trim_bounds(&cs);
    let t = string_from_chars(&cs, a, b);
    crate::queries::make_like_pattern(t.as_str())
}

/// Referral counts as stored: the two 64-bit counts as 32-bit values.
pub fn referral_counts(total: i64, paid: i64) -> (r: (i32, i32))
    ensures
        r.0 == total as i32,
        r.1 == paid as i32,
{
    (total as i32, paid as i32)
}

} // verus!
