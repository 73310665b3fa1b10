//! Business paths: the part of a request path after the `/api/v<N>` prefix,
//! and the `METHOD+path` identifiers that whitelists and audit records use.

use vstd::prelude::*;
use crate::text::{chars_of, has_prefix, push_char, starts_with};

verus! {

/// `/api/v`, the prefix of every versioned API path.
pub open spec fn api_version_prefix() -> Seq<char> {
    seq!['/', 'a', 'p', 'i', '/', 'v']
}

/// `/local-api`, the prefix of the local API management routes.
pub open spec fn local_api_prefix() -> Seq<char> {
    seq!['/', 'l', 'o', 'c', 'a', 'l', '-', 'a', 'p', 'i']
}

/// First index `k >= i` with `s[k] == c`, or `s.len()` when there is none.
pub open spec fn find_from(s: Seq<char>, c: char, i: int) -> int
    decreases s.len() - i,
{
    if i < 0 || i >= s.len() {
        s.len() as int
    } else if s[i] == c {
        i
    } else {
        find_from(s, c, i + 1)
    }
}

/// Facts about `find_from`.
pub proof fn lemma_find_from(s: Seq<char>, c: char, i: int)
    requires
        0 <= i <= s.len(),
    ensures
        i <= find_from(s, c, i) <= s.len(),
        find_from(s, c, i) < s.len() ==> s[find_from(s, c, i)] == c,
        forall|j: int| i <= j < find_from(s, c, i) ==> s[j] != c,
    decreases s.len() - i,
{
    if i < s.len() && s[i] != c {
        lemma_find_from(s, c, i + 1);
    }
}

/// The business path of a request path: for `/api/v<..>/rest` it is `/rest`
/// (from the first `/` after the prefix, slash included); any other path is
/// its own business path.
pub open spec fn resource_path(p: Seq<char>) -> Seq<char> {
    if has_prefix(p, api_version_prefix()) && find_from(p, '/', 6) < p.len() {
        p.subrange(find_from(p, '/', 6), p.len() as int)
    } else {
        p
    }
}

/// First index `k >= from` with `s[k] == c`, or `s.len()`.
pub fn find_char_from(s: &Vec<char>, c: char, from: usize) -> (k: usize)
    requires
        from <= s@.len(),
    ensures
        k == find_from(s@, c, from as int),
{
    proof {
        lemma_find_from(s@, c, from as int);
    }
    let mut k = from;
    while k < s.len() && s[k] != c
        invariant
            from <= k <= s@.len(),
            find_from(s@, c, k as int) == find_from(s@, c, from as int),
        decreases s@.len() - k,
    {
        k = k + 1;
    }
    k
}

/// Strips the `/api/v<N>` prefix of a request path, keeping the leading
/// slash of what follows: `/api/v1/environments` gives `/environments`.
pub fn extract_resource_path(path: &str) -> (r: &str)
    ensures
        r@ == resource_path(path@),
{
    let cs = chars_of(path);
    proof {
        reveal_strlit("/api/v");
        assert("/api/v"@ =~= api_version_prefix());
    }
    if starts_with(&cs, "/api/v") {
        let k = find_char_from(&cs, '/', 6);
        if k < cs.len() {
            return path.substring_char(k, cs.len());
        }
    }
    path
}

/// The business path is always a suffix of the request path.
pub proof fn law_resource_path_is_suffix(p: Seq<char>)
    ensures
        exists|k: int| 0 <= k <= p.len() && #[trigger] p.subrange(k, p.len() as int) == resource_path(p),
{
    if has_prefix(p, api_version_prefix()) && find_from(p, '/', 6) < p.len() {
        lemma_find_from(p, '/', 6);
        let k = find_from(p, '/', 6);
        assert(p.subrange(k, p.len() as int) == resource_path(p));
    } else {
        assert(p.subrange(0, p.len() as int) =~= p);
    }
}

/// A business path begins with `/` whenever the request path does.
pub proof fn law_resource_path_keeps_slash(p: Seq<char>)
    requires
        p.len() > 0,
        p[0] == '/',
    ensures
        resource_path(p).len() > 0,
        resource_path(p)[0] == '/',
{
    if has_prefix(p, api_version_prefix()) && find_from(p, '/', 6) < p.len() {
        lemma_find_from(p, '/', 6);
    }
}

/// Whether the request targets the local API management routes: its business
/// path begins with `/local-api`.
pub open spec fn is_local_api_management(p: Seq<char>) -> bool {
    has_prefix(resource_path(p), local_api_prefix())
}

/// Decides `is_local_api_management(path@)`.
pub fn is_local_api_management_path(path: &str) -> (b: bool)
    ensures
        b == is_local_api_management(path@),
{
    let business = chars_of(extract_resource_path(path));
    proof {
        reveal_strlit("/local-api");
        assert("/local-api"@ =~= local_api_prefix());
    }
    starts_with(&business, "/local-api")
}

/// `a+b`: the identifier form used for whitelists and resource records.
pub open spec fn joined_with_plus(a: Seq<char>, b: Seq<char>) -> Seq<char> {
    a + seq!['+'] + b
}

/// Builds `joined_with_plus(a@, b@)`.
pub fn join_plus(a: &str, b: &str) -> (s: String)
    ensures
        s@ == joined_with_plus(a@, b@),
{
    let mut s = a.to_owned();
    push_char(&mut s, '+');
    s.append(b);
    s
}

/// The resource identifier recorded for an authenticated request:
/// `METHOD+business_path`.
pub fn resource_identifier(method: &str, path: &str) -> (s: String)
    ensures
        s@ == joined_with_plus(method@, resource_path(path@)),
{
    join_plus(method, extract_resource_path(path))
}

} // verus!
