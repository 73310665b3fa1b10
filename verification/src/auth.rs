//! The bearer-token check in front of the authenticated routes, and the
//! request context it fills for an authenticated user.

use vstd::prelude::*;
use crate::ids::{parse_uuid, uuid_parse};
use crate::local_api::{carries_local_api_credentials, has_local_api_auth_headers, HeaderField, LocalApiHeaders};
use crate::paths::{
    join_plus, joined_with_plus, local_api_prefix, resource_identifier, resource_path,
};
use crate::text::{chars_of, equals, has_prefix, starts_with};

verus! {

/// `Bearer `, the scheme prefix of an `Authorization` header.
pub open spec fn bearer_prefix() -> Seq<char> {
    seq!['B', 'e', 'a', 'r', 'e', 'r', ' ']
}

/// What happens to a request before its token is verified.
#[derive(Clone, Debug, PartialEq, Eq)]
pub enum AuthDecision {
    /// The request goes on unchanged.
    PassThrough,
    /// The request is refused with 401.
    Unauthorized,
    /// The token must be verified; the request goes on only if it names a user.
    VerifyToken(String),
}

/// Whether `whitelist` holds `entry`.
pub open spec fn listed(whitelist: Seq<String>, entry: Seq<char>) -> bool {
    exists|i: int| 0 <= i < whitelist.len() && #[trigger] whitelist[i]@ == entry
}

/// Decides `listed(whitelist@, entry@)`.
pub fn whitelist_contains(whitelist: &Vec<String>, entry: &String) -> (b: bool)
    ensures
        b == listed(whitelist@, entry@),
{
    let mut i: usize = 0;
    while i < whitelist.len()
        invariant
            i <= whitelist@.len(),
            forall|j: int| 0 <= j < i ==> whitelist@[j]@ != entry@,
        decreases whitelist@.len() - i,
    {
        if whitelist[i] == *entry {
            return true;
        }
        i = i + 1;
    }
    false
}

/// The bearer check, in the order its tests are made: `OPTIONS`
/// requests, requests already authenticated, local API requests outside the
/// local API management routes and whitelisted `METHOD+path` pairs pass; a
/// request without a readable `Authorization: Bearer <token>` is refused;
/// otherwise the token is to be verified.
pub open spec fn bearer_decision(
    method: Seq<char>,
    path: Seq<char>,
    authenticated: bool,
    local: LocalApiHeaders,
    whitelist: Seq<String>,
    authorization: HeaderField,
) -> Option<Option<Seq<char>>> {
    if method == "OPTIONS"@ || authenticated {
        None
    } else if carries_local_api_credentials(local) && !has_prefix(resource_path(path), local_api_prefix()) {
        None
    } else if listed(whitelist, joined_with_plus(method, path)) {
        None
    } else {
        match authorization.text() {
            Some(h) => if has_prefix(h, bearer_prefix()) {
                Some(Some(h.subrange(7, h.len() as int)))
            } else {
                Some(None)
            },
            None => Some(None),
        }
    }
}

/// The bearer check in front of the authenticated routes. `None` of
/// `bearer_decision` is `PassThrough`, `Some(None)` is `Unauthorized` and
/// `Some(Some(t))` is `VerifyToken(t)`.
pub fn auth_decision(
    method: &str,
    path: &str,
    authenticated: bool,
    local: &LocalApiHeaders,
    whitelist: &Vec<String>,
    authorization: &HeaderField,
) -> (g: AuthDecision)
    ensures
        match bearer_decision(method@, path@, authenticated, *local, whitelist@, *authorization) {
            None => g is PassThrough,
            Some(None) => g is Unauthorized,
            Some(Some(t)) => g matches AuthDecision::VerifyToken(tok) && tok@ == t,
        },
{
    let m = chars_of(method);
    if equals(&m, "OPTIONS") || authenticated {
        return AuthDecision::PassThrough;
    }
    if has_local_api_auth_headers(local) {
        let business = chars_of(crate::paths::extract_resource_path(path));
        proof {
            reveal_strlit("/local-api");
            assert("/local-api"@ =~= local_api_prefix());
        }
        if !starts_with(&business, "/local-api") {
            return AuthDecision::PassThrough;
        }
    }
    let combined = join_plus(method, path);
    if whitelist_contains(whitelist, &combined) {
        return AuthDecision::PassThrough;
    }
    match authorization {
        HeaderField::Text(h) => {
            let cs = chars_of(h.as_str());
            proof {
                reveal_strlit("Bearer ");
                assert("Bearer "@ =~= bearer_prefix());
            }
            if starts_with(&cs, "Bearer ") {
                AuthDecision::VerifyToken(crate::text::string_from_chars(&cs, 7, cs.len()))
            } else {
                AuthDecision::Unauthorized
            }
        },
        _ => AuthDecision::Unauthorized,
    }
}

/// The user a verified token names: its subject must be an identifier.
/// `None` (a failed verification, or a subject that is not an identifier)
/// refuses the request with 401.
pub fn token_user(verified_subject: Option<&str>) -> (u: Option<u128>)
    ensures
        match verified_subject {
            Some(s) => u == uuid_parse(s@),
            None => u is None,
        },
{
    match verified_subject {
        Some(s) => parse_uuid(s),
        None => None,
    }
}

/// The per-request context that the middlewares fill.
#[derive(Clone, Debug, PartialEq, Eq)]
pub struct RequestContext {
    pub current_user: Option<u128>,
    pub current_team_uuid: Option<u128>,
    pub current_workspace_uuid: Option<u128>,
    /// The client address reported by the proxy in front of the server.
    pub current_ip: Option<String>,
    /// `METHOD+business_path` of an authenticated request.
    pub resource_identifier: Option<String>,
}

impl RequestContext {
    /// An empty context.
    pub fn new() -> (c: RequestContext)
        ensures
            c.current_user is None,
            c.current_team_uuid is None,
            c.current_workspace_uuid is None,
            c.current_ip is None,
            c.resource_identifier is None,
    {
        RequestContext {
            current_user: None,
            current_team_uuid: None,
            current_workspace_uuid: None,
            current_ip: None,
            resource_identifier: None,
        }
    }

    /// Marks the request as made by `user`: the team and workspace are
    /// cleared until the user's record is read, and the resource identifier
    /// is set to `METHOD+business_path`.
    pub fn authenticate(&mut self, user: u128, method: &str, path: &str)
        ensures
            final(self).current_user == Some(user),
            final(self).current_team_uuid is None,
            final(self).current_workspace_uuid is None,
            final(self).current_ip == old(self).current_ip,
            final(self).resource_identifier matches Some(r)
                && r@ == joined_with_plus(method@, resource_path(path@)),
    {
        self.current_user = Some(user);
        self.current_team_uuid = None;
        self.current_workspace_uuid = None;
        self.resource_identifier = Some(resource_identifier(method, path));
    }
}

/// Where the current workspace of an authenticated user comes from.
#[derive(Clone, Copy, Debug, PartialEq, Eq, Structural)]
pub enum WorkspaceSource {
    /// Known from the user's record (possibly none).
    Known(Option<u128>),
    /// The workspace of this team, which must be looked up.
    TeamOf(u128),
}

/// The user's own current workspace when set; otherwise that of the user's
/// current team; otherwise none.
pub fn workspace_source(user_workspace: Option<u128>, user_team: Option<u128>) -> (w: WorkspaceSource)
    ensures
        w == match user_workspace {
            Some(ws) => WorkspaceSource::Known(Some(ws)),
            None => match user_team {
                Some(t) => WorkspaceSource::TeamOf(t),
                None => WorkspaceSource::Known(None),
            },
        },
{
    match user_workspace {
        Some(ws) => WorkspaceSource::Known(Some(ws)),
        None => match user_team {
            Some(t) => WorkspaceSource::TeamOf(t),
            None => WorkspaceSource::Known(None),
        },
    }
}

} // verus!
