//! The local API authorization protocol.
//!
//! A request that carries local API credentials is authorized in steps: the
//! API key is looked up (cache first, then database, refilling the cache),
//! must be active and unexpired; the permission must be defined and granted
//! to the key (again cache first) and enabled; the daily, per-minute and
//! per-hour counters must all be below their limits; only then are the three
//! counters incremented and the request attributed to the key's user.
//!
//! `start` and `step` are the decisions; the caller performs the requested
//! action and hands its outcome back as the next event.

use vstd::prelude::*;
use crate::clock::{
    chrono_utc_format, day_pattern, format_utc_micros, hour_pattern, minute_pattern,
    utc_now_micros, EARLIEST_RENDERABLE_MICROS, LATEST_RENDERABLE_MICROS,
};

verus! {

/// A local API key as the authorization reads it.
#[derive(Clone, Copy, Debug, PartialEq, Eq, Structural)]
pub struct ApiKeyRecord {
    pub id: i32,
    pub user_uuid: u128,
    pub is_active: bool,
    /// Expiry instant, microseconds since the epoch (UTC).
    pub expires_at: Option<i64>,
    pub daily_limit: i32,
}

/// A permission granted to a local API key.
#[derive(Clone, Copy, Debug, PartialEq, Eq, Structural)]
pub struct PermissionRecord {
    pub is_enabled: bool,
    pub rate_limit_per_minute: i32,
    pub rate_limit_per_hour: i32,
}

/// Why a request is refused; each maps to one HTTP status.
#[derive(Clone, Copy, Debug, PartialEq, Eq, Structural)]
pub enum AuthFailure {
    /// 401: unknown, inactive or expired key.
    Unauthorized,
    /// 403: permission undefined, not granted or disabled.
    Forbidden,
    /// 429: a rate limit is reached.
    TooManyRequests,
    /// 500: a cache or database operation failed.
    InternalError,
}

impl AuthFailure {
    /// The HTTP status of the refusal: 401, 403, 429 or 500.
    pub fn status_code(&self) -> (c: u16)
        ensures
            c == match *self {
                AuthFailure::Unauthorized => 401u16,
                AuthFailure::Forbidden => 403u16,
                AuthFailure::TooManyRequests => 429u16,
                AuthFailure::InternalError => 500u16,
            },
    {
        match self {
            AuthFailure::Unauthorized => 401,
            AuthFailure::Forbidden => 403,
            AuthFailure::TooManyRequests => 429,
            AuthFailure::InternalError => 500,
        }
    }
}

/// How an authorization ends.
#[derive(Clone, Copy, Debug, PartialEq, Eq, Structural)]
pub enum AuthOutcome {
    /// The request acts for this user.
    Granted(u128),
    Denied(AuthFailure),
}

/// A key that passed its checks, and the instant of the check.
#[derive(Clone, Copy, Debug, PartialEq, Eq, Structural)]
pub struct KeyGrant {
    pub key: ApiKeyRecord,
    pub checked_at: i64,
}

/// What the rate-limit stage knows: the key, the permission, the instant the
/// rate windows are taken at, and the counters read so far.
#[derive(Clone, Copy, Debug, PartialEq, Eq, Structural)]
pub struct Grant {
    pub key: KeyGrant,
    pub permission: PermissionRecord,
    pub window_at: i64,
    pub day_count: i64,
    pub minute_count: i64,
    pub hour_count: i64,
}

/// Where an authorization stands: which outcome it waits for.
#[derive(Clone, Copy, Debug, PartialEq, Eq, Structural)]
pub enum AuthState {
    AwaitKeyCache,
    AwaitKeyDb,
    AwaitKeyCacheStore(ApiKeyRecord),
    AwaitDefinitionCache(KeyGrant),
    AwaitDefinitionDb(KeyGrant),
    AwaitDefinitionStore(KeyGrant),
    AwaitPermissionCache(KeyGrant),
    AwaitPermissionDb(KeyGrant),
    AwaitPermissionStore(KeyGrant, PermissionRecord),
    AwaitDayCount(Grant),
    AwaitMinuteCount(Grant),
    AwaitHourCount(Grant),
    AwaitMinuteIncrement(Grant),
    AwaitHourIncrement(Grant),
    AwaitDayIncrement(Grant),
    Done(AuthOutcome),
}

/// The outcome of the action last requested.
#[derive(Clone, Copy, Debug, PartialEq, Eq, Structural)]
pub enum AuthEvent {
    KeyFound(ApiKeyRecord),
    KeyMissing,
    DefinitionFound,
    DefinitionMissing,
    PermissionFound(PermissionRecord),
    PermissionMissing,
    /// A rate counter's current value.
    Count(i64),
    /// A cache store or a counter increment completed.
    Stored,
    /// The cache or the database reported an error.
    Failed,
}

/// The three rate windows.
#[derive(Clone, Copy, Debug, PartialEq, Eq, Structural)]
pub enum RateWindow {
    Day,
    Hour,
    Minute,
}

/// A rate counter: per key (and per permission code when `per_permission`),
/// per window, per calendar bucket of that window.
#[derive(Clone, Debug, PartialEq, Eq)]
pub struct RateBucket {
    pub api_key_id: i32,
    pub per_permission: bool,
    pub window: RateWindow,
    pub bucket: String,
}

/// What the caller must do next.
#[derive(Clone, Debug, PartialEq, Eq)]
pub enum AuthAction {
    ReadKeyCache,
    ReadKeyDb,
    StoreKeyCache(ApiKeyRecord),
    ReadDefinitionCache,
    ReadDefinitionDb,
    StoreDefinitionCache,
    ReadPermissionCache(i32),
    ReadPermissionDb(i32),
    StorePermissionCache(i32, PermissionRecord),
    ReadCount(RateBucket),
    Increment(RateBucket),
    Respond(AuthOutcome),
}

/// `RateBucket` with its bucket text as a sequence.
pub struct RateBucketView {
    pub api_key_id: i32,
    pub per_permission: bool,
    pub window: RateWindow,
    pub bucket: Seq<char>,
}

/// `AuthAction` with its bucket texts as sequences.
pub enum AuthActionView {
    ReadKeyCache,
    ReadKeyDb,
    StoreKeyCache(ApiKeyRecord),
    ReadDefinitionCache,
    ReadDefinitionDb,
    StoreDefinitionCache,
    ReadPermissionCache(i32),
    ReadPermissionDb(i32),
    StorePermissionCache(i32, PermissionRecord),
    ReadCount(RateBucketView),
    Increment(RateBucketView),
    Respond(AuthOutcome),
}

impl View for RateBucket {
    type V = RateBucketView;

    open spec fn view(&self) -> RateBucketView {
        RateBucketView {
            api_key_id: self.api_key_id,
            per_permission: self.per_permission,
            window: self.window,
            bucket: self.bucket@,
        }
    }
}

impl View for AuthAction {
    type V = AuthActionView;

    open spec fn view(&self) -> AuthActionView {
        match self {
            AuthAction::ReadKeyCache => AuthActionView::ReadKeyCache,
            AuthAction::ReadKeyDb => AuthActionView::ReadKeyDb,
            AuthAction::StoreKeyCache(k) => AuthActionView::StoreKeyCache(*k),
            AuthAction::ReadDefinitionCache => AuthActionView::ReadDefinitionCache,
            AuthAction::ReadDefinitionDb => AuthActionView::ReadDefinitionDb,
            AuthAction::StoreDefinitionCache => AuthActionView::StoreDefinitionCache,
            AuthAction::ReadPermissionCache(id) => AuthActionView::ReadPermissionCache(*id),
            AuthAction::ReadPermissionDb(id) => AuthActionView::ReadPermissionDb(*id),
            AuthAction::StorePermissionCache(id, p) => AuthActionView::StorePermissionCache(*id, *p),
            AuthAction::ReadCount(b) => AuthActionView::ReadCount(b@),
            AuthAction::Increment(b) => AuthActionView::Increment(b@),
            AuthAction::Respond(o) => AuthActionView::Respond(*o),
        }
    }
}

/// The strftime pattern of a window's buckets.
pub open spec fn window_pattern(w: RateWindow) -> Seq<char> {
    match w {
        RateWindow::Day => day_pattern(),
        RateWindow::Hour => hour_pattern(),
        RateWindow::Minute => minute_pattern(),
    }
}

/// The counter of `window` for a grant: the daily counter is per key, the
/// minute and hour counters are per key and permission.
pub open spec fn bucket_of(g: Grant, window: RateWindow) -> RateBucketView {
    RateBucketView {
        api_key_id: g.key.key.id,
        per_permission: !(window is Day),
        window,
        bucket: chrono_utc_format(g.window_at, window_pattern(window)),
    }
}

/// The key may be used at instant `now`: active, and not past its expiry.
pub open spec fn key_usable(k: ApiKeyRecord, now: i64) -> bool {
    k.is_active && match k.expires_at {
        Some(x) => !(x < now),
        None => true,
    }
}

/// Ends the authorization with `o`.
pub open spec fn finish(o: AuthOutcome) -> (AuthState, AuthActionView) {
    (AuthState::Done(o), AuthActionView::Respond(o))
}

/// Ends the authorization refused with `f`.
pub open spec fn refuse(f: AuthFailure) -> (AuthState, AuthActionView) {
    finish(AuthOutcome::Denied(f))
}

/// Checks a key obtained at `now`, then asks whether the permission is defined.
pub open spec fn after_key(k: ApiKeyRecord, now: i64) -> (AuthState, AuthActionView) {
    if !key_usable(k, now) {
        refuse(AuthFailure::Unauthorized)
    } else {
        (
            AuthState::AwaitDefinitionCache(KeyGrant { key: k, checked_at: now }),
            AuthActionView::ReadDefinitionCache,
        )
    }
}

/// Asks for the permission granted to the key.
pub open spec fn to_permission(g: KeyGrant) -> (AuthState, AuthActionView) {
    (AuthState::AwaitPermissionCache(g), AuthActionView::ReadPermissionCache(g.key.id))
}

/// Checks the permission obtained at `now`, then reads the daily counter. An
/// instant outside chrono's range (which no reading of the clock gives) has
/// no rate buckets and is an internal error.
pub open spec fn after_permission(g: KeyGrant, p: PermissionRecord, now: i64) -> (
    AuthState,
    AuthActionView,
) {
    if !p.is_enabled {
        refuse(AuthFailure::Forbidden)
    } else if !(EARLIEST_RENDERABLE_MICROS <= now <= LATEST_RENDERABLE_MICROS) {
        refuse(AuthFailure::InternalError)
    } else {
        let gr = Grant {
            key: g,
            permission: p,
            window_at: now,
            day_count: 0,
            minute_count: 0,
            hour_count: 0,
        };
        (AuthState::AwaitDayCount(gr), AuthActionView::ReadCount(bucket_of(gr, RateWindow::Day)))
    }
}

/// One step of the authorization: the state reached and the action requested
/// when `e` is the outcome of the last action and `now` the current instant.
pub open spec fn next(s: AuthState, e: AuthEvent, now: i64) -> (AuthState, AuthActionView) {
    match s {
        AuthState::Done(o) => finish(o),
        AuthState::AwaitKeyCache => match e {
            AuthEvent::KeyFound(k) => after_key(k, now),
            AuthEvent::KeyMissing => (AuthState::AwaitKeyDb, AuthActionView::ReadKeyDb),
            _ => refuse(AuthFailure::InternalError),
        },
        AuthState::AwaitKeyDb => match e {
            AuthEvent::KeyFound(k) => (AuthState::AwaitKeyCacheStore(k), AuthActionView::StoreKeyCache(k)),
            AuthEvent::KeyMissing => refuse(AuthFailure::Unauthorized),
            _ => refuse(AuthFailure::InternalError),
        },
        AuthState::AwaitKeyCacheStore(k) => match e {
            AuthEvent::Stored => after_key(k, now),
            _ => refuse(AuthFailure::InternalError),
        },
        AuthState::AwaitDefinitionCache(g) => match e {
            AuthEvent::DefinitionFound => to_permission(g),
            AuthEvent::DefinitionMissing => (AuthState::AwaitDefinitionDb(g), AuthActionView::ReadDefinitionDb),
            _ => refuse(AuthFailure::InternalError),
        },
        AuthState::AwaitDefinitionDb(g) => match e {
            AuthEvent::DefinitionFound => (AuthState::AwaitDefinitionStore(g), AuthActionView::StoreDefinitionCache),
            AuthEvent::DefinitionMissing => refuse(AuthFailure::Forbidden),
            _ => refuse(AuthFailure::InternalError),
        },
        AuthState::AwaitDefinitionStore(g) => match e {
            AuthEvent::Stored => to_permission(g),
            _ => refuse(AuthFailure::InternalError),
        },
        AuthState::AwaitPermissionCache(g) => match e {
            AuthEvent::PermissionFound(p) => after_permission(g, p, now),
            AuthEvent::PermissionMissing => (AuthState::AwaitPermissionDb(g), AuthActionView::ReadPermissionDb(g.key.id)),
            _ => refuse(AuthFailure::InternalError),
        },
        AuthState::AwaitPermissionDb(g) => match e {
            AuthEvent::PermissionFound(p) => (
                AuthState::AwaitPermissionStore(g, p),
                AuthActionView::StorePermissionCache(g.key.id, p),
            ),
            AuthEvent::PermissionMissing => refuse(AuthFailure::Forbidden),
            _ => refuse(AuthFailure::InternalError),
        },
        AuthState::AwaitPermissionStore(g, p) => match e {
            AuthEvent::Stored => after_permission(g, p, now),
            _ => refuse(AuthFailure::InternalError),
        },
        AuthState::AwaitDayCount(gr) => match e {
            AuthEvent::Count(c) => if c >= gr.key.key.daily_limit {
                refuse(AuthFailure::TooManyRequests)
            } else {
                let g2 = Grant { day_count: c, ..gr };
                (AuthState::AwaitMinuteCount(g2), AuthActionView::ReadCount(bucket_of(g2, RateWindow::Minute)))
            },
            _ => refuse(AuthFailure::InternalError),
        },
        AuthState::AwaitMinuteCount(gr) => match e {
            AuthEvent::Count(c) => if c >= gr.permission.rate_limit_per_minute {
                refuse(AuthFailure::TooManyRequests)
            } else {
                let g2 = Grant { minute_count: c, ..gr };
                (AuthState::AwaitHourCount(g2), AuthActionView::ReadCount(bucket_of(g2, RateWindow::Hour)))
            },
            _ => refuse(AuthFailure::InternalError),
        },
        AuthState::AwaitHourCount(gr) => match e {
            AuthEvent::Count(c) => if c >= gr.permission.rate_limit_per_hour {
                refuse(AuthFailure::TooManyRequests)
            } else {
                let g2 = Grant { hour_count: c, ..gr };
                (AuthState::AwaitMinuteIncrement(g2), AuthActionView::Increment(bucket_of(g2, RateWindow::Minute)))
            },
            _ => refuse(AuthFailure::InternalError),
        },
        AuthState::AwaitMinuteIncrement(gr) => match e {
            AuthEvent::Stored => (AuthState::AwaitHourIncrement(gr), AuthActionView::Increment(bucket_of(gr, RateWindow::Hour))),
            _ => refuse(AuthFailure::InternalError),
        },
        AuthState::AwaitHourIncrement(gr) => match e {
            AuthEvent::Stored => (AuthState::AwaitDayIncrement(gr), AuthActionView::Increment(bucket_of(gr, RateWindow::Day))),
            _ => refuse(AuthFailure::InternalError),
        },
        AuthState::AwaitDayIncrement(gr) => match e {
            AuthEvent::Stored => finish(AuthOutcome::Granted(gr.key.key.user_uuid)),
            _ => refuse(AuthFailure::InternalError),
        },
    }
}


/// The first step of an authorization: look the key up in the cache.
pub fn start() -> (r: (AuthState, AuthAction))
    ensures
        r.0 == AuthState::AwaitKeyCache,
        r.1@ == AuthActionView::ReadKeyCache,
{
    (AuthState::AwaitKeyCache, AuthAction::ReadKeyCache)
}

/// Builds the counter of `window` for `gr`.
fn bucket(gr: &Grant, window: RateWindow) -> (b: RateBucket)
    requires
        EARLIEST_RENDERABLE_MICROS <= gr.window_at <= LATEST_RENDERABLE_MICROS,
    ensures
        b@ == bucket_of(*gr, window),
{
    proof {
        reveal_strlit("%Y%m%d");
        reveal_strlit("%Y%m%d%H");
        reveal_strlit("%Y%m%d%H%M");
        assert("%Y%m%d"@ =~= day_pattern());
        assert("%Y%m%d%H"@ =~= hour_pattern());
        assert("%Y%m%d%H%M"@ =~= minute_pattern());
    }
    let (text, per_permission) = match window {
        RateWindow::Day => (format_utc_micros(gr.window_at, "%Y%m%d"), false),
        RateWindow::Hour => (format_utc_micros(gr.window_at, "%Y%m%d%H"), true),
        RateWindow::Minute => (format_utc_micros(gr.window_at, "%Y%m%d%H%M"), true),
    };
    RateBucket { api_key_id: gr.key.key.id, per_permission, window, bucket: text }
}

/// Exec form of `after_key`.
fn key_checked(k: ApiKeyRecord, now: i64) -> (r: (AuthState, AuthAction))
    ensures
        (r.0, r.1@) == after_key(k, now),
{
    let expired = match k.expires_at {
        Some(x) => x < now,
        None => false,
    };
    if !k.is_active || expired {
        (AuthState::Done(AuthOutcome::Denied(AuthFailure::Unauthorized)),
         AuthAction::Respond(AuthOutcome::Denied(AuthFailure::Unauthorized)))
    } else {
        (AuthState::AwaitDefinitionCache(KeyGrant { key: k, checked_at: now }),
         AuthAction::ReadDefinitionCache)
    }
}

/// Exec form of `after_permission`.
fn permission_checked(g: KeyGrant, p: PermissionRecord, now: i64) -> (r: (AuthState, AuthAction))
    ensures
        (r.0, r.1@) == after_permission(g, p, now),
{
    if !p.is_enabled {
        return (AuthState::Done(AuthOutcome::Denied(AuthFailure::Forbidden)),
            AuthAction::Respond(AuthOutcome::Denied(AuthFailure::Forbidden)));
    }
    if now < EARLIEST_RENDERABLE_MICROS || now > LATEST_RENDERABLE_MICROS {
        return (AuthState::Done(AuthOutcome::Denied(AuthFailure::InternalError)),
            AuthAction::Respond(AuthOutcome::Denied(AuthFailure::InternalError)));
    }
    let gr = Grant { key: g, permission: p, window_at: now, day_count: 0, minute_count: 0, hour_count: 0 };
    let b = bucket(&gr, RateWindow::Day);
    (AuthState::AwaitDayCount(gr), AuthAction::ReadCount(b))
}

/// Refuses with `f`.
fn refused(f: AuthFailure) -> (r: (AuthState, AuthAction))
    ensures
        (r.0, r.1@) == refuse(f),
{
    (AuthState::Done(AuthOutcome::Denied(f)), AuthAction::Respond(AuthOutcome::Denied(f)))
}

/// `step` for the key lookup states.
fn step_key(s: AuthState, e: AuthEvent, now: i64) -> (r: (AuthState, AuthAction))
    requires
        s is AwaitKeyCache || s is AwaitKeyDb || s is AwaitKeyCacheStore,
    ensures
        (r.0, r.1@) == next(s, e, now),
{
    match s {
        AuthState::AwaitKeyCache => match e {
            AuthEvent::KeyFound(k) => key_checked(k, now),
            AuthEvent::KeyMissing => (AuthState::AwaitKeyDb, AuthAction::ReadKeyDb),
            _ => refused(AuthFailure::InternalError),
        },
        AuthState::AwaitKeyDb => match e {
            AuthEvent::KeyFound(k) => (AuthState::AwaitKeyCacheStore(k), AuthAction::StoreKeyCache(k)),
            AuthEvent::KeyMissing => refused(AuthFailure::Unauthorized),
            _ => refused(AuthFailure::InternalError),
        },
        _ => match e {
            AuthEvent::Stored => match s {
                AuthState::AwaitKeyCacheStore(k) => key_checked(k, now),
                _ => refused(AuthFailure::InternalError),
            },
            _ => refused(AuthFailure::InternalError),
        },
    }
}

/// `step` for the permission definition and grant states.
fn step_permission(s: AuthState, e: AuthEvent, now: i64) -> (r: (AuthState, AuthAction))
    requires
        s is AwaitDefinitionCache || s is AwaitDefinitionDb || s is AwaitDefinitionStore
            || s is AwaitPermissionCache || s is AwaitPermissionDb || s is AwaitPermissionStore,
    ensures
        (r.0, r.1@) == next(s, e, now),
{
    match s {
        AuthState::AwaitDefinitionCache(g) => match e {
            AuthEvent::DefinitionFound => (AuthState::AwaitPermissionCache(g), AuthAction::ReadPermissionCache(g.key.id)),
            AuthEvent::DefinitionMissing => (AuthState::AwaitDefinitionDb(g), AuthAction::ReadDefinitionDb),
            _ => refused(AuthFailure::InternalError),
        },
        AuthState::AwaitDefinitionDb(g) => match e {
            AuthEvent::DefinitionFound => (AuthState::AwaitDefinitionStore(g), AuthAction::StoreDefinitionCache),
            AuthEvent::DefinitionMissing => refused(AuthFailure::Forbidden),
            _ => refused(AuthFailure::InternalError),
        },
        AuthState::AwaitDefinitionStore(g) => match e {
            AuthEvent::Stored => (AuthState::AwaitPermissionCache(g), AuthAction::ReadPermissionCache(g.key.id)),
            _ => refused(AuthFailure::InternalError),
        },
        AuthState::AwaitPermissionCache(g) => match e {
            AuthEvent::PermissionFound(p) => permission_checked(g, p, now),
            AuthEvent::PermissionMissing => (AuthState::AwaitPermissionDb(g), AuthAction::ReadPermissionDb(g.key.id)),
            _ => refused(AuthFailure::InternalError),
        },
        AuthState::AwaitPermissionDb(g) => match e {
            AuthEvent::PermissionFound(p) => (AuthState::AwaitPermissionStore(g, p), AuthAction::StorePermissionCache(g.key.id, p)),
            AuthEvent::PermissionMissing => refused(AuthFailure::Forbidden),
            _ => refused(AuthFailure::InternalError),
        },
        _ => match s {
            AuthState::AwaitPermissionStore(g, p) => match e {
                AuthEvent::Stored => permission_checked(g, p, now),
                _ => refused(AuthFailure::InternalError),
            },
            _ => refused(AuthFailure::InternalError),
        },
    }
}

/// `step` for the counter reading states.
fn step_count(s: AuthState, e: AuthEvent, now: i64) -> (r: (AuthState, AuthAction))
    requires
        s is AwaitDayCount || s is AwaitMinuteCount || s is AwaitHourCount,
        wf(s),
    ensures
        (r.0, r.1@) == next(s, e, now),
{
    match s {
        AuthState::AwaitDayCount(gr) => match e {
            AuthEvent::Count(c) => if c >= gr.key.key.daily_limit as i64 {
                refused(AuthFailure::TooManyRequests)
            } else {
                let g2 = Grant { day_count: c, ..gr };
                let b = bucket(&g2, RateWindow::Minute);
                (AuthState::AwaitMinuteCount(g2), AuthAction::ReadCount(b))
            },
            _ => refused(AuthFailure::InternalError),
        },
        AuthState::AwaitMinuteCount(gr) => match e {
            AuthEvent::Count(c) => if c >= gr.permission.rate_limit_per_minute as i64 {
                refused(AuthFailure::TooManyRequests)
            } else {
                let g2 = Grant { minute_count: c, ..gr };
                let b = bucket(&g2, RateWindow::Hour);
                (AuthState::AwaitHourCount(g2), AuthAction::ReadCount(b))
            },
            _ => refused(AuthFailure::InternalError),
        },
        _ => match s {
            AuthState::AwaitHourCount(gr) => match e {
                AuthEvent::Count(c) => if c >= gr.permission.rate_limit_per_hour as i64 {
                    refused(AuthFailure::TooManyRequests)
                } else {
                    let g2 = Grant { hour_count: c, ..gr };
                    let b = bucket(&g2, RateWindow::Minute);
                    (AuthState::AwaitMinuteIncrement(g2), AuthAction::Increment(b))
                },
                _ => refused(AuthFailure::InternalError),
            },
            _ => refused(AuthFailure::InternalError),
        },
    }
}

/// `step` for the counter increment states.
fn step_increment(s: AuthState, e: AuthEvent, now: i64) -> (r: (AuthState, AuthAction))
    requires
        s is AwaitMinuteIncrement || s is AwaitHourIncrement || s is AwaitDayIncrement,
        wf(s),
    ensures
        (r.0, r.1@) == next(s, e, now),
{
    match e {
        AuthEvent::Stored => match s {
            AuthState::AwaitMinuteIncrement(gr) => {
                let b = bucket(&gr, RateWindow::Hour);
                (AuthState::AwaitHourIncrement(gr), AuthAction::Increment(b))
            },
            AuthState::AwaitHourIncrement(gr) => {
                let b = bucket(&gr, RateWindow::Day);
                (AuthState::AwaitDayIncrement(gr), AuthAction::Increment(b))
            },
            AuthState::AwaitDayIncrement(gr) => (
                AuthState::Done(AuthOutcome::Granted(gr.key.key.user_uuid)),
                AuthAction::Respond(AuthOutcome::Granted(gr.key.key.user_uuid)),
            ),
            _ => refused(AuthFailure::InternalError),
        },
        _ => refused(AuthFailure::InternalError),
    }
}

/// One step of the authorization protocol, at instant `now`.
pub fn step(s: AuthState, e: AuthEvent, now: i64) -> (r: (AuthState, AuthAction))
    requires
        wf(s),
    ensures
        (r.0, r.1@) == next(s, e, now),
        wf(r.0),
{
    proof {
        law_step_keeps_wf(s, e, now);
    }
    match s {
        AuthState::Done(o) => (AuthState::Done(o), AuthAction::Respond(o)),
        AuthState::AwaitKeyCache | AuthState::AwaitKeyDb | AuthState::AwaitKeyCacheStore(_) =>
            step_key(s, e, now),
        AuthState::AwaitDayCount(_) | AuthState::AwaitMinuteCount(_) | AuthState::AwaitHourCount(_) =>
            step_count(s, e, now),
        AuthState::AwaitMinuteIncrement(_) | AuthState::AwaitHourIncrement(_)
        | AuthState::AwaitDayIncrement(_) => step_increment(s, e, now),
        _ => step_permission(s, e, now),
    }
}

/// One step taken at the current instant of the system clock; the instant is
/// returned with the step.
pub fn step_now(s: AuthState, e: AuthEvent) -> (r: (AuthState, AuthAction, i64))
    requires
        wf(s),
    ensures
        (r.0, r.1@) == next(s, e, r.2),
        wf(r.0),
{
    let now = utc_now_micros();
    let (s2, a) = step(s, e, now);
    (s2, a, now)
}

/// The checks that have passed in each state: the key was usable when it was
/// checked, the permission is enabled, each counter read so far was below
/// its limit, and the rate windows are renderable.
pub open spec fn wf(s: AuthState) -> bool {
    match s {
        AuthState::AwaitDefinitionCache(g) | AuthState::AwaitDefinitionDb(g)
        | AuthState::AwaitDefinitionStore(g) | AuthState::AwaitPermissionCache(g)
        | AuthState::AwaitPermissionDb(g) | AuthState::AwaitPermissionStore(g, _) =>
            key_usable(g.key, g.checked_at),
        AuthState::AwaitDayCount(gr) => rate_stage_ok(gr),
        AuthState::AwaitMinuteCount(gr) => rate_stage_ok(gr) && gr.day_count < gr.key.key.daily_limit,
        AuthState::AwaitHourCount(gr) => rate_stage_ok(gr) && gr.day_count < gr.key.key.daily_limit
            && gr.minute_count < gr.permission.rate_limit_per_minute,
        AuthState::AwaitMinuteIncrement(gr) | AuthState::AwaitHourIncrement(gr)
        | AuthState::AwaitDayIncrement(gr) => all_checks_passed(gr),
        _ => true,
    }
}

/// The key and permission checks hold and the windows are renderable.
pub open spec fn rate_stage_ok(gr: Grant) -> bool {
    &&& key_usable(gr.key.key, gr.key.checked_at)
    &&& gr.permission.is_enabled
    &&& EARLIEST_RENDERABLE_MICROS <= gr.window_at <= LATEST_RENDERABLE_MICROS
}

/// Every check of the protocol holds for `gr`.
pub open spec fn all_checks_passed(gr: Grant) -> bool {
    &&& rate_stage_ok(gr)
    &&& gr.day_count < gr.key.key.daily_limit
    &&& gr.minute_count < gr.permission.rate_limit_per_minute
    &&& gr.hour_count < gr.permission.rate_limit_per_hour
}

/// Every step keeps the record of passed checks.
pub proof fn law_step_keeps_wf(s: AuthState, e: AuthEvent, now: i64)
    requires
        wf(s),
    ensures
        wf(next(s, e, now).0),
{
}

/// A request is attributed to a user only at the end of the protocol, after
/// the three counters were incremented, and only to the owner of a key that
/// passed every check.
pub proof fn law_grant_requires_all_checks(s: AuthState, e: AuthEvent, now: i64, user: u128)
    requires
        wf(s),
        !(s is Done),
        next(s, e, now).0 == AuthState::Done(AuthOutcome::Granted(user)),
    ensures
        s matches AuthState::AwaitDayIncrement(gr) && all_checks_passed(gr)
            && gr.key.key.user_uuid == user && e == AuthEvent::Stored,
{
}

/// Counters are incremented only for requests that passed every check.
pub proof fn law_increment_only_when_allowed(s: AuthState, e: AuthEvent, now: i64)
    requires
        wf(s),
        next(s, e, now).1 is Increment,
    ensures
        match next(s, e, now).0 {
            AuthState::AwaitMinuteIncrement(gr) | AuthState::AwaitHourIncrement(gr)
            | AuthState::AwaitDayIncrement(gr) => all_checks_passed(gr),
            _ => false,
        },
{
}

/// A finished authorization stays finished and keeps answering the same way.
pub proof fn law_done_is_final(o: AuthOutcome, e: AuthEvent, now: i64)
    ensures
        next(AuthState::Done(o), e, now) == (AuthState::Done(o), AuthActionView::Respond(o)),
{
}


/// Decides `key_usable`.
fn key_usable_at(k: &ApiKeyRecord, now: i64) -> (b: bool)
    ensures
        b == key_usable(*k, now),
{
    k.is_active && match k.expires_at {
        Some(x) => !(x < now),
        None => true,
    }
}

/// Decides `rate_stage_ok`.
fn rate_stage_ok_exec(gr: &Grant) -> (b: bool)
    ensures
        b == rate_stage_ok(*gr),
{
    key_usable_at(&gr.key.key, gr.key.checked_at) && gr.permission.is_enabled
        && EARLIEST_RENDERABLE_MICROS <= gr.window_at && gr.window_at <= LATEST_RENDERABLE_MICROS
}

/// Decides `wf(*s)`: whether `s` records checks that have passed, as every
/// state reached from `start` by `step` does.
pub fn state_consistent(s: &AuthState) -> (b: bool)
    ensures
        b == wf(*s),
{
    match s {
        AuthState::AwaitDefinitionCache(g) | AuthState::AwaitDefinitionDb(g)
        | AuthState::AwaitDefinitionStore(g) | AuthState::AwaitPermissionCache(g)
        | AuthState::AwaitPermissionDb(g) | AuthState::AwaitPermissionStore(g, _) =>
            key_usable_at(&g.key, g.checked_at),
        AuthState::AwaitDayCount(gr) => rate_stage_ok_exec(gr),
        AuthState::AwaitMinuteCount(gr) => rate_stage_ok_exec(gr)
            && gr.day_count < gr.key.key.daily_limit as i64,
        AuthState::AwaitHourCount(gr) => rate_stage_ok_exec(gr)
            && gr.day_count < gr.key.key.daily_limit as i64
            && gr.minute_count < gr.permission.rate_limit_per_minute as i64,
        AuthState::AwaitMinuteIncrement(gr) | AuthState::AwaitHourIncrement(gr)
        | AuthState::AwaitDayIncrement(gr) => rate_stage_ok_exec(gr)
            && gr.day_count < gr.key.key.daily_limit as i64
            && gr.minute_count < gr.permission.rate_limit_per_minute as i64
            && gr.hour_count < gr.permission.rate_limit_per_hour as i64,
        _ => true,
    }
}

/// The start of every authorization records no checks, and so is consistent.
pub proof fn law_start_is_consistent()
    ensures
        wf(AuthState::AwaitKeyCache),
{
}

/// What the caches, the database and the counters hold for one key and one
/// permission code during an authorization.
pub struct AuthStore {
    pub key_cache: Option<ApiKeyRecord>,
    pub key_db: Option<ApiKeyRecord>,
    pub definition_cached: bool,
    pub definition_db: bool,
    pub permission_cache: Option<PermissionRecord>,
    pub permission_db: Option<PermissionRecord>,
    pub day_count: i64,
    pub minute_count: i64,
    pub hour_count: i64,
}

/// The outcome of action `a` performed against `st`, every operation
/// succeeding.
pub open spec fn answer(a: AuthActionView, st: AuthStore) -> AuthEvent {
    match a {
        AuthActionView::ReadKeyCache => match st.key_cache {
            Some(k) => AuthEvent::KeyFound(k),
            None => AuthEvent::KeyMissing,
        },
        AuthActionView::ReadKeyDb => match st.key_db {
            Some(k) => AuthEvent::KeyFound(k),
            None => AuthEvent::KeyMissing,
        },
        AuthActionView::ReadDefinitionCache => if st.definition_cached {
            AuthEvent::DefinitionFound
        } else {
            AuthEvent::DefinitionMissing
        },
        AuthActionView::ReadDefinitionDb => if st.definition_db {
            AuthEvent::DefinitionFound
        } else {
            AuthEvent::DefinitionMissing
        },
        AuthActionView::ReadPermissionCache(_) => match st.permission_cache {
            Some(p) => AuthEvent::PermissionFound(p),
            None => AuthEvent::PermissionMissing,
        },
        AuthActionView::ReadPermissionDb(_) => match st.permission_db {
            Some(p) => AuthEvent::PermissionFound(p),
            None => AuthEvent::PermissionMissing,
        },
        AuthActionView::ReadCount(b) => AuthEvent::Count(
            match b.window {
                RateWindow::Day => st.day_count,
                RateWindow::Minute => st.minute_count,
                RateWindow::Hour => st.hour_count,
            },
        ),
        _ => AuthEvent::Stored,
    }
}

/// The state and requested action after `n` steps from `(s, a)`, each
/// action answered from `st`, at instant `now`.
pub open spec fn drive(s: AuthState, a: AuthActionView, st: AuthStore, now: i64, n: nat) -> (AuthState, AuthActionView)
    decreases n,
{
    if n == 0 {
        (s, a)
    } else {
        let (s2, a2) = next(s, answer(a, st), now);
        drive(s2, a2, st, now, (n - 1) as nat)
    }
}

/// The store with each cache holding what the database holds.
pub open spec fn caches_filled(st: AuthStore) -> AuthStore {
    AuthStore { key_cache: st.key_db, definition_cached: st.definition_db, permission_cache: st.permission_db, ..st }
}

/// The store with every cache empty.
pub open spec fn caches_empty(st: AuthStore) -> AuthStore {
    AuthStore { key_cache: None, definition_cached: false, permission_cache: None, ..st }
}

/// The states after the lookups: counting, incrementing or finished, with
/// an action that reads a counter, increments one or responds.
pub open spec fn past_lookups(s: AuthState, a: AuthActionView) -> bool {
    &&& (s is AwaitDayCount || s is AwaitMinuteCount || s is AwaitHourCount || s is AwaitMinuteIncrement
        || s is AwaitHourIncrement || s is AwaitDayIncrement || s is Done)
    &&& (a is ReadCount || a is Increment || a is Respond)
}

proof fn lemma_drive_split(s: AuthState, a: AuthActionView, st: AuthStore, now: i64, n: nat, m: nat)
    ensures
        drive(s, a, st, now, n + m) == drive(drive(s, a, st, now, n).0, drive(s, a, st, now, n).1, st, now, m),
    decreases n,
{
    if n > 0 {
        let (s2, a2) = next(s, answer(a, st), now);
        lemma_drive_split(s2, a2, st, now, (n - 1) as nat, m);
        assert((n + m - 1) as nat == (n - 1) as nat + m);
    }
}

proof fn lemma_past_lookups_agree(s: AuthState, a: AuthActionView, st1: AuthStore, st2: AuthStore, now: i64, k: nat)
    requires
        past_lookups(s, a),
        st1.day_count == st2.day_count,
        st1.minute_count == st2.minute_count,
        st1.hour_count == st2.hour_count,
    ensures
        drive(s, a, st1, now, k) == drive(s, a, st2, now, k),
    decreases k,
{
    if k > 0 {
        assert(answer(a, st1) == answer(a, st2));
        let (s2, a2) = next(s, answer(a, st1), now);
        assert(past_lookups(s2, a2));
        lemma_past_lookups_agree(s2, a2, st1, st2, now, (k - 1) as nat);
    }
}

/// Where the lookups of key, definition and permission lead for `st` at `now`.
pub open spec fn lookups_outcome(st: AuthStore, now: i64) -> (AuthState, AuthActionView) {
    match st.key_db {
        None => refuse(AuthFailure::Unauthorized),
        Some(k) => if !key_usable(k, now) {
            refuse(AuthFailure::Unauthorized)
        } else if !st.definition_db {
            refuse(AuthFailure::Forbidden)
        } else {
            match st.permission_db {
                None => refuse(AuthFailure::Forbidden),
                Some(p) => after_permission(KeyGrant { key: k, checked_at: now }, p, now),
            }
        },
    }
}

proof fn lemma_done_drive(o: AuthOutcome, st: AuthStore, now: i64, n: nat)
    ensures
        drive(AuthState::Done(o), AuthActionView::Respond(o), st, now, n) == finish(o),
    decreases n,
{
    if n > 0 {
        lemma_done_drive(o, st, now, (n - 1) as nat);
    }
}

proof fn lemma_outcome_past_lookups(st: AuthStore, now: i64)
    ensures
        past_lookups(lookups_outcome(st, now).0, lookups_outcome(st, now).1),
{
}

proof fn lemma_filled_lookups(st: AuthStore, now: i64)
    ensures
        drive(AuthState::AwaitKeyCache, AuthActionView::ReadKeyCache, caches_filled(st), now, 4)
            == drive(lookups_outcome(st, now).0, lookups_outcome(st, now).1, caches_filled(st), now, 1),
        forall|j: nat| j < 4 ==> (#[trigger] drive(AuthState::AwaitKeyCache, AuthActionView::ReadKeyCache,
            caches_filled(st), now, j)).1 !is Increment,
{
    let full = caches_filled(st);
    let s0 = AuthState::AwaitKeyCache;
    let a0 = AuthActionView::ReadKeyCache;
    let o = lookups_outcome(st, now);
    reveal_with_fuel(drive, 5);
    match st.key_db {
        None => {
            assert(drive(s0, a0, full, now, 2) == refuse(AuthFailure::Unauthorized));
            lemma_drive_split(s0, a0, full, now, 2, 2);
            lemma_done_drive(AuthOutcome::Denied(AuthFailure::Unauthorized), full, now, 2);
            lemma_done_drive(AuthOutcome::Denied(AuthFailure::Unauthorized), full, now, 1);
        },
        Some(k) => {
            let g = KeyGrant { key: k, checked_at: now };
            assert(drive(s0, a0, full, now, 1) == after_key(k, now));
            lemma_drive_split(s0, a0, full, now, 1, 3);
            if !key_usable(k, now) {
                lemma_done_drive(AuthOutcome::Denied(AuthFailure::Unauthorized), full, now, 3);
                lemma_done_drive(AuthOutcome::Denied(AuthFailure::Unauthorized), full, now, 1);
            } else {
                let d = (AuthState::AwaitDefinitionCache(g), AuthActionView::ReadDefinitionCache);
                if !st.definition_db {
                    assert(drive(d.0, d.1, full, now, 2) == refuse(AuthFailure::Forbidden));
                    lemma_drive_split(d.0, d.1, full, now, 2, 1);
                    lemma_done_drive(AuthOutcome::Denied(AuthFailure::Forbidden), full, now, 1);
                } else {
                    let q = to_permission(g);
                    assert(drive(d.0, d.1, full, now, 1) == q);
                    lemma_drive_split(d.0, d.1, full, now, 1, 2);
                    match st.permission_db {
                        None => {
                            assert(drive(q.0, q.1, full, now, 2) == refuse(AuthFailure::Forbidden));
                            lemma_done_drive(AuthOutcome::Denied(AuthFailure::Forbidden), full, now, 1);
                        },
                        Some(p) => {
                            assert(drive(q.0, q.1, full, now, 1) == after_permission(g, p, now));
                            lemma_drive_split(q.0, q.1, full, now, 1, 1);
                        },
                    }
                }
            }
        },
    }
}

proof fn lemma_empty_lookups(st: AuthStore, now: i64)
    ensures
        drive(AuthState::AwaitKeyCache, AuthActionView::ReadKeyCache, caches_empty(st), now, 9)
            == lookups_outcome(st, now),
        forall|j: nat| j < 9 ==> (#[trigger] drive(AuthState::AwaitKeyCache, AuthActionView::ReadKeyCache,
            caches_empty(st), now, j)).1 !is Increment,
{
    let empty = caches_empty(st);
    let s0 = AuthState::AwaitKeyCache;
    let a0 = AuthActionView::ReadKeyCache;
    reveal_with_fuel(drive, 10);
    match st.key_db {
        None => {
            lemma_drive_split(s0, a0, empty, now, 2, 7);
            lemma_done_drive(AuthOutcome::Denied(AuthFailure::Unauthorized), empty, now, 7);
        },
        Some(k) => {
            lemma_drive_split(s0, a0, empty, now, 3, 6);
            let g = KeyGrant { key: k, checked_at: now };
            if !key_usable(k, now) {
                lemma_done_drive(AuthOutcome::Denied(AuthFailure::Unauthorized), empty, now, 6);
            } else {
                assert(drive(s0, a0, empty, now, 3) == (AuthState::AwaitDefinitionCache(g), AuthActionView::ReadDefinitionCache));
                let d = (AuthState::AwaitDefinitionCache(g), AuthActionView::ReadDefinitionCache);
                if !st.definition_db {
                    lemma_drive_split(d.0, d.1, empty, now, 2, 4);
                    lemma_done_drive(AuthOutcome::Denied(AuthFailure::Forbidden), empty, now, 4);
                } else {
                    lemma_drive_split(d.0, d.1, empty, now, 3, 3);
                    let q = to_permission(g);
                    assert(drive(d.0, d.1, empty, now, 3) == q);
                    match st.permission_db {
                        None => {
                            lemma_drive_split(q.0, q.1, empty, now, 2, 1);
                            lemma_done_drive(AuthOutcome::Denied(AuthFailure::Forbidden), empty, now, 1);
                        },
                        Some(p) => {
                            assert(drive(q.0, q.1, empty, now, 3) == after_permission(g, p, now));
                        },
                    }
                }
            }
        },
    }
}

/// The caches change only where the data is read from, never the decision:
/// a run whose key, definition and permission caches hold what the database
/// holds, and a run with empty caches, against the same database, counters
/// and instant, pass through the same states and request the same actions
/// once both have read the daily counter (after 4 and 10 steps), and neither
/// touches a counter before that; so both reach the same outcome with the
/// same counter increments.
pub proof fn law_caches_do_not_decide(st: AuthStore, now: i64, k: nat)
    ensures
        drive(AuthState::AwaitKeyCache, AuthActionView::ReadKeyCache, caches_filled(st), now, 4 + k)
            == drive(AuthState::AwaitKeyCache, AuthActionView::ReadKeyCache, caches_empty(st), now, 10 + k),
        forall|j: nat| j < 4 ==> (#[trigger] drive(AuthState::AwaitKeyCache, AuthActionView::ReadKeyCache,
            caches_filled(st), now, j)).1 !is Increment,
        forall|j: nat| j < 10 ==> (#[trigger] drive(AuthState::AwaitKeyCache, AuthActionView::ReadKeyCache,
            caches_empty(st), now, j)).1 !is Increment,
{
    let s0 = AuthState::AwaitKeyCache;
    let a0 = AuthActionView::ReadKeyCache;
    let full = caches_filled(st);
    let empty = caches_empty(st);
    let o = lookups_outcome(st, now);
    lemma_filled_lookups(st, now);
    lemma_empty_lookups(st, now);
    lemma_outcome_past_lookups(st, now);
    lemma_drive_split(s0, a0, full, now, 4, k);
    lemma_drive_split(s0, a0, empty, now, 9, 1 + k);
    lemma_drive_split(o.0, o.1, full, now, 1, k);
    lemma_past_lookups_agree(o.0, o.1, full, empty, now, 1 + k);
    assert((9 + (1 + k)) as nat == (10 + k) as nat);
    assert forall|j: nat| j < 10 implies (#[trigger] drive(s0, a0, empty, now, j)).1 !is Increment by {
        if j == 9 {
            lemma_drive_split(s0, a0, empty, now, 9, 0);
        }
    }
}

/// The rate counters of a grant: every counter belongs to the grant's key;
/// the minute and hour counters are also scoped to the permission code,
/// only the daily counter is shared by every permission of the key; and each
/// counter's bucket is the calendar day (`%Y%m%d`), hour (`%Y%m%d%H`) or
/// minute (`%Y%m%d%H%M`) of the grant's instant.
pub proof fn law_rate_counters_scoped(g: Grant)
    ensures
        bucket_of(g, RateWindow::Day).api_key_id == g.key.key.id,
        bucket_of(g, RateWindow::Hour).api_key_id == g.key.key.id,
        bucket_of(g, RateWindow::Minute).api_key_id == g.key.key.id,
        !bucket_of(g, RateWindow::Day).per_permission,
        bucket_of(g, RateWindow::Hour).per_permission,
        bucket_of(g, RateWindow::Minute).per_permission,
        bucket_of(g, RateWindow::Day).window == RateWindow::Day,
        bucket_of(g, RateWindow::Hour).window == RateWindow::Hour,
        bucket_of(g, RateWindow::Minute).window == RateWindow::Minute,
        bucket_of(g, RateWindow::Day).bucket == chrono_utc_format(g.window_at, seq!['%', 'Y', '%', 'm', '%', 'd']),
        bucket_of(g, RateWindow::Hour).bucket
            == chrono_utc_format(g.window_at, seq!['%', 'Y', '%', 'm', '%', 'd', '%', 'H']),
        bucket_of(g, RateWindow::Minute).bucket
            == chrono_utc_format(g.window_at, seq!['%', 'Y', '%', 'm', '%', 'd', '%', 'H', '%', 'M']),
{
    assert(hour_pattern() =~= seq!['%', 'Y', '%', 'm', '%', 'd', '%', 'H']);
    assert(minute_pattern() =~= seq!['%', 'Y', '%', 'm', '%', 'd', '%', 'H', '%', 'M']);
}

/// In a run of the protocol, the counters read and incremented after the
/// checks are those of `law_rate_counters_scoped`: a grant that reaches the
/// hour count reads the hour counter of its key and permission.
pub proof fn law_counter_reads_are_scoped(gr: Grant, c: i64, now: i64)
    requires
        c < gr.key.key.daily_limit,
    ensures
        next(AuthState::AwaitDayCount(gr), AuthEvent::Count(c), now).1 matches AuthActionView::ReadCount(b)
            && b.window == RateWindow::Minute && b.per_permission && b.api_key_id == gr.key.key.id,
{
    law_rate_counters_scoped(Grant { day_count: c, ..gr });
}

/// Each limit is checked against its own counter: the daily count against
/// the key's daily limit, the minute and hour counts against the
/// permission's per-minute and per-hour limits; a count at or above its
/// limit refuses with 429, below it the next check follows. A key is
/// refused (401) exactly when it is inactive or its expiry is before the
/// instant of the check; a found permission is refused (403) exactly when
/// it is disabled.
pub proof fn law_limits_by_window(gr: Grant, c: i64, k: ApiKeyRecord, g: KeyGrant, p: PermissionRecord, now: i64)
    ensures
        (next(AuthState::AwaitDayCount(gr), AuthEvent::Count(c), now).0
            == AuthState::Done(AuthOutcome::Denied(AuthFailure::TooManyRequests))) <==> c >= gr.key.key.daily_limit,
        (next(AuthState::AwaitMinuteCount(gr), AuthEvent::Count(c), now).0
            == AuthState::Done(AuthOutcome::Denied(AuthFailure::TooManyRequests))) <==> c >= gr.permission.rate_limit_per_minute,
        (next(AuthState::AwaitHourCount(gr), AuthEvent::Count(c), now).0
            == AuthState::Done(AuthOutcome::Denied(AuthFailure::TooManyRequests))) <==> c >= gr.permission.rate_limit_per_hour,
        (next(AuthState::AwaitKeyCache, AuthEvent::KeyFound(k), now).0
            == AuthState::Done(AuthOutcome::Denied(AuthFailure::Unauthorized)))
            <==> !(k.is_active && match k.expires_at {
                Some(x) => now <= x,
                None => true,
            }),
        (next(AuthState::AwaitPermissionCache(g), AuthEvent::PermissionFound(p), now).0
            == AuthState::Done(AuthOutcome::Denied(AuthFailure::Forbidden))) <==> !p.is_enabled,
{
}

} // verus!
