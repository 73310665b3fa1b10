//! Creating an account: one transaction that inserts the user and the
//! records every account starts with (details, wallet, preferences, local API
//! settings and key with its permissions, referral points and links, the
//! referral by an inviter, the personal workspace with its quota, the
//! personal team and its membership) and makes that team and workspace
//! current.
//!
//! It is a protocol: `registration_start` and `registration_step` decide,
//! the caller runs each requested statement in the transaction and hands its
//! result back as the next event. Any failure rolls the transaction back.

use vstd::prelude::*;
use crate::ids::{is_v4, new_random_uuid};
use crate::registration::{
    invite_code, link_count, local_api_key_of, local_api_key_text, make_base_invite_code,
    make_personal_team_name, make_personal_workspace_name, personal_team_name, personal_workspace_name,
    base_invite_code, MAX_REFERRAL_LINKS,
};
use crate::sql::{
    binds_view, digit, listed_pieces, listed_statement, pieces_view, values_view, well_numbered, DecimalValue,
    SqlPieceView, SqlQuery, SqlValue, SqlValueView,
};
use crate::queries::param_clause;
use crate::teams::opt_view;
use crate::text::push_char;

verus! {

pub const INSERT_USER: &'static str = "INSERT INTO users (id) VALUES (";
pub const RETURNING_UUID: &'static str = ") RETURNING uuid";
pub const INSERT_INFO: &'static str = "INSERT INTO user_infos (user_uuid, email, password, nickname, status) VALUES (";
pub const INFO_END: &'static str = ", 'active')";
pub const INSERT_WALLET: &'static str = "INSERT INTO user_wallets (user_uuid, balance, currency, frozen_amount) VALUES (";
pub const WALLET_END: &'static str = ", 0, 'CNY', 0)";
pub const INSERT_PREFERENCES: &'static str = "INSERT INTO user_preferences (user_uuid, theme, language, notifications_enabled) VALUES (";
pub const PREFERENCES_END: &'static str = ", 'system', 'zh-CN', TRUE)";
pub const INSERT_SETTINGS: &'static str = "INSERT INTO user_local_api_settings (user_uuid, enabled, port, remote_access, cors_origins) VALUES (";
pub const SETTINGS_END: &'static str = ", FALSE, 8080, FALSE, '[]'::jsonb)";
pub const INSERT_KEY: &'static str = "INSERT INTO user_local_api_keys (user_uuid, key_prefix, key_hash, api_key, daily_limit) VALUES (";
pub const KEY_END: &'static str = ", 1000) RETURNING id";
pub const INSERT_PERMISSION: &'static str = "INSERT INTO user_local_api_key_permissions (api_key_id, permission_code, is_enabled, rate_limit_per_minute, rate_limit_per_hour) VALUES (";
pub const PERMISSION_END: &'static str = ") ON CONFLICT (api_key_id, permission_code) DO NOTHING";
pub const INSERT_POINTS: &'static str = "INSERT INTO user_referral_points (user_uuid, total_points, available_points, used_points, pending_points) VALUES (";
pub const POINTS_END: &'static str = ", 0, 0, 0, 0)";
pub const INSERT_LINK: &'static str = "INSERT INTO referral_links (user_uuid, code, tier_uuid, is_current, unlocked, reward_rate, discount_rate) VALUES (";
pub const CLOSE: &'static str = ")";
pub const FIND_REFERRER: &'static str = "SELECT user_uuid, uuid FROM referral_links WHERE code = ";
pub const REFERRER_END: &'static str = " AND is_current = TRUE";
pub const INSERT_REFERRAL: &'static str = "INSERT INTO user_referrals (invitee_uuid, inviter_uuid, link_uuid, status) VALUES (";
pub const REFERRAL_END: &'static str = ", 'registered')";
pub const COUNT_REGISTERED: &'static str = "UPDATE referral_links SET registered_users = registered_users + 1 WHERE uuid = ";
pub const NOTHING: &'static str = "";
pub const INSERT_WORKSPACE: &'static str = "INSERT INTO workspaces (name, owner_uuid, workspace_type) VALUES (";
pub const WORKSPACE_END: &'static str = ", 'personal') RETURNING uuid";
pub const INSERT_QUOTA: &'static str = "INSERT INTO workspace_quotas (workspace_uuid, max_environments, max_team_members, max_proxies, max_rpa_tasks) VALUES (";
pub const INSERT_TEAM: &'static str = "INSERT INTO teams (workspace_uuid, name, description, owner_uuid) VALUES (";
pub const PERSONAL_TEAM: &'static str = "个人团队";
pub const INSERT_MEMBER: &'static str = "INSERT INTO team_members (team_uuid, workspace_uuid, user_uuid, role, status) VALUES (";
pub const MEMBER_END: &'static str = ", 'owner', 'active')";
pub const SET_CURRENT_TEAM: &'static str = "UPDATE user_infos SET current_team_uuid = ";
pub const SET_CURRENT_WORKSPACE: &'static str = ", current_workspace_uuid = ";
pub const FOR_USER: &'static str = " WHERE user_uuid = ";

/// The limits of a new personal workspace.
#[derive(Clone, Copy, Debug, PartialEq, Eq, Structural)]
pub struct QuotaValues {
    pub max_environments: i32,
    pub max_team_members: i32,
    pub max_proxies: i32,
    pub max_rpa_tasks: i32,
}

/// A referral tier: its identifier and the rates its links inherit.
#[derive(Clone, Copy, Debug, PartialEq, Eq, Structural)]
pub struct TierRates {
    pub uuid: u128,
    pub reward_rate: DecimalValue,
    pub discount_rate: DecimalValue,
}

/// A local API permission with the defaults a new key gets.
#[derive(Clone, Debug, PartialEq, Eq)]
pub struct PermissionDefault {
    pub code: String,
    pub enabled: bool,
    pub per_minute: i32,
    pub per_hour: i32,
}

/// What an account is created from: the request, the password hash, the
/// quota of the free plan, the referral tiers and the permission definitions.
#[derive(Clone, Debug, PartialEq, Eq)]
pub struct SignupInput {
    pub user_id: String,
    pub email: String,
    pub password_hash: String,
    pub nickname: Option<String>,
    pub referral_code: Option<String>,
    pub quota: QuotaValues,
    pub tiers: Vec<TierRates>,
    pub permissions: Vec<PermissionDefault>,
}

/// How a registration ends.
#[derive(Clone, Copy, Debug, PartialEq, Eq, Structural)]
pub enum SignupOutcome {
    /// Committed: the new user's identifier.
    Created(u128),
    /// Rolled back.
    Failed,
}

/// Which result the registration waits for.
#[derive(Clone, Copy, Debug, PartialEq, Eq, Structural)]
pub enum SignupStage {
    AwaitBegin,
    AwaitUser,
    AwaitInfo,
    AwaitWallet,
    AwaitPreferences,
    AwaitSettings,
    AwaitKeyHash,
    AwaitKey,
    /// The insert of permission row `i`.
    AwaitPermission(usize),
    AwaitPoints,
    /// The insert of referral link `i`.
    AwaitLink(usize),
    AwaitReferrer,
    AwaitReferral,
    AwaitLinkCount,
    AwaitWorkspace,
    AwaitQuota,
    AwaitTeam,
    AwaitMember,
    AwaitCurrent,
    AwaitCommit,
    Done(SignupOutcome),
}

/// A registration in progress: what it was started with, what it derived,
/// and the identifiers the database returned so far.
#[derive(Clone, Debug, PartialEq, Eq)]
pub struct RegistrationState {
    pub input: SignupInput,
    /// The new local API key, its displayed prefix, the team's and the
    /// workspace's names.
    pub api_key: String,
    pub key_prefix: String,
    pub team_name: String,
    pub workspace_name: String,
    pub stage: SignupStage,
    pub user: u128,
    pub key_hash: String,
    pub key_id: i32,
    pub link: u128,
    pub workspace: u128,
    pub team: u128,
}

/// The result of the action last requested.
#[derive(Clone, Debug, PartialEq, Eq)]
pub enum RegistrationEvent {
    /// A statement without a result (or the transaction's begin or commit)
    /// succeeded.
    Done,
    /// The action failed.
    Failed,
    /// The identifier a statement returned.
    Uuid(u128),
    /// The row id a statement returned.
    Id(i32),
    /// The hash of the local API key.
    Hashed(String),
    /// The current link with the referral code: its owner and its identifier.
    Referrer(Option<(u128, u128)>),
}

/// What the caller does next.
#[derive(Clone, Debug, PartialEq, Eq)]
pub enum RegistrationAction {
    Begin,
    /// Run a statement that returns nothing.
    Execute(SqlQuery),
    /// Run a statement that returns one identifier.
    FetchUuid(SqlQuery),
    /// Run a statement that returns one row id.
    FetchId(SqlQuery),
    /// Run a statement that returns at most one (owner, link) pair.
    FetchReferrer(SqlQuery),
    /// Hash the state's `api_key`.
    HashKey,
    Commit,
    Rollback,
    Finish(SignupOutcome),
}

/// A statement as pieces and bound values.
pub type Stmt = (Seq<SqlPieceView>, Seq<SqlValueView>);

/// `RegistrationAction` with its statements as views.
pub enum RegistrationActionView {
    Begin,
    Execute(Stmt),
    FetchUuid(Stmt),
    FetchId(Stmt),
    FetchReferrer(Stmt),
    HashKey,
    Commit,
    Rollback,
    Finish(SignupOutcome),
}

/// The view of a statement.
pub open spec fn stmt_of(q: SqlQuery) -> Stmt {
    (pieces_view(q), binds_view(q))
}

impl View for RegistrationAction {
    type V = RegistrationActionView;

    open spec fn view(&self) -> RegistrationActionView {
        match self {
            RegistrationAction::Begin => RegistrationActionView::Begin,
            RegistrationAction::Execute(q) => RegistrationActionView::Execute(stmt_of(*q)),
            RegistrationAction::FetchUuid(q) => RegistrationActionView::FetchUuid(stmt_of(*q)),
            RegistrationAction::FetchId(q) => RegistrationActionView::FetchId(stmt_of(*q)),
            RegistrationAction::FetchReferrer(q) => RegistrationActionView::FetchReferrer(stmt_of(*q)),
            RegistrationAction::HashKey => RegistrationActionView::HashKey,
            RegistrationAction::Commit => RegistrationActionView::Commit,
            RegistrationAction::Rollback => RegistrationActionView::Rollback,
            RegistrationAction::Finish(o) => RegistrationActionView::Finish(*o),
        }
    }
}

// ----- the statements -----

/// The optional text as a bound value: the text, or `NULL`.
pub open spec fn text_or_null(t: Option<String>) -> SqlValueView {
    match t {
        Some(s) => SqlValueView::Text(s@),
        None => SqlValueView::Null,
    }
}

pub open spec fn user_stmt(user_id: Seq<char>) -> Stmt {
    (listed_pieces(INSERT_USER@, 1, RETURNING_UUID@), seq![SqlValueView::Text(user_id)])
}

pub open spec fn info_stmt(user: u128, i: SignupInput) -> Stmt {
    (
        listed_pieces(INSERT_INFO@, 4, INFO_END@),
        seq![
            SqlValueView::Uuid(user),
            SqlValueView::Text(i.email@),
            SqlValueView::Text(i.password_hash@),
            text_or_null(i.nickname),
        ],
    )
}

/// A statement of the new user alone: `head $1 tail`.
pub open spec fn user_row_stmt(head: Seq<char>, tail: Seq<char>, user: u128) -> Stmt {
    (listed_pieces(head, 1, tail), seq![SqlValueView::Uuid(user)])
}

pub open spec fn key_stmt(user: u128, prefix: Seq<char>, hash: Seq<char>, key: Seq<char>) -> Stmt {
    (
        listed_pieces(INSERT_KEY@, 4, KEY_END@),
        seq![SqlValueView::Uuid(user), SqlValueView::Text(prefix), SqlValueView::Text(hash), SqlValueView::Text(key)],
    )
}

pub open spec fn permission_stmt(key_id: i32, p: PermissionDefault) -> Stmt {
    (
        listed_pieces(INSERT_PERMISSION@, 5, PERMISSION_END@),
        seq![
            SqlValueView::Int32(key_id),
            SqlValueView::Text(p.code@),
            SqlValueView::Bool(p.enabled),
            SqlValueView::Int32(p.per_minute),
            SqlValueView::Int32(p.per_hour),
        ],
    )
}

/// The referral link of tier `idx`: only the first is current and unlocked.
pub open spec fn link_stmt(user: u128, idx: nat, t: TierRates) -> Stmt {
    (
        listed_pieces(INSERT_LINK@, 7, CLOSE@),
        seq![
            SqlValueView::Uuid(user),
            SqlValueView::Text(invite_code(user, idx)),
            SqlValueView::Uuid(t.uuid),
            SqlValueView::Bool(idx == 0),
            SqlValueView::Bool(idx == 0),
            SqlValueView::Decimal(t.reward_rate),
            SqlValueView::Decimal(t.discount_rate),
        ],
    )
}

pub open spec fn referrer_stmt(code: Seq<char>) -> Stmt {
    (listed_pieces(FIND_REFERRER@, 1, REFERRER_END@), seq![SqlValueView::Text(code)])
}

pub open spec fn referral_stmt(user: u128, inviter: u128, link: u128) -> Stmt {
    (
        listed_pieces(INSERT_REFERRAL@, 3, REFERRAL_END@),
        seq![SqlValueView::Uuid(user), SqlValueView::Uuid(inviter), SqlValueView::Uuid(link)],
    )
}

pub open spec fn link_count_stmt(link: u128) -> Stmt {
    (listed_pieces(COUNT_REGISTERED@, 1, NOTHING@), seq![SqlValueView::Uuid(link)])
}

pub open spec fn workspace_stmt(name: Seq<char>, user: u128) -> Stmt {
    (listed_pieces(INSERT_WORKSPACE@, 2, WORKSPACE_END@), seq![SqlValueView::Text(name), SqlValueView::Uuid(user)])
}

pub open spec fn quota_stmt(workspace: u128, q: QuotaValues) -> Stmt {
    (
        listed_pieces(INSERT_QUOTA@, 5, CLOSE@),
        seq![
            SqlValueView::Uuid(workspace),
            SqlValueView::Int32(q.max_environments),
            SqlValueView::Int32(q.max_team_members),
            SqlValueView::Int32(q.max_proxies),
            SqlValueView::Int32(q.max_rpa_tasks),
        ],
    )
}

pub open spec fn team_stmt(workspace: u128, name: Seq<char>, user: u128) -> Stmt {
    (
        listed_pieces(INSERT_TEAM@, 4, RETURNING_UUID@),
        seq![
            SqlValueView::Uuid(workspace),
            SqlValueView::Text(name),
            SqlValueView::Text(PERSONAL_TEAM@),
            SqlValueView::Uuid(user),
        ],
    )
}

pub open spec fn member_stmt(team: u128, workspace: u128, user: u128) -> Stmt {
    (
        listed_pieces(INSERT_MEMBER@, 3, MEMBER_END@),
        seq![SqlValueView::Uuid(team), SqlValueView::Uuid(workspace), SqlValueView::Uuid(user)],
    )
}

pub open spec fn current_stmt(team: u128, workspace: u128, user: u128) -> Stmt {
    (
        param_clause(SET_CURRENT_TEAM@, 1) + param_clause(SET_CURRENT_WORKSPACE@, 2) + param_clause(FOR_USER@, 3),
        seq![SqlValueView::Uuid(team), SqlValueView::Uuid(workspace), SqlValueView::Uuid(user)],
    )
}

// ----- the protocol -----

/// Ends with `o`.
pub open spec fn signup_done(s: RegistrationState, o: SignupOutcome) -> (RegistrationState, RegistrationActionView) {
    (RegistrationState { stage: SignupStage::Done(o), ..s }, RegistrationActionView::Finish(o))
}

/// Rolls the transaction back.
pub open spec fn signup_fail(s: RegistrationState) -> (RegistrationState, RegistrationActionView) {
    (RegistrationState { stage: SignupStage::Done(SignupOutcome::Failed), ..s }, RegistrationActionView::Rollback)
}

/// Moves to `stage` and asks to run `stmt`.
pub open spec fn execute(s: RegistrationState, stage: SignupStage, stmt: Stmt) -> (RegistrationState, RegistrationActionView) {
    (RegistrationState { stage, ..s }, RegistrationActionView::Execute(stmt))
}

/// The number of referral links of the registration.
pub open spec fn links_of(s: RegistrationState) -> nat {
    link_count(s.input.tiers@.len())
}

/// After the permission rows: the referral points.
pub open spec fn to_points(s: RegistrationState) -> (RegistrationState, RegistrationActionView) {
    execute(s, SignupStage::AwaitPoints, user_row_stmt(INSERT_POINTS@, POINTS_END@, s.user))
}

/// Permission row `i`, or the points after the last one.
pub open spec fn to_permission(s: RegistrationState, i: nat) -> (RegistrationState, RegistrationActionView) {
    if i < s.input.permissions@.len() {
        execute(s, SignupStage::AwaitPermission(i as usize), permission_stmt(s.key_id, s.input.permissions@[i as int]))
    } else {
        to_points(s)
    }
}

/// After the links: the referrer when a code was given, else the workspace.
pub open spec fn to_referrer(s: RegistrationState) -> (RegistrationState, RegistrationActionView) {
    match s.input.referral_code {
        Some(c) => (
            RegistrationState { stage: SignupStage::AwaitReferrer, ..s },
            RegistrationActionView::FetchReferrer(referrer_stmt(c@)),
        ),
        None => to_workspace(s),
    }
}

/// The personal workspace.
pub open spec fn to_workspace(s: RegistrationState) -> (RegistrationState, RegistrationActionView) {
    (
        RegistrationState { stage: SignupStage::AwaitWorkspace, ..s },
        RegistrationActionView::FetchUuid(workspace_stmt(s.workspace_name@, s.user)),
    )
}

/// Referral link `i`, or the referrer after the last one.
pub open spec fn to_link(s: RegistrationState, i: nat) -> (RegistrationState, RegistrationActionView) {
    if i < links_of(s) {
        execute(s, SignupStage::AwaitLink(i as usize), link_stmt(s.user, i, s.input.tiers@[i as int]))
    } else {
        to_referrer(s)
    }
}

/// One step of the registration.
pub open spec fn registration_next(s: RegistrationState, e: RegistrationEvent) -> (RegistrationState, RegistrationActionView) {
    match s.stage {
        SignupStage::Done(o) => signup_done(s, o),
        SignupStage::AwaitBegin => match e {
            RegistrationEvent::Done => (
                RegistrationState { stage: SignupStage::AwaitUser, ..s },
                RegistrationActionView::FetchUuid(user_stmt(s.input.user_id@)),
            ),
            _ => signup_fail(s),
        },
        SignupStage::AwaitUser => match e {
            RegistrationEvent::Uuid(u) => execute(
                RegistrationState { user: u, ..s },
                SignupStage::AwaitInfo,
                info_stmt(u, s.input),
            ),
            _ => signup_fail(s),
        },
        SignupStage::AwaitInfo => match e {
            RegistrationEvent::Done => execute(s, SignupStage::AwaitWallet, user_row_stmt(INSERT_WALLET@, WALLET_END@, s.user)),
            _ => signup_fail(s),
        },
        SignupStage::AwaitWallet => match e {
            RegistrationEvent::Done => execute(
                s,
                SignupStage::AwaitPreferences,
                user_row_stmt(INSERT_PREFERENCES@, PREFERENCES_END@, s.user),
            ),
            _ => signup_fail(s),
        },
        SignupStage::AwaitPreferences => match e {
            RegistrationEvent::Done => execute(s, SignupStage::AwaitSettings, user_row_stmt(INSERT_SETTINGS@, SETTINGS_END@, s.user)),
            _ => signup_fail(s),
        },
        SignupStage::AwaitSettings => match e {
            RegistrationEvent::Done => (RegistrationState { stage: SignupStage::AwaitKeyHash, ..s }, RegistrationActionView::HashKey),
            _ => signup_fail(s),
        },
        SignupStage::AwaitKeyHash => match e {
            RegistrationEvent::Hashed(h) => (
                RegistrationState { stage: SignupStage::AwaitKey, key_hash: h, ..s },
                RegistrationActionView::FetchId(key_stmt(s.user, s.key_prefix@, h@, s.api_key@)),
            ),
            _ => signup_fail(s),
        },
        SignupStage::AwaitKey => match e {
            RegistrationEvent::Id(id) => to_permission(RegistrationState { key_id: id, ..s }, 0),
            _ => signup_fail(s),
        },
        SignupStage::AwaitPermission(i) => match e {
            RegistrationEvent::Done => to_permission(s, (i + 1) as nat),
            _ => signup_fail(s),
        },
        SignupStage::AwaitPoints => match e {
            RegistrationEvent::Done => to_link(s, 0),
            _ => signup_fail(s),
        },
        SignupStage::AwaitLink(i) => match e {
            RegistrationEvent::Done => to_link(s, (i + 1) as nat),
            _ => signup_fail(s),
        },
        SignupStage::AwaitReferrer => match e {
            RegistrationEvent::Referrer(Some((inviter, link))) => execute(
                RegistrationState { link, ..s },
                SignupStage::AwaitReferral,
                referral_stmt(s.user, inviter, link),
            ),
            RegistrationEvent::Referrer(None) => to_workspace(s),
            _ => signup_fail(s),
        },
        SignupStage::AwaitReferral => match e {
            RegistrationEvent::Done => execute(s, SignupStage::AwaitLinkCount, link_count_stmt(s.link)),
            _ => signup_fail(s),
        },
        SignupStage::AwaitLinkCount => match e {
            RegistrationEvent::Done => to_workspace(s),
            _ => signup_fail(s),
        },
        SignupStage::AwaitWorkspace => match e {
            RegistrationEvent::Uuid(w) => execute(
                RegistrationState { workspace: w, ..s },
                SignupStage::AwaitQuota,
                quota_stmt(w, s.input.quota),
            ),
            _ => signup_fail(s),
        },
        SignupStage::AwaitQuota => match e {
            RegistrationEvent::Done => (
                RegistrationState { stage: SignupStage::AwaitTeam, ..s },
                RegistrationActionView::FetchUuid(team_stmt(s.workspace, s.team_name@, s.user)),
            ),
            _ => signup_fail(s),
        },
        SignupStage::AwaitTeam => match e {
            RegistrationEvent::Uuid(t) => execute(
                RegistrationState { team: t, ..s },
                SignupStage::AwaitMember,
                member_stmt(t, s.workspace, s.user),
            ),
            _ => signup_fail(s),
        },
        SignupStage::AwaitMember => match e {
            RegistrationEvent::Done => execute(s, SignupStage::AwaitCurrent, current_stmt(s.team, s.workspace, s.user)),
            _ => signup_fail(s),
        },
        SignupStage::AwaitCurrent => match e {
            RegistrationEvent::Done => (RegistrationState { stage: SignupStage::AwaitCommit, ..s }, RegistrationActionView::Commit),
            _ => signup_fail(s),
        },
        SignupStage::AwaitCommit => match e {
            RegistrationEvent::Done => signup_done(s, SignupOutcome::Created(s.user)),
            _ => signup_fail(s),
        },
    }
}

// ----- building the statements -----

fn one_user_row(head: &'static str, tail: &'static str, user: u128) -> (q: SqlQuery)
    ensures
        stmt_of(q) == user_row_stmt(head@, tail@, user),
{
    let mut v: Vec<SqlValue> = Vec::new();
    v.push(SqlValue::Uuid(user));
    let q = listed_statement(head, v, tail);
    assert(values_view(v@) =~= seq![SqlValueView::Uuid(user)]);
    q
}

fn user_query(user_id: &String) -> (q: SqlQuery)
    ensures
        stmt_of(q) == user_stmt(user_id@),
{
    let mut v: Vec<SqlValue> = Vec::new();
    v.push(SqlValue::Text(user_id.clone()));
    let q = listed_statement(INSERT_USER, v, RETURNING_UUID);
    assert(values_view(v@) =~= seq![SqlValueView::Text(user_id@)]);
    q
}

fn info_query(user: u128, i: &SignupInput) -> (q: SqlQuery)
    ensures
        stmt_of(q) == info_stmt(user, *i),
{
    let nickname = match &i.nickname {
        Some(n) => SqlValue::Text(n.clone()),
        None => SqlValue::Null,
    };
    let mut v: Vec<SqlValue> = Vec::new();
    v.push(SqlValue::Uuid(user));
    v.push(SqlValue::Text(i.email.clone()));
    v.push(SqlValue::Text(i.password_hash.clone()));
    v.push(nickname);
    let q = listed_statement(INSERT_INFO, v, INFO_END);
    assert(values_view(v@) =~= info_stmt(user, *i).1);
    q
}

fn key_query(user: u128, prefix: &String, hash: &String, key: &String) -> (q: SqlQuery)
    ensures
        stmt_of(q) == key_stmt(user, prefix@, hash@, key@),
{
    let mut v: Vec<SqlValue> = Vec::new();
    v.push(SqlValue::Uuid(user));
    v.push(SqlValue::Text(prefix.clone()));
    v.push(SqlValue::Text(hash.clone()));
    v.push(SqlValue::Text(key.clone()));
    let q = listed_statement(INSERT_KEY, v, KEY_END);
    assert(values_view(v@) =~= key_stmt(user, prefix@, hash@, key@).1);
    q
}

fn permission_query(key_id: i32, p: &PermissionDefault) -> (q: SqlQuery)
    ensures
        stmt_of(q) == permission_stmt(key_id, *p),
{
    let mut v: Vec<SqlValue> = Vec::new();
    v.push(SqlValue::Int32(key_id));
    v.push(SqlValue::Text(p.code.clone()));
    v.push(SqlValue::Bool(p.enabled));
    v.push(SqlValue::Int32(p.per_minute));
    v.push(SqlValue::Int32(p.per_hour));
    let q = listed_statement(INSERT_PERMISSION, v, PERMISSION_END);
    assert(values_view(v@) =~= permission_stmt(key_id, *p).1);
    q
}

/// The code of referral link `idx` of `user`.
fn invite_code_text(user: u128, idx: usize) -> (c: String)
    requires
        idx < 4,
    ensures
        c@ == invite_code(user, idx as nat),
{
    let mut c = make_base_invite_code(user);
    if idx > 0 {
        push_char(&mut c, '-');
        let d = if idx == 1 { '2' } else if idx == 2 { '3' } else { '4' };
        push_char(&mut c, d);
        assert(c@ =~= base_invite_code(user) + seq!['-', digit((idx + 1) as int)]);
    }
    c
}

fn link_query(user: u128, idx: usize, t: TierRates) -> (q: SqlQuery)
    requires
        idx < 4,
    ensures
        stmt_of(q) == link_stmt(user, idx as nat, t),
{
    let mut v: Vec<SqlValue> = Vec::new();
    v.push(SqlValue::Uuid(user));
    v.push(SqlValue::Text(invite_code_text(user, idx)));
    v.push(SqlValue::Uuid(t.uuid));
    v.push(SqlValue::Bool(idx == 0));
    v.push(SqlValue::Bool(idx == 0));
    v.push(SqlValue::Decimal(t.reward_rate));
    v.push(SqlValue::Decimal(t.discount_rate));
    let q = listed_statement(INSERT_LINK, v, CLOSE);
    assert(values_view(v@) =~= link_stmt(user, idx as nat, t).1);
    q
}

fn referrer_query(code: &String) -> (q: SqlQuery)
    ensures
        stmt_of(q) == referrer_stmt(code@),
{
    let mut v: Vec<SqlValue> = Vec::new();
    v.push(SqlValue::Text(code.clone()));
    let q = listed_statement(FIND_REFERRER, v, REFERRER_END);
    assert(values_view(v@) =~= referrer_stmt(code@).1);
    q
}

fn referral_query(user: u128, inviter: u128, link: u128) -> (q: SqlQuery)
    ensures
        stmt_of(q) == referral_stmt(user, inviter, link),
{
    let mut v: Vec<SqlValue> = Vec::new();
    v.push(SqlValue::Uuid(user));
    v.push(SqlValue::Uuid(inviter));
    v.push(SqlValue::Uuid(link));
    let q = listed_statement(INSERT_REFERRAL, v, REFERRAL_END);
    assert(values_view(v@) =~= referral_stmt(user, inviter, link).1);
    q
}

fn link_count_query(link: u128) -> (q: SqlQuery)
    ensures
        stmt_of(q) == link_count_stmt(link),
{
    let mut v: Vec<SqlValue> = Vec::new();
    v.push(SqlValue::Uuid(link));
    let q = listed_statement(COUNT_REGISTERED, v, NOTHING);
    assert(values_view(v@) =~= link_count_stmt(link).1);
    q
}

fn workspace_query(name: &String, user: u128) -> (q: SqlQuery)
    ensures
        stmt_of(q) == workspace_stmt(name@, user),
{
    let mut v: Vec<SqlValue> = Vec::new();
    v.push(SqlValue::Text(name.clone()));
    v.push(SqlValue::Uuid(user));
    let q = listed_statement(INSERT_WORKSPACE, v, WORKSPACE_END);
    assert(values_view(v@) =~= workspace_stmt(name@, user).1);
    q
}

fn quota_query(workspace: u128, qv: QuotaValues) -> (q: SqlQuery)
    ensures
        stmt_of(q) == quota_stmt(workspace, qv),
{
    let mut v: Vec<SqlValue> = Vec::new();
    v.push(SqlValue::Uuid(workspace));
    v.push(SqlValue::Int32(qv.max_environments));
    v.push(SqlValue::Int32(qv.max_team_members));
    v.push(SqlValue::Int32(qv.max_proxies));
    v.push(SqlValue::Int32(qv.max_rpa_tasks));
    let q = listed_statement(INSERT_QUOTA, v, CLOSE);
    assert(values_view(v@) =~= quota_stmt(workspace, qv).1);
    q
}

fn team_query(workspace: u128, name: &String, user: u128) -> (q: SqlQuery)
    ensures
        stmt_of(q) == team_stmt(workspace, name@, user),
{
    let mut v: Vec<SqlValue> = Vec::new();
    v.push(SqlValue::Uuid(workspace));
    v.push(SqlValue::Text(name.clone()));
    v.push(SqlValue::Text(PERSONAL_TEAM.to_owned()));
    v.push(SqlValue::Uuid(user));
    let q = listed_statement(INSERT_TEAM, v, RETURNING_UUID);
    assert(values_view(v@) =~= team_stmt(workspace, name@, user).1);
    q
}

fn member_query(team: u128, workspace: u128, user: u128) -> (q: SqlQuery)
    ensures
        stmt_of(q) == member_stmt(team, workspace, user),
{
    let mut v: Vec<SqlValue> = Vec::new();
    v.push(SqlValue::Uuid(team));
    v.push(SqlValue::Uuid(workspace));
    v.push(SqlValue::Uuid(user));
    let q = listed_statement(INSERT_MEMBER, v, MEMBER_END);
    assert(values_view(v@) =~= member_stmt(team, workspace, user).1);
    q
}

fn current_query(team: u128, workspace: u128, user: u128) -> (q: SqlQuery)
    ensures
        stmt_of(q) == current_stmt(team, workspace, user),
{
    let mut q = SqlQuery::new();
    q.push_param(SET_CURRENT_TEAM, SqlValue::Uuid(team));
    q.push_param(SET_CURRENT_WORKSPACE, SqlValue::Uuid(workspace));
    q.push_param(FOR_USER, SqlValue::Uuid(user));
    assert(pieces_view(q) =~= current_stmt(team, workspace, user).0);
    assert(binds_view(q) =~= current_stmt(team, workspace, user).1);
    q
}

// ----- the steps -----

fn fail(s: RegistrationState) -> (r: (RegistrationState, RegistrationAction))
    ensures
        (r.0, r.1@) == signup_fail(s),
{
    let mut s = s;
    s.stage = SignupStage::Done(SignupOutcome::Failed);
    (s, RegistrationAction::Rollback)
}

fn finish(s: RegistrationState, o: SignupOutcome) -> (r: (RegistrationState, RegistrationAction))
    ensures
        (r.0, r.1@) == signup_done(s, o),
{
    let mut s = s;
    s.stage = SignupStage::Done(o);
    (s, RegistrationAction::Finish(o))
}

fn run(s: RegistrationState, stage: SignupStage, q: SqlQuery) -> (r: (RegistrationState, RegistrationAction))
    ensures
        (r.0, r.1@) == execute(s, stage, stmt_of(q)),
{
    let mut s = s;
    s.stage = stage;
    (s, RegistrationAction::Execute(q))
}

fn next_workspace(s: RegistrationState) -> (r: (RegistrationState, RegistrationAction))
    ensures
        (r.0, r.1@) == to_workspace(s),
{
    let q = workspace_query(&s.workspace_name, s.user);
    let mut s = s;
    s.stage = SignupStage::AwaitWorkspace;
    (s, RegistrationAction::FetchUuid(q))
}

fn next_referrer(s: RegistrationState) -> (r: (RegistrationState, RegistrationAction))
    ensures
        (r.0, r.1@) == to_referrer(s),
{
    match &s.input.referral_code {
        Some(c) => {
            let q = referrer_query(c);
            let mut s = s;
            s.stage = SignupStage::AwaitReferrer;
            (s, RegistrationAction::FetchReferrer(q))
        },
        None => next_workspace(s),
    }
}

fn next_points(s: RegistrationState) -> (r: (RegistrationState, RegistrationAction))
    ensures
        (r.0, r.1@) == to_points(s),
{
    let q = one_user_row(INSERT_POINTS, POINTS_END, s.user);
    run(s, SignupStage::AwaitPoints, q)
}

/// Permission row `i`, where `more` says whether `i` is a row.
fn next_permission(s: RegistrationState, i: usize, more: bool) -> (r: (RegistrationState, RegistrationAction))
    requires
        more == (i < s.input.permissions@.len()),
    ensures
        (r.0, r.1@) == to_permission(s, i as nat),
{
    if more {
        let q = permission_query(s.key_id, &s.input.permissions[i]);
        run(s, SignupStage::AwaitPermission(i), q)
    } else {
        next_points(s)
    }
}

/// Referral link `i`, where `more` says whether there is one.
fn next_link(s: RegistrationState, i: usize, more: bool) -> (r: (RegistrationState, RegistrationAction))
    requires
        more == (i < links_of(s)),
    ensures
        (r.0, r.1@) == to_link(s, i as nat),
{
    if more {
        let q = link_query(s.user, i, s.input.tiers[i]);
        run(s, SignupStage::AwaitLink(i), q)
    } else {
        next_referrer(s)
    }
}

/// The number of referral links, `links_of(s)`.
fn link_total(s: &RegistrationState) -> (n: usize)
    ensures
        n == links_of(*s),
{
    if s.input.tiers.len() < MAX_REFERRAL_LINKS {
        s.input.tiers.len()
    } else {
        MAX_REFERRAL_LINKS
    }
}

/// One step of the registration.
pub fn registration_step(s: RegistrationState, e: RegistrationEvent) -> (r: (RegistrationState, RegistrationAction))
    ensures
        (r.0, r.1@) == registration_next(s, e),
{
    let mut s = s;
    match s.stage {
        SignupStage::Done(o) => finish(s, o),
        SignupStage::AwaitBegin => match e {
            RegistrationEvent::Done => {
                let q = user_query(&s.input.user_id);
                s.stage = SignupStage::AwaitUser;
                (s, RegistrationAction::FetchUuid(q))
            },
            _ => fail(s),
        },
        SignupStage::AwaitUser => match e {
            RegistrationEvent::Uuid(u) => {
                s.user = u;
                let q = info_query(u, &s.input);
                run(s, SignupStage::AwaitInfo, q)
            },
            _ => fail(s),
        },
        SignupStage::AwaitInfo => match e {
            RegistrationEvent::Done => {
                let q = one_user_row(INSERT_WALLET, WALLET_END, s.user);
                run(s, SignupStage::AwaitWallet, q)
            },
            _ => fail(s),
        },
        SignupStage::AwaitWallet => match e {
            RegistrationEvent::Done => {
                let q = one_user_row(INSERT_PREFERENCES, PREFERENCES_END, s.user);
                run(s, SignupStage::AwaitPreferences, q)
            },
            _ => fail(s),
        },
        SignupStage::AwaitPreferences => match e {
            RegistrationEvent::Done => {
                let q = one_user_row(INSERT_SETTINGS, SETTINGS_END, s.user);
                run(s, SignupStage::AwaitSettings, q)
            },
            _ => fail(s),
        },
        SignupStage::AwaitSettings => match e {
            RegistrationEvent::Done => {
                s.stage = SignupStage::AwaitKeyHash;
                (s, RegistrationAction::HashKey)
            },
            _ => fail(s),
        },
        SignupStage::AwaitKeyHash => match e {
            RegistrationEvent::Hashed(h) => {
                let q = key_query(s.user, &s.key_prefix, &h, &s.api_key);
                s.stage = SignupStage::AwaitKey;
                s.key_hash = h;
                (s, RegistrationAction::FetchId(q))
            },
            _ => fail(s),
        },
        SignupStage::AwaitKey => match e {
            RegistrationEvent::Id(id) => {
                s.key_id = id;
                let more = 0 < s.input.permissions.len();
                next_permission(s, 0, more)
            },
            _ => fail(s),
        },
        SignupStage::AwaitPermission(i) => match e {
            RegistrationEvent::Done => {
                let n = s.input.permissions.len();
                let more = i < usize::MAX && i + 1 < n;
                if i < usize::MAX {
                    next_permission(s, i + 1, more)
                } else {
                    next_points(s)
                }
            },
            _ => fail(s),
        },
        SignupStage::AwaitPoints => match e {
            RegistrationEvent::Done => {
                let more = 0 < link_total(&s);
                next_link(s, 0, more)
            },
            _ => fail(s),
        },
        SignupStage::AwaitLink(i) => match e {
            RegistrationEvent::Done => {
                let n = link_total(&s);
                if i < usize::MAX {
                    next_link(s, i + 1, i + 1 < n)
                } else {
                    next_referrer(s)
                }
            },
            _ => fail(s),
        },
        SignupStage::AwaitReferrer => match e {
            RegistrationEvent::Referrer(Some((inviter, link))) => {
                s.link = link;
                let q = referral_query(s.user, inviter, link);
                run(s, SignupStage::AwaitReferral, q)
            },
            RegistrationEvent::Referrer(None) => next_workspace(s),
            _ => fail(s),
        },
        SignupStage::AwaitReferral => match e {
            RegistrationEvent::Done => {
                let q = link_count_query(s.link);
                run(s, SignupStage::AwaitLinkCount, q)
            },
            _ => fail(s),
        },
        SignupStage::AwaitLinkCount => match e {
            RegistrationEvent::Done => next_workspace(s),
            _ => fail(s),
        },
        SignupStage::AwaitWorkspace => match e {
            RegistrationEvent::Uuid(w) => {
                s.workspace = w;
                let q = quota_query(w, s.input.quota);
                run(s, SignupStage::AwaitQuota, q)
            },
            _ => fail(s),
        },
        SignupStage::AwaitQuota => match e {
            RegistrationEvent::Done => {
                let q = team_query(s.workspace, &s.team_name, s.user);
                s.stage = SignupStage::AwaitTeam;
                (s, RegistrationAction::FetchUuid(q))
            },
            _ => fail(s),
        },
        SignupStage::AwaitTeam => match e {
            RegistrationEvent::Uuid(t) => {
                s.team = t;
                let q = member_query(t, s.workspace, s.user);
                run(s, SignupStage::AwaitMember, q)
            },
            _ => fail(s),
        },
        SignupStage::AwaitMember => match e {
            RegistrationEvent::Done => {
                let q = current_query(s.team, s.workspace, s.user);
                run(s, SignupStage::AwaitCurrent, q)
            },
            _ => fail(s),
        },
        SignupStage::AwaitCurrent => match e {
            RegistrationEvent::Done => {
                s.stage = SignupStage::AwaitCommit;
                (s, RegistrationAction::Commit)
            },
            _ => fail(s),
        },
        SignupStage::AwaitCommit => match e {
            RegistrationEvent::Done => {
                let u = s.user;
                finish(s, SignupOutcome::Created(u))
            },
            _ => fail(s),
        },
    }
}

// ----- the start -----

/// `s` is a registration just started from `input`: its local API key made
/// from `key_source`, with the key's prefix and the names of the personal
/// team and workspace derived, nothing returned yet, waiting for the
/// transaction to begin.
pub open spec fn started(s: RegistrationState, input: SignupInput, key_source: u128) -> bool {
    &&& s.input == input
    &&& s.api_key@ == local_api_key_text(key_source)
    &&& s.key_prefix@ == s.api_key@.subrange(0, 16)
    &&& s.team_name@ == personal_team_name(opt_view(input.nickname), input.email@)
    &&& s.workspace_name@ == personal_workspace_name(opt_view(input.nickname))
    &&& s.stage == SignupStage::AwaitBegin
    &&& s.user == 0
    &&& s.key_hash@ == Seq::<char>::empty()
    &&& s.key_id == 0
    &&& s.link == 0
    &&& s.workspace == 0
    &&& s.team == 0
}

/// Starts a registration whose local API key is made from identifier
/// `key_source`: the transaction is begun first.
pub fn registration_begin(input: SignupInput, key_source: u128) -> (r: (RegistrationState, RegistrationAction))
    ensures
        started(r.0, input, key_source),
        r.1@ == RegistrationActionView::Begin,
{
    let (api_key, key_prefix) = local_api_key_of(key_source);
    let nickname = match &input.nickname {
        Some(n) => Some(n.as_str()),
        None => None,
    };
    let team_name = make_personal_team_name(nickname, input.email.as_str());
    let workspace_name = make_personal_workspace_name(nickname);
    let s = RegistrationState {
        input,
        api_key,
        key_prefix,
        team_name,
        workspace_name,
        stage: SignupStage::AwaitBegin,
        user: 0,
        key_hash: String::new(),
        key_id: 0,
        link: 0,
        workspace: 0,
        team: 0,
    };
    (s, RegistrationAction::Begin)
}

/// Starts a registration with a new local API key, made from a fresh
/// version 4 identifier.
pub fn registration_start(input: SignupInput) -> (r: (RegistrationState, RegistrationAction))
    ensures
        exists|u: u128| is_v4(u) && #[trigger] started(r.0, input, u),
        r.1@ == RegistrationActionView::Begin,
{
    let u = new_random_uuid();
    let r = registration_begin(input, u);
    assert(is_v4(u) && started(r.0, input, u));
    r
}

// ----- runs -----

/// Where the events `es` lead from state `s` with pending action `a`.
pub open spec fn registration_run(
    s: RegistrationState,
    a: RegistrationActionView,
    es: Seq<RegistrationEvent>,
) -> (RegistrationState, RegistrationActionView)
    decreases es.len(),
{
    if es.len() == 0 {
        (s, a)
    } else {
        let n = registration_next(s, es[0]);
        registration_run(n.0, n.1, es.drop_first())
    }
}

proof fn lemma_finished_run(s: RegistrationState, a: RegistrationActionView, es: Seq<RegistrationEvent>)
    requires
        s.stage is Done,
        !(a is Commit),
    ensures
        registration_run(s, a, es).0.stage is Done,
        !(registration_run(s, a, es).1 is Commit),
    decreases es.len(),
{
    if es.len() > 0 {
        let n = registration_next(s, es[0]);
        lemma_finished_run(n.0, n.1, es.drop_first());
    }
}

/// The commit is requested only when every statement before it succeeded:
/// if events `es` lead a registration in progress to a request to commit,
/// no event was a failure and no step ended the registration, so every
/// insert and update it asked for was answered with its success.
pub proof fn law_commit_only_after_every_statement(
    s: RegistrationState,
    a: RegistrationActionView,
    es: Seq<RegistrationEvent>,
)
    requires
        !(s.stage is Done),
        registration_run(s, a, es).1 is Commit,
    ensures
        forall|i: int| 0 <= i < es.len() ==> !(#[trigger] es[i] is Failed),
        forall|i: int| 0 <= i <= es.len() ==> !(#[trigger] registration_run(s, a, es.take(i)).0.stage is Done),
    decreases es.len(),
{
    if es.len() == 0 {
        assert(es.take(0) =~= es);
    } else {
        let n = registration_next(s, es[0]);
        let rest = es.drop_first();
        if n.0.stage is Done {
            assert(!(n.1 is Commit));
            lemma_finished_run(n.0, n.1, rest);
            assert(false);
        }
        assert(!(es[0] is Failed));
        law_commit_only_after_every_statement(n.0, n.1, rest);
        assert forall|i: int| 0 <= i < es.len() implies !(#[trigger] es[i] is Failed) by {
            if i > 0 {
                assert(es[i] == rest[i - 1]);
            }
        }
        assert forall|i: int| 0 <= i <= es.len() implies !(#[trigger] registration_run(s, a, es.take(i)).0.stage is Done) by {
            if i == 0 {
                assert(es.take(0).len() == 0);
            } else {
                let t = es.take(i);
                assert(t[0] == es[0]);
                assert(t.drop_first() =~= rest.take(i - 1));
                assert(registration_run(s, a, t) == registration_run(n.0, n.1, rest.take(i - 1)));
            }
        }
    }
}

/// The referral is recorded the right way round: the identifier the users
/// insert returns becomes the registration's user, and when the referral
/// code names a current link, the referral row binds that user as the
/// invitee (`$1`), the link's owner as the inviter (`$2`) and the link
/// (`$3`), in a statement of `user_referrals` that names those columns in
/// that order.
pub proof fn law_referral_names_the_new_user_as_invitee(
    s: RegistrationState,
    u: u128,
    inviter: u128,
    link: u128,
)
    ensures
        s.stage == SignupStage::AwaitUser ==> registration_next(s, RegistrationEvent::Uuid(u)).0.user == u,
        s.stage == SignupStage::AwaitReferrer ==> (registration_next(s, RegistrationEvent::Referrer(Some((inviter, link)))).1
            matches RegistrationActionView::Execute(st) && st.1.len() == 3
            && st.1[0] == SqlValueView::Uuid(s.user)
            && st.1[1] == SqlValueView::Uuid(inviter)
            && st.1[2] == SqlValueView::Uuid(link)
            && st.0[0] == SqlPieceView::Text(
                "INSERT INTO user_referrals (invitee_uuid, inviter_uuid, link_uuid, status) VALUES ("@,
            )),
{
    reveal_with_fuel(crate::sql::listed_params, 4);
}

/// `Execute` of statement `st`.
pub open spec fn runs(a: RegistrationActionView, st: Stmt) -> bool {
    a == RegistrationActionView::Execute(st)
}

/// Every row a registration inserts carries, column by column, the value
/// its column list names: the users row the requested id; the details the
/// new user, e-mail, password hash and nickname (or NULL), status active;
/// the wallet, preferences and local API settings the new user with their
/// fixed defaults (0 CNY; system theme, zh-CN, notifications on; disabled
/// on port 8080); the key the user, prefix, hash and key with a daily limit
/// of 1000; each permission row the key's id and that permission's code,
/// switch and limits; the points the user with zeros; the workspace quota
/// the new workspace and the four limits; the team the workspace, the
/// team's name, the personal-team description and the owner; the
/// membership the team, workspace and user as an active owner; and the
/// current selection the team, then the workspace, for the user.
#[verifier::rlimit(40)]
pub proof fn law_signup_rows_carry_their_columns(s: RegistrationState, u: u128, h: String, id: i32, w: u128, t: u128)
    ensures
        s.stage == SignupStage::AwaitBegin ==> registration_next(s, RegistrationEvent::Done).1
            == RegistrationActionView::FetchUuid((
                listed_pieces("INSERT INTO users (id) VALUES ("@, 1, ") RETURNING uuid"@),
                seq![SqlValueView::Text(s.input.user_id@)],
            )),
        s.stage == SignupStage::AwaitUser ==> runs(registration_next(s, RegistrationEvent::Uuid(u)).1, (
            listed_pieces("INSERT INTO user_infos (user_uuid, email, password, nickname, status) VALUES ("@, 4, ", 'active')"@),
            seq![
                SqlValueView::Uuid(u),
                SqlValueView::Text(s.input.email@),
                SqlValueView::Text(s.input.password_hash@),
                match s.input.nickname {
                    Some(n) => SqlValueView::Text(n@),
                    None => SqlValueView::Null,
                },
            ],
        )),
        s.stage == SignupStage::AwaitInfo ==> runs(registration_next(s, RegistrationEvent::Done).1, (
            listed_pieces("INSERT INTO user_wallets (user_uuid, balance, currency, frozen_amount) VALUES ("@, 1, ", 0, 'CNY', 0)"@),
            seq![SqlValueView::Uuid(s.user)],
        )),
        s.stage == SignupStage::AwaitWallet ==> runs(registration_next(s, RegistrationEvent::Done).1, (
            listed_pieces("INSERT INTO user_preferences (user_uuid, theme, language, notifications_enabled) VALUES ("@, 1,
                ", 'system', 'zh-CN', TRUE)"@),
            seq![SqlValueView::Uuid(s.user)],
        )),
        s.stage == SignupStage::AwaitPreferences ==> runs(registration_next(s, RegistrationEvent::Done).1, (
            listed_pieces("INSERT INTO user_local_api_settings (user_uuid, enabled, port, remote_access, cors_origins) VALUES ("@, 1,
                ", FALSE, 8080, FALSE, '[]'::jsonb)"@),
            seq![SqlValueView::Uuid(s.user)],
        )),
        s.stage == SignupStage::AwaitKeyHash ==> registration_next(s, RegistrationEvent::Hashed(h)).1
            == RegistrationActionView::FetchId((
                listed_pieces("INSERT INTO user_local_api_keys (user_uuid, key_prefix, key_hash, api_key, daily_limit) VALUES ("@, 4,
                    ", 1000) RETURNING id"@),
                seq![
                    SqlValueView::Uuid(s.user),
                    SqlValueView::Text(s.key_prefix@),
                    SqlValueView::Text(h@),
                    SqlValueView::Text(s.api_key@),
                ],
            )),
        (s.stage == SignupStage::AwaitKey && s.input.permissions@.len() > 0) ==> runs(registration_next(s, RegistrationEvent::Id(id)).1, (
            listed_pieces("INSERT INTO user_local_api_key_permissions (api_key_id, permission_code, is_enabled, rate_limit_per_minute, rate_limit_per_hour) VALUES ("@,
                5, ") ON CONFLICT (api_key_id, permission_code) DO NOTHING"@),
            seq![
                SqlValueView::Int32(id),
                SqlValueView::Text(s.input.permissions@[0].code@),
                SqlValueView::Bool(s.input.permissions@[0].enabled),
                SqlValueView::Int32(s.input.permissions@[0].per_minute),
                SqlValueView::Int32(s.input.permissions@[0].per_hour),
            ],
        )),
        (s.stage == SignupStage::AwaitKey && s.input.permissions@.len() == 0) ==> runs(registration_next(s, RegistrationEvent::Id(id)).1, (
            listed_pieces("INSERT INTO user_referral_points (user_uuid, total_points, available_points, used_points, pending_points) VALUES ("@,
                1, ", 0, 0, 0, 0)"@),
            seq![SqlValueView::Uuid(s.user)],
        )),
        s.stage == SignupStage::AwaitWorkspace ==> runs(registration_next(s, RegistrationEvent::Uuid(w)).1, (
            listed_pieces("INSERT INTO workspace_quotas (workspace_uuid, max_environments, max_team_members, max_proxies, max_rpa_tasks) VALUES ("@,
                5, ")"@),
            seq![
                SqlValueView::Uuid(w),
                SqlValueView::Int32(s.input.quota.max_environments),
                SqlValueView::Int32(s.input.quota.max_team_members),
                SqlValueView::Int32(s.input.quota.max_proxies),
                SqlValueView::Int32(s.input.quota.max_rpa_tasks),
            ],
        )),
        s.stage == SignupStage::AwaitQuota ==> registration_next(s, RegistrationEvent::Done).1
            == RegistrationActionView::FetchUuid((
                listed_pieces("INSERT INTO teams (workspace_uuid, name, description, owner_uuid) VALUES ("@, 4, ") RETURNING uuid"@),
                seq![
                    SqlValueView::Uuid(s.workspace),
                    SqlValueView::Text(s.team_name@),
                    SqlValueView::Text("个人团队"@),
                    SqlValueView::Uuid(s.user),
                ],
            )),
        s.stage == SignupStage::AwaitTeam ==> runs(registration_next(s, RegistrationEvent::Uuid(t)).1, (
            listed_pieces("INSERT INTO team_members (team_uuid, workspace_uuid, user_uuid, role, status) VALUES ("@, 3,
                ", 'owner', 'active')"@),
            seq![SqlValueView::Uuid(t), SqlValueView::Uuid(s.workspace), SqlValueView::Uuid(s.user)],
        )),
        s.stage == SignupStage::AwaitMember ==> runs(registration_next(s, RegistrationEvent::Done).1, (
            seq![
                SqlPieceView::Text("UPDATE user_infos SET current_team_uuid = "@),
                SqlPieceView::Param(1),
                SqlPieceView::Text(", current_workspace_uuid = "@),
                SqlPieceView::Param(2),
                SqlPieceView::Text(" WHERE user_uuid = "@),
                SqlPieceView::Param(3),
            ],
            seq![SqlValueView::Uuid(s.team), SqlValueView::Uuid(s.workspace), SqlValueView::Uuid(s.user)],
        )),
        s.stage == SignupStage::AwaitLinkCount ==> registration_next(s, RegistrationEvent::Done).1
            == RegistrationActionView::FetchUuid((
                listed_pieces("INSERT INTO workspaces (name, owner_uuid, workspace_type) VALUES ("@, 2, ", 'personal') RETURNING uuid"@),
                seq![SqlValueView::Text(s.workspace_name@), SqlValueView::Uuid(s.user)],
            )),
{
    assert(info_stmt(u, s.input).1 =~= seq![
        SqlValueView::Uuid(u),
        SqlValueView::Text(s.input.email@),
        SqlValueView::Text(s.input.password_hash@),
        match s.input.nickname {
            Some(n) => SqlValueView::Text(n@),
            None => SqlValueView::Null,
        },
    ]);
    assert(current_stmt(s.team, s.workspace, s.user).0 =~= seq![
        SqlPieceView::Text(SET_CURRENT_TEAM@),
        SqlPieceView::Param(1),
        SqlPieceView::Text(SET_CURRENT_WORKSPACE@),
        SqlPieceView::Param(2),
        SqlPieceView::Text(FOR_USER@),
        SqlPieceView::Param(3),
    ]);
}

/// The referral links of a registration: link `i` is inserted for tier `i`
/// with code `invite_code(user, i)` and the tier's rates, and only the first
/// link is current and unlocked.
pub proof fn law_signup_links(s: RegistrationState, i: usize)
    ensures
        (s.stage == SignupStage::AwaitPoints && links_of(s) > 0) ==> runs(registration_next(s, RegistrationEvent::Done).1, (
            listed_pieces("INSERT INTO referral_links (user_uuid, code, tier_uuid, is_current, unlocked, reward_rate, discount_rate) VALUES ("@,
                7, ")"@),
            seq![
                SqlValueView::Uuid(s.user),
                SqlValueView::Text(invite_code(s.user, 0)),
                SqlValueView::Uuid(s.input.tiers@[0].uuid),
                SqlValueView::Bool(true),
                SqlValueView::Bool(true),
                SqlValueView::Decimal(s.input.tiers@[0].reward_rate),
                SqlValueView::Decimal(s.input.tiers@[0].discount_rate),
            ],
        )),
        (s.stage == SignupStage::AwaitLink(i) && i + 1 < links_of(s)) ==> runs(registration_next(s, RegistrationEvent::Done).1, (
            listed_pieces("INSERT INTO referral_links (user_uuid, code, tier_uuid, is_current, unlocked, reward_rate, discount_rate) VALUES ("@,
                7, ")"@),
            seq![
                SqlValueView::Uuid(s.user),
                SqlValueView::Text(invite_code(s.user, (i + 1) as nat)),
                SqlValueView::Uuid(s.input.tiers@[i + 1].uuid),
                SqlValueView::Bool(false),
                SqlValueView::Bool(false),
                SqlValueView::Decimal(s.input.tiers@[i + 1].reward_rate),
                SqlValueView::Decimal(s.input.tiers@[i + 1].discount_rate),
            ],
        )),
        links_of(s) <= 4,
{
}

} // verus!
