//! Permanent deletion of environments from the recycle bin: the statements
//! that remove an environment's dependent rows and then the environment,
//! in an order that never leaves a dependent row without its environment.

use vstd::prelude::*;
use crate::queries::param_clause;
use crate::sql::{binds_view, pieces_view, well_numbered, SqlPieceView, SqlQuery, SqlValue, SqlValueView};

verus! {

pub const PURGE_TAGS: &'static str = "DELETE FROM environment_tags WHERE environment_uuid = ";
pub const PURGE_URLS: &'static str = "DELETE FROM environment_urls WHERE environment_uuid = ";
pub const PURGE_COOKIES: &'static str = "DELETE FROM environment_cookies WHERE environment_uuid = ";
pub const PURGE_CONFIGS: &'static str = "DELETE FROM environment_configs WHERE environment_uuid = ";
pub const PURGE_ACCOUNTS: &'static str = "DELETE FROM environment_accounts WHERE environment_uuid = ";
pub const PURGE_ENVIRONMENT: &'static str = "DELETE FROM environments WHERE uuid = ";
pub const ANY_OPEN: &'static str = "ANY(";
pub const ANY_CLOSE: &'static str = ")";

/// The deletions in the order they run: the five tables that refer to an
/// environment, then the environments table itself.
pub open spec fn purge_order() -> Seq<Seq<char>> {
    seq![PURGE_TAGS@, PURGE_URLS@, PURGE_COOKIES@, PURGE_CONFIGS@, PURGE_ACCOUNTS@, PURGE_ENVIRONMENT@]
}

/// `head $1` with the environment bound to `$1`.
pub open spec fn purge_one(head: Seq<char>, env: u128) -> (Seq<SqlPieceView>, Seq<SqlValueView>) {
    (param_clause(head, 1), seq![SqlValueView::Uuid(env)])
}

/// `head ANY($1)` with the list of environments bound to `$1`.
pub open spec fn purge_many(head: Seq<char>, envs: Seq<u128>) -> (Seq<SqlPieceView>, Seq<SqlValueView>) {
    (
        seq![SqlPieceView::Text(head)] + param_clause(ANY_OPEN@, 1) + seq![SqlPieceView::Text(ANY_CLOSE@)],
        seq![SqlValueView::UuidList(envs)],
    )
}

fn delete_one(head: &'static str, env: u128) -> (q: SqlQuery)
    ensures
        well_numbered(q),
        pieces_view(q) == purge_one(head@, env).0,
        binds_view(q) == purge_one(head@, env).1,
{
    let mut q = SqlQuery::new();
    q.push_param(head, SqlValue::Uuid(env));
    q
}

fn delete_many(head: &'static str, envs: &Vec<u128>) -> (q: SqlQuery)
    ensures
        well_numbered(q),
        pieces_view(q) == purge_many(head@, envs@).0,
        binds_view(q) == purge_many(head@, envs@).1,
{
    let mut q = SqlQuery::new();
    q.push_text(head);
    q.push_param(ANY_OPEN, SqlValue::UuidList(envs.clone()));
    q.push_text(ANY_CLOSE);
    q
}

/// The statements that delete environment `env` for good: one per entry of
/// `purge_order`, in that order, each selecting the rows of `env`. The
/// environment's own row goes last, after every row that refers to it.
pub fn permanent_delete_statements(env: u128) -> (r: Vec<SqlQuery>)
    ensures
        r@.len() == purge_order().len(),
        forall|i: int| #![trigger r@[i]] 0 <= i < r@.len() ==> well_numbered(r@[i])
            && pieces_view(r@[i]) == purge_one(purge_order()[i], env).0
            && binds_view(r@[i]) == purge_one(purge_order()[i], env).1,
{
    let mut r: Vec<SqlQuery> = Vec::new();
    r.push(delete_one(PURGE_TAGS, env));
    r.push(delete_one(PURGE_URLS, env));
    r.push(delete_one(PURGE_COOKIES, env));
    r.push(delete_one(PURGE_CONFIGS, env));
    r.push(delete_one(PURGE_ACCOUNTS, env));
    r.push(delete_one(PURGE_ENVIRONMENT, env));
    r
}

/// The statements that delete the environments `envs` for good, in the
/// order of `purge_order`, each selecting the rows of any of `envs`. The
/// count of environments deleted is what the last statement reports.
pub fn batch_permanent_delete_statements(envs: &Vec<u128>) -> (r: Vec<SqlQuery>)
    ensures
        r@.len() == purge_order().len(),
        forall|i: int| #![trigger r@[i]] 0 <= i < r@.len() ==> well_numbered(r@[i])
            && pieces_view(r@[i]) == purge_many(purge_order()[i], envs@).0
            && binds_view(r@[i]) == purge_many(purge_order()[i], envs@).1,
{
    let mut r: Vec<SqlQuery> = Vec::new();
    r.push(delete_many(PURGE_TAGS, envs));
    r.push(delete_many(PURGE_URLS, envs));
    r.push(delete_many(PURGE_COOKIES, envs));
    r.push(delete_many(PURGE_CONFIGS, envs));
    r.push(delete_many(PURGE_ACCOUNTS, envs));
    r.push(delete_many(PURGE_ENVIRONMENT, envs));
    r
}

/// An environment is deleted after its dependents: the first five
/// statements delete its tags, URLs, cookies, configuration and accounts by
/// `environment_uuid`, the last deletes the environment itself by `uuid`.
pub proof fn law_dependents_before_the_environment()
    ensures
        purge_order() == seq![
            "DELETE FROM environment_tags WHERE environment_uuid = "@,
            "DELETE FROM environment_urls WHERE environment_uuid = "@,
            "DELETE FROM environment_cookies WHERE environment_uuid = "@,
            "DELETE FROM environment_configs WHERE environment_uuid = "@,
            "DELETE FROM environment_accounts WHERE environment_uuid = "@,
            "DELETE FROM environments WHERE uuid = "@,
        ],
{
}
} // verus!
