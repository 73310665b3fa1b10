use simprint_server::purge::{batch_permanent_delete_statements, permanent_delete_statements};
use simprint_server::sql::SqlValue;

#[test]
fn permanent_delete_removes_dependents_before_the_environment() {
    let stmts = permanent_delete_statements(7);
    let texts: Vec<String> = stmts.iter().map(|q| q.render()).collect();
    assert_eq!(
        texts,
        vec![
            "DELETE FROM environment_tags WHERE environment_uuid = $1",
            "DELETE FROM environment_urls WHERE environment_uuid = $1",
            "DELETE FROM environment_cookies WHERE environment_uuid = $1",
            "DELETE FROM environment_configs WHERE environment_uuid = $1",
            "DELETE FROM environment_accounts WHERE environment_uuid = $1",
            "DELETE FROM environments WHERE uuid = $1",
        ]
    );
    for q in &stmts {
        assert_eq!(q.binds, vec![SqlValue::Uuid(7)]);
    }
}

#[test]
fn batch_permanent_delete_selects_any_of_the_list() {
    let envs = vec![3u128, 4, 5];
    let stmts = batch_permanent_delete_statements(&envs);
    assert_eq!(stmts.len(), 6);
    assert_eq!(stmts[0].render(), "DELETE FROM environment_tags WHERE environment_uuid = ANY($1)");
    assert_eq!(stmts[5].render(), "DELETE FROM environments WHERE uuid = ANY($1)");
    for q in &stmts {
        assert_eq!(q.binds, vec![SqlValue::UuidList(envs.clone())]);
    }
}
