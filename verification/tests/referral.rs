use simprint_server::referral::unlock_statements;
use simprint_server::sql::SqlValue;

#[test]
fn links_are_locked_then_listed_tiers_unlocked() {
    let stmts = unlock_statements(11, &vec![21, 22]);
    assert_eq!(stmts.len(), 2);
    assert_eq!(stmts[0].render(), "UPDATE referral_links SET unlocked = FALSE WHERE user_uuid = $1");
    assert_eq!(stmts[0].binds, vec![SqlValue::Uuid(11)]);
    assert_eq!(
        stmts[1].render(),
        "UPDATE referral_links SET unlocked = TRUE WHERE user_uuid = $1 AND tier_uuid = ANY($2::uuid[])"
    );
    assert_eq!(stmts[1].binds, vec![SqlValue::Uuid(11), SqlValue::UuidList(vec![21, 22])]);
}

#[test]
fn no_unlocked_tier_only_locks() {
    let stmts = unlock_statements(11, &vec![]);
    assert_eq!(stmts.len(), 1);
    assert_eq!(stmts[0].render(), "UPDATE referral_links SET unlocked = FALSE WHERE user_uuid = $1");
}
