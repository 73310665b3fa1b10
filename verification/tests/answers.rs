use simprint_server::authorization::AuthFailure;
use simprint_server::envelope::{DecryptOutcome, SealOutcome};
use simprint_server::invitations::{accept_invitation_writes, invitation_lookup_query, reject_invitation_writes, InvitationRecord};
use simprint_server::listings::{
    default_workspace_write, shown_current_workspace, team_items, workspace_items, TeamSummary, WorkspaceSummary,
};
use simprint_server::permissions::{grantee_fields, owner_or_admin_query, UserContact};
use simprint_server::referral::{deduct_points_query, switch_link_statements};
use simprint_server::sql::SqlValue;

fn invitation(status: &str, expires_at: i64) -> Option<InvitationRecord> {
    Some(InvitationRecord { team_uuid: 5, role: "admin".to_string(), invited_by: 6, status: status.to_string(), expires_at })
}

#[test]
fn accepting_upserts_the_membership_and_marks_the_invitation() {
    let (team, writes) = accept_invitation_writes(&invitation("pending", 100), 9, 2, 3, 50).unwrap();
    assert_eq!(team, 5);
    assert_eq!(writes.len(), 2);
    assert_eq!(
        writes[0].render(),
        "INSERT INTO team_members (team_uuid, workspace_uuid, user_uuid, role, invited_by, status) VALUES ($1, $2, $3, $4, $5, 'active') ON CONFLICT (team_uuid, user_uuid, workspace_uuid) DO UPDATE SET role = EXCLUDED.role, invited_by = EXCLUDED.invited_by, status = 'active', deleted_at = NULL, updated_at = NOW()"
    );
    assert_eq!(
        writes[0].binds,
        vec![SqlValue::Uuid(5), SqlValue::Uuid(2), SqlValue::Uuid(3), SqlValue::Text("admin".to_string()), SqlValue::Uuid(6)]
    );
    assert_eq!(writes[1].render(), "UPDATE team_invitations SET status = 'accepted', accepted_at = NOW() WHERE uuid = $1");
    assert_eq!(writes[1].binds, vec![SqlValue::Uuid(9)]);
}

#[test]
fn unanswerable_invitations_are_not_found() {
    assert!(accept_invitation_writes(&None, 9, 2, 3, 50).is_none());
    assert!(accept_invitation_writes(&invitation("accepted", 100), 9, 2, 3, 50).is_none());
    assert!(accept_invitation_writes(&invitation("pending", 49), 9, 2, 3, 50).is_none());
    // expired invitations can still be rejected
    let q = reject_invitation_writes(&invitation("pending", 49), 9).unwrap();
    assert_eq!(q.render(), "UPDATE team_invitations SET status = 'rejected', updated_at = NOW() WHERE uuid = $1");
    assert!(reject_invitation_writes(&invitation("rejected", 100), 9).is_none());
    assert!(reject_invitation_writes(&None, 9).is_none());
    let q = invitation_lookup_query(9);
    assert!(q.render().ends_with("FROM team_invitations WHERE uuid = $1 AND deleted_at IS NULL FOR UPDATE"));
}

#[test]
fn owner_or_admin_probe() {
    let q = owner_or_admin_query(1, 2, 3);
    assert_eq!(
        q.render(),
        "SELECT EXISTS (SELECT 1 FROM team_members tm INNER JOIN groups g ON tm.team_uuid = g.team_uuid AND tm.workspace_uuid = g.workspace_uuid WHERE g.uuid = $1 AND g.workspace_uuid = $2 AND tm.workspace_uuid = $2 AND tm.user_uuid = $3 AND tm.role IN ('owner', 'admin') AND tm.deleted_at IS NULL)"
    );
    assert_eq!(q.binds, vec![SqlValue::Uuid(1), SqlValue::Uuid(2), SqlValue::Uuid(3)]);
}

#[test]
fn refusal_statuses() {
    assert_eq!(AuthFailure::Unauthorized.status_code(), 401);
    assert_eq!(AuthFailure::Forbidden.status_code(), 403);
    assert_eq!(AuthFailure::TooManyRequests.status_code(), 429);
    assert_eq!(AuthFailure::InternalError.status_code(), 500);
    assert_eq!(DecryptOutcome::BadRequest.refusal_status(), Some(400));
    assert_eq!(DecryptOutcome::Unauthorized.refusal_status(), Some(401));
    assert_eq!(DecryptOutcome::KeyRejected.refusal_status(), Some(422));
    assert_eq!(DecryptOutcome::KeyRejected.failure_code(), Some("LASDE"));
    assert_eq!(DecryptOutcome::Decrypted.refusal_status(), None);
    assert_eq!(DecryptOutcome::Unchanged.failure_code(), None);
    assert_eq!(SealOutcome::InternalError.imposed_status(), Some(500));
    assert_eq!(SealOutcome::Plain.imposed_status(), None);
}

#[test]
fn team_listing_entries() {
    let teams = vec![
        TeamSummary { uuid: 1, name: "a".to_string(), description: None, owner_uuid: 9 },
        TeamSummary { uuid: 2, name: "b".to_string(), description: Some("d".to_string()), owner_uuid: 8 },
        TeamSummary { uuid: 3, name: "c".to_string(), description: None, owner_uuid: 8 },
    ];
    let items = team_items(&teams, &vec![None, Some("admin".to_string()), None], &vec![Some(4), None, Some(1)], Some(2), 9);
    assert_eq!(items[0].role, "owner");
    assert_eq!(items[1].role, "admin");
    assert_eq!(items[2].role, "member");
    assert_eq!(items[1].members_count, 0);
    assert_eq!(items[0].members_count, 4);
    assert_eq!(items.iter().map(|i| i.is_current).collect::<Vec<_>>(), vec![false, true, false]);
    assert_eq!(items[1].description.as_deref(), Some("d"));
}

#[test]
fn workspace_listing_records_a_default() {
    let ws = vec![
        WorkspaceSummary { uuid: 7, name: "p".to_string(), workspace_type: "personal".to_string() },
        WorkspaceSummary { uuid: 8, name: "t".to_string(), workspace_type: "team".to_string() },
    ];
    let (w, q) = default_workspace_write(4, None, &ws).unwrap();
    assert_eq!(w, 7);
    assert_eq!(q.render(), "UPDATE user_infos SET current_workspace_uuid = $1 WHERE user_uuid = $2");
    assert_eq!(q.binds, vec![SqlValue::Uuid(7), SqlValue::Uuid(4)]);
    assert!(default_workspace_write(4, Some(8), &ws).is_none());
    assert!(default_workspace_write(4, None, &vec![]).is_none());
    assert_eq!(shown_current_workspace(None, Some(7), true), Some(7));
    assert_eq!(shown_current_workspace(None, Some(7), false), None);
    let items = workspace_items(&ws, Some(7));
    assert!(items[0].is_current && !items[1].is_current);
    assert_eq!(items[1].workspace_type, "team");
}

#[test]
fn referral_link_switch_and_points() {
    let s = switch_link_statements(1, 2);
    assert_eq!(s[0].render(), "UPDATE referral_links SET is_current = false WHERE user_uuid = $1");
    assert_eq!(s[1].render(), "UPDATE referral_links SET is_current = true WHERE uuid = $1 AND user_uuid = $2");
    assert_eq!(s[1].binds, vec![SqlValue::Uuid(2), SqlValue::Uuid(1)]);
    let q = deduct_points_query(1, 30);
    assert_eq!(
        q.render(),
        "UPDATE user_referral_points SET available_points = available_points - $1, used_points = used_points + $1, updated_at = CURRENT_TIMESTAMP WHERE user_uuid = $2 AND available_points >= $1"
    );
    assert_eq!(q.binds, vec![SqlValue::Int32(30), SqlValue::Uuid(1)]);
}

#[test]
fn grantee_fields_of_listed_permissions() {
    let c = Some(UserContact { nickname: Some("ann".to_string()), email: "a@x".to_string() });
    assert_eq!(grantee_fields(&c), (Some("ann".to_string()), Some("a@x".to_string())));
    let c = Some(UserContact { nickname: None, email: "a@x".to_string() });
    assert_eq!(grantee_fields(&c), (None, Some("a@x".to_string())));
    assert_eq!(grantee_fields(&None), (None, None));
}
