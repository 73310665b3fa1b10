use simprint_server::registration::local_api_key_of;
use simprint_server::signup::{
    registration_begin, registration_start, registration_step, PermissionDefault, QuotaValues, RegistrationAction,
    RegistrationEvent, RegistrationState, SignupInput, SignupOutcome, SignupStage, TierRates,
};
use simprint_server::sql::{DecimalValue, SqlQuery, SqlValue};

const USER: u128 = 0x550e8400_e29b_41d4_a716_446655440000;

fn input(referral: Option<&str>, tiers: usize) -> SignupInput {
    let rate = DecimalValue { mantissa: 5, scale: 2 };
    SignupInput {
        user_id: "u-1".to_string(),
        email: "ann@example.com".to_string(),
        password_hash: "h".to_string(),
        nickname: None,
        referral_code: referral.map(|s| s.to_string()),
        quota: QuotaValues { max_environments: 5, max_team_members: 3, max_proxies: 10, max_rpa_tasks: 2 },
        tiers: (0..tiers).map(|i| TierRates { uuid: 100 + i as u128, reward_rate: rate, discount_rate: rate }).collect(),
        permissions: vec![
            PermissionDefault { code: "env.read".to_string(), enabled: true, per_minute: 60, per_hour: 600 },
            PermissionDefault { code: "env.write".to_string(), enabled: false, per_minute: 10, per_hour: 100 },
        ],
    }
}

fn stmt(a: &RegistrationAction) -> Option<&SqlQuery> {
    match a {
        RegistrationAction::Execute(q)
        | RegistrationAction::FetchUuid(q)
        | RegistrationAction::FetchId(q)
        | RegistrationAction::FetchReferrer(q) => Some(q),
        _ => None,
    }
}

/// Answers every action with its success; the referrer lookup with `referrer`.
fn drive(mut s: RegistrationState, mut a: RegistrationAction, referrer: Option<(u128, u128)>) -> (RegistrationState, Vec<RegistrationAction>) {
    let mut actions = vec![a.clone()];
    for _ in 0..64 {
        let e = match &a {
            RegistrationAction::FetchUuid(q) => {
                let text = q.render();
                if text.starts_with("INSERT INTO users") {
                    RegistrationEvent::Uuid(USER)
                } else if text.starts_with("INSERT INTO workspaces") {
                    RegistrationEvent::Uuid(200)
                } else {
                    RegistrationEvent::Uuid(300)
                }
            }
            RegistrationAction::FetchId(_) => RegistrationEvent::Id(77),
            RegistrationAction::FetchReferrer(_) => RegistrationEvent::Referrer(referrer),
            RegistrationAction::HashKey => RegistrationEvent::Hashed(format!("hash:{}", s.api_key)),
            RegistrationAction::Finish(_) | RegistrationAction::Rollback => break,
            _ => RegistrationEvent::Done,
        };
        let (s2, a2) = registration_step(s, e);
        s = s2;
        a = a2;
        actions.push(a.clone());
    }
    (s, actions)
}

#[test]
fn registration_creates_every_record_and_commits() {
    let (s, a) = registration_begin(input(None, 5), 0xab);
    assert_eq!(a, RegistrationAction::Begin);
    assert_eq!(s.team_name, "ann 的团队");
    assert_eq!(s.workspace_name, "用户 的工作空间");
    let (s, actions) = drive(s, a, None);
    assert_eq!(s.stage, SignupStage::Done(SignupOutcome::Created(USER)));
    let texts: Vec<String> = actions.iter().filter_map(stmt).map(|q| q.render()).collect();
    assert_eq!(texts[0], "INSERT INTO users (id) VALUES ($1) RETURNING uuid");
    assert_eq!(texts[1], "INSERT INTO user_infos (user_uuid, email, password, nickname, status) VALUES ($1, $2, $3, $4, 'active')");
    assert_eq!(texts[2], "INSERT INTO user_wallets (user_uuid, balance, currency, frozen_amount) VALUES ($1, 0, 'CNY', 0)");
    assert_eq!(texts[3], "INSERT INTO user_preferences (user_uuid, theme, language, notifications_enabled) VALUES ($1, 'system', 'zh-CN', TRUE)");
    assert_eq!(texts[4], "INSERT INTO user_local_api_settings (user_uuid, enabled, port, remote_access, cors_origins) VALUES ($1, FALSE, 8080, FALSE, '[]'::jsonb)");
    assert_eq!(texts[5], "INSERT INTO user_local_api_keys (user_uuid, key_prefix, key_hash, api_key, daily_limit) VALUES ($1, $2, $3, $4, 1000) RETURNING id");
    assert!(texts[6].starts_with("INSERT INTO user_local_api_key_permissions"));
    assert!(texts[7].starts_with("INSERT INTO user_local_api_key_permissions"));
    assert!(texts[8].starts_with("INSERT INTO user_referral_points"));
    // four links for five tiers
    for t in &texts[9..13] {
        assert_eq!(t, "INSERT INTO referral_links (user_uuid, code, tier_uuid, is_current, unlocked, reward_rate, discount_rate) VALUES ($1, $2, $3, $4, $5, $6, $7)");
    }
    assert_eq!(texts[13], "INSERT INTO workspaces (name, owner_uuid, workspace_type) VALUES ($1, $2, 'personal') RETURNING uuid");
    assert!(texts[14].starts_with("INSERT INTO workspace_quotas"));
    assert_eq!(texts[15], "INSERT INTO teams (workspace_uuid, name, description, owner_uuid) VALUES ($1, $2, $3, $4) RETURNING uuid");
    assert_eq!(texts[16], "INSERT INTO team_members (team_uuid, workspace_uuid, user_uuid, role, status) VALUES ($1, $2, $3, 'owner', 'active')");
    assert_eq!(texts[17], "UPDATE user_infos SET current_team_uuid = $1, current_workspace_uuid = $2 WHERE user_uuid = $3");
    assert_eq!(texts.len(), 18);
    assert!(actions.contains(&RegistrationAction::Commit));
    assert_eq!(actions.last(), Some(&RegistrationAction::Finish(SignupOutcome::Created(USER))));
}

#[test]
fn registration_binds_the_documented_values() {
    let (s, a) = registration_begin(input(None, 2), 0xab);
    let (key, prefix) = local_api_key_of(0xab);
    assert_eq!(s.api_key, key);
    let (_, actions) = drive(s, a, None);
    let qs: Vec<&SqlQuery> = actions.iter().filter_map(stmt).collect();
    assert_eq!(qs[1].binds[3], SqlValue::Null);
    assert_eq!(
        qs[5].binds,
        vec![SqlValue::Uuid(USER), SqlValue::Text(prefix), SqlValue::Text(format!("hash:{}", key)), SqlValue::Text(key)]
    );
    assert_eq!(
        qs[6].binds,
        vec![SqlValue::Int32(77), SqlValue::Text("env.read".to_string()), SqlValue::Bool(true), SqlValue::Int32(60), SqlValue::Int32(600)]
    );
    assert_eq!(qs[9].binds[1], SqlValue::Text("INV550E8400".to_string()));
    assert_eq!(qs[9].binds[3], SqlValue::Bool(true));
    assert_eq!(qs[10].binds[1], SqlValue::Text("INV550E8400-2".to_string()));
    assert_eq!(qs[10].binds[3], SqlValue::Bool(false));
    assert_eq!(qs[11].binds, vec![SqlValue::Text("用户 的工作空间".to_string()), SqlValue::Uuid(USER)]);
    assert_eq!(qs[12].binds[1], SqlValue::Int32(5));
    assert_eq!(qs[13].binds[2], SqlValue::Text("个人团队".to_string()));
}

#[test]
fn referral_code_records_the_referral() {
    let (s, a) = registration_begin(input(Some("INVABCDEF01"), 1), 1);
    let (s, actions) = drive(s, a, Some((900, 901)));
    assert_eq!(s.stage, SignupStage::Done(SignupOutcome::Created(USER)));
    let texts: Vec<String> = actions.iter().filter_map(stmt).map(|q| q.render()).collect();
    assert!(texts.contains(&"SELECT user_uuid, uuid FROM referral_links WHERE code = $1 AND is_current = TRUE".to_string()));
    assert!(texts.contains(&"INSERT INTO user_referrals (invitee_uuid, inviter_uuid, link_uuid, status) VALUES ($1, $2, $3, 'registered')".to_string()));
    assert!(texts.contains(&"UPDATE referral_links SET registered_users = registered_users + 1 WHERE uuid = $1".to_string()));
    // an unknown code records nothing
    let (s, a) = registration_begin(input(Some("NOPE"), 1), 1);
    let (_, actions) = drive(s, a, None);
    let texts: Vec<String> = actions.iter().filter_map(stmt).map(|q| q.render()).collect();
    assert!(!texts.iter().any(|t| t.starts_with("INSERT INTO user_referrals")));
}

#[test]
fn a_failure_rolls_back_and_never_commits() {
    let (s, a) = registration_begin(input(None, 1), 1);
    let (s, a) = registration_step(s, RegistrationEvent::Done);
    assert!(matches!(a, RegistrationAction::FetchUuid(_)));
    let (s, a) = registration_step(s, RegistrationEvent::Failed);
    assert_eq!(a, RegistrationAction::Rollback);
    assert_eq!(s.stage, SignupStage::Done(SignupOutcome::Failed));
    let (_, a) = registration_step(s, RegistrationEvent::Done);
    assert_eq!(a, RegistrationAction::Finish(SignupOutcome::Failed));
}

#[test]
fn started_registrations_draw_a_v4_key() {
    let (s, a) = registration_start(input(None, 0));
    assert_eq!(a, RegistrationAction::Begin);
    assert!(s.api_key.starts_with("sk_local_"));
    assert_eq!(&s.api_key[21..22], "4");
    assert_eq!(s.key_prefix, s.api_key[..16]);
}

#[test]
fn local_api_key_of_is_the_simple_rendering() {
    let (key, prefix) = local_api_key_of(USER);
    assert_eq!(key, "sk_local_550e8400e29b41d4a716446655440000");
    assert_eq!(prefix, "sk_local_550e840");
}
