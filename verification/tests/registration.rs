use simprint_server::registration::{
    generate_local_api_key, make_base_invite_code, make_personal_team_name, make_personal_workspace_name,
    referral_link_plan,
};

const SAMPLE: u128 = 0x550e8400_e29b_41d4_a716_446655440000;

#[test]
fn base_invite_code_uses_upper_case_identifier_prefix() {
    assert_eq!(make_base_invite_code(SAMPLE), "INV550E8400");
    assert_eq!(make_base_invite_code(0xabcdef01_0000_0000_0000_000000000000), "INVABCDEF01");
}

#[test]
fn referral_links_for_every_tier_up_to_four() {
    let plan = referral_link_plan(SAMPLE, 5);
    assert_eq!(plan.len(), 4);
    let codes: Vec<&str> = plan.iter().map(|l| l.code.as_str()).collect();
    assert_eq!(codes, vec!["INV550E8400", "INV550E8400-2", "INV550E8400-3", "INV550E8400-4"]);
    assert!(plan[0].is_current && plan[0].unlocked);
    assert!(plan[1..].iter().all(|l| !l.is_current && !l.unlocked));
    assert_eq!(plan[2].tier_index, 2);
    assert_eq!(referral_link_plan(SAMPLE, 2).len(), 2);
    assert!(referral_link_plan(SAMPLE, 0).is_empty());
}

#[test]
fn personal_names() {
    assert_eq!(make_personal_team_name(Some("Ann"), "ann@example.com"), "Ann 的团队");
    assert_eq!(make_personal_team_name(None, "ann@example.com"), "ann 的团队");
    assert_eq!(make_personal_team_name(None, "no-at-sign"), "no-at-sign 的团队");
    assert_eq!(make_personal_workspace_name(Some("Ann")), "Ann 的工作空间");
    assert_eq!(make_personal_workspace_name(None), "用户 的工作空间");
}

#[test]
fn local_api_keys() {
    let (key, prefix) = generate_local_api_key();
    assert!(key.starts_with("sk_local_"));
    assert_eq!(key.len(), 9 + 32);
    assert!(key[9..].chars().all(|c| c.is_ascii_hexdigit() && !c.is_ascii_uppercase()));
    assert_eq!(prefix, &key[..16]);
    // version nibble of a v4 identifier, and its variant digit
    assert_eq!(&key[9 + 12..9 + 13], "4");
    assert!(matches!(&key[9 + 16..9 + 17], "8" | "9" | "a" | "b"));
    let (other, _) = generate_local_api_key();
    assert_ne!(key, other);
}
