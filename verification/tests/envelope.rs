use simprint_server::envelope::{
    decrypt_start, decrypt_step, seal_start, seal_step, DecryptAction, DecryptEvent, DecryptOutcome, DecryptState,
    SealAction, SealOutcome, SealState, MAX_ENCRYPTED_BODY,
};
use simprint_server::ingress::ApiSecretField;
use simprint_server::local_api::HeaderField;

const SECRET: &str = "app-secret";

fn json_type() -> HeaderField {
    HeaderField::Text("application/json; charset=utf-8".to_string())
}

/// Runs the decryption over `events` and returns the actions it asked for.
fn run_decrypt(events: Vec<DecryptEvent>) -> Vec<DecryptAction> {
    let (mut s, a) = decrypt_start(&json_type());
    let mut actions = vec![a];
    for e in events {
        let (s2, a2) = decrypt_step(s, &e, SECRET);
        s = s2;
        actions.push(a2);
    }
    actions
}

fn accepted() -> Vec<DecryptEvent> {
    vec![
        DecryptEvent::Succeeded,
        DecryptEvent::Envelope(true),
        DecryptEvent::Succeeded,
        DecryptEvent::Succeeded,
        DecryptEvent::Succeeded,
        DecryptEvent::Plain(ApiSecretField::Text(SECRET.to_string())),
        DecryptEvent::Succeeded,
    ]
}

#[test]
fn non_json_bodies_pass_unchanged() {
    let r = decrypt_start(&HeaderField::Text("text/plain".to_string()));
    assert_eq!(r, (DecryptState::Done(DecryptOutcome::Unchanged), DecryptAction::Respond(DecryptOutcome::Unchanged)));
    let r = decrypt_start(&HeaderField::Absent);
    assert_eq!(r.1, DecryptAction::Respond(DecryptOutcome::Unchanged));
}

#[test]
fn accepted_body_is_forwarded_decrypted() {
    let actions = run_decrypt(accepted());
    assert_eq!(
        actions,
        vec![
            DecryptAction::ReadBody(MAX_ENCRYPTED_BODY),
            DecryptAction::ParseEnvelope,
            DecryptAction::DecryptKey,
            DecryptAction::LoadKey,
            DecryptAction::DecryptData,
            DecryptAction::ParsePlain,
            DecryptAction::Rebuild,
            DecryptAction::Respond(DecryptOutcome::Decrypted),
        ]
    );
    assert_eq!(MAX_ENCRYPTED_BODY, 10 * 1024 * 1024);
}

#[test]
fn unencrypted_envelope_is_a_bad_request() {
    let actions = run_decrypt(vec![DecryptEvent::Succeeded, DecryptEvent::Envelope(false)]);
    assert_eq!(actions.last(), Some(&DecryptAction::Respond(DecryptOutcome::BadRequest)));
}

#[test]
fn undecryptable_key_is_answered_with_its_code() {
    let actions = run_decrypt(vec![DecryptEvent::Succeeded, DecryptEvent::Envelope(true), DecryptEvent::Failed]);
    assert_eq!(actions.last(), Some(&DecryptAction::Respond(DecryptOutcome::KeyRejected)));
}

#[test]
fn wrong_or_missing_secret_is_refused() {
    let mut events = accepted();
    events[5] = DecryptEvent::Plain(ApiSecretField::Text("other".to_string()));
    assert_eq!(run_decrypt(events[..6].to_vec()).last(), Some(&DecryptAction::Respond(DecryptOutcome::Unauthorized)));
    events[5] = DecryptEvent::Plain(ApiSecretField::Missing);
    assert_eq!(run_decrypt(events[..6].to_vec()).last(), Some(&DecryptAction::Respond(DecryptOutcome::BadRequest)));
    events[5] = DecryptEvent::Plain(ApiSecretField::Other);
    assert_eq!(run_decrypt(events[..6].to_vec()).last(), Some(&DecryptAction::Respond(DecryptOutcome::Unauthorized)));
    events[5] = DecryptEvent::Failed;
    assert_eq!(run_decrypt(events[..6].to_vec()).last(), Some(&DecryptAction::Respond(DecryptOutcome::BadRequest)));
}

#[test]
fn failures_after_the_key_are_bad_requests() {
    for at in [0usize, 3, 4, 6] {
        let mut events = accepted();
        events[at] = DecryptEvent::Failed;
        let actions = run_decrypt(events[..=at].to_vec());
        assert_eq!(actions.last(), Some(&DecryptAction::Respond(DecryptOutcome::BadRequest)), "failure at {}", at);
    }
}

#[test]
fn finished_decryption_keeps_its_outcome() {
    let s = DecryptState::Done(DecryptOutcome::Unauthorized);
    assert_eq!(decrypt_step(s, &DecryptEvent::Succeeded, SECRET), (s, DecryptAction::Respond(DecryptOutcome::Unauthorized)));
}

fn run_seal(user: Option<u128>, oks: &[bool]) -> Vec<SealAction> {
    let (mut s, a) = seal_start(user);
    let mut actions = vec![a];
    for &ok in oks {
        let (s2, a2) = seal_step(s, ok);
        s = s2;
        actions.push(a2);
    }
    actions
}

#[test]
fn responses_without_a_user_leave_unchanged() {
    assert_eq!(seal_start(None), (SealState::Done(SealOutcome::Unchanged), SealAction::Respond(SealOutcome::Unchanged)));
    assert_eq!(run_seal(None, &[true, true]).last(), Some(&SealAction::Respond(SealOutcome::Unchanged)));
}

#[test]
fn sealing_follows_every_step() {
    assert_eq!(
        run_seal(Some(9), &[true, true, true, true, true]),
        vec![
            SealAction::LookupPublicKey(9),
            SealAction::ReadBody,
            SealAction::ParseJson,
            SealAction::EncryptContent,
            SealAction::EncryptKey,
            SealAction::Respond(SealOutcome::Sealed),
        ]
    );
}

#[test]
fn sealing_failures_fall_back() {
    assert_eq!(run_seal(Some(9), &[false]).last(), Some(&SealAction::Respond(SealOutcome::Unchanged)));
    assert_eq!(run_seal(Some(9), &[true, false]).last(), Some(&SealAction::Respond(SealOutcome::InternalError)));
    assert_eq!(run_seal(Some(9), &[true, true, false]).last(), Some(&SealAction::Respond(SealOutcome::Plain)));
    assert_eq!(run_seal(Some(9), &[true, true, true, false]).last(), Some(&SealAction::Respond(SealOutcome::Plain)));
    assert_eq!(run_seal(Some(9), &[true, true, true, true, false]).last(), Some(&SealAction::Respond(SealOutcome::Plain)));
}
