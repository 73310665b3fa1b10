//! Encrypted bodies. A JSON request body arrives as an envelope whose data
//! is encrypted with an AES key, itself encrypted with the server's RSA key;
//! a response to a signed-in user leaves sealed with the user's public key.
//!
//! Both are protocols: `decrypt_start` / `decrypt_step` and `seal_start` /
//! `seal_step` decide, the caller performs each requested operation (read,
//! parse, decrypt, encrypt) and hands its outcome back as the next event.

use vstd::prelude::*;
use crate::ingress::{
    check_api_secret, is_json_content_type, json_media_type, require_encrypted, ApiSecretField, BodyFailure,
};
use crate::local_api::HeaderField;
use crate::text::has_prefix;

verus! {

/// A JSON request body is read up to this many bytes (10 MiB).
pub const MAX_ENCRYPTED_BODY: usize = 10485760;

/// How the handling of a request body ends.
#[derive(Clone, Copy, Debug, PartialEq, Eq, Structural)]
pub enum DecryptOutcome {
    /// The body is not JSON: the request goes on as it came.
    Unchanged,
    /// The decrypted body, without its `api_secret` member, goes on in place
    /// of the envelope.
    Decrypted,
    /// 400.
    BadRequest,
    /// 401: the body does not carry the application secret.
    Unauthorized,
    /// 422, answered with the failure body coded `LASDE`: the AES key could
    /// not be decrypted.
    KeyRejected,
}

/// The code of the failure body answered when the AES key cannot be
/// decrypted.
pub const KEY_REJECTED_CODE: &'static str = "LASDE";

impl DecryptOutcome {
    /// The HTTP status the request is answered with, `None` when it goes on
    /// to the handler: 400, 401, or 422 for a rejected key.
    pub fn refusal_status(&self) -> (r: Option<u16>)
        ensures
            r == match *self {
                DecryptOutcome::Unchanged | DecryptOutcome::Decrypted => None::<u16>,
                DecryptOutcome::BadRequest => Some(400u16),
                DecryptOutcome::Unauthorized => Some(401u16),
                DecryptOutcome::KeyRejected => Some(422u16),
            },
    {
        match self {
            DecryptOutcome::Unchanged | DecryptOutcome::Decrypted => None,
            DecryptOutcome::BadRequest => Some(400),
            DecryptOutcome::Unauthorized => Some(401),
            DecryptOutcome::KeyRejected => Some(422),
        }
    }

    /// The code of the failure body, for a rejected key only.
    pub fn failure_code(&self) -> (r: Option<&'static str>)
        ensures
            match *self {
                DecryptOutcome::KeyRejected => r == Some(KEY_REJECTED_CODE),
                _ => r is None,
            },
    {
        match self {
            DecryptOutcome::KeyRejected => Some(KEY_REJECTED_CODE),
            _ => None,
        }
    }
}

/// Which outcome the decryption waits for.
#[derive(Clone, Copy, Debug, PartialEq, Eq, Structural)]
pub enum DecryptState {
    AwaitBody,
    AwaitEnvelope,
    AwaitKey,
    AwaitKeyText,
    AwaitData,
    AwaitPlain,
    AwaitRebuild,
    Done(DecryptOutcome),
}

/// What the caller does next.
#[derive(Clone, Copy, Debug, PartialEq, Eq, Structural)]
pub enum DecryptAction {
    /// Read the body, failing beyond this many bytes.
    ReadBody(usize),
    /// Parse the body as an envelope: `encrypted`, `data`, `key`.
    ParseEnvelope,
    /// Decrypt the envelope's `key` with the server's RSA key.
    DecryptKey,
    /// Read the decrypted key as UTF-8 text and make an AES key of it.
    LoadKey,
    /// Decrypt the envelope's `data` with the AES key.
    DecryptData,
    /// Parse the decrypted bytes as JSON and report its `api_secret`.
    ParsePlain,
    /// Remove `api_secret` and serialize the JSON again.
    Rebuild,
    /// Finish with this outcome.
    Respond(DecryptOutcome),
}

/// The outcome of the action last requested.
#[derive(Clone, Debug)]
pub enum DecryptEvent {
    /// The action succeeded (a read, a decryption, a rebuild).
    Succeeded,
    /// The action failed, or the bytes were not what it expected.
    Failed,
    /// The body is an envelope, with this `encrypted` flag.
    Envelope(bool),
    /// The decrypted bytes are JSON, with this `api_secret` member.
    Plain(ApiSecretField),
}

/// The verdict on the `api_secret` member: `None` when it is the secret.
pub open spec fn secret_verdict(f: ApiSecretField, secret: Seq<char>) -> Option<DecryptOutcome> {
    match f {
        ApiSecretField::Missing => Some(DecryptOutcome::BadRequest),
        ApiSecretField::Text(s) => if s@ == secret {
            None
        } else {
            Some(DecryptOutcome::Unauthorized)
        },
        ApiSecretField::Other => Some(DecryptOutcome::Unauthorized),
    }
}

/// Ends with outcome `o`.
pub open spec fn decrypt_done(o: DecryptOutcome) -> (DecryptState, DecryptAction) {
    (DecryptState::Done(o), DecryptAction::Respond(o))
}

/// The start: a JSON body (by its `Content-Type`) is read; any other body
/// passes unchanged.
pub open spec fn decrypt_first(content_type: HeaderField) -> (DecryptState, DecryptAction) {
    let json = match content_type.text() {
        Some(t) => has_prefix(t, json_media_type()),
        None => false,
    };
    if json {
        (DecryptState::AwaitBody, DecryptAction::ReadBody(MAX_ENCRYPTED_BODY))
    } else {
        decrypt_done(DecryptOutcome::Unchanged)
    }
}

/// One step of the decryption, against application secret `secret`. Every
/// event other than the success the state waits for is a failure of the
/// requested action.
pub open spec fn decrypt_next(s: DecryptState, e: DecryptEvent, secret: Seq<char>) -> (DecryptState, DecryptAction) {
    match s {
        DecryptState::Done(o) => decrypt_done(o),
        DecryptState::AwaitBody => match e {
            DecryptEvent::Succeeded => (DecryptState::AwaitEnvelope, DecryptAction::ParseEnvelope),
            _ => decrypt_done(DecryptOutcome::BadRequest),
        },
        DecryptState::AwaitEnvelope => match e {
            DecryptEvent::Envelope(true) => (DecryptState::AwaitKey, DecryptAction::DecryptKey),
            _ => decrypt_done(DecryptOutcome::BadRequest),
        },
        DecryptState::AwaitKey => match e {
            DecryptEvent::Succeeded => (DecryptState::AwaitKeyText, DecryptAction::LoadKey),
            _ => decrypt_done(DecryptOutcome::KeyRejected),
        },
        DecryptState::AwaitKeyText => match e {
            DecryptEvent::Succeeded => (DecryptState::AwaitData, DecryptAction::DecryptData),
            _ => decrypt_done(DecryptOutcome::BadRequest),
        },
        DecryptState::AwaitData => match e {
            DecryptEvent::Succeeded => (DecryptState::AwaitPlain, DecryptAction::ParsePlain),
            _ => decrypt_done(DecryptOutcome::BadRequest),
        },
        DecryptState::AwaitPlain => match e {
            DecryptEvent::Plain(f) => match secret_verdict(f, secret) {
                None => (DecryptState::AwaitRebuild, DecryptAction::Rebuild),
                Some(o) => decrypt_done(o),
            },
            _ => decrypt_done(DecryptOutcome::BadRequest),
        },
        DecryptState::AwaitRebuild => match e {
            DecryptEvent::Succeeded => decrypt_done(DecryptOutcome::Decrypted),
            _ => decrypt_done(DecryptOutcome::BadRequest),
        },
    }
}

/// The first step of handling a request body with the given `Content-Type`.
pub fn decrypt_start(content_type: &HeaderField) -> (r: (DecryptState, DecryptAction))
    ensures
        r == decrypt_first(*content_type),
{
    if is_json_content_type(content_type) {
        (DecryptState::AwaitBody, DecryptAction::ReadBody(MAX_ENCRYPTED_BODY))
    } else {
        (DecryptState::Done(DecryptOutcome::Unchanged), DecryptAction::Respond(DecryptOutcome::Unchanged))
    }
}

fn done(o: DecryptOutcome) -> (r: (DecryptState, DecryptAction))
    ensures
        r == decrypt_done(o),
{
    (DecryptState::Done(o), DecryptAction::Respond(o))
}

/// One step of handling a request body, against application secret `secret`.
pub fn decrypt_step(s: DecryptState, e: &DecryptEvent, secret: &str) -> (r: (DecryptState, DecryptAction))
    ensures
        r == decrypt_next(s, *e, secret@),
{
    match s {
        DecryptState::Done(o) => done(o),
        DecryptState::AwaitBody => match e {
            DecryptEvent::Succeeded => (DecryptState::AwaitEnvelope, DecryptAction::ParseEnvelope),
            _ => done(DecryptOutcome::BadRequest),
        },
        DecryptState::AwaitEnvelope => match e {
            DecryptEvent::Envelope(encrypted) => match require_encrypted(*encrypted) {
                Ok(()) => (DecryptState::AwaitKey, DecryptAction::DecryptKey),
                Err(_) => done(DecryptOutcome::BadRequest),
            },
            _ => done(DecryptOutcome::BadRequest),
        },
        DecryptState::AwaitKey => match e {
            DecryptEvent::Succeeded => (DecryptState::AwaitKeyText, DecryptAction::LoadKey),
            _ => done(DecryptOutcome::KeyRejected),
        },
        DecryptState::AwaitKeyText => match e {
            DecryptEvent::Succeeded => (DecryptState::AwaitData, DecryptAction::DecryptData),
            _ => done(DecryptOutcome::BadRequest),
        },
        DecryptState::AwaitData => match e {
            DecryptEvent::Succeeded => (DecryptState::AwaitPlain, DecryptAction::ParsePlain),
            _ => done(DecryptOutcome::BadRequest),
        },
        DecryptState::AwaitPlain => match e {
            DecryptEvent::Plain(f) => match check_api_secret(f, secret) {
                Ok(()) => (DecryptState::AwaitRebuild, DecryptAction::Rebuild),
                Err(BodyFailure::BadRequest) => done(DecryptOutcome::BadRequest),
                Err(BodyFailure::Unauthorized) => done(DecryptOutcome::Unauthorized),
            },
            _ => done(DecryptOutcome::BadRequest),
        },
        DecryptState::AwaitRebuild => match e {
            DecryptEvent::Succeeded => done(DecryptOutcome::Decrypted),
            _ => done(DecryptOutcome::BadRequest),
        },
    }
}

/// The state reached from `s` after the events `es`.
pub open spec fn decrypt_run(s: DecryptState, es: Seq<DecryptEvent>, secret: Seq<char>) -> DecryptState
    decreases es.len(),
{
    if es.len() == 0 {
        s
    } else {
        decrypt_run(decrypt_next(s, es[0], secret).0, es.drop_first(), secret)
    }
}

/// The events of a body that is accepted: it is read, it is an envelope
/// marked encrypted, its key is decrypted and loaded, its data decrypted,
/// its JSON carries exactly the application secret, and it is rebuilt.
pub open spec fn accepted_events(es: Seq<DecryptEvent>, secret: Seq<char>) -> bool {
    &&& es.len() == 7
    &&& es[0] is Succeeded
    &&& es[1] matches DecryptEvent::Envelope(b) && b
    &&& es[2] is Succeeded
    &&& es[3] is Succeeded
    &&& es[4] is Succeeded
    &&& es[5] matches DecryptEvent::Plain(f) && f matches ApiSecretField::Text(t) && t@ == secret
    &&& es[6] is Succeeded
}

/// A finished decryption stays finished.
pub proof fn lemma_decrypt_done_stays(o: DecryptOutcome, es: Seq<DecryptEvent>, secret: Seq<char>)
    ensures
        decrypt_run(DecryptState::Done(o), es, secret) == DecryptState::Done(o),
    decreases es.len(),
{
    if es.len() > 0 {
        lemma_decrypt_done_stays(o, es.drop_first(), secret);
    }
}

/// The stages of a body that was read, in order.
pub open spec fn decrypt_stage(k: int) -> DecryptState {
    if k <= 0 {
        DecryptState::AwaitBody
    } else if k == 1 {
        DecryptState::AwaitEnvelope
    } else if k == 2 {
        DecryptState::AwaitKey
    } else if k == 3 {
        DecryptState::AwaitKeyText
    } else if k == 4 {
        DecryptState::AwaitData
    } else if k == 5 {
        DecryptState::AwaitPlain
    } else {
        DecryptState::AwaitRebuild
    }
}

/// Event `e` is the success that stage `k` waits for.
pub open spec fn stage_passed(k: int, e: DecryptEvent, secret: Seq<char>) -> bool {
    if k == 1 {
        e matches DecryptEvent::Envelope(b) && b
    } else if k == 5 {
        e matches DecryptEvent::Plain(f) && f matches ApiSecretField::Text(t) && t@ == secret
    } else {
        e is Succeeded
    }
}

proof fn lemma_decrypted_from_stage(k: int, es: Seq<DecryptEvent>, secret: Seq<char>)
    requires
        0 <= k <= 6,
    ensures
        decrypt_run(decrypt_stage(k), es, secret) == DecryptState::Done(DecryptOutcome::Decrypted)
            <==> es.len() >= 7 - k && forall|j: int| 0 <= j < 7 - k ==> stage_passed(k + j, #[trigger] es[j], secret),
    decreases 7 - k, es.len(),
{
    if es.len() > 0 {
        let rest = es.drop_first();
        let n = decrypt_next(decrypt_stage(k), es[0], secret).0;
        assert(decrypt_run(decrypt_stage(k), es, secret) == decrypt_run(n, rest, secret));
        if stage_passed(k, es[0], secret) {
            if k == 6 {
                lemma_decrypt_done_stays(DecryptOutcome::Decrypted, rest, secret);
            } else {
                assert(n == decrypt_stage(k + 1));
                lemma_decrypted_from_stage(k + 1, rest, secret);
                if es.len() >= 7 - k && forall|j: int| 0 <= j < 7 - k ==> stage_passed(k + j, #[trigger] es[j], secret) {
                    assert forall|j: int| 0 <= j < 7 - (k + 1) implies stage_passed(k + 1 + j, #[trigger] rest[j], secret) by {
                        assert(rest[j] == es[j + 1]);
                    }
                }
                if rest.len() >= 7 - (k + 1) && forall|j: int| 0 <= j < 7 - (k + 1) ==> stage_passed(k + 1 + j, #[trigger] rest[j], secret) {
                    assert forall|j: int| 0 <= j < 7 - k implies stage_passed(k + j, #[trigger] es[j], secret) by {
                        if j > 0 {
                            assert(es[j] == rest[j - 1]);
                        }
                    }
                }
            }
        } else {
            assert(n is Done && n != DecryptState::Done(DecryptOutcome::Decrypted));
            let o = match n { DecryptState::Done(o) => o, _ => DecryptOutcome::BadRequest };
            lemma_decrypt_done_stays(o, rest, secret);
            assert(!stage_passed(k + 0, es[0], secret));
        }
    }
}

/// A body that was read goes on decrypted exactly when the events that
/// follow begin with those of `accepted_events`, whatever comes after: no
/// body goes on decrypted whose envelope was not marked encrypted, whose key
/// or data failed to decrypt, or whose JSON lacks the application secret.
pub proof fn law_decrypted_only_when_accepted(es: Seq<DecryptEvent>, secret: Seq<char>)
    ensures
        decrypt_run(DecryptState::AwaitBody, es, secret) == DecryptState::Done(DecryptOutcome::Decrypted)
            <==> es.len() >= 7 && accepted_events(es.subrange(0, 7), secret),
{
    lemma_decrypted_from_stage(0, es, secret);
    if es.len() >= 7 {
        let p = es.subrange(0, 7);
        if accepted_events(p, secret) {
            assert forall|j: int| 0 <= j < 7 implies stage_passed(0 + j, #[trigger] es[j], secret) by {
                assert(es[j] == p[j]);
            }
        }
        if forall|j: int| 0 <= j < 7 ==> stage_passed(0 + j, #[trigger] es[j], secret) {
            assert(stage_passed(0, es[0], secret));
            assert(stage_passed(1, es[1], secret));
            assert(stage_passed(2, es[2], secret));
            assert(stage_passed(3, es[3], secret));
            assert(stage_passed(4, es[4], secret));
            assert(stage_passed(5, es[5], secret));
            assert(stage_passed(6, es[6], secret));
        }
    }
}


/// How a response leaves.
#[derive(Clone, Copy, Debug, PartialEq, Eq, Structural)]
pub enum SealOutcome {
    /// As the handler made it: there is no signed-in user, or no public key
    /// could be had for them.
    Unchanged,
    /// `{"data": <encrypted JSON>, "encrypted": true, "key": <encrypted AES
    /// key>}` with the handler's status.
    Sealed,
    /// `{"encrypted": false, "data": <the body's JSON, or {"raw": its text}>}`
    /// with the handler's status: sealing failed after the body was read.
    Plain,
    /// 500: the response body could not be read.
    InternalError,
}

impl SealOutcome {
    /// The HTTP status imposed on the response: 500 when its body could not
    /// be read, `None` when it keeps the handler's status.
    pub fn imposed_status(&self) -> (r: Option<u16>)
        ensures
            r == match *self {
                SealOutcome::InternalError => Some(500u16),
                _ => None::<u16>,
            },
    {
        match self {
            SealOutcome::InternalError => Some(500),
            _ => None,
        }
    }
}

/// Which outcome the sealing waits for.
#[derive(Clone, Copy, Debug, PartialEq, Eq, Structural)]
pub enum SealState {
    AwaitPublicKey,
    AwaitBody,
    AwaitJson,
    AwaitContent,
    AwaitKey,
    Done(SealOutcome),
}

/// What the caller does next.
#[derive(Clone, Copy, Debug, PartialEq, Eq, Structural)]
pub enum SealAction {
    /// Look up the public key of this user.
    LookupPublicKey(u128),
    /// Read the whole response body.
    ReadBody,
    /// Parse the body as JSON.
    ParseJson,
    /// Encrypt the JSON text with a fresh AES key.
    EncryptContent,
    /// Encrypt the AES key (its Base64 text) with the user's public key.
    EncryptKey,
    /// Finish with this outcome.
    Respond(SealOutcome),
}

/// Ends with outcome `o`.
pub open spec fn seal_done(o: SealOutcome) -> (SealState, SealAction) {
    (SealState::Done(o), SealAction::Respond(o))
}

/// The start: a response to a signed-in user waits for their public key;
/// any other leaves unchanged.
pub open spec fn seal_first(user: Option<u128>) -> (SealState, SealAction) {
    match user {
        Some(u) => (SealState::AwaitPublicKey, SealAction::LookupPublicKey(u)),
        None => seal_done(SealOutcome::Unchanged),
    }
}

/// One step of the sealing; `ok` is whether the requested action succeeded.
pub open spec fn seal_next(s: SealState, ok: bool) -> (SealState, SealAction) {
    match s {
        SealState::Done(o) => seal_done(o),
        SealState::AwaitPublicKey => if ok {
            (SealState::AwaitBody, SealAction::ReadBody)
        } else {
            seal_done(SealOutcome::Unchanged)
        },
        SealState::AwaitBody => if ok {
            (SealState::AwaitJson, SealAction::ParseJson)
        } else {
            seal_done(SealOutcome::InternalError)
        },
        SealState::AwaitJson => if ok {
            (SealState::AwaitContent, SealAction::EncryptContent)
        } else {
            seal_done(SealOutcome::Plain)
        },
        SealState::AwaitContent => if ok {
            (SealState::AwaitKey, SealAction::EncryptKey)
        } else {
            seal_done(SealOutcome::Plain)
        },
        SealState::AwaitKey => if ok {
            seal_done(SealOutcome::Sealed)
        } else {
            seal_done(SealOutcome::Plain)
        },
    }
}

/// The first step of sealing the response to a request by `user`.
pub fn seal_start(user: Option<u128>) -> (r: (SealState, SealAction))
    ensures
        r == seal_first(user),
{
    match user {
        Some(u) => (SealState::AwaitPublicKey, SealAction::LookupPublicKey(u)),
        None => (SealState::Done(SealOutcome::Unchanged), SealAction::Respond(SealOutcome::Unchanged)),
    }
}

/// One step of sealing a response; `ok` is whether the requested action
/// succeeded.
pub fn seal_step(s: SealState, ok: bool) -> (r: (SealState, SealAction))
    ensures
        r == seal_next(s, ok),
{
    let o = match s {
        SealState::Done(o) => o,
        SealState::AwaitPublicKey => if ok {
            return (SealState::AwaitBody, SealAction::ReadBody);
        } else {
            SealOutcome::Unchanged
        },
        SealState::AwaitBody => if ok {
            return (SealState::AwaitJson, SealAction::ParseJson);
        } else {
            SealOutcome::InternalError
        },
        SealState::AwaitJson => if ok {
            return (SealState::AwaitContent, SealAction::EncryptContent);
        } else {
            SealOutcome::Plain
        },
        SealState::AwaitContent => if ok {
            return (SealState::AwaitKey, SealAction::EncryptKey);
        } else {
            SealOutcome::Plain
        },
        SealState::AwaitKey => if ok {
            SealOutcome::Sealed
        } else {
            SealOutcome::Plain
        },
    };
    (SealState::Done(o), SealAction::Respond(o))
}

/// The state reached from `s` after the outcomes `oks`.
pub open spec fn seal_run(s: SealState, oks: Seq<bool>) -> SealState
    decreases oks.len(),
{
    if oks.len() == 0 {
        s
    } else {
        seal_run(seal_next(s, oks[0]).0, oks.drop_first())
    }
}

/// A finished sealing stays finished.
pub proof fn lemma_seal_done_stays(o: SealOutcome, oks: Seq<bool>)
    ensures
        seal_run(SealState::Done(o), oks) == SealState::Done(o),
    decreases oks.len(),
{
    if oks.len() > 0 {
        lemma_seal_done_stays(o, oks.drop_first());
    }
}

/// The stages of a sealing, in order.
pub open spec fn seal_stage(k: int) -> SealState {
    if k <= 0 {
        SealState::AwaitPublicKey
    } else if k == 1 {
        SealState::AwaitBody
    } else if k == 2 {
        SealState::AwaitJson
    } else if k == 3 {
        SealState::AwaitContent
    } else {
        SealState::AwaitKey
    }
}

proof fn lemma_sealed_from_stage(k: int, oks: Seq<bool>)
    requires
        0 <= k <= 4,
    ensures
        seal_run(seal_stage(k), oks) == SealState::Done(SealOutcome::Sealed)
            <==> oks.len() >= 5 - k && forall|j: int| 0 <= j < 5 - k ==> #[trigger] oks[j],
    decreases 5 - k, oks.len(),
{
    if oks.len() > 0 {
        let rest = oks.drop_first();
        let n = seal_next(seal_stage(k), oks[0]).0;
        assert(seal_run(seal_stage(k), oks) == seal_run(n, rest));
        if oks[0] {
            if k == 4 {
                lemma_seal_done_stays(SealOutcome::Sealed, rest);
            } else {
                assert(n == seal_stage(k + 1));
                lemma_sealed_from_stage(k + 1, rest);
                if oks.len() >= 5 - k && forall|j: int| 0 <= j < 5 - k ==> #[trigger] oks[j] {
                    assert forall|j: int| 0 <= j < 5 - (k + 1) implies #[trigger] rest[j] by {
                        assert(rest[j] == oks[j + 1]);
                    }
                }
                if rest.len() >= 5 - (k + 1) && forall|j: int| 0 <= j < 5 - (k + 1) ==> #[trigger] rest[j] {
                    assert forall|j: int| 0 <= j < 5 - k implies #[trigger] oks[j] by {
                        if j > 0 {
                            assert(oks[j] == rest[j - 1]);
                        }
                    }
                }
            }
        } else {
            let o = match n { SealState::Done(o) => o, _ => SealOutcome::Unchanged };
            lemma_seal_done_stays(o, rest);
        }
    }
}

/// A response leaves sealed exactly when the user's public key was found,
/// the body read and parsed, and both encryptions succeeded, in that order,
/// whatever comes after; a request without a signed-in user is never
/// answered sealed.
pub proof fn law_sealed_only_when_every_step_succeeded(user: Option<u128>, oks: Seq<bool>)
    ensures
        seal_run(seal_first(user).0, oks) == SealState::Done(SealOutcome::Sealed)
            <==> user is Some && oks.len() >= 5 && forall|j: int| 0 <= j < 5 ==> #[trigger] oks[j],
{
    match user {
        Some(u) => lemma_sealed_from_stage(0, oks),
        None => lemma_seal_done_stays(SealOutcome::Unchanged, oks),
    }
}

} // verus!
