//! The values a new account is derived with: its referral links and their codes,
//! the names of its personal team and workspace, and its local API key.

use vstd::prelude::*;
use crate::ids::{
    is_v4, lemma_hex_digits_len, new_random_uuid, uuid_hyphenated_text, uuid_simple_text, uuid_to_hyphenated,
    uuid_to_simple,
};
use crate::paths::{find_char_from, find_from, lemma_find_from};
use crate::sql::digit;
use crate::text::{chars_of, push_char, string_from_chars};

verus! {

/// At most this many referral links are created for an account.
pub const MAX_REFERRAL_LINKS: usize = 4;

/// The upper-case form of an ASCII letter; other characters are unchanged.
pub open spec fn ascii_upper(c: char) -> char {
    if 'a' <= c && c <= 'z' {
        ((c as int) - 32) as char
    } else {
        c
    }
}

/// Builds `ascii_upper(c)`.
pub fn to_ascii_upper(c: char) -> (r: char)
    ensures
        r == ascii_upper(c),
{
    if 'a' <= c && c <= 'z' {
        ((c as u8) - 32) as char
    } else {
        c
    }
}

/// The base invitation code of a user: `INV` and the first eight characters
/// of the user's hyphenated identifier in upper case (they are hexadecimal
/// digits, so `to_uppercase` and `ascii_upper` agree on them).
pub open spec fn base_invite_code(user: u128) -> Seq<char> {
    seq!['I', 'N', 'V'] + uuid_hyphenated_text(user).subrange(0, 8).map_values(|c: char| ascii_upper(c))
}

/// The code of the referral link for tier `idx`: the base code for the
/// first tier, the base code with `-` and the 1-based tier number otherwise.
pub open spec fn invite_code(user: u128, idx: nat) -> Seq<char> {
    if idx == 0 {
        base_invite_code(user)
    } else {
        base_invite_code(user) + seq!['-', digit((idx + 1) as int)]
    }
}

/// The hyphenated rendering has 36 characters.
pub proof fn lemma_hyphenated_len(u: u128)
    ensures
        uuid_hyphenated_text(u).len() == 36,
{
    lemma_hex_digits_len(u as nat, 32);
}

/// Builds `base_invite_code(user)`.
pub fn make_base_invite_code(user: u128) -> (s: String)
    ensures
        s@ == base_invite_code(user),
{
    proof {
        lemma_hyphenated_len(user);
    }
    let text = uuid_to_hyphenated(user);
    let cs = chars_of(text.as_str());
    let mut s = "INV".to_owned();
    proof {
        reveal_strlit("INV");
    }
    let mut i: usize = 0;
    while i < 8
        invariant
            cs@ == uuid_hyphenated_text(user),
            cs@.len() == 36,
            i <= 8,
            s@ == seq!['I', 'N', 'V'] + cs@.subrange(0, i as int).map_values(|c: char| ascii_upper(c)),
        decreases 8 - i,
    {
        push_char(&mut s, to_ascii_upper(cs[i]));
        assert(cs@.subrange(0, i + 1).map_values(|c: char| ascii_upper(c))
            =~= cs@.subrange(0, i as int).map_values(|c: char| ascii_upper(c)).push(ascii_upper(cs@[i as int])));
        i = i + 1;
    }
    s
}

/// One referral link to create: the tier it belongs to, its code, and
/// whether it is the current link and unlocked.
#[derive(Clone, Debug, PartialEq, Eq)]
pub struct ReferralLinkPlan {
    pub tier_index: usize,
    pub code: String,
    pub is_current: bool,
    pub unlocked: bool,
}

/// Number of links created for `tier_count` tiers.
pub open spec fn link_count(tier_count: nat) -> nat {
    if tier_count < 4 {
        tier_count
    } else {
        4
    }
}

/// The referral links of a new account: one per tier, for the first four
/// tiers; only the first is current and unlocked.
pub fn referral_link_plan(user: u128, tier_count: usize) -> (v: Vec<ReferralLinkPlan>)
    ensures
        v@.len() == link_count(tier_count as nat),
        forall|i: int| 0 <= i < v@.len() ==> {
            &&& (#[trigger] v@[i]).tier_index == i
            &&& v@[i].code@ == invite_code(user, i as nat)
            &&& v@[i].is_current == (i == 0)
            &&& v@[i].unlocked == (i == 0)
        },
{
    let base = make_base_invite_code(user);
    let n = if tier_count < MAX_REFERRAL_LINKS { tier_count } else { MAX_REFERRAL_LINKS };
    let mut v: Vec<ReferralLinkPlan> = Vec::new();
    let mut idx: usize = 0;
    while idx < n
        invariant
            n == link_count(tier_count as nat),
            n <= 4,
            idx <= n,
            base@ == base_invite_code(user),
            v@.len() == idx,
            forall|i: int| 0 <= i < idx ==> {
                &&& (#[trigger] v@[i]).tier_index == i
                &&& v@[i].code@ == invite_code(user, i as nat)
                &&& v@[i].is_current == (i == 0)
                &&& v@[i].unlocked == (i == 0)
            },
        decreases n - idx,
    {
        let code = if idx == 0 {
            base.clone()
        } else {
            let mut c = base.clone();
            push_char(&mut c, '-');
            let d = if idx == 1 { '2' } else if idx == 2 { '3' } else { '4' };
            push_char(&mut c, d);
            assert(c@ =~= base_invite_code(user) + seq!['-', digit((idx + 1) as int)]);
            c
        };
        v.push(ReferralLinkPlan { tier_index: idx, code, is_current: idx == 0, unlocked: idx == 0 });
        idx = idx + 1;
    }
    v
}

/// The base invitation code has eleven characters.
pub proof fn lemma_base_code_len(user: u128)
    ensures
        base_invite_code(user).len() == 11,
{
    lemma_hyphenated_len(user);
}

/// The referral links of an account have pairwise distinct codes.
pub proof fn law_invite_codes_distinct(user: u128, i: nat, j: nat)
    requires
        i < 4,
        j < 4,
        i != j,
    ensures
        invite_code(user, i) != invite_code(user, j),
{
    lemma_base_code_len(user);
    if i != 0 && j != 0 {
        assert(invite_code(user, i)[12] == digit((i + 1) as int));
        assert(invite_code(user, j)[12] == digit((j + 1) as int));
    } else {
        assert(invite_code(user, i).len() != invite_code(user, j).len());
    }
}

/// The e-mail address up to its first `@` (the whole address when it has none).
pub open spec fn mail_local_part(email: Seq<char>) -> Seq<char> {
    email.subrange(0, find_from(email, '@', 0))
}

/// The name of a new account's personal team: the nickname, or else the
/// local part of the e-mail address, followed by ` 的团队`.
pub open spec fn personal_team_name(nickname: Option<Seq<char>>, email: Seq<char>) -> Seq<char> {
    match nickname {
        Some(n) => n + " 的团队"@,
        None => mail_local_part(email) + " 的团队"@,
    }
}

/// The name of a new account's personal workspace: the nickname, or `用户`,
/// followed by ` 的工作空间`.
pub open spec fn personal_workspace_name(nickname: Option<Seq<char>>) -> Seq<char> {
    match nickname {
        Some(n) => n + " 的工作空间"@,
        None => "用户"@ + " 的工作空间"@,
    }
}

/// Builds `personal_team_name`.
pub fn make_personal_team_name(nickname: Option<&str>, email: &str) -> (s: String)
    ensures
        s@ == personal_team_name(
            match nickname {
                Some(n) => Some(n@),
                None => None,
            },
            email@,
        ),
{
    let mut s = match nickname {
        Some(n) => n.to_owned(),
        None => {
            let cs = chars_of(email);
            proof {
                lemma_find_from(cs@, '@', 0);
            }
            let k = find_char_from(&cs, '@', 0);
            string_from_chars(&cs, 0, k)
        },
    };
    s.append(" 的团队");
    s
}

/// Builds `personal_workspace_name`.
pub fn make_personal_workspace_name(nickname: Option<&str>) -> (s: String)
    ensures
        s@ == personal_workspace_name(
            match nickname {
                Some(n) => Some(n@),
                None => None,
            },
        ),
{
    let mut s = match nickname {
        Some(n) => n.to_owned(),
        None => "用户".to_owned(),
    };
    s.append(" 的工作空间");
    s
}

/// The local API key made from identifier `u`: `sk_local_` and the simple
/// rendering of `u`.
pub open spec fn local_api_key_text(u: u128) -> Seq<char> {
    "sk_local_"@ + uuid_simple_text(u)
}

/// The local API key made from identifier `u`, and its displayed prefix
/// (its first 16 characters).
pub fn local_api_key_of(u: u128) -> (r: (String, String))
    ensures
        r.0@ == local_api_key_text(u),
        r.1@ == r.0@.subrange(0, 16),
{
    let mut key = "sk_local_".to_owned();
    key.append(uuid_to_simple(u).as_str());
    assert(local_api_key_text(u) == key@);
    proof {
        reveal_strlit("sk_local_");
        lemma_hex_digits_len(u as nat, 32);
    }
    let cs = chars_of(key.as_str());
    let prefix = string_from_chars(&cs, 0, 16);
    (key, prefix)
}

/// A new local API key and its displayed prefix (its first 16 characters).
/// The key is made from a fresh version 4 identifier.
pub fn generate_local_api_key() -> (r: (String, String))
    ensures
        exists|u: u128| is_v4(u) && #[trigger] local_api_key_text(u) == r.0@,
        r.1@ == r.0@.subrange(0, 16),
{
    let u = new_random_uuid();
    let r = local_api_key_of(u);
    assert(is_v4(u) && local_api_key_text(u) == r.0@);
    r
}

} // verus!
