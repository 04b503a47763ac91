//! Team invitations: how an invite token is stored (under a hash of the
//! token, never the token itself), when an invite is still valid, the
//! in-memory invite store, and who may create or accept invites.
use sha2::Digest;
use vstd::prelude::*;
use vstd::hash_map::StringHashMap;
use vstd::utf8::encode_utf8;

use crate::teams::access::invalid_operation;
use crate::teams::errors::TeamsError;
use crate::teams::model::TeamPrincipal;
use crate::text::{owned, push_str, string_of};

verus! {

/// How long an invite stays valid, in minutes.
pub const TEAM_INVITE_TTL_MINUTES: i64 = 30;

/// How long an invite stays valid, in microseconds.
pub const TEAM_INVITE_TTL_MICROS: i64 = TEAM_INVITE_TTL_MINUTES * 60 * 1_000_000;

/// An invitation to a team, as stored under its token.
#[derive(Clone, Debug)]
pub struct TeamInvitePayload {
    pub team_id: u128,
    pub created_by_user_id: String,
    pub role: String,
    /// When the invite expires, in microseconds since the Unix epoch.
    pub expires_at: i64,
}

/// The SHA-256 digest of `data`, as the `sha2` crate computes it.
pub uninterp spec fn sha256_digest(data: Seq<u8>) -> Seq<u8>;

/// The SHA-256 digest of `data` (`sha2::Sha256::digest`): a function of the
/// bytes alone, 32 bytes long.
#[verifier::external_body]
fn sha256(data: &[u8]) -> (r: Vec<u8>)
    ensures
        r@ == sha256_digest(data@),
        r@.len() == 32,
{
    sha2::Sha256::digest(data).to_vec()
}

/// The lowercase hexadecimal digit for `d < 16`.
pub open spec fn hex_digit(d: u8) -> char {
    if d < 10 {
        (('0' as u8) + d) as char
    } else {
        (('a' as u8) + (d - 10)) as char
    }
}

/// The lowercase hexadecimal text of the bytes, two digits per byte, high
/// digit first.
pub open spec fn hex_lower(data: Seq<u8>) -> Seq<char>
    decreases data.len(),
{
    if data.len() == 0 {
        seq![]
    } else {
        hex_lower(data.drop_last()) + seq![hex_digit(data.last() / 16), hex_digit(data.last() % 16)]
    }
}

/// `hex::encode`: the lowercase hexadecimal text of the bytes.
#[verifier::external_body]
fn hex_encode(data: &[u8]) -> (r: String)
    ensures
        r@ == hex_lower(data@),
{
    hex::encode(data)
}

/// The hash under which a token is known: the hexadecimal SHA-256 digest of
/// its UTF-8 bytes.
pub open spec fn token_hash(token: Seq<char>) -> Seq<char> {
    hex_lower(sha256_digest(encode_utf8(token)))
}

/// The store key of an invite token.
pub open spec fn invite_key(token: Seq<char>) -> Seq<char> {
    "vulcanum:team_invite:"@ + token_hash(token)
}

/// The hexadecimal SHA-256 digest of a token.
pub fn hash_token(token: &str) -> (r: String)
    ensures
        r@ == token_hash(token@),
{
    hex_encode(sha256(token.as_bytes()).as_slice())
}

/// The key an invite is stored under: a fixed prefix and the token's hash.
pub fn invite_redis_key(token: &str) -> (r: String)
    ensures
        r@ == invite_key(token@),
{
    let mut out: Vec<char> = Vec::new();
    push_str(&mut out, "vulcanum:team_invite");
    push_char_vec(&mut out, ':');
    let h = hash_token(token);
    push_str(&mut out, h.as_str());
    assert(out@ =~= "vulcanum:team_invite:"@ + token_hash(token@)) by {
        reveal_strlit("vulcanum:team_invite");
        reveal_strlit("vulcanum:team_invite:");
    }
    string_of(&out)
}

fn push_char_vec(out: &mut Vec<char>, c: char)
    ensures
        final(out)@ == old(out)@.push(c),
{
    out.push(c);
}

/// An invite that is still valid at `now`: one that expires later.
pub open spec fn live(payload: Option<TeamInvitePayload>, now: i64) -> Option<TeamInvitePayload> {
    match payload {
        Some(p) => if p.expires_at > now {
            Some(p)
        } else {
            None
        },
        None => None,
    }
}

/// Keeps an invite only while it has not expired.
pub fn valid_payload(payload: Option<TeamInvitePayload>, now: i64) -> (r: Option<TeamInvitePayload>)
    ensures
        r == live(payload, now),
{
    match payload {
        Some(p) => if p.expires_at > now {
            Some(p)
        } else {
            None
        },
        None => None,
    }
}

/// How many whole seconds an invite has left, at least one: the time to
/// keep it in a store that expires entries.
pub open spec fn ttl_seconds(expires_at: i64, now: i64) -> int {
    let d = expires_at - now;
    if d < 1_000_000 {
        1
    } else {
        d / 1_000_000
    }
}

/// The whole seconds an invite has left (rounded toward zero), at least one.
pub fn invite_ttl_secs(expires_at: i64, now: i64) -> (r: u64)
    ensures
        r == ttl_seconds(expires_at, now),
{
    let d: i128 = expires_at as i128 - now as i128;
    if d < 1_000_000 {
        1
    } else {
        (d / 1_000_000) as u64
    }
}

/// When an invite created at `now` expires.
pub fn invite_expiry(now: i64) -> (r: i64)
    requires
        now <= i64::MAX - TEAM_INVITE_TTL_MICROS,
    ensures
        r == now + TEAM_INVITE_TTL_MICROS,
{
    now + TEAM_INVITE_TTL_MICROS
}

/// The invite a team owner creates at `now`: for the member role, valid for
/// thirty minutes.
pub fn new_invite_payload(team_id: u128, created_by_user_id: &str, now: i64) -> (r: TeamInvitePayload)
    requires
        now <= i64::MAX - TEAM_INVITE_TTL_MICROS,
    ensures
        r.team_id == team_id,
        r.created_by_user_id@ == created_by_user_id@,
        r.role@ == "member"@,
        r.expires_at == now + TEAM_INVITE_TTL_MICROS,
{
    TeamInvitePayload {
        team_id,
        created_by_user_id: owned(created_by_user_id),
        role: owned("member"),
        expires_at: invite_expiry(now),
    }
}

fn copy_payload(p: &TeamInvitePayload) -> (r: TeamInvitePayload)
    ensures
        r == *p,
{
    TeamInvitePayload {
        team_id: p.team_id,
        created_by_user_id: p.created_by_user_id.clone(),
        role: p.role.clone(),
        expires_at: p.expires_at,
    }
}

/// The valid invite stored under a token in a store holding `m`.
pub open spec fn lookup(m: Map<Seq<char>, TeamInvitePayload>, token: Seq<char>, now: i64) -> Option<TeamInvitePayload> {
    let k = invite_key(token);
    live(if m.contains_key(k) { Some(m[k]) } else { None }, now)
}

/// Invites kept in memory, under the hashed keys of their tokens.
pub struct InviteStore {
    entries: StringHashMap<TeamInvitePayload>,
}

impl View for InviteStore {
    type V = Map<Seq<char>, TeamInvitePayload>;

    closed spec fn view(&self) -> Map<Seq<char>, TeamInvitePayload> {
        self.entries@
    }
}

impl InviteStore {
    /// An empty store.
    pub fn new() -> (r: Self)
        ensures
            r@ == Map::<Seq<char>, TeamInvitePayload>::empty(),
    {
        InviteStore { entries: StringHashMap::new() }
    }

    /// Stores an invite under the key of its token, replacing any invite
    /// stored there.
    pub fn save(&mut self, token: &str, payload: TeamInvitePayload)
        ensures
            final(self)@ == old(self)@.insert(invite_key(token@), payload),
    {
        let key = invite_redis_key(token);
        self.entries.insert(key, payload);
    }

    /// Whether anything is stored under this exact key.
    pub fn contains_key(&self, key: &str) -> (r: bool)
        ensures
            r == self@.contains_key(key@),
    {
        self.entries.contains_key(key)
    }

    /// The invite stored under a token, while it is valid at `now`; the store
    /// is unchanged.
    pub fn get(&self, token: &str, now: i64) -> (r: Option<TeamInvitePayload>)
        ensures
            r == lookup(self@, token@, now),
    {
        let key = invite_redis_key(token);
        let found = match self.entries.get(key.as_str()) {
            Some(p) => Some(copy_payload(p)),
            None => None,
        };
        valid_payload(found, now)
    }

    /// Takes the invite stored under a token out of the store, answering it
    /// while it is valid at `now`.
    pub fn consume(&mut self, token: &str, now: i64) -> (r: Option<TeamInvitePayload>)
        ensures
            r == lookup(old(self)@, token@, now),
            final(self)@ == old(self)@.remove(invite_key(token@)),
    {
        let key = invite_redis_key(token);
        let found = match self.entries.get(key.as_str()) {
            Some(p) => Some(copy_payload(p)),
            None => None,
        };
        self.entries.remove(key.as_str());
        valid_payload(found, now)
    }
}

/// Law: a stored invite is read back while it has not expired.
pub proof fn lemma_save_then_get(m: Map<Seq<char>, TeamInvitePayload>, token: Seq<char>, p: TeamInvitePayload, now: i64)
    ensures
        lookup(m.insert(invite_key(token), p), token, now) == (if p.expires_at > now {
            Some(p)
        } else {
            None
        }),
{
}

/// Law: an invite can be consumed once; after that its token finds nothing.
pub proof fn lemma_consume_once(m: Map<Seq<char>, TeamInvitePayload>, token: Seq<char>, now: i64)
    ensures
        lookup(m.remove(invite_key(token)), token, now) is None,
{
}

/// Law: storing or consuming under one key leaves what another key finds.
pub proof fn lemma_other_tokens_unaffected(
    m: Map<Seq<char>, TeamInvitePayload>,
    token: Seq<char>,
    other: Seq<char>,
    p: TeamInvitePayload,
    now: i64,
)
    requires
        invite_key(token) != invite_key(other),
    ensures
        lookup(m.insert(invite_key(token), p), other, now) == lookup(m, other, now),
        lookup(m.remove(invite_key(token)), other, now) == lookup(m, other, now),
{
}

/// Law: an invite made at `now` by `new_invite_payload` and saved under its
/// token is found by that token at any time before it expires.
pub proof fn lemma_created_invite_found(
    m: Map<Seq<char>, TeamInvitePayload>,
    token: Seq<char>,
    p: TeamInvitePayload,
    now: i64,
    at: i64,
)
    requires
        p.expires_at == now + TEAM_INVITE_TTL_MICROS,
        now <= at,
        at < p.expires_at,
    ensures
        lookup(m.insert(invite_key(token), p), token, at) == Some(p),
{
}

/// Law: an invite that has expired is never found.
pub proof fn lemma_expired_invisible(m: Map<Seq<char>, TeamInvitePayload>, token: Seq<char>, now: i64)
    ensures
        lookup(m, token, now) matches Some(p) ==> p.expires_at > now,
{
}

/// Who creates an invite: only a user, and never in single-user mode.
pub fn invite_creator(principal: &TeamPrincipal, single_user: bool) -> (r: Result<&String, TeamsError>)
    ensures
        single_user ==> r matches Err(TeamsError::AccessDenied),
        !single_user ==> match *principal {
            TeamPrincipal::User { user_id, .. } => r matches Ok(u) && *u == user_id,
            TeamPrincipal::Instance { .. } => r matches Err(TeamsError::AccessDenied),
        },
{
    if single_user {
        return Err(TeamsError::AccessDenied);
    }
    match principal {
        TeamPrincipal::User { user_id, .. } => Ok(user_id),
        TeamPrincipal::Instance { .. } => Err(TeamsError::AccessDenied),
    }
}

/// Who accepts an invite: only a user; in single-user mode there are no
/// invites.
pub fn invite_acceptor(principal: &TeamPrincipal, single_user: bool) -> (r: Result<&String, TeamsError>)
    ensures
        single_user ==> r matches Err(TeamsError::InviteInvalid),
        !single_user ==> match *principal {
            TeamPrincipal::User { user_id, .. } => r matches Ok(u) && *u == user_id,
            TeamPrincipal::Instance { .. } => r matches Err(TeamsError::AccessDenied),
        },
{
    if single_user {
        return Err(TeamsError::InviteInvalid);
    }
    match principal {
        TeamPrincipal::User { user_id, .. } => Ok(user_id),
        TeamPrincipal::Instance { .. } => Err(TeamsError::AccessDenied),
    }
}

/// Invites can be previewed only outside single-user mode.
pub fn invite_preview_allowed(single_user: bool) -> (r: Result<(), TeamsError>)
    ensures
        single_user ==> r matches Err(TeamsError::InviteInvalid),
        !single_user ==> r is Ok,
{
    if single_user {
        Err(TeamsError::InviteInvalid)
    } else {
        Ok(())
    }
}

/// Accepting an invite needs a GitHub identity.
pub fn require_github_identity(has_github_identity: bool) -> (r: Result<(), TeamsError>)
    ensures
        has_github_identity ==> r is Ok,
        !has_github_identity ==> invalid_operation(r, "GitHub identity is required to accept invites"@),
{
    if has_github_identity {
        Ok(())
    } else {
        Err(TeamsError::InvalidOperation(owned("GitHub identity is required to accept invites")))
    }
}

/// An invite to a team that no longer exists is invalid; other failures
/// looking the team up stay as they are.
pub fn invite_team_error(err: TeamsError) -> (r: TeamsError)
    ensures
        err matches TeamsError::NotFound ==> r matches TeamsError::InviteInvalid,
        !(err matches TeamsError::NotFound) ==> r == err,
{
    match err {
        TeamsError::NotFound => TeamsError::InviteInvalid,
        other => other,
    }
}

} // verus!
