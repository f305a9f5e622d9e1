//! Session tokens: issuing them with a fixed lifetime, checking them, and
//! the identity that a client holds for the length of a request.

use vstd::prelude::*;
use crate::clock::{now_millis, CLOCK_LIMIT_MS};
use crate::text::{decimal_digits, decimal_string};

verus! {

/// A session lasts one hour from its issue, in milliseconds.
pub const SESSION_TTL_MS: i64 = 3_600_000;

/// Relies on rand::random: a value drawn from the thread-local generator
/// (which panics if the operating system cannot seed it). Nothing is known of
/// the value.
pub assume_specification<T>[ rand::random::<T> ]() -> (r: T)
    where
        rand::distributions::Standard: rand::distributions::Distribution<T>,
;

/// A stored session: the token, the user it authenticates and the instant
/// (milliseconds since the Unix epoch) after which it no longer does.
#[derive(Clone, Debug)]
pub struct SessionRecord {
    pub session_token: String,
    pub user_id: i32,
    pub expiry_date: i64,
}

/// The session identity a client holds: its token and user.
#[derive(Clone, Debug)]
pub struct SessionModel {
    pub token: String,
    pub user_id: i32,
}

/// The session identity carried by one request, if the client holds one.
#[derive(Clone, Debug)]
pub struct SessionContext {
    pub current: Option<SessionModel>,
}

/// The number that bytes denote when read least significant first.
pub open spec fn le_value(bytes: Seq<u8>) -> nat
    decreases bytes.len(),
{
    if bytes.len() == 0 {
        0
    } else {
        bytes[0] as nat + 256 * le_value(bytes.drop_first())
    }
}

/// 256 to the power `k`.
pub open spec fn pow256(k: nat) -> nat
    decreases k,
{
    if k == 0 {
        1
    } else {
        256 * pow256((k - 1) as nat)
    }
}

/// The token text made of sixteen random bytes: the decimal numeral of the
/// 128-bit number they denote, least significant byte first.
pub open spec fn token_text(bytes: Seq<u8>) -> Seq<char> {
    decimal_digits(le_value(bytes))
}

/// The token text made of some sixteen bytes.
pub open spec fn is_session_token(s: Seq<char>) -> bool {
    exists|b: Seq<u8>| b.len() == 16 && #[trigger] token_text(b) == s
}

/// `after` is `before` with one more session, for `user_id` under `token`,
/// issued at a clock reading: its token is made of sixteen bytes and it
/// expires one hour after an instant in `[0, CLOCK_LIMIT_MS)`.
pub open spec fn issued_session(
    before: Seq<SessionRecord>,
    after: Seq<SessionRecord>,
    user_id: i32,
    token: String,
) -> bool {
    &&& after == before.push(
        SessionRecord { session_token: token, user_id, expiry_date: after.last().expiry_date },
    )
    &&& is_session_token(token@)
    &&& SESSION_TTL_MS <= after.last().expiry_date < CLOCK_LIMIT_MS + SESSION_TTL_MS
}

/// Some stored session authenticates `user_id` with `token` at instant `now`:
/// it matches both and has not expired (`now` is not past its expiry).
pub open spec fn session_valid(
    rows: Seq<SessionRecord>,
    user_id: i32,
    token: Seq<char>,
    now: int,
) -> bool {
    exists|i: int|
        0 <= i < rows.len() && #[trigger] rows[i].user_id == user_id
            && rows[i].session_token@ == token && now <= rows[i].expiry_date
}

/// Reads sixteen bytes least significant first.
pub fn u128_from_le_bytes(bytes: [u8; 16]) -> (r: u128)
    ensures
        r as nat == le_value(bytes@),
{
    proof {
        reveal_with_fuel(pow256, 17);
    }
    assert(pow256(16) == 0x1_0000_0000_0000_0000_0000_0000_0000_0000);
    let mut v: u128 = 0;
    let mut i: usize = 16;
    while i > 0
        invariant
            i <= 16,
            v as nat == le_value(bytes@.subrange(i as int, 16)),
            v < pow256((16 - i) as nat),
            pow256(16) == 0x1_0000_0000_0000_0000_0000_0000_0000_0000,
        decreases i,
    {
        let ghost k = (16 - i) as nat;
        assert(pow256(k) * 256 <= pow256(16)) by {
            lemma_pow256_mono(k + 1, 16);
        }
        assert(v * 256 + bytes[i - 1] < pow256(k) * 256) by (nonlinear_arith)
            requires
                v < pow256(k),
                bytes[i - 1] < 256,
        ;
        assert(bytes@.subrange(i - 1, 16).drop_first() =~= bytes@.subrange(i as int, 16));
        v = v * 256 + bytes[i - 1] as u128;
        i -= 1;
    }
    assert(bytes@.subrange(0, 16) =~= bytes@);
    v
}

proof fn lemma_pow256_mono(a: nat, b: nat)
    requires
        a <= b,
    ensures
        pow256(a) <= pow256(b),
    decreases b,
{
    if a < b {
        lemma_pow256_mono(a, (b - 1) as nat);
    }
}

/// The token text made of sixteen random bytes.
pub fn token_from_bytes(bytes: [u8; 16]) -> (r: String)
    ensures
        r@ == token_text(bytes@),
{
    decimal_string(u128_from_le_bytes(bytes))
}

/// Stores a new session for `user_id`, issued at `now` with the token made of
/// `token_bytes`, and returns its token and expiry. Earlier sessions of the
/// user stay as they are.
pub fn issue_session(
    rows: &mut Vec<SessionRecord>,
    user_id: i32,
    token_bytes: [u8; 16],
    now: i64,
) -> (r: (String, i64))
    requires
        now <= i64::MAX - SESSION_TTL_MS,
    ensures
        r.0@ == token_text(token_bytes@),
        r.1 == now + SESSION_TTL_MS,
        final(rows)@ == old(rows)@.push(
            SessionRecord { session_token: r.0, user_id, expiry_date: r.1 },
        ),
{
    let token = token_from_bytes(token_bytes);
    let expiry = now + SESSION_TTL_MS;
    rows.push(SessionRecord { session_token: token.clone(), user_id, expiry_date: expiry });
    (token, expiry)
}

/// Stores a new session for `user_id` with a random token, issued now, and
/// returns its token and expiry.
pub fn create_session(rows: &mut Vec<SessionRecord>, user_id: i32) -> (r: (String, i64))
    ensures
        r.1 == final(rows)@.last().expiry_date,
        issued_session(old(rows)@, final(rows)@, user_id, r.0),
{
    let token_bytes = rand::random::<[u8; 16]>();
    let now = now_millis();
    let r = issue_session(rows, user_id, token_bytes, now);
    assert(token_bytes@.len() == 16);
    assert(token_text(token_bytes@) == r.0@);
    r
}

/// Whether some stored session authenticates `user_id` with `token` at the
/// instant `now`.
pub fn session_valid_at(rows: &Vec<SessionRecord>, user_id: i32, token: &String, now: i64) -> (r:
    bool)
    ensures
        r == session_valid(rows@, user_id, token@, now as int),
{
    let mut i: usize = 0;
    while i < rows.len()
        invariant
            i <= rows@.len(),
            forall|k: int|
                0 <= k < i ==> !(#[trigger] rows@[k].user_id == user_id && rows@[k].session_token@
                    == token@ && now <= rows@[k].expiry_date),
        decreases rows@.len() - i,
    {
        let row = &rows[i];
        if row.user_id == user_id && row.session_token.eq(token) && now <= row.expiry_date {
            return true;
        }
        i += 1;
    }
    false
}

/// Whether some stored session authenticates `user_id` with `token` now.
pub fn validate_session(rows: &Vec<SessionRecord>, user_id: i32, token: &String) -> (r: bool)
    ensures
        exists|t: int| 0 <= t < CLOCK_LIMIT_MS && r == #[trigger] session_valid(rows@, user_id, token@, t),
{
    let now = now_millis();
    session_valid_at(rows, user_id, token, now)
}

impl SessionModel {
    /// A field-by-field copy.
    pub fn duplicate(&self) -> (r: SessionModel)
        ensures
            r == *self,
    {
        SessionModel { token: self.token.clone(), user_id: self.user_id }
    }
}

impl SessionContext {
    /// A request whose client holds no session.
    pub fn new() -> (r: SessionContext)
        ensures
            r.current is None,
    {
        SessionContext { current: None }
    }

    /// The session the client holds, if any.
    pub fn get_session(&self) -> (r: Option<SessionModel>)
        ensures
            r == self.current,
    {
        match &self.current {
            Some(m) => Some(m.duplicate()),
            None => None,
        }
    }

    /// Hands the client a session to hold.
    pub fn set_session(&mut self, model: SessionModel)
        ensures
            final(self).current == Some(model),
    {
        self.current = Some(model);
    }

    /// Makes the client forget its session; the stored session is not
    /// removed and stays valid until it expires.
    pub fn end_session(&mut self)
        ensures
            final(self).current is None,
    {
        self.current = None;
    }
}

/// A session issued at `issued` authenticates its user with its token at
/// every instant from its issue until it expires.
pub proof fn lemma_issued_session_is_valid(
    rows: Seq<SessionRecord>,
    record: SessionRecord,
    issued: int,
    now: int,
)
    requires
        record.expiry_date == issued + SESSION_TTL_MS,
        issued <= now <= issued + SESSION_TTL_MS,
    ensures
        session_valid(rows.push(record), record.user_id, record.session_token@, now),
{
    let all = rows.push(record);
    assert(all[rows.len() as int] == record);
}

/// A session just created authenticates its user with its token at every
/// instant from its issue (one hour before its expiry) until it expires.
pub proof fn lemma_created_session_is_valid(
    before: Seq<SessionRecord>,
    after: Seq<SessionRecord>,
    user_id: i32,
    token: String,
    now: int,
)
    requires
        issued_session(before, after, user_id, token),
        after.last().expiry_date - SESSION_TTL_MS <= now <= after.last().expiry_date,
    ensures
        session_valid(after, user_id, token@, now),
{
    let record = after.last();
    lemma_issued_session_is_valid(before, record, record.expiry_date - SESSION_TTL_MS, now);
}

/// Once every stored session matching a user and token has expired, the
/// token no longer authenticates the user, although the sessions are still
/// stored.
pub proof fn lemma_expired_session_is_invalid(
    rows: Seq<SessionRecord>,
    user_id: i32,
    token: Seq<char>,
    now: int,
)
    requires
        forall|i: int|
            0 <= i < rows.len() && #[trigger] rows[i].user_id == user_id
                && rows[i].session_token@ == token ==> rows[i].expiry_date < now,
    ensures
        !session_valid(rows, user_id, token, now),
{
}

} // verus!
