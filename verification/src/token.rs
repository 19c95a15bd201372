//! Session token claims: expiry arithmetic and keyed-hash signing.

use jwt_simple::prelude::{Claims, Clock, Duration, HS256Key, MACLike};
use vstd::prelude::*;

verus! {

/// Seconds a session token stays valid after issuance: two hours.
pub const TOKEN_LIFETIME_SECS: u64 = 7200;

/// The claims a session token encodes: the admitted user and the token's
/// validity window, in seconds since the Unix epoch.
#[derive(Clone, Copy, PartialEq, Eq, Structural, Debug)]
pub struct TokenClaims {
    pub user_id: u128,
    pub issued_at: u64,
    pub expires_at: u64,
}

impl TokenClaims {
    /// Well-formed claims expire exactly one token lifetime after issuance.
    pub open spec fn wf(self) -> bool {
        self.expires_at == self.issued_at + TOKEN_LIFETIME_SECS
    }

    /// Claims for a token issued to `user_id` at `issued_at`.
    pub fn new(user_id: u128, issued_at: u64) -> (r: TokenClaims)
        requires
            issued_at + TOKEN_LIFETIME_SECS <= u64::MAX,
        ensures
            r == (TokenClaims {
                user_id,
                issued_at,
                expires_at: (issued_at + TOKEN_LIFETIME_SECS) as u64,
            }),
            r.wf(),
    {
        TokenClaims { user_id, issued_at, expires_at: issued_at + TOKEN_LIFETIME_SECS }
    }

    /// Whether the token is expired when checked at `now`.
    pub open spec fn spec_expired(self, now: u64) -> bool {
        now > self.expires_at
    }

    /// Checks the claims against the clock reading `now`.
    pub fn is_expired(&self, now: u64) -> (r: bool)
        ensures
            r == self.spec_expired(now),
    {
        now > self.expires_at
    }
}

/// A token issued at some time `T` is still valid when checked at
/// `T + lifetime - eps` and expired when checked at `T + lifetime + eps`,
/// for every positive `eps` up to the lifetime.
pub proof fn expiry_boundary(claims: TokenClaims, eps: u64)
    requires
        claims.wf(),
        1 <= eps <= TOKEN_LIFETIME_SECS,
        claims.issued_at + TOKEN_LIFETIME_SECS + eps <= u64::MAX,
    ensures
        claims.spec_expired((claims.issued_at + TOKEN_LIFETIME_SECS + eps) as u64),
        !claims.spec_expired((claims.issued_at + TOKEN_LIFETIME_SECS - eps) as u64),
{
}

/// The token that the keyed-hash signature scheme produces for the given
/// signing key, token subject and validity window. The scheme is a function
/// of these arguments alone.
pub uninterp spec fn token_of(
    key: Seq<u8>,
    subject: Seq<char>,
    issued_at: u64,
    expires_at: u64,
) -> Seq<char>;

/// Relies on jwt_simple's `HS256Key::from_bytes` and `MACLike::authenticate`:
/// with the issuance and expiry timestamps set explicitly, the token is
/// computed from the key bytes and the claims alone, and a built token is
/// never empty (header, claims and signature joined by dots). Signing always
/// succeeds: `authenticate` can fail only when serializing the header or
/// claims to JSON or base64 fails, which cannot happen for this fixed-shape
/// header, timestamp claims and UTF-8 subject.
#[verifier::external_body]
pub(crate) fn sign_token(key: &Vec<u8>, subject: &String, issued_at: u64, expires_at: u64) -> (r:
    String)
    ensures
        r@ == token_of(key@, subject@, issued_at, expires_at),
        r@.len() > 0,
{
    let mut claims = Claims::create(Duration::from_secs(0)).with_subject(subject.as_str());
    claims.issued_at = Some(Duration::from_secs(issued_at));
    claims.expires_at = Some(Duration::from_secs(expires_at));
    claims.invalid_before = Some(Duration::from_secs(issued_at));
    HS256Key::from_bytes(key.as_slice()).authenticate(claims).unwrap()
}

/// Relies on jwt_simple's `Clock::now_since_epoch`: the wall clock, as whole
/// seconds since the Unix epoch. Nothing is promised of the reading.
#[verifier::external_body]
pub(crate) fn clock_now_secs() -> u64 {
    Clock::now_since_epoch().as_secs()
}

} // verus!
