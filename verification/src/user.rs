//! Authenticated users: session identity, display color and signing secret.

use crate::color::{spec_default_color, Color};
use crate::token::{clock_now_secs, sign_token, token_of, TokenClaims, TOKEN_LIFETIME_SECS};
use jwt_simple::prelude::{HS256Key, MACLike};
use uuid::Uuid;
use vstd::prelude::*;

verus! {

/// The hyphenated text form of a 128-bit session identifier; a function of
/// the identifier alone.
pub uninterp spec fn uuid_text_of(id: u128) -> Seq<char>;

/// Relies on uuid's `Uuid::new_v4`: a freshly drawn random 128-bit
/// identifier. Nothing is promised of the value.
#[verifier::external_body]
pub(crate) fn new_session_id() -> u128 {
    Uuid::new_v4().as_u128()
}

/// Relies on uuid's hyphenated `Display` form: deterministic in the
/// identifier, and always 36 characters long.
#[verifier::external_body]
pub(crate) fn session_id_text(id: u128) -> (r: String)
    ensures
        r@ == uuid_text_of(id),
        r@.len() == 36,
{
    Uuid::from_u128(id).hyphenated().to_string()
}

/// Relies on jwt_simple's `HS256Key::generate`: a fresh random 32-byte
/// symmetric key. Nothing is promised of the bytes beyond their count.
#[verifier::external_body]
pub(crate) fn generate_signing_key() -> (r: Vec<u8>)
    ensures
        r@.len() == 32,
{
    HS256Key::generate().to_bytes()
}

/// An admitted user: display name, assigned color, 128-bit session
/// identifier, and the per-user signing secret held only in memory.
pub struct User {
    pub name: String,
    pub color: Color,
    pub uuid: u128,
    /// The signing secret. It lives only as long as the record and must not
    /// be exported: a consumer who should verify this user's tokens is
    /// handed it out of band, and nothing else may see it.
    pub key: Vec<u8>,
}

impl User {
    /// A user record is well formed when its signing secret has the full
    /// keyed-hash key size.
    pub open spec fn wf(self) -> bool {
        self.key@.len() == 32
    }

    /// A new user with the supplied display name, the default color, a
    /// freshly generated session identifier and a fresh signing secret.
    pub fn new(name: String) -> (r: User)
        ensures
            r.name == name,
            r.color == spec_default_color(),
            r.wf(),
    {
        User {
            name,
            color: Color::default_user_color(),
            uuid: new_session_id(),
            key: generate_signing_key(),
        }
    }

    /// Signs a session token carrying the given claims with this user's
    /// secret. The token is exactly the signature scheme's output for this
    /// key, the claims' subject and their validity window.
    pub fn token_for(&self, claims: &TokenClaims) -> (r: String)
        ensures
            r@ == token_of(
                self.key@,
                uuid_text_of(claims.user_id),
                claims.issued_at,
                claims.expires_at,
            ),
            r@.len() > 0,
    {
        let subject = session_id_text(claims.user_id);
        sign_token(&self.key, &subject, claims.issued_at, claims.expires_at)
    }

    /// Issues a session token for this user, valid for one token lifetime
    /// from the clock's current reading. Returns `None` only when the clock
    /// reading cannot carry the lifetime.
    pub fn generate_token(&self) -> (r: Option<String>)
        ensures
            r is Some ==> r->0@.len() > 0,
            r is Some ==> exists|c: TokenClaims|
                c.wf() && c.user_id == self.uuid && r->0@ == #[trigger] token_of(
                    self.key@,
                    uuid_text_of(self.uuid),
                    c.issued_at,
                    c.expires_at,
                ),
    {
        let now = clock_now_secs();
        if now > u64::MAX - TOKEN_LIFETIME_SECS {
            return None;
        }
        let claims = TokenClaims::new(self.uuid, now);
        let token = self.token_for(&claims);
        proof {
            assert(claims.wf() && claims.user_id == self.uuid && token@ == token_of(
                self.key@,
                uuid_text_of(self.uuid),
                claims.issued_at,
                claims.expires_at,
            ));
        }
        Some(token)
    }
}

} // verus!
