//! The join/admission protocol: request validation, user registration and
//! token issuance.

use crate::color::{color_text, spec_default_color};
use crate::registry::UserRegistry;
use crate::token::{clock_now_secs, token_of, TokenClaims, TOKEN_LIFETIME_SECS};
use crate::user::{uuid_text_of, User};
use vstd::prelude::*;

verus! {

/// A request to join the session: the prospective collaborator's display
/// name, the shared password, and the protocol version the client speaks.
pub struct JoinRequest {
    pub name: String,
    pub password: String,
    pub version: String,
}

/// A successful admission: the signed session token and the user's assigned
/// display color in canonical text form.
#[derive(Debug)]
pub struct JoinReply {
    pub token: String,
    pub color: String,
}

/// The request fields a join request can violate.
#[derive(Clone, Copy, PartialEq, Eq, Structural, Debug)]
pub enum ViolationField {
    Version,
    Password,
}

/// One violated request field, with a human-readable message.
#[derive(Debug)]
pub struct FieldViolation {
    pub field: ViolationField,
    pub message: String,
}

/// An internal failure surfaced to the operator instead of aborting.
#[derive(Clone, Copy, PartialEq, Eq, Structural, Debug)]
pub enum InternalFault {
    /// The clock reading cannot carry a token lifetime.
    ClockOverflow,
    /// The freshly drawn session identifier is already registered.
    IdCollision,
}

/// Why a join request was rejected.
#[derive(Debug)]
pub enum JoinError {
    /// The request carries invalid arguments; every violated field is
    /// listed, not just the first one found.
    InvalidArguments { violations: Vec<FieldViolation> },
    /// An internal failure; no user was created.
    Internal { fault: InternalFault },
}

/// The message reported for a protocol version mismatch.
pub open spec fn version_violation_message() -> Seq<char> {
    "Your version does not match the server ones."@
}

/// The message reported for a wrong password.
pub open spec fn password_violation_message() -> Seq<char> {
    "The password you entered is invalid."@
}

/// A violation carries the message that belongs to its field.
pub open spec fn violation_wf(v: FieldViolation) -> bool {
    match v.field {
        ViolationField::Version => v.message@ == version_violation_message(),
        ViolationField::Password => v.message@ == password_violation_message(),
    }
}

/// The fields a request violates against the expected password and version,
/// in reporting order: version first, then password. Validation does not
/// short-circuit; both checks always run.
pub open spec fn spec_violation_fields(
    request: JoinRequest,
    password: Seq<char>,
    version: Seq<char>,
) -> Seq<ViolationField> {
    (if request.version@ != version {
        seq![ViolationField::Version]
    } else {
        Seq::<ViolationField>::empty()
    }) + (if request.password@ != password {
        seq![ViolationField::Password]
    } else {
        Seq::<ViolationField>::empty()
    })
}

/// A join request wrong in both password and version is answered with both
/// field violations, never just one.
pub proof fn wrong_password_and_version_reported_together(
    request: JoinRequest,
    password: Seq<char>,
    version: Seq<char>,
)
    requires
        request.password@ != password,
        request.version@ != version,
    ensures
        spec_violation_fields(request, password, version).len() == 2,
        spec_violation_fields(request, password, version)[0] == ViolationField::Version,
        spec_violation_fields(request, password, version)[1] == ViolationField::Password,
        spec_violation_fields(request, password, version).contains(ViolationField::Version),
        spec_violation_fields(request, password, version).contains(ViolationField::Password),
{
    let fields = spec_violation_fields(request, password, version);
    assert(fields[0] == ViolationField::Version);
    assert(fields[1] == ViolationField::Password);
}

/// The admission service: the registry of admitted users, and the shared
/// password and protocol version every join request is validated against.
pub struct ServerBasic {
    pub users: UserRegistry,
    pub password: String,
    pub version: String,
}

/// What one successful admission did: exactly one new user `u` with a fresh
/// identifier entered the registry, and the reply carries the token signed
/// with `u`'s own secret over a one-lifetime validity window from
/// `issued_at`, together with `u`'s color in canonical text form.
pub open spec fn spec_admitted(
    pre: ServerBasic,
    post: ServerBasic,
    request: JoinRequest,
    reply: JoinReply,
    u: User,
    issued_at: u64,
) -> bool {
    &&& u.wf()
    &&& u.name@ == request.name@
    &&& u.color == spec_default_color()
    &&& !pre.users@.contains_key(u.uuid)
    &&& post.users@ == pre.users@.insert(u.uuid, u)
    &&& post.password == pre.password
    &&& post.version == pre.version
    &&& issued_at + TOKEN_LIFETIME_SECS <= u64::MAX
    &&& reply.token@ == token_of(
        u.key@,
        uuid_text_of(u.uuid),
        issued_at,
        (issued_at + TOKEN_LIFETIME_SECS) as u64,
    )
    &&& reply.token@.len() > 0
    &&& reply.color@ == color_text(u.color)
}

/// Exactly one new user enters the registry on an admission: the new
/// identifier was not registered before, it now maps to the new user, the
/// registry grew by exactly one entry, and every other entry is unchanged.
pub proof fn admission_adds_exactly_one(
    pre: ServerBasic,
    post: ServerBasic,
    request: JoinRequest,
    reply: JoinReply,
    u: User,
    issued_at: u64,
)
    requires
        spec_admitted(pre, post, request, reply, u, issued_at),
    ensures
        !pre.users@.contains_key(u.uuid),
        post.users@.contains_key(u.uuid),
        post.users@[u.uuid] == u,
        post.users@.len() == pre.users@.len() + 1,
        forall|id: u128|
            id != u.uuid ==> (#[trigger] post.users@.contains_key(id) <==> pre.users@.contains_key(
                id,
            )),
        forall|id: u128|
            id != u.uuid && pre.users@.contains_key(id) ==> #[trigger] post.users@[id]
                == pre.users@[id],
{
    crate::registry::lemma_registry_finite(&pre.users);
    assert(post.users@.dom() =~= pre.users@.dom().insert(u.uuid));
}

impl ServerBasic {
    /// A service with an empty registry and the given expected credentials.
    pub fn new(password: String, version: String) -> (r: ServerBasic)
        ensures
            r.users@ == Map::<u128, User>::empty(),
            r.password == password,
            r.version == version,
    {
        ServerBasic { users: UserRegistry::new(), password, version }
    }

    /// Checks a request against the expected version and password, without
    /// short-circuiting: every violated field is collected.
    pub fn validate(&self, request: &JoinRequest) -> (r: Vec<FieldViolation>)
        ensures
            r@.map_values(|v: FieldViolation| v.field) == spec_violation_fields(
                *request,
                self.password@,
                self.version@,
            ),
            forall|i: int| 0 <= i < r@.len() ==> violation_wf(#[trigger] r@[i]),
    {
        let mut violations: Vec<FieldViolation> = Vec::new();
        if request.version != self.version {
            violations.push(
                FieldViolation {
                    field: ViolationField::Version,
                    message: "Your version does not match the server ones.".to_owned(),
                },
            );
        }
        if request.password != self.password {
            violations.push(
                FieldViolation {
                    field: ViolationField::Password,
                    message: "The password you entered is invalid.".to_owned(),
                },
            );
        }
        proof {
            assert(violations@.map_values(|v: FieldViolation| v.field) =~= spec_violation_fields(
                *request,
                self.password@,
                self.version@,
            ));
        }
        violations
    }

    /// Admits a user whose identifier is not registered yet: inserts the
    /// record and builds the reply from the given token and the user's
    /// color.
    pub fn register(&mut self, user: User, token: String) -> (r: JoinReply)
        requires
            !old(self).users@.contains_key(user.uuid),
        ensures
            final(self).users@ == old(self).users@.insert(user.uuid, user),
            final(self).password == old(self).password,
            final(self).version == old(self).version,
            r.token == token,
            r.color@ == color_text(user.color),
    {
        let color = user.color.canonical_text();
        self.users.insert_new(user);
        JoinReply { token, color }
    }

    /// The join operation. A request that violates version or password is
    /// rejected with every violation listed and the registry untouched.
    /// A valid request admits exactly one new user and answers with that
    /// user's signed session token and color; when the clock reading or the
    /// drawn identifier fails the request instead, the error says so and the
    /// registry is untouched.
    pub fn join(&mut self, request: JoinRequest) -> (r: Result<JoinReply, JoinError>)
        ensures
            ({
                let fields = spec_violation_fields(
                    request,
                    old(self).password@,
                    old(self).version@,
                );
                &&& ((r is Err && r->Err_0 is InvalidArguments) <==> fields.len() > 0)
                &&& (r matches Err(JoinError::InvalidArguments { violations }) ==> {
                    &&& violations@.map_values(|v: FieldViolation| v.field) == fields
                    &&& forall|i: int|
                        0 <= i < violations@.len() ==> violation_wf(#[trigger] violations@[i])
                })
            }),
            r is Err ==> *final(self) == *old(self),
            r is Ok ==> exists|u: User, issued_at: u64|
                #[trigger] spec_admitted(
                    *old(self),
                    *final(self),
                    request,
                    r->Ok_0,
                    u,
                    issued_at,
                ),
    {
        let violations = self.validate(&request);
        if violations.len() > 0 {
            return Err(JoinError::InvalidArguments { violations });
        }
        let user = User::new(request.name.clone());
        let now = clock_now_secs();
        if now > u64::MAX - TOKEN_LIFETIME_SECS {
            return Err(JoinError::Internal { fault: InternalFault::ClockOverflow });
        }
        if self.users.contains(user.uuid) {
            return Err(JoinError::Internal { fault: InternalFault::IdCollision });
        }
        let claims = TokenClaims::new(user.uuid, now);
        let token = user.token_for(&claims);
        let ghost u = user;
        let reply = self.register(user, token);
        let r: Result<JoinReply, JoinError> = Ok(reply);
        proof {
            assert(spec_admitted(*old(self), *self, request, r->Ok_0, u, now));
            assert(exists|uu: User, t: u64|
                #[trigger] spec_admitted(*old(self), *self, request, r->Ok_0, uu, t));
        }
        r
    }
}

} // verus!
