use vstd::prelude::*;
use crate::dto::auth::{MeResponse, MembershipResponse, UserResponse};
use crate::role::{role_text, Role};
use crate::dto::organizations::OrgResponse;
use crate::clock::{now_utc, Timestamp};
use crate::error::{AppError, AuthError};
use crate::jwt::{bearer_token, decode_access_token_at, decoded_as, Claims};
use crate::services::auth::UserRecord;
use crate::services::organizations::{MembershipRow, OrgRecord};

verus! {

/// The readiness answer: HTTP status, overall status and database status.
pub struct Readiness {
    pub status_code: u16,
    pub status: &'static str,
    pub db: &'static str,
}

/// Readiness from whether the database answered a ping: 200 "ready"/"up",
/// otherwise 503 "degraded"/"down".
pub fn readiness(db_reachable: bool) -> (r: Readiness)
    ensures
        db_reachable ==> r.status_code == 200 && r.status@ == "ready"@ && r.db@ == "up"@,
        !db_reachable ==> r.status_code == 503 && r.status@ == "degraded"@ && r.db@ == "down"@,
{
    if db_reachable {
        Readiness { status_code: 200, status: "ready", db: "up" }
    } else {
        Readiness { status_code: 503, status: "degraded", db: "down" }
    }
}

impl UserResponse {
    /// The public view of a stored user: id, e-mail and creation date, never the hash.
    pub fn from_record(u: UserRecord) -> (r: UserResponse)
        ensures
            r.id == u.id,
            r.email == u.email,
            r.created_at == u.created_at,
    {
        UserResponse { id: u.id, email: u.email, created_at: u.created_at }
    }
}

impl OrgResponse {
    /// The public view of a stored organisation.
    pub fn from_record(o: OrgRecord) -> (r: OrgResponse)
        ensures
            r.id == o.id,
            r.name == o.name,
    {
        OrgResponse { id: o.id, name: o.name }
    }
}

/// Does the stored text name a role?
pub open spec fn is_role_text(t: Seq<char>) -> bool {
    exists|x: Role| #[trigger] role_text(x) == t
}

/// Is `m` the answer for the stored membership `row`: same organisation, and
/// the role the row stores?
pub open spec fn shows_membership(m: MembershipResponse, row: MembershipRow) -> bool {
    &&& m.org_id == row.org.id
    &&& m.name@ == row.org.name@
    &&& role_text(m.role) == row.role@
}

/// The profile of the authenticated user, reloaded from storage, with each of
/// their organisations and their role in it, in the order storage gave them. A
/// user that no longer exists (valid token, deleted user) is answered
/// `Unauthorized`; a membership whose stored role names no role is a storage
/// fault, answered `Internal`.
pub fn me_response(user: Option<UserRecord>, memberships: &Vec<MembershipRow>) -> (r: Result<MeResponse, AppError>)
    ensures
        user is None ==> (r matches Err(e) && e is Unauthorized),
        user matches Some(u) ==> ((forall|i: int| 0 <= i < memberships.len() ==> is_role_text(#[trigger] memberships[i].role@))
            <==> r is Ok),
        user is Some && r is Err ==> (r matches Err(e) && e is Internal),
        r matches Ok(p) ==> (user matches Some(u) && p.id == u.id && p.email == u.email && p.created_at == u.created_at
            && p.organizations.len() == memberships.len()
            && forall|i: int| 0 <= i < memberships.len() ==> #[trigger] shows_membership(p.organizations[i], memberships[i])),
{
    let u = match user {
        Some(u) => u,
        None => return Err(AppError::Unauthorized),
    };
    let mut organizations: Vec<MembershipResponse> = Vec::new();
    let mut i: usize = 0;
    while i < memberships.len()
        invariant
            user is Some,
            i <= memberships.len(),
            organizations.len() == i,
            forall|k: int| 0 <= k < i ==> #[trigger] shows_membership(organizations[k], memberships[k]),
            forall|k: int| 0 <= k < i ==> is_role_text(#[trigger] memberships[k].role@),
        decreases memberships.len() - i,
    {
        let row = &memberships[i];
        let role = match Role::from_text(row.role.as_str()) {
            Some(role) => role,
            None => {
                proof {
                    assert(!is_role_text(memberships[i as int].role@));
                }
                return Err(AppError::Internal);
            },
        };
        organizations.push(MembershipResponse { org_id: row.org.id, name: row.org.name.clone(), role });
        i = i + 1;
    }
    Ok(MeResponse { id: u.id, email: u.email, created_at: u.created_at, organizations })
}

/// Does an `Authorization` header value authenticate `id` at Unix second `now`?
/// It carries `Bearer <token>` and decoding the token under the secret at
/// `now` gives claims whose subject is `id`.
pub open spec fn authenticates(header: Seq<char>, secret: Seq<char>, now: int, id: [u8; 16]) -> bool {
    &&& header.len() >= 7
    &&& header.subrange(0, 7) == "Bearer "@
    &&& exists|c: Claims|
        #[trigger] decoded_as(header.subrange(7, header.len() as int), secret, now, Ok::<Claims, AuthError>(c))
            && c.sub == id
}

/// The user that the `Authorization` header value of a request authenticates
/// at Unix second `now`; `Unauthorized` when the header is missing, is not a
/// bearer token, or carries a token that does not decode or has expired.
pub fn authenticate_at(header: Option<&str>, secret: &str, now: i64) -> (r: Result<[u8; 16], AppError>)
    ensures
        r matches Ok(id) ==> (header matches Some(h) && authenticates(h@, secret@, now as int, id)),
        (header matches Some(h) && exists|id: [u8; 16]| authenticates(h@, secret@, now as int, id)) ==> r is Ok,
        r is Err ==> (r matches Err(e) && e is Unauthorized),
{
    let h = match header {
        Some(h) => h,
        None => return Err(AppError::Unauthorized),
    };
    let t = match bearer_token(h) {
        Some(t) => t,
        None => return Err(AppError::Unauthorized),
    };
    match decode_access_token_at(t, secret, now) {
        Ok(c) => {
            assert(decoded_as(h@.subrange(7, h@.len() as int), secret@, now as int, Ok::<Claims, AuthError>(c)));
            Ok(c.sub)
        },
        Err(_) => {
            proof {
                assert forall|id: [u8; 16]| !authenticates(h@, secret@, now as int, id) by {
                    if authenticates(h@, secret@, now as int, id) {
                        let c = choose|c: Claims|
                            #[trigger] decoded_as(h@.subrange(7, h@.len() as int), secret@, now as int, Ok::<Claims, AuthError>(c))
                                && c.sub == id;
                        assert(decoded_as(t@, secret@, now as int, Ok::<Claims, AuthError>(c)));
                    }
                }
            }
            Err(AppError::Unauthorized)
        },
    }
}

/// The user that the `Authorization` header value of a request authenticates
/// now, with the clock reading it was checked against.
pub fn authenticate(header: Option<&str>, secret: &str) -> (res: (Result<[u8; 16], AppError>, Ghost<Timestamp>))
    ensures
        res.1@.wf(),
        res.1@.secs >= 0,
        res.0 matches Ok(id) ==> (header matches Some(h) && authenticates(h@, secret@, res.1@.secs as int, id)),
        (header matches Some(h) && exists|id: [u8; 16]| authenticates(h@, secret@, res.1@.secs as int, id)) ==> res.0 is Ok,
        res.0 is Err ==> (res.0 matches Err(e) && e is Unauthorized),
{
    let now = now_utc();
    (authenticate_at(header, secret, now.secs), Ghost(now))
}

} // verus!
