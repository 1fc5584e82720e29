use vstd::prelude::*;
use crate::clock::{Timestamp, MAX_TIMESTAMP_SECS, MIN_TIMESTAMP_SECS, SECS_PER_DAY};
use crate::dto::auth::TokenResponse;
use crate::error::{status_of, AppError, AuthError};
use crate::jwt::{
    access_claims, access_issuable_at, claims_json, create_access_token_at, decoded_as, hs256_jwt, hs256_payload,
    lemma_access_token_round_trip, Claims, ACCESS_TOKEN_TTL_SECS, JWT_LEEWAY_SECS,
};
use crate::password::{argon2_verdict, argon2id_prefix, hash_password, password_matches, verify_password, MAX_PASSWORD_CHARS};
use crate::refresh::{generate_refresh_token, hash_refresh_token, is_hex64, refresh_token_hash};

verus! {

/// Lifetime of a refresh token: 7 days.
pub const REFRESH_TTL_DAYS: i64 = 7;

/// A stored user, as far as the flows read it.
pub struct UserRecord {
    pub id: [u8; 16],
    pub email: String,
    pub password_hash: String,
    pub created_at: Timestamp,
}

/// A stored refresh token, as far as the flows read it.
pub struct RefreshRecord {
    pub id: [u8; 16],
    pub user_id: [u8; 16],
    pub token_hash: String,
    pub expires_at: Timestamp,
    pub revoked_at: Option<Timestamp>,
}

/// A refresh token to store: only its hash, never the token itself.
pub struct NewRefreshToken {
    pub user_id: [u8; 16],
    pub token_hash: String,
    pub expires_at: Timestamp,
}

/// A freshly issued token pair and the refresh row to store for it.
pub struct IssuedTokens {
    pub response: TokenResponse,
    pub record: NewRefreshToken,
}

/// The expiry of a refresh token issued at `now`, when the calendar reaches it.
pub open spec fn refresh_expiry(now: Timestamp) -> Option<Timestamp> {
    now.spec_plus_secs(REFRESH_TTL_DAYS * SECS_PER_DAY)
}

/// Can a token pair be issued at `now`: both expiries inside the calendar?
pub open spec fn issuable_at(now: Timestamp) -> bool {
    &&& now.wf()
    &&& access_issuable_at(now.secs)
    &&& refresh_expiry(now) is Some
}

/// `response` and `record` are the pair issued for `user_id` at `now` with the
/// refresh token `refresh_plain`.
pub open spec fn issued_at(
    user_id: [u8; 16],
    now: Timestamp,
    refresh_plain: Seq<char>,
    secret: Seq<char>,
    response: TokenResponse,
    record: NewRefreshToken,
) -> bool {
    &&& response.access_token@ == hs256_jwt(claims_json(access_claims(user_id, now.secs)), secret)
    &&& hs256_payload(response.access_token@, secret) == Some(claims_json(access_claims(user_id, now.secs)))
    &&& response.refresh_token@ == refresh_plain
    &&& response.token_type@ == "Bearer"@
    &&& record.user_id == user_id
    &&& record.token_hash@ == refresh_token_hash(refresh_plain)
    &&& refresh_expiry(now) == Some(record.expires_at)
}

/// Issues the token pair of `user_id` at `now` with the given refresh token:
/// a signed access token valid 15 minutes, the refresh token handed to the
/// client, and the row that stores the refresh token's hash for 7 days.
pub fn issue_tokens_at(user_id: [u8; 16], now: Timestamp, refresh_plain: String, secret: &str) -> (t: IssuedTokens)
    requires
        issuable_at(now),
    ensures
        issued_at(user_id, now, refresh_plain@, secret@, t.response, t.record),
{
    let access_token = match create_access_token_at(user_id, now.secs, secret) {
        Ok(t) => t,
        Err(_) => {
            assert(false);
            String::new()
        },
    };
    let token_hash = hash_refresh_token(refresh_plain.as_str());
    let expires_at = match now.checked_plus_secs(REFRESH_TTL_DAYS * SECS_PER_DAY) {
        Some(t) => t,
        None => now,
    };
    let record = NewRefreshToken { user_id, token_hash, expires_at };
    let response = TokenResponse::bearer(access_token, refresh_plain);
    IssuedTokens { response, record }
}

/// Issues a token pair for `user_id` at the clock reading `now`, with a fresh
/// random refresh token. The refresh token in clear goes to the client; only
/// its hash is stored. A reading so close to the end of the calendar that an
/// expiry cannot be represented is an internal error.
pub fn issue_tokens(user_id: [u8; 16], now: Timestamp, secret: &str) -> (r: Result<IssuedTokens, AppError>)
    ensures
        now.nanos < 1_000_000_000 && MIN_TIMESTAMP_SECS <= now.secs && now.secs + 604_800 <= MAX_TIMESTAMP_SECS
            ==> r is Ok,
        issuable_at(now) ==> (r matches Ok(t) && is_hex64(t.response.refresh_token@)
            && issued_at(user_id, now, t.response.refresh_token@, secret@, t.response, t.record)),
        !issuable_at(now) ==> (r matches Err(e) && e is Internal),
{
    if !(now.nanos < 1_000_000_000 && crate::clock::MIN_TIMESTAMP_SECS <= now.secs
        && now.secs <= crate::clock::MAX_TIMESTAMP_SECS - REFRESH_TTL_DAYS * SECS_PER_DAY) {
        return Err(AppError::Internal);
    }
    let refresh_plain = generate_refresh_token();
    Ok(issue_tokens_at(user_id, now, refresh_plain, secret))
}

} // verus!

verus! {

/// The answer of a finished flow.
pub enum Outcome {
    /// Register, login and refresh answer with a token pair.
    Tokens(TokenResponse),
    /// Logout answers with nothing.
    LoggedOut,
}

/// What the flow asks the storage layer to do next, or the final answer.
pub enum Command {
    FindUserByEmail { email: String },
    InsertUser { email: String, password_hash: String },
    InsertRefreshToken(NewRefreshToken),
    FindRefreshToken { token_hash: String },
    RevokeRefreshToken { id: [u8; 16] },
    Reply(Result<Outcome, AppError>),
}

/// What the storage layer hands back.
pub enum Event {
    UserLookup(Option<UserRecord>),
    UserInserted(UserRecord),
    RefreshTokenLookup(Option<RefreshRecord>),
    RefreshTokenInserted,
    RefreshTokenRevoked,
    /// The storage operation failed; holds its description.
    StorageFailed(String),
}

/// Where an authentication flow stands: which storage result it waits for.
pub enum AuthFlow {
    /// Registration: waits for the lookup of the e-mail.
    AwaitRegisterLookup { email: String, password: String },
    /// Registration: waits for the new user row.
    AwaitUserInsert,
    /// Login: waits for the lookup of the e-mail.
    AwaitLoginLookup { password: String },
    /// Refresh: waits for the lookup of the presented token's hash.
    AwaitRefreshLookup,
    /// Refresh: waits for the presented token to be revoked before issuing the new pair.
    AwaitRotationRevoke { user_id: [u8; 16] },
    /// Logout: waits for the lookup of the presented token's hash.
    AwaitLogoutLookup,
    /// Logout: waits for the presented token to be revoked.
    AwaitLogoutRevoke,
    /// Any flow that issues tokens: waits for the new refresh row to be stored.
    AwaitTokenStore { response: TokenResponse },
    /// The flow has answered.
    Finished,
}

/// The message of a registration with an e-mail already taken.
pub open spec fn email_taken_text() -> Seq<char> {
    "cet email est déjà utilisé"@
}

/// The flow ends, answering `Unauthorized`.
pub open spec fn ends_unauthorized(next: AuthFlow, cmd: Command) -> bool {
    next is Finished && (cmd matches Command::Reply(Err(e)) && e is Unauthorized)
}

/// The flow ends, answering `Internal`.
pub open spec fn ends_internal(next: AuthFlow, cmd: Command) -> bool {
    next is Finished && (cmd matches Command::Reply(Err(e)) && e is Internal)
}

/// The flow ends, answering `Ok(outcome)`.
pub open spec fn ends_ok(next: AuthFlow, cmd: Command, outcome: Outcome) -> bool {
    next is Finished && cmd == Command::Reply(Ok(outcome))
}

/// A token pair is issued for `user_id` at the reading `now`: the flow asks to
/// store the refresh row and waits with the answer; only a reading at the end
/// of the calendar ends the flow instead, as an internal error.
pub open spec fn issues_for(user_id: [u8; 16], now: Timestamp, secret: Seq<char>, next: AuthFlow, cmd: Command) -> bool {
    if issuable_at(now) {
        next matches AuthFlow::AwaitTokenStore { response } && (cmd matches Command::InsertRefreshToken(record) && {
            &&& is_hex64(response.refresh_token@)
            &&& issued_at(user_id, now, response.refresh_token@, secret, response, record)
        })
    } else {
        ends_internal(next, cmd)
    }
}

/// The answer to a stored refresh row at `now`: refused when revoked or expired,
/// otherwise the row to revoke and the user to issue for.
pub open spec fn refresh_decision(row: RefreshRecord, now: Timestamp) -> Option<([u8; 16], [u8; 16])> {
    if row.revoked_at is Some || row.expires_at.spec_before(now) {
        None
    } else {
        Some((row.id, row.user_id))
    }
}

/// One step of a flow: from `state`, on `event`, to `next` with `cmd`.
pub open spec fn transition(state: AuthFlow, event: Event, secret: Seq<char>, now: Timestamp, next: AuthFlow, cmd: Command) -> bool {
    if state is Finished {
        ends_internal(next, cmd)
    } else if event is StorageFailed {
        next is Finished && (cmd matches Command::Reply(Err(e)) && (e matches AppError::Database(m)
            && m == event->StorageFailed_0))
    } else {
        match state {
            AuthFlow::AwaitRegisterLookup { email, password } => match event {
                Event::UserLookup(Some(_)) => next is Finished && (cmd matches Command::Reply(Err(e))
                    && (e matches AppError::Conflict(m) && m@ == email_taken_text())),
                Event::UserLookup(None) => (next is AwaitUserInsert
                    && (cmd matches Command::InsertUser { email: e, password_hash: h }
                        && e == email && password_matches(password@, h@)
                        && h@.len() >= 10 && h@.subrange(0, 10) == argon2id_prefix()))
                    || (password@.len() > MAX_PASSWORD_CHARS && ends_internal(next, cmd)),
                _ => ends_internal(next, cmd),
            },
            AuthFlow::AwaitUserInsert => match event {
                Event::UserInserted(user) => issues_for(user.id, now, secret, next, cmd),
                _ => ends_internal(next, cmd),
            },
            AuthFlow::AwaitLoginLookup { password } => match event {
                Event::UserLookup(None) => ends_unauthorized(next, cmd),
                Event::UserLookup(Some(user)) => match argon2_verdict(password@, user.password_hash@) {
                    None => ends_internal(next, cmd),
                    Some(false) => ends_unauthorized(next, cmd),
                    Some(true) => issues_for(user.id, now, secret, next, cmd),
                },
                _ => ends_internal(next, cmd),
            },
            AuthFlow::AwaitRefreshLookup => match event {
                Event::RefreshTokenLookup(None) => ends_unauthorized(next, cmd),
                Event::RefreshTokenLookup(Some(row)) => match refresh_decision(row, now) {
                    None => ends_unauthorized(next, cmd),
                    Some((id, user_id)) => next == (AuthFlow::AwaitRotationRevoke { user_id })
                        && cmd == (Command::RevokeRefreshToken { id }),
                },
                _ => ends_internal(next, cmd),
            },
            AuthFlow::AwaitRotationRevoke { user_id } => match event {
                Event::RefreshTokenRevoked => issues_for(user_id, now, secret, next, cmd),
                _ => ends_internal(next, cmd),
            },
            AuthFlow::AwaitLogoutLookup => match event {
                Event::RefreshTokenLookup(None) => ends_ok(next, cmd, Outcome::LoggedOut),
                Event::RefreshTokenLookup(Some(row)) => next is AwaitLogoutRevoke
                    && cmd == (Command::RevokeRefreshToken { id: row.id }),
                _ => ends_internal(next, cmd),
            },
            AuthFlow::AwaitLogoutRevoke => match event {
                Event::RefreshTokenRevoked => ends_ok(next, cmd, Outcome::LoggedOut),
                _ => ends_internal(next, cmd),
            },
            AuthFlow::AwaitTokenStore { response } => match event {
                Event::RefreshTokenInserted => ends_ok(next, cmd, Outcome::Tokens(response)),
                _ => ends_internal(next, cmd),
            },
            AuthFlow::Finished => ends_internal(next, cmd),
        }
    }
}

impl RefreshRecord {
    /// Can this stored refresh token be used at `now`? Refused (`Unauthorized`)
    /// when revoked or expired; otherwise gives the row's id and its user.
    pub fn check_usable(&self, now: &Timestamp) -> (r: Result<([u8; 16], [u8; 16]), AppError>)
        ensures
            match refresh_decision(*self, *now) {
                Some(p) => r matches Ok(q) && q == p,
                None => r matches Err(e) && e is Unauthorized,
            },
    {
        if self.revoked_at.is_some() || self.expires_at.is_before(now) {
            Err(AppError::Unauthorized)
        } else {
            Ok((self.id, self.user_id))
        }
    }
}

fn issue_step(user_id: [u8; 16], now: Timestamp, secret: &str) -> (res: (AuthFlow, Command))
    ensures
        issues_for(user_id, now, secret@, res.0, res.1),
{
    match issue_tokens(user_id, now, secret) {
        Ok(t) => {
            let IssuedTokens { response, record } = t;
            (AuthFlow::AwaitTokenStore { response }, Command::InsertRefreshToken(record))
        },
        Err(e) => (AuthFlow::Finished, Command::Reply(Err(e))),
    }
}

impl AuthFlow {
    /// Starts a registration: first look the e-mail up.
    pub fn register(email: String, password: String) -> (res: (AuthFlow, Command))
        ensures
            res.0 == (AuthFlow::AwaitRegisterLookup { email, password }),
            res.1 == (Command::FindUserByEmail { email }),
    {
        let lookup = email.clone();
        (AuthFlow::AwaitRegisterLookup { email, password }, Command::FindUserByEmail { email: lookup })
    }

    /// Starts a login: first look the e-mail up.
    pub fn login(email: String, password: String) -> (res: (AuthFlow, Command))
        ensures
            res.0 == (AuthFlow::AwaitLoginLookup { password }),
            res.1 == (Command::FindUserByEmail { email }),
    {
        (AuthFlow::AwaitLoginLookup { password }, Command::FindUserByEmail { email })
    }

    /// Starts a refresh: look up the stored hash of the presented token.
    pub fn refresh(refresh_plain: &str) -> (res: (AuthFlow, Command))
        ensures
            res.0 is AwaitRefreshLookup,
            res.1 matches Command::FindRefreshToken { token_hash } && token_hash@ == refresh_token_hash(refresh_plain@),
    {
        (AuthFlow::AwaitRefreshLookup, Command::FindRefreshToken { token_hash: hash_refresh_token(refresh_plain) })
    }

    /// Starts a logout: look up the stored hash of the presented token.
    pub fn logout(refresh_plain: &str) -> (res: (AuthFlow, Command))
        ensures
            res.0 is AwaitLogoutLookup,
            res.1 matches Command::FindRefreshToken { token_hash } && token_hash@ == refresh_token_hash(refresh_plain@),
    {
        (AuthFlow::AwaitLogoutLookup, Command::FindRefreshToken { token_hash: hash_refresh_token(refresh_plain) })
    }

    /// Advances the flow with what storage handed back and the clock reading
    /// `now`, giving the next state and the next storage operation or the final
    /// answer.
    pub fn step(self, event: Event, secret: &str, now: Timestamp) -> (res: (AuthFlow, Command))
        ensures
            transition(self, event, secret@, now, res.0, res.1),
    {
        if let AuthFlow::Finished = self {
            return (AuthFlow::Finished, Command::Reply(Err(AppError::Internal)));
        }
        if let Event::StorageFailed(m) = event {
            return (AuthFlow::Finished, Command::Reply(Err(AppError::Database(m))));
        }
        match self {
            AuthFlow::AwaitRegisterLookup { email, password } => match event {
                Event::UserLookup(Some(_)) => (
                    AuthFlow::Finished,
                    Command::Reply(Err(AppError::Conflict(String::from_str("cet email est déjà utilisé")))),
                ),
                Event::UserLookup(None) => match hash_password(password.as_str()) {
                    Ok(h) => (AuthFlow::AwaitUserInsert, Command::InsertUser { email, password_hash: h }),
                    Err(_) => (AuthFlow::Finished, Command::Reply(Err(AppError::Internal))),
                },
                _ => (AuthFlow::Finished, Command::Reply(Err(AppError::Internal))),
            },
            AuthFlow::AwaitUserInsert => match event {
                Event::UserInserted(user) => issue_step(user.id, now, secret),
                _ => (AuthFlow::Finished, Command::Reply(Err(AppError::Internal))),
            },
            AuthFlow::AwaitLoginLookup { password } => match event {
                Event::UserLookup(None) => (AuthFlow::Finished, Command::Reply(Err(AppError::Unauthorized))),
                Event::UserLookup(Some(user)) => match verify_password(password.as_str(), user.password_hash.as_str()) {
                    Ok(true) => issue_step(user.id, now, secret),
                    Ok(false) => (AuthFlow::Finished, Command::Reply(Err(AppError::Unauthorized))),
                    Err(_) => (AuthFlow::Finished, Command::Reply(Err(AppError::Internal))),
                },
                _ => (AuthFlow::Finished, Command::Reply(Err(AppError::Internal))),
            },
            AuthFlow::AwaitRefreshLookup => match event {
                Event::RefreshTokenLookup(None) => (AuthFlow::Finished, Command::Reply(Err(AppError::Unauthorized))),
                Event::RefreshTokenLookup(Some(row)) => match row.check_usable(&now) {
                    Ok((id, user_id)) => (AuthFlow::AwaitRotationRevoke { user_id }, Command::RevokeRefreshToken { id }),
                    Err(e) => (AuthFlow::Finished, Command::Reply(Err(e))),
                },
                _ => (AuthFlow::Finished, Command::Reply(Err(AppError::Internal))),
            },
            AuthFlow::AwaitRotationRevoke { user_id } => match event {
                Event::RefreshTokenRevoked => issue_step(user_id, now, secret),
                _ => (AuthFlow::Finished, Command::Reply(Err(AppError::Internal))),
            },
            AuthFlow::AwaitLogoutLookup => match event {
                Event::RefreshTokenLookup(None) => (AuthFlow::Finished, Command::Reply(Ok(Outcome::LoggedOut))),
                Event::RefreshTokenLookup(Some(row)) => (AuthFlow::AwaitLogoutRevoke, Command::RevokeRefreshToken { id: row.id }),
                _ => (AuthFlow::Finished, Command::Reply(Err(AppError::Internal))),
            },
            AuthFlow::AwaitLogoutRevoke => match event {
                Event::RefreshTokenRevoked => (AuthFlow::Finished, Command::Reply(Ok(Outcome::LoggedOut))),
                _ => (AuthFlow::Finished, Command::Reply(Err(AppError::Internal))),
            },
            AuthFlow::AwaitTokenStore { response } => match event {
                Event::RefreshTokenInserted => (AuthFlow::Finished, Command::Reply(Ok(Outcome::Tokens(response)))),
                _ => (AuthFlow::Finished, Command::Reply(Err(AppError::Internal))),
            },
            AuthFlow::Finished => (AuthFlow::Finished, Command::Reply(Err(AppError::Internal))),
        }
    }
}

} // verus!

verus! {

/// Login does not tell an unknown e-mail from a wrong password: both are
/// answered `Unauthorized`.
pub proof fn lemma_login_failures_look_alike(
    password: String,
    user: Option<UserRecord>,
    secret: Seq<char>,
    now: Timestamp,
    next: AuthFlow,
    cmd: Command,
)
    requires
        transition(AuthFlow::AwaitLoginLookup { password }, Event::UserLookup(user), secret, now, next, cmd),
        user is None || argon2_verdict(password@, user->0.password_hash@) == Some(false),
    ensures
        ends_unauthorized(next, cmd),
{
}

/// A login whose password verifies issues a token pair whenever the clock
/// reading leaves room for the expiries.
pub proof fn lemma_login_issues(
    password: String,
    user: UserRecord,
    secret: Seq<char>,
    now: Timestamp,
    next: AuthFlow,
    cmd: Command,
)
    requires
        transition(AuthFlow::AwaitLoginLookup { password }, Event::UserLookup(Some(user)), secret, now, next, cmd),
        password_matches(password@, user.password_hash@),
        issuable_at(now),
    ensures
        next is AwaitTokenStore,
        cmd matches Command::InsertRefreshToken(record) && record.user_id == user.id,
{
}

/// A token pair can be issued at exactly the well-formed clock readings whose
/// refresh expiry, 7 days (604 800 s) on, still lies in the calendar; the
/// sub-second part of the reading plays no role beyond being below a second.
pub proof fn lemma_issuable_exactly(now: Timestamp)
    ensures
        issuable_at(now) <==> (now.nanos < 1_000_000_000 && MIN_TIMESTAMP_SECS <= now.secs
            && now.secs + 604_800 <= MAX_TIMESTAMP_SECS),
{
}

/// A login whose password verifies issues a token pair at every well-formed
/// clock reading whose refresh expiry still lies in the calendar, whatever
/// its sub-second part: the refresh row of the user, expiring 7 days later.
pub proof fn lemma_login_issues_at_any_reading(
    password: String,
    user: UserRecord,
    secret: Seq<char>,
    now: Timestamp,
    next: AuthFlow,
    cmd: Command,
)
    requires
        transition(AuthFlow::AwaitLoginLookup { password }, Event::UserLookup(Some(user)), secret, now, next, cmd),
        password_matches(password@, user.password_hash@),
        now.nanos < 1_000_000_000,
        MIN_TIMESTAMP_SECS <= now.secs,
        now.secs + 604_800 <= MAX_TIMESTAMP_SECS,
    ensures
        next is AwaitTokenStore,
        cmd matches Command::InsertRefreshToken(record) && record.user_id == user.id
            && record.expires_at.secs == now.secs + 604_800 && record.expires_at.nanos == now.nanos,
{
}

/// A refresh row that is not revoked and whose expiry second is later than the
/// clock's second is usable, whatever the sub-second parts: the refresh asks
/// to revoke it and then issues for its user. One whose expiry second is
/// earlier than the clock's is refused.
pub proof fn lemma_refresh_row_usable_until_its_expiry(
    row: RefreshRecord,
    secret: Seq<char>,
    now: Timestamp,
    next: AuthFlow,
    cmd: Command,
)
    requires
        transition(AuthFlow::AwaitRefreshLookup, Event::RefreshTokenLookup(Some(row)), secret, now, next, cmd),
    ensures
        row.revoked_at is None && now.secs < row.expires_at.secs ==> (next == (AuthFlow::AwaitRotationRevoke {
            user_id: row.user_id,
        }) && cmd == (Command::RevokeRefreshToken { id: row.id })),
        row.revoked_at is None && now.secs == row.expires_at.secs && now.nanos <= row.expires_at.nanos ==> cmd == (
        Command::RevokeRefreshToken { id: row.id }),
        row.expires_at.secs < now.secs ==> ends_unauthorized(next, cmd),
{
}

/// A registration with an e-mail that is already taken is refused as a
/// conflict (answered 409), with the fixed message.
pub proof fn lemma_register_taken_email_refused(
    email: String,
    password: String,
    existing: UserRecord,
    secret: Seq<char>,
    now: Timestamp,
    next: AuthFlow,
    cmd: Command,
)
    requires
        transition(
            AuthFlow::AwaitRegisterLookup { email, password },
            Event::UserLookup(Some(existing)),
            secret,
            now,
            next,
            cmd,
        ),
    ensures
        next is Finished,
        cmd matches Command::Reply(Err(e)) && (e matches AppError::Conflict(m) && m@ == email_taken_text()),
        cmd matches Command::Reply(Err(e)) && status_of(e) == 409,
{
}

/// A registration with a new e-mail stores the user with a hash of the
/// password, for every password argon2 accepts.
pub proof fn lemma_register_new_email_stores_user(
    email: String,
    password: String,
    secret: Seq<char>,
    now: Timestamp,
    next: AuthFlow,
    cmd: Command,
)
    requires
        transition(AuthFlow::AwaitRegisterLookup { email, password }, Event::UserLookup(None), secret, now, next, cmd),
        password@.len() <= MAX_PASSWORD_CHARS,
    ensures
        next is AwaitUserInsert,
        cmd matches Command::InsertUser { email: e, password_hash: h } && e == email && password_matches(password@, h@)
            && h@.len() >= 10 && h@.subrange(0, 10) == argon2id_prefix(),
{
}

/// The access token that a login, a registration or a refresh issues decodes
/// to its user: decoded under the same secret at any second up to its expiry
/// plus the allowed skew, it gives the user's 15-minute claims.
pub proof fn lemma_issued_access_token_decodes(
    user_id: [u8; 16],
    now: Timestamp,
    secret: Seq<char>,
    next: AuthFlow,
    cmd: Command,
    later: int,
    r: Result<Claims, AuthError>,
)
    requires
        issues_for(user_id, now, secret, next, cmd),
        issuable_at(now),
        0 <= now.secs + ACCESS_TOKEN_TTL_SECS,
        later <= now.secs + ACCESS_TOKEN_TTL_SECS + JWT_LEEWAY_SECS,
        next matches AuthFlow::AwaitTokenStore { response } && decoded_as(response.access_token@, secret, later, r),
    ensures
        r == Ok::<Claims, AuthError>(access_claims(user_id, now.secs)),
        r matches Ok(c) && c.sub == user_id && c.exp - c.iat == ACCESS_TOKEN_TTL_SECS,
{
    let response = next->AwaitTokenStore_response;
    lemma_access_token_round_trip(user_id, now.secs, response.access_token@, secret, later, r);
}

/// What registration stores lets the same password log in: the stored hash
/// verifies, so a login with that password against the stored user issues a
/// token pair whenever the clock reading leaves room for the expiries.
pub proof fn lemma_register_then_login(
    email: String,
    password: String,
    secret: Seq<char>,
    now1: Timestamp,
    next1: AuthFlow,
    cmd1: Command,
    user: UserRecord,
    login_password: String,
    now2: Timestamp,
    next2: AuthFlow,
    cmd2: Command,
)
    requires
        transition(AuthFlow::AwaitRegisterLookup { email, password }, Event::UserLookup(None), secret, now1, next1, cmd1),
        cmd1 matches Command::InsertUser { password_hash, .. } && user.password_hash@ == password_hash@,
        login_password@ == password@,
        transition(AuthFlow::AwaitLoginLookup { password: login_password }, Event::UserLookup(Some(user)), secret, now2, next2, cmd2),
    ensures
        issues_for(user.id, now2, secret, next2, cmd2),
{
}

/// A revoked refresh token is refused, whatever the clock says.
pub proof fn lemma_revoked_refresh_refused(row: RefreshRecord, secret: Seq<char>, now: Timestamp, next: AuthFlow, cmd: Command)
    requires
        transition(AuthFlow::AwaitRefreshLookup, Event::RefreshTokenLookup(Some(row)), secret, now, next, cmd),
        row.revoked_at is Some,
    ensures
        ends_unauthorized(next, cmd),
{
}

/// A refresh token whose expiry lies before the clock reading is refused.
pub proof fn lemma_expired_refresh_refused(row: RefreshRecord, secret: Seq<char>, now: Timestamp, next: AuthFlow, cmd: Command)
    requires
        transition(AuthFlow::AwaitRefreshLookup, Event::RefreshTokenLookup(Some(row)), secret, now, next, cmd),
        row.expires_at.spec_before(now),
    ensures
        ends_unauthorized(next, cmd),
{
}

/// Refreshing rotates: a usable presented token (neither revoked nor expired)
/// is revoked before anything is issued, and only a usable one is.
pub proof fn lemma_refresh_revokes_before_issuing(row: RefreshRecord, secret: Seq<char>, now: Timestamp, next: AuthFlow, cmd: Command)
    requires
        transition(AuthFlow::AwaitRefreshLookup, Event::RefreshTokenLookup(Some(row)), secret, now, next, cmd),
    ensures
        row.revoked_at is None && !row.expires_at.spec_before(now) ==> (cmd == (Command::RevokeRefreshToken { id: row.id })
            && next == (AuthFlow::AwaitRotationRevoke { user_id: row.user_id })),
        !(row.revoked_at is None && !row.expires_at.spec_before(now)) ==> ends_unauthorized(next, cmd),
        !(cmd is InsertRefreshToken),
        !(cmd matches Command::Reply(Ok(_))),
{
}

/// What a lookup of the token hash `h` finds among the stored refresh rows.
pub open spec fn store_lookup(store: Map<Seq<char>, RefreshRecord>, h: Seq<char>) -> Option<RefreshRecord> {
    if store.dom().contains(h) {
        Some(store[h])
    } else {
        None
    }
}

/// The stored refresh rows after storage revokes the row `id` at `at`: that
/// row is marked revoked at `at`, every other row is unchanged.
pub open spec fn store_after_revoke(store: Map<Seq<char>, RefreshRecord>, id: [u8; 16], at: Timestamp) -> Map<
    Seq<char>,
    RefreshRecord,
> {
    store.map_values(
        |r: RefreshRecord|
            if r.id == id {
                RefreshRecord {
                    id: r.id,
                    user_id: r.user_id,
                    token_hash: r.token_hash,
                    expires_at: r.expires_at,
                    revoked_at: Some(at),
                }
            } else {
                r
            },
    )
}

/// A refresh token once rotated or logged out is never accepted again: once a
/// refresh or a logout of `token` has had storage revoke the row its lookup
/// found, a later refresh of the same token, looked up in that storage, is
/// refused whatever the clock says.
pub proof fn lemma_used_refresh_token_refused_later(
    store: Map<Seq<char>, RefreshRecord>,
    token: Seq<char>,
    start: AuthFlow,
    secret: Seq<char>,
    now1: Timestamp,
    next1: AuthFlow,
    id: [u8; 16],
    revoked_at: Timestamp,
    now2: Timestamp,
    next2: AuthFlow,
    cmd2: Command,
)
    requires
        start is AwaitRefreshLookup || start is AwaitLogoutLookup,
        transition(
            start,
            Event::RefreshTokenLookup(store_lookup(store, refresh_token_hash(token))),
            secret,
            now1,
            next1,
            Command::RevokeRefreshToken { id },
        ),
        transition(
            AuthFlow::AwaitRefreshLookup,
            Event::RefreshTokenLookup(store_lookup(store_after_revoke(store, id, revoked_at), refresh_token_hash(token))),
            secret,
            now2,
            next2,
            cmd2,
        ),
    ensures
        ends_unauthorized(next2, cmd2),
{
    let h = refresh_token_hash(token);
    assert(store.dom().contains(h));
    let row = store[h];
    assert(row.id == id);
    let after = store_after_revoke(store, id, revoked_at);
    assert(after.dom().contains(h));
    assert(after[h].revoked_at is Some);
}

/// Tokens are handed out only once their refresh row is stored: every
/// successful answer carrying tokens comes from the store step.
pub proof fn lemma_tokens_answered_after_store(
    state: AuthFlow,
    event: Event,
    secret: Seq<char>,
    now: Timestamp,
    next: AuthFlow,
    response: TokenResponse,
)
    requires
        transition(state, event, secret, now, next, Command::Reply(Ok(Outcome::Tokens(response)))),
    ensures
        state == (AuthFlow::AwaitTokenStore { response }),
        event is RefreshTokenInserted,
{
}

/// The refresh token given to the client finds its stored row: the row keeps
/// the hash that a later refresh or logout with that token looks up, the
/// token is 64 hexadecimal characters, the access token signs the user's
/// 15-minute claims, and the row expires 7 days after issue.
pub proof fn lemma_issued_refresh_token_found(user_id: [u8; 16], now: Timestamp, secret: Seq<char>, next: AuthFlow, cmd: Command)
    requires
        issues_for(user_id, now, secret, next, cmd),
        issuable_at(now),
    ensures
        next is AwaitTokenStore,
        cmd matches Command::InsertRefreshToken(record) && {
            let response = next->AwaitTokenStore_response;
            &&& record.token_hash@ == refresh_token_hash(response.refresh_token@)
            &&& record.user_id == user_id
            &&& is_hex64(response.refresh_token@)
            &&& response.access_token@ == hs256_jwt(claims_json(access_claims(user_id, now.secs)), secret)
            &&& record.expires_at.secs == now.secs + REFRESH_TTL_DAYS * SECS_PER_DAY
            &&& record.expires_at.nanos == now.nanos
        },
{
}

/// Logging out succeeds whether or not the token is known (when storage works).
pub proof fn lemma_logout_unknown_token_ok(secret: Seq<char>, now: Timestamp, next: AuthFlow, cmd: Command)
    requires
        transition(AuthFlow::AwaitLogoutLookup, Event::RefreshTokenLookup(None), secret, now, next, cmd),
    ensures
        ends_ok(next, cmd, Outcome::LoggedOut),
{
}

/// A finished flow stays finished.
pub proof fn lemma_finished_stays_finished(event: Event, secret: Seq<char>, now: Timestamp, next: AuthFlow, cmd: Command)
    requires
        transition(AuthFlow::Finished, event, secret, now, next, cmd),
    ensures
        next is Finished,
{
}

} // verus!
