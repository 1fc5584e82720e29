use lodestone::clock::Timestamp;
use lodestone::jwt::decode_access_token_at;
use lodestone::services::auth::issue_tokens;
use lodestone::error::AppError;
use lodestone::password::{hash_password, verify_password};
use lodestone::refresh::hash_refresh_token;
use lodestone::role::Role;
use lodestone::services::auth::{AuthFlow, Command, Event, Outcome, RefreshRecord, UserRecord};
use lodestone::services::organizations::{OrgCommand, OrgCreation, OrgEvent, OrgRecord};

const SECRET: &str = "test-secret";

fn user(id: u8, hash: &str) -> UserRecord {
    UserRecord {
        id: [id; 16],
        email: "alice@example.com".to_string(),
        password_hash: hash.to_string(),
        created_at: Timestamp { secs: 1, nanos: 0 },
    }
}

fn now() -> Timestamp {
    Timestamp { secs: 1_700_000_000, nanos: 0 }
}

fn far_future() -> Timestamp {
    Timestamp { secs: 4_000_000_000, nanos: 0 }
}

fn row(revoked: bool, expires_at: Timestamp) -> RefreshRecord {
    RefreshRecord {
        id: [9; 16],
        user_id: [3; 16],
        token_hash: "h".to_string(),
        expires_at,
        revoked_at: if revoked { Some(Timestamp { secs: 2, nanos: 0 }) } else { None },
    }
}

#[test]
fn register_flow_issues_tokens_and_stores_only_hashes() {
    let (flow, cmd) = AuthFlow::register("alice@example.com".to_string(), "motdepasse".to_string());
    assert!(matches!(cmd, Command::FindUserByEmail { ref email } if email == "alice@example.com"));
    let (flow, cmd) = flow.step(Event::UserLookup(None), SECRET, now());
    let hash = match cmd {
        Command::InsertUser { email, password_hash } => {
            assert_eq!(email, "alice@example.com");
            assert_ne!(password_hash, "motdepasse");
            password_hash
        }
        _ => panic!("expected user insertion"),
    };
    assert!(verify_password("motdepasse", &hash).unwrap());
    let (flow, cmd) = flow.step(Event::UserInserted(user(1, &hash)), SECRET, now());
    let stored_hash = match cmd {
        Command::InsertRefreshToken(rec) => {
            assert_eq!(rec.user_id, [1; 16]);
            rec.token_hash
        }
        _ => panic!("expected refresh token storage"),
    };
    let (flow, cmd) = flow.step(Event::RefreshTokenInserted, SECRET, now());
    assert!(matches!(flow, AuthFlow::Finished));
    match cmd {
        Command::Reply(Ok(Outcome::Tokens(t))) => {
            assert_eq!(t.token_type, "Bearer");
            assert_eq!(hash_refresh_token(&t.refresh_token), stored_hash);
            let (_, lookup) = AuthFlow::refresh(&t.refresh_token);
            assert!(matches!(lookup, Command::FindRefreshToken { token_hash } if token_hash == stored_hash));
        }
        _ => panic!("expected tokens"),
    }
}

#[test]
fn register_with_taken_email_is_refused() {
    let (flow, _) = AuthFlow::register("alice@example.com".to_string(), "motdepasse".to_string());
    let (flow, cmd) = flow.step(Event::UserLookup(Some(user(1, "x"))), SECRET, now());
    assert!(matches!(flow, AuthFlow::Finished));
    assert!(matches!(cmd, Command::Reply(Err(AppError::Conflict(ref m))) if m == "cet email est déjà utilisé"));
    match cmd {
        Command::Reply(Err(e)) => assert_eq!(e.status_code(), 409),
        _ => panic!("expected a refusal"),
    }
}

#[test]
fn login_flow() {
    let hash = hash_password("motdepasse").unwrap();
    let (flow, _) = AuthFlow::login("alice@example.com".to_string(), "motdepasse".to_string());
    let (flow, cmd) = flow.step(Event::UserLookup(Some(user(4, &hash))), SECRET, now());
    assert!(matches!(flow, AuthFlow::AwaitTokenStore { .. }));
    assert!(matches!(cmd, Command::InsertRefreshToken(ref r) if r.user_id == [4; 16]));

    let (flow, _) = AuthFlow::login("alice@example.com".to_string(), "mauvais".to_string());
    let (_, cmd) = flow.step(Event::UserLookup(Some(user(4, &hash))), SECRET, now());
    assert!(matches!(cmd, Command::Reply(Err(AppError::Unauthorized))));

    let (flow, _) = AuthFlow::login("nobody@example.com".to_string(), "motdepasse".to_string());
    let (_, cmd) = flow.step(Event::UserLookup(None), SECRET, now());
    assert!(matches!(cmd, Command::Reply(Err(AppError::Unauthorized))));

    let (flow, _) = AuthFlow::login("alice@example.com".to_string(), "motdepasse".to_string());
    let (_, cmd) = flow.step(Event::UserLookup(Some(user(4, "corrupt"))), SECRET, now());
    assert!(matches!(cmd, Command::Reply(Err(AppError::Internal))));
}

#[test]
fn refresh_flow_rotates_and_refuses_used_tokens() {
    let (flow, cmd) = AuthFlow::refresh("presented");
    assert!(matches!(cmd, Command::FindRefreshToken { ref token_hash } if *token_hash == hash_refresh_token("presented")));
    let (flow, cmd) = flow.step(Event::RefreshTokenLookup(Some(row(false, far_future()))), SECRET, now());
    assert!(matches!(cmd, Command::RevokeRefreshToken { id } if id == [9; 16]));
    let (flow, cmd) = flow.step(Event::RefreshTokenRevoked, SECRET, now());
    assert!(matches!(cmd, Command::InsertRefreshToken(ref r) if r.user_id == [3; 16]));
    let (_, cmd) = flow.step(Event::RefreshTokenInserted, SECRET, now());
    assert!(matches!(cmd, Command::Reply(Ok(Outcome::Tokens(_)))));

    let (flow, _) = AuthFlow::refresh("presented");
    let (_, cmd) = flow.step(Event::RefreshTokenLookup(Some(row(true, far_future()))), SECRET, now());
    assert!(matches!(cmd, Command::Reply(Err(AppError::Unauthorized))));

    let (flow, _) = AuthFlow::refresh("presented");
    let (_, cmd) = flow.step(Event::RefreshTokenLookup(Some(row(false, Timestamp { secs: 1000, nanos: 0 }))), SECRET, now());
    assert!(matches!(cmd, Command::Reply(Err(AppError::Unauthorized))));

    let (flow, _) = AuthFlow::refresh("unknown");
    let (_, cmd) = flow.step(Event::RefreshTokenLookup(None), SECRET, now());
    assert!(matches!(cmd, Command::Reply(Err(AppError::Unauthorized))));
}

#[test]
fn refresh_row_usable_check() {
    let now = Timestamp { secs: 100, nanos: 5 };
    assert_eq!(row(false, Timestamp { secs: 100, nanos: 5 }).check_usable(&now).ok(), Some(([9; 16], [3; 16])));
    assert!(row(false, Timestamp { secs: 100, nanos: 4 }).check_usable(&now).is_err());
    assert!(row(true, Timestamp { secs: 200, nanos: 0 }).check_usable(&now).is_err());
}

#[test]
fn logout_flow_is_silent() {
    let (flow, _) = AuthFlow::logout("unknown");
    let (_, cmd) = flow.step(Event::RefreshTokenLookup(None), SECRET, now());
    assert!(matches!(cmd, Command::Reply(Ok(Outcome::LoggedOut))));
    let (flow, _) = AuthFlow::logout("known");
    let (flow, cmd) = flow.step(Event::RefreshTokenLookup(Some(row(false, far_future()))), SECRET, now());
    assert!(matches!(cmd, Command::RevokeRefreshToken { id } if id == [9; 16]));
    let (_, cmd) = flow.step(Event::RefreshTokenRevoked, SECRET, now());
    assert!(matches!(cmd, Command::Reply(Ok(Outcome::LoggedOut))));
}

#[test]
fn storage_failures_and_stray_events() {
    let (flow, _) = AuthFlow::logout("x");
    let (flow, cmd) = flow.step(Event::StorageFailed("down".to_string()), SECRET, now());
    assert!(matches!(cmd, Command::Reply(Err(AppError::Database(ref m))) if m == "down"));
    let (_, cmd) = flow.step(Event::RefreshTokenRevoked, SECRET, now());
    assert!(matches!(cmd, Command::Reply(Err(AppError::Internal))));
    let (flow, _) = AuthFlow::refresh("x");
    let (_, cmd) = flow.step(Event::RefreshTokenInserted, SECRET, now());
    assert!(matches!(cmd, Command::Reply(Err(AppError::Internal))));
}

#[test]
fn org_creation_makes_creator_owner() {
    let (flow, cmd) = OrgCreation::start([5; 16], "Acme".to_string());
    assert!(matches!(cmd, OrgCommand::BeginTransaction));
    let (flow, cmd) = flow.step(OrgEvent::TransactionBegun);
    assert!(matches!(cmd, OrgCommand::InsertOrganization { ref name } if name == "Acme"));
    let org = OrgRecord { id: [6; 16], name: "Acme".to_string() };
    let (flow, cmd) = flow.step(OrgEvent::OrganizationInserted(org));
    match cmd {
        OrgCommand::InsertMembership(m) => {
            assert_eq!(m.user_id, [5; 16]);
            assert_eq!(m.org_id, [6; 16]);
            assert_eq!(m.role, Role::Owner);
            assert_eq!(m.role.as_str(), "owner");
        }
        _ => panic!("expected membership"),
    }
    let (flow, cmd) = flow.step(OrgEvent::MembershipInserted);
    assert!(matches!(cmd, OrgCommand::Commit));
    let (_, cmd) = flow.step(OrgEvent::Committed);
    assert!(matches!(cmd, OrgCommand::Reply(Ok(ref o)) if o.id == [6; 16]));

    let (flow, _) = OrgCreation::start([5; 16], "Acme".to_string());
    let (flow, _) = flow.step(OrgEvent::TransactionBegun);
    let (_, cmd) = flow.step(OrgEvent::StorageFailed("unique violation".to_string()));
    assert!(matches!(cmd, OrgCommand::Reply(Err(AppError::Database(_)))));
}

#[test]
fn issued_access_token_decodes_to_its_user() {
    let t = issue_tokens([8; 16], now(), SECRET).ok().unwrap();
    let c = decode_access_token_at(&t.response.access_token, SECRET, 1_700_000_100).ok().unwrap();
    assert_eq!(c.sub, [8; 16]);
    assert_eq!(c.iat, 1_700_000_000);
    assert_eq!(c.exp, 1_700_000_900);
    assert_eq!(t.response.refresh_token.len(), 64);
}

#[test]
fn no_tokens_past_the_calendar() {
    let late = Timestamp { secs: 8_210_266_876_000, nanos: 0 };
    assert!(matches!(issue_tokens([8; 16], late, SECRET), Err(AppError::Internal)));
    let (flow, _) = AuthFlow::login("alice@example.com".to_string(), "motdepasse".to_string());
    let hash = hash_password("motdepasse").unwrap();
    let (_, cmd) = flow.step(Event::UserLookup(Some(user(4, &hash))), SECRET, late);
    assert!(matches!(cmd, Command::Reply(Err(AppError::Internal))));
}

#[test]
fn refresh_judged_against_the_given_clock() {
    let expiry = Timestamp { secs: 2_000_000_000, nanos: 0 };
    let (flow, _) = AuthFlow::refresh("presented");
    let (_, cmd) = flow.step(Event::RefreshTokenLookup(Some(row(false, expiry))), SECRET, now());
    assert!(matches!(cmd, Command::RevokeRefreshToken { .. }));
    let (flow, _) = AuthFlow::refresh("presented");
    let after = Timestamp { secs: 2_000_000_001, nanos: 0 };
    let (_, cmd) = flow.step(Event::RefreshTokenLookup(Some(row(false, expiry))), SECRET, after);
    assert!(matches!(cmd, Command::Reply(Err(AppError::Unauthorized))));
}

fn revoked_by(cmd: Command, mut stored: RefreshRecord, at: Timestamp) -> RefreshRecord {
    match cmd {
        Command::RevokeRefreshToken { id } => {
            if stored.id == id {
                stored.revoked_at = Some(at);
            }
            stored
        }
        _ => panic!("expected a revocation"),
    }
}

#[test]
fn a_used_refresh_token_is_refused_afterwards() {
    let (flow, _) = AuthFlow::refresh("presented");
    let (_, cmd) = flow.step(Event::RefreshTokenLookup(Some(row(false, far_future()))), SECRET, now());
    let stored = revoked_by(cmd, row(false, far_future()), now());
    let (flow, _) = AuthFlow::refresh("presented");
    let (_, cmd) = flow.step(Event::RefreshTokenLookup(Some(stored)), SECRET, now());
    assert!(matches!(cmd, Command::Reply(Err(AppError::Unauthorized))));

    let (flow, _) = AuthFlow::logout("presented");
    let (_, cmd) = flow.step(Event::RefreshTokenLookup(Some(row(false, far_future()))), SECRET, now());
    let stored = revoked_by(cmd, row(false, far_future()), now());
    let (flow, _) = AuthFlow::refresh("presented");
    let (_, cmd) = flow.step(Event::RefreshTokenLookup(Some(stored)), SECRET, now());
    assert!(matches!(cmd, Command::Reply(Err(AppError::Unauthorized))));
}
