use lodestone::error::{AppError, AuthError};
use lodestone::handlers::{me_response, readiness};
use lodestone::clock::Timestamp;
use lodestone::role::Role;
use lodestone::services::auth::UserRecord;
use lodestone::services::organizations::{MembershipRow, OrgRecord};

#[test]
fn error_statuses_and_messages() {
    let cases: Vec<(AppError, u16, &str, bool)> = vec![
        (AppError::NotFound, 404, "Not found", false),
        (AppError::InvalidInput("exemple".to_string()), 400, "exemple", false),
        (AppError::Conflict("cet email est déjà utilisé".to_string()), 409, "cet email est déjà utilisé", false),
        (AppError::Unauthorized, 401, "Unauthorized", false),
        (AppError::Internal, 500, "Internal server error", false),
        (AppError::Database("connection refused".to_string()), 500, "Database error", true),
        (AppError::Jwt(AuthError::Hash), 500, "Erreur interne", true),
    ];
    for (e, code, msg, logged) in cases {
        assert_eq!(e.status_code(), code);
        assert_eq!(e.public_message(), msg);
        assert_eq!(e.should_log(), logged);
    }
}

#[test]
fn auth_error_messages() {
    assert_eq!(AuthError::Hash.message(), "échec de hachage du mot de passe");
    assert_eq!(AuthError::InvalidHash.message(), "format de hash invalide");
    assert_eq!(AuthError::ExpiryOutOfRange.message(), "date d'expiration hors calendrier");
}

#[test]
fn readiness_answers() {
    let up = readiness(true);
    assert_eq!((up.status_code, up.status, up.db), (200, "ready", "up"));
    let down = readiness(false);
    assert_eq!((down.status_code, down.status, down.db), (503, "degraded", "down"));
}

#[test]
fn me_of_a_deleted_user_is_unauthorized() {
    assert!(matches!(me_response(None, &vec![]), Err(AppError::Unauthorized)));
    let u = UserRecord {
        id: [7; 16],
        email: "a@b.c".to_string(),
        password_hash: "$argon2id$...".to_string(),
        created_at: Timestamp { secs: 10, nanos: 0 },
    };
    let p = me_response(Some(u), &vec![]).ok().unwrap();
    assert_eq!(p.id, [7; 16]);
    assert_eq!(p.email, "a@b.c");
    assert_eq!(p.created_at, Timestamp { secs: 10, nanos: 0 });
    assert!(p.organizations.is_empty());
}

fn sample_user() -> UserRecord {
    UserRecord {
        id: [7; 16],
        email: "a@b.c".to_string(),
        password_hash: "$argon2id$...".to_string(),
        created_at: Timestamp { secs: 10, nanos: 0 },
    }
}

fn row(id: u8, name: &str, role: &str) -> MembershipRow {
    MembershipRow { org: OrgRecord { id: [id; 16], name: name.to_string() }, role: role.to_string() }
}

#[test]
fn me_lists_organisations_with_roles() {
    let rows = vec![row(1, "Acme", "owner"), row(2, "Globex", "member"), row(3, "Initech", "admin")];
    let p = me_response(Some(sample_user()), &rows).ok().unwrap();
    assert_eq!(p.organizations.len(), 3);
    assert_eq!(p.organizations[0].org_id, [1; 16]);
    assert_eq!(p.organizations[0].name, "Acme");
    assert_eq!(p.organizations[0].role, Role::Owner);
    assert_eq!(p.organizations[1].role, Role::Member);
    assert_eq!(p.organizations[2].role, Role::Admin);
    assert_eq!(p.organizations[2].name, "Initech");
    let bad = vec![row(1, "Acme", "owner"), row(2, "Globex", "superuser")];
    assert!(matches!(me_response(Some(sample_user()), &bad), Err(AppError::Internal)));
}

#[test]
fn timestamps_compare_and_stop_at_calendar_end() {
    let a = Timestamp { secs: 5, nanos: 10 };
    let b = Timestamp { secs: 5, nanos: 11 };
    assert!(a.is_before(&b));
    assert!(!b.is_before(&a));
    assert!(!a.is_before(&a));
    assert_eq!(a.checked_plus_secs(604_800), Some(Timestamp { secs: 604_805, nanos: 10 }));
    let end = Timestamp { secs: 8_210_266_876_799, nanos: 0 };
    assert_eq!(end.checked_plus_secs(1), None);
    let start = Timestamp { secs: -8_334_601_315_200, nanos: 0 };
    assert_eq!(start.checked_plus_secs(-1), None);
    assert_eq!(start.checked_plus_secs(0), Some(start));
    assert_eq!(a.checked_plus_secs(i64::MAX), None);
}
