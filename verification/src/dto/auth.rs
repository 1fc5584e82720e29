use vstd::prelude::*;
use crate::clock::Timestamp;
use crate::role::Role;
use crate::dto::validation::{email_is_valid, valid_email, FieldViolation, ValidationErrors};

verus! {

/// Minimum number of characters of a password.
pub const MIN_PASSWORD_CHARS: usize = 8;

/// What a client sends to register.
pub struct RegisterRequest {
    pub email: String,
    pub password: String,
}

/// What a client sends to log in.
pub struct LoginRequest {
    pub email: String,
    pub password: String,
}

/// What a client gets back: never the hash, never the password.
pub struct TokenResponse {
    pub access_token: String,
    pub refresh_token: String,
    /// Always "Bearer".
    pub token_type: String,
}

/// What a client sends to refresh or end its session.
pub struct RefreshRequest {
    pub refresh_token: String,
}

/// One organisation of the current user, with the user's role in it.
pub struct MembershipResponse {
    pub org_id: [u8; 16],
    pub name: String,
    pub role: Role,
}

/// The current user's profile and organisations: never the hash.
pub struct MeResponse {
    pub id: [u8; 16],
    pub email: String,
    pub created_at: Timestamp,
    pub organizations: Vec<MembershipResponse>,
}

/// The public view of a user.
pub struct UserResponse {
    pub id: [u8; 16],
    pub email: String,
    pub created_at: Timestamp,
}

/// The rule of the e-mail field.
pub open spec fn email_rule() -> FieldViolation {
    FieldViolation { field: "email", message: "email invalide" }
}

/// The rule of the password field.
pub open spec fn password_rule() -> FieldViolation {
    FieldViolation { field: "password", message: "mot de passe : 8 caractères minimum" }
}

/// The broken rules of a registration, e-mail first.
pub open spec fn register_violations(email: Seq<char>, password: Seq<char>) -> Seq<FieldViolation> {
    let e = if valid_email(email) { Seq::empty() } else { seq![email_rule()] };
    let p = if password.len() >= MIN_PASSWORD_CHARS { Seq::empty() } else { seq![password_rule()] };
    e + p
}

/// The password rule is broken exactly by a password of fewer than 8
/// characters: any longer password passes it, and with a valid e-mail the
/// registration has no broken rule at all.
pub proof fn lemma_password_rule_exact(email: Seq<char>, password: Seq<char>)
    ensures
        register_violations(email, password).contains(password_rule()) <==> password.len() < 8,
        valid_email(email) && password.len() >= 8 ==> register_violations(email, password).len() == 0,
        !valid_email(email) ==> register_violations(email, password).contains(email_rule()),
{
    reveal_strlit("email");
    reveal_strlit("password");
    let v = register_violations(email, password);
    assert(email_rule().field@[0] != password_rule().field@[0]);
    if password.len() < 8 {
        assert(v[v.len() - 1] == password_rule());
    } else {
        if v.contains(password_rule()) {
            let i = choose|i: int| 0 <= i < v.len() && v[i] == password_rule();
            assert(v[i] == email_rule());
        }
    }
    if !valid_email(email) {
        assert(v[0] == email_rule());
    }
}

impl RegisterRequest {
    /// Checks the rules: a valid e-mail address and a password of at least 8 characters.
    pub fn validate(&self) -> (r: Result<(), ValidationErrors>)
        ensures
            r is Ok <==> register_violations(self.email@, self.password@).len() == 0,
            r matches Err(e) ==> e.violations@ == register_violations(self.email@, self.password@),
            valid_email(self.email@) && self.password@.len() >= 8 ==> r is Ok,
            self.password@.len() < 8 ==> (r matches Err(e) && e.violations@.contains(password_rule())),
            self.password@.len() >= 8 ==> (r matches Err(e) ==> !e.violations@.contains(password_rule())),
    {
        let mut violations: Vec<FieldViolation> = Vec::new();
        if !email_is_valid(&self.email) {
            violations.push(FieldViolation { field: "email", message: "email invalide" });
        }
        if self.password.as_str().unicode_len() < MIN_PASSWORD_CHARS {
            violations.push(FieldViolation { field: "password", message: "mot de passe : 8 caractères minimum" });
        }
        assert(violations@ =~= register_violations(self.email@, self.password@));
        proof {
            lemma_password_rule_exact(self.email@, self.password@);
        }
        if violations.len() == 0 {
            Ok(())
        } else {
            Err(ValidationErrors { violations })
        }
    }
}

impl TokenResponse {
    /// A token pair of the "Bearer" type.
    pub fn bearer(access_token: String, refresh_token: String) -> (t: TokenResponse)
        ensures
            t.access_token == access_token,
            t.refresh_token == refresh_token,
            t.token_type@ == "Bearer"@,
    {
        TokenResponse { access_token, refresh_token, token_type: String::from_str("Bearer") }
    }
}

} // verus!
