use vstd::prelude::*;

verus! {

/// A member's role inside an organisation.
#[derive(Debug, Clone, Copy, PartialEq, Eq, Structural)]
pub enum Role {
    Owner,
    Admin,
    Member,
}

/// The text stored in the database for a role.
pub open spec fn role_text(r: Role) -> Seq<char> {
    match r {
        Role::Owner => "owner"@,
        Role::Admin => "admin"@,
        Role::Member => "member"@,
    }
}

/// The level of a role in the hierarchy owner > admin > member.
pub open spec fn role_rank(r: Role) -> nat {
    match r {
        Role::Owner => 3,
        Role::Admin => 2,
        Role::Member => 1,
    }
}

impl Role {
    /// Text stored in the database column.
    pub fn as_str(&self) -> (s: &'static str)
        ensures
            s@ == role_text(*self),
    {
        match self {
            Role::Owner => "owner",
            Role::Admin => "admin",
            Role::Member => "member",
        }
    }

    /// The role stored as `s`; `None` for a text that names no role.
    pub fn from_text(s: &str) -> (r: Option<Role>)
        ensures
            r matches Some(x) ==> role_text(x) == s@,
            forall|x: Role| #[trigger] role_text(x) == s@ ==> r == Some(x),
    {
        proof {
            assert forall|x: Role, y: Role| #![trigger role_text(x), role_text(y)] role_text(x) == role_text(y) implies x == y by {
                lemma_role_text_injective(x, y);
            }
        }
        let t = s.to_owned();
        if t == String::from_str("owner") {
            assert(role_text(Role::Owner) == s@);
            Some(Role::Owner)
        } else if t == String::from_str("admin") {
            assert(role_text(Role::Admin) == s@);
            Some(Role::Admin)
        } else if t == String::from_str("member") {
            assert(role_text(Role::Member) == s@);
            Some(Role::Member)
        } else {
            assert forall|x: Role| #[trigger] role_text(x) != s@ by {
                match x {
                    Role::Owner => assert(role_text(x) == "owner"@),
                    Role::Admin => assert(role_text(x) == "admin"@),
                    Role::Member => assert(role_text(x) == "member"@),
                }
            }
            None
        }
    }

    /// Hierarchy: owner > admin > member.
    pub fn rank(&self) -> (r: u8)
        ensures
            r == role_rank(*self),
    {
        match self {
            Role::Owner => 3,
            Role::Admin => 2,
            Role::Member => 1,
        }
    }

    /// Does this role reach at least the `required` level?
    pub fn at_least(&self, required: Role) -> (b: bool)
        ensures
            b == (role_rank(*self) >= role_rank(required)),
    {
        self.rank() >= required.rank()
    }
}

/// `at_least` is reflexive: every role reaches its own level.
pub proof fn lemma_at_least_reflexive(r: Role)
    ensures
        role_rank(r) >= role_rank(r),
{
}

/// `at_least` is transitive.
pub proof fn lemma_at_least_transitive(a: Role, b: Role, c: Role)
    requires
        role_rank(a) >= role_rank(b),
        role_rank(b) >= role_rank(c),
    ensures
        role_rank(a) >= role_rank(c),
{
}

/// Any two roles are comparable.
pub proof fn lemma_at_least_total(a: Role, b: Role)
    ensures
        role_rank(a) >= role_rank(b) || role_rank(b) >= role_rank(a),
{
}

/// Two roles that each reach the other's level are the same role.
pub proof fn lemma_at_least_antisymmetric(a: Role, b: Role)
    requires
        role_rank(a) >= role_rank(b),
        role_rank(b) >= role_rank(a),
    ensures
        a == b,
{
}

/// An owner reaches every level, and every role reaches the member level.
pub proof fn lemma_owner_top_member_bottom(r: Role)
    ensures
        role_rank(Role::Owner) >= role_rank(r),
        role_rank(r) >= role_rank(Role::Member),
{
}

/// Distinct roles are stored as distinct texts, so the stored text identifies the role.
pub proof fn lemma_role_text_injective(a: Role, b: Role)
    requires
        role_text(a) == role_text(b),
    ensures
        a == b,
{
    reveal_strlit("owner");
    reveal_strlit("admin");
    reveal_strlit("member");
    assert("owner"@[0] == 'o' && "admin"@[0] == 'a' && "member"@[0] == 'm');
    if a != b {
        assert(role_text(a)[0] != role_text(b)[0]);
    }
}

} // verus!
