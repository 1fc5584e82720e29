use vstd::prelude::*;
use crate::dto::validation::{FieldViolation, ValidationErrors};

verus! {

/// Largest number of characters of an organisation name.
pub const MAX_ORG_NAME_CHARS: usize = 100;

/// What a client sends to create an organisation.
pub struct CreateOrgRequest {
    pub name: String,
}

/// The public view of an organisation.
pub struct OrgResponse {
    pub id: [u8; 16],
    pub name: String,
}

/// Is the organisation name between 1 and 100 characters?
pub open spec fn org_name_ok(name: Seq<char>) -> bool {
    1 <= name.len() <= MAX_ORG_NAME_CHARS
}

/// The rule of the name field.
pub open spec fn org_name_rule() -> FieldViolation {
    FieldViolation { field: "name", message: "nom : 1 à 100 caractères" }
}

/// An organisation name is accepted exactly when it has 1 to 100 characters,
/// whatever those characters are.
pub proof fn lemma_org_name_by_length_only(name: Seq<char>, other: Seq<char>)
    ensures
        org_name_ok(name) <==> 1 <= name.len() <= 100,
        name.len() == other.len() ==> (org_name_ok(name) <==> org_name_ok(other)),
{
}

impl CreateOrgRequest {
    /// Checks the rule: a name of 1 to 100 characters.
    pub fn validate(&self) -> (r: Result<(), ValidationErrors>)
        ensures
            r is Ok <==> org_name_ok(self.name@),
            r is Ok <==> 1 <= self.name@.len() <= 100,
            r matches Err(e) ==> e.violations@ == seq![org_name_rule()],
    {
        let n = self.name.as_str().unicode_len();
        if 1 <= n && n <= MAX_ORG_NAME_CHARS {
            Ok(())
        } else {
            let mut violations: Vec<FieldViolation> = Vec::new();
            violations.push(FieldViolation { field: "name", message: "nom : 1 à 100 caractères" });
            assert(violations@ =~= seq![org_name_rule()]);
            Err(ValidationErrors { violations })
        }
    }
}

} // verus!
