use vstd::prelude::*;
use validator::ValidateEmail;
use crate::error::AppError;

verus! {

/// One broken rule: the field and the message of the rule.
#[derive(Debug, Clone, Copy)]
pub struct FieldViolation {
    pub field: &'static str,
    pub message: &'static str,
}

/// The broken rules of a request, in the order of the request's fields.
#[derive(Debug)]
pub struct ValidationErrors {
    pub violations: Vec<FieldViolation>,
}

/// Is the text an e-mail address by the HTML5 rules (local part of at most 64
/// characters from the allowed set, domain of at most 255 characters made of
/// labels or an address literal, internationalised domains accepted)?
pub uninterp spec fn valid_email(s: Seq<char>) -> bool;

/// E-mail check of the `validator` crate (`ValidateEmail::validate_email` on a
/// `String`). Claimed: the answer is the named function of the text.
#[verifier::external_body]
pub(crate) fn email_is_valid(s: &String) -> (b: bool)
    ensures
        b == valid_email(s@),
{
    s.validate_email()
}

/// The line for one broken rule: `field: message`.
pub open spec fn violation_line(v: FieldViolation) -> Seq<char> {
    v.field@ + ": "@ + v.message@
}

/// The lines of all broken rules, separated by line breaks.
pub open spec fn violations_text(vs: Seq<FieldViolation>) -> Seq<char>
    decreases vs.len(),
{
    if vs.len() == 0 {
        Seq::empty()
    } else if vs.len() == 1 {
        violation_line(vs[0])
    } else {
        violations_text(vs.drop_last()) + "\n"@ + violation_line(vs.last())
    }
}

impl ValidationErrors {
    /// The text reported to the client: one `field: message` line per broken rule.
    pub fn to_message(&self) -> (m: String)
        ensures
            m@ == violations_text(self.violations@),
    {
        let mut m = String::new();
        let mut i: usize = 0;
        while i < self.violations.len()
            invariant
                0 <= i <= self.violations@.len(),
                m@ == violations_text(self.violations@.subrange(0, i as int)),
            decreases self.violations@.len() - i,
        {
            let v = self.violations[i];
            proof {
                assert(self.violations@.subrange(0, i + 1).drop_last() =~= self.violations@.subrange(0, i as int));
            }
            if i > 0 {
                m.append("\n");
            }
            m.append(v.field);
            m.append(": ");
            m.append(v.message);
            i = i + 1;
        }
        assert(self.violations@.subrange(0, self.violations@.len() as int) =~= self.violations@);
        m
    }

    /// The error answered for a rejected request: invalid input, with the broken rules as message.
    pub fn into_app_error(self) -> (e: AppError)
        ensures
            e matches AppError::InvalidInput(m) && m@ == violations_text(self.violations@),
    {
        AppError::InvalidInput(self.to_message())
    }
}

} // verus!
