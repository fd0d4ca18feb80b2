//! Validated, lowercase-normalized email address value object.

use vstd::prelude::*;

use crate::error::DomainError;
use crate::text::{contains_char, lower_of, to_lowercase};

verus! {

/// An email address accepted by `Email::new`: non-empty and holding at
/// least one `'@'` and one `'.'`, stored lowercase-folded.
#[derive(Debug)]
pub struct Email(String);

impl View for Email {
    type V = Seq<char>;

    closed spec fn view(&self) -> Seq<char> {
        self.0@
    }
}

/// The inputs on which `Email::new` succeeds.
pub open spec fn valid_email_input(s: Seq<char>) -> bool {
    s.len() > 0 && s.contains('@') && s.contains('.')
}

impl Email {
    /// Validates and normalizes an address: rejects the empty string and
    /// any string without both `'@'` and `'.'`; stores the lowercase
    /// folding of an accepted one.
    pub fn new(email: &str) -> (r: Result<Email, DomainError>)
        ensures
            r is Ok <==> valid_email_input(email@),
            r matches Ok(e) ==> e@ == lower_of(email@),
            email@.len() == 0 ==> (r matches Err(e)
                && e matches DomainError::ValidationError(m)
                && m@ == "Email cannot be empty"@),
            email@.len() > 0 && !valid_email_input(email@) ==> (r matches Err(e)
                && e matches DomainError::ValidationError(m)
                && m@ == "Invalid email format"@),
    {
        if email.unicode_len() == 0 {
            return Err(DomainError::ValidationError(
                String::from_str("Email cannot be empty"),
            ));
        }

        if !contains_char(email, '@') || !contains_char(email, '.') {
            return Err(DomainError::ValidationError(
                String::from_str("Invalid email format"),
            ));
        }

        Ok(Email(to_lowercase(email)))
    }

    pub fn as_str(&self) -> (r: &str)
        ensures
            r@ == self@,
    {
        self.0.as_str()
    }
}

impl Clone for Email {
    fn clone(&self) -> (r: Self)
        ensures
            r@ == self@,
    {
        Email(self.0.clone())
    }
}

impl PartialEq for Email {
    fn eq(&self, other: &Email) -> (r: bool) {
        self.0 == other.0
    }
}

impl vstd::std_specs::cmp::PartialEqSpecImpl for Email {
    open spec fn obeys_eq_spec() -> bool {
        true
    }

    open spec fn eq_spec(&self, other: &Email) -> bool {
        self@ == other@
    }
}

} // verus!
