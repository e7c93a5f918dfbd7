//! Validation of input fields.
use vstd::prelude::*;
use crate::errors::{DomainError, DomainResult};

verus! {

/// What `str::trim` leaves of a text: leading and trailing white space removed.
pub uninterp spec fn trimmed(s: Seq<char>) -> Seq<char>;

/// Relies on str::trim: the text without leading and trailing white space.
#[verifier::external_body]
fn trim(s: &str) -> (r: &str)
    ensures
        r@ == trimmed(s@),
{
    s.trim()
}

/// The message of a blank field.
pub open spec fn blank_message(field: Seq<char>) -> Seq<char> {
    field + " can't be empty"@
}

/// Fails with a validation error naming `field` when `trimmed_value` is empty.
pub fn require_content(trimmed_value: &str, field: &str) -> (r: DomainResult<()>)
    ensures
        r is Ok <==> trimmed_value@.len() > 0,
        r is Err ==> (r matches Err(DomainError::Validation(m)) && m@ == blank_message(field@)),
{
    if trimmed_value.is_empty() {
        let mut m = field.to_owned();
        m.append(" can't be empty");
        Err(DomainError::Validation(m))
    } else {
        Ok(())
    }
}

/// Fails with a validation error naming `field` when `value` holds nothing but
/// white space.
pub fn ensure_not_empty(value: &str, field: &str) -> (r: DomainResult<()>)
    ensures
        r is Ok <==> trimmed(value@).len() > 0,
        r is Err ==> (r matches Err(DomainError::Validation(m)) && m@ == blank_message(field@)),
{
    require_content(trim(value), field)
}

} // verus!
