//! Rules on identifiers, names and descriptions, shared by skills and projects.

use vstd::prelude::*;
use crate::errors::{fails_name, fails_with, DomainError, NameRule, RuleViolation};
use crate::outside::{parses_as_uuid, uuid_text};
use crate::text::{
    all_white_space, all_white_space_chars, chars_of, has_double_space, has_double_space_chars,
    has_forbidden, has_forbidden_chars, trim_chars, trimmed, utf8_len, utf8_len_exceeds,
};

verus! {

/// Longest name, in UTF-8 bytes, after trimming.
pub const MAX_NAME_LEN: usize = 50;

/// The first rule of the name check that `s` breaks, if any, tested on
/// `s` trimmed: empty; over 50 bytes; only white space; one of `< > & " '`;
/// two spaces in a row.
pub open spec fn name_rule(s: Seq<char>) -> Option<NameRule> {
    let t = trimmed(s);
    if t.len() == 0 {
        Some(NameRule::Empty)
    } else if utf8_len(t) > 50 {
        Some(NameRule::TooLong)
    } else if all_white_space(t) {
        Some(NameRule::OnlyWhitespace)
    } else if has_forbidden(t) {
        Some(NameRule::InvalidCharacters)
    } else if has_double_space(t) {
        Some(NameRule::RepeatedSpaces)
    } else {
        None
    }
}

/// The first rule of the name check that `name` breaks, if any.
pub fn check_name(name: &str) -> (r: Option<NameRule>)
    ensures
        r == name_rule(name@),
{
    let t = trim_chars(&chars_of(name));
    if t.len() == 0 {
        Some(NameRule::Empty)
    } else if utf8_len_exceeds(&t, MAX_NAME_LEN) {
        Some(NameRule::TooLong)
    } else if all_white_space_chars(&t) {
        Some(NameRule::OnlyWhitespace)
    } else if has_forbidden_chars(&t) {
        Some(NameRule::InvalidCharacters)
    } else if has_double_space_chars(&t) {
        Some(NameRule::RepeatedSpaces)
    } else {
        None
    }
}

/// Stateless checks of identifiers, names and descriptions.
pub struct CommonValidator;

impl CommonValidator {
    /// An identifier must be non-empty and parse as a UUID.
    pub fn validate_id(id: &str) -> (r: Result<(), DomainError>)
        ensures
            id@.len() == 0 ==> fails_with(r, RuleViolation::EmptyId),
            id@.len() > 0 && !uuid_text(id@) ==> fails_with(r, RuleViolation::IdNotUuid),
            id@.len() > 0 && uuid_text(id@) ==> r is Ok,
    {
        if id.is_empty() {
            return Err(DomainError::BusinessRule(RuleViolation::EmptyId));
        }
        if !parses_as_uuid(id) {
            return Err(DomainError::BusinessRule(RuleViolation::IdNotUuid));
        }
        Ok(())
    }

    /// A name must pass every rule of `name_rule`; a failure names the
    /// field and the first rule broken.
    pub fn validate_name(name: &str, field_name: &str) -> (r: Result<(), DomainError>)
        ensures
            match name_rule(name@) {
                None => r is Ok,
                Some(k) => fails_name(r, field_name@, k),
            },
    {
        match check_name(name) {
            None => Ok(()),
            Some(rule) => Err(
                DomainError::BusinessRule(
                    RuleViolation::InvalidName { field: field_name.to_string(), rule },
                ),
            ),
        }
    }

    /// A description may take at most `max_length` UTF-8 bytes once trimmed.
    pub fn validate_description(desc: &str, max_length: usize) -> (r: Result<(), DomainError>)
        ensures
            utf8_len(trimmed(desc@)) <= max_length ==> r is Ok,
            utf8_len(trimmed(desc@)) > max_length ==> fails_with(
                r,
                RuleViolation::DescriptionTooLong { max_length },
            ),
    {
        let t = trim_chars(&chars_of(desc));
        if utf8_len_exceeds(&t, max_length) {
            return Err(DomainError::BusinessRule(RuleViolation::DescriptionTooLong { max_length }));
        }
        Ok(())
    }
}

} // verus!
