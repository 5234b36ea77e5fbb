//! Validation rules for single fields, and the helpers that build their
//! errors.

use vstd::prelude::*;
use vstd::utf8::encode_utf8;

use crate::text::{
    alphabetic, decimal, is_alphabetic, is_numeric, is_whitespace, numeric, signed_decimal,
    to_decimal, to_signed_decimal, white_space,
};
use crate::user::{errors_view, ValidationError, ValidationErrorView};

verus! {

/// The outcome of a validation: every rule held, or the errors of those
/// that did not.
pub type ValidationResult = Result<(), Vec<ValidationError>>;

/// `r` reports exactly the errors `expected`: success when there are none.
pub open spec fn reports(r: ValidationResult, expected: Seq<ValidationErrorView>) -> bool {
    match r {
        Ok(_) => expected.len() == 0,
        Err(es) => expected.len() > 0 && errors_view(es@) == expected,
    }
}

/// The error with `message` about `field`.
pub open spec fn error_of(message: Seq<char>, field: Option<Seq<char>>) -> ValidationErrorView {
    ValidationErrorView { message, field }
}

/// The sequence holding `e` when `cond` holds, and nothing otherwise.
pub open spec fn when(cond: bool, e: ValidationErrorView) -> Seq<ValidationErrorView> {
    if cond {
        seq![e]
    } else {
        Seq::empty()
    }
}

/// Builds a validation error.
pub fn validation_error(message: &str, field: Option<&str>) -> (r: ValidationError)
    ensures
        r@ == error_of(
            message@,
            match field {
                Some(f) => Some(f@),
                None => None,
            },
        ),
{
    let field = match field {
        Some(f) => Some(String::from_str(f)),
        None => None,
    };
    ValidationError { message: String::from_str(message), field }
}

/// Builds the error `message` about the field `field`.
pub fn field_error(field: &str, message: &str) -> (r: ValidationError)
    ensures
        r@ == error_of(message@, Some(field@)),
{
    validation_error(message, Some(field))
}

/// Builds an error that concerns no single field.
pub fn general_error(message: &str) -> (r: ValidationError)
    ensures
        r@ == error_of(message@, None),
{
    validation_error(message, None)
}

fn field_error_owned(field: &str, message: String) -> (r: ValidationError)
    ensures
        r@ == error_of(message@, Some(field@)),
{
    ValidationError { message, field: Some(String::from_str(field)) }
}

/// Success when `errors` is empty, else the errors.
pub(crate) fn finish(errors: Vec<ValidationError>) -> (r: ValidationResult)
    ensures
        reports(r, errors_view(errors@)),
{
    if errors.len() == 0 {
        Ok(())
    } else {
        Err(errors)
    }
}

/// Every character of `s` is white space (so `s` trims to nothing).
pub open spec fn blank(s: Seq<char>) -> bool {
    forall|i: int| 0 <= i < s.len() ==> white_space(#[trigger] s[i])
}

/// Some character of `s` is numeric.
pub open spec fn has_numeric(s: Seq<char>) -> bool {
    exists|i: int| 0 <= i < s.len() && numeric(#[trigger] s[i])
}

/// Longest name, in bytes of UTF-8.
pub const MAX_NAME_BYTES: usize = 100;

/// The errors of a name: blank, longer than `MAX_NAME_BYTES` bytes, holding
/// a numeric character; in that order.
pub open spec fn name_errors(name: Seq<char>, field: Seq<char>) -> Seq<ValidationErrorView> {
    when(blank(name), error_of("Name cannot be empty"@, Some(field))) + when(
        encode_utf8(name).len() > MAX_NAME_BYTES,
        error_of("Name cannot exceed 100 characters"@, Some(field)),
    ) + when(has_numeric(name), error_of("Name cannot contain numbers"@, Some(field)))
}

fn all_white_space(s: &str) -> (r: bool)
    ensures
        r == blank(s@),
{
    let n = s.unicode_len();
    let mut i: usize = 0;
    while i < n
        invariant
            n == s@.len(),
            0 <= i <= n,
            forall|j: int| 0 <= j < i ==> white_space(#[trigger] s@[j]),
        decreases n - i,
    {
        if !is_whitespace(s.get_char(i)) {
            return false;
        }
        i = i + 1;
    }
    true
}

fn any_numeric(s: &str) -> (r: bool)
    ensures
        r == has_numeric(s@),
{
    let n = s.unicode_len();
    let mut i: usize = 0;
    while i < n
        invariant
            n == s@.len(),
            0 <= i <= n,
            forall|j: int| 0 <= j < i ==> !numeric(#[trigger] s@[j]),
        decreases n - i,
    {
        if is_numeric(s.get_char(i)) {
            return true;
        }
        i = i + 1;
    }
    false
}

/// Checks a name: not blank, at most `MAX_NAME_BYTES` bytes, no numeric
/// character. Each failed rule gives one error about `field_name`.
pub fn validate_name(name: &str, field_name: &str) -> (r: ValidationResult)
    ensures
        reports(r, name_errors(name@, field_name@)),
{
    let mut errors: Vec<ValidationError> = Vec::new();
    if all_white_space(name) {
        errors.push(field_error(field_name, "Name cannot be empty"));
    }
    if name.as_bytes().len() > MAX_NAME_BYTES {
        errors.push(field_error(field_name, "Name cannot exceed 100 characters"));
    }
    if any_numeric(name) {
        errors.push(field_error(field_name, "Name cannot contain numbers"));
    }
    assert(errors_view(errors@) =~= name_errors(name@, field_name@));
    finish(errors)
}

/// Oldest accepted age.
pub const MAX_AGE: i32 = 150;

/// The errors of an age: negative, above `MAX_AGE`, zero; in that order.
pub open spec fn age_errors(age: i32, field: Seq<char>) -> Seq<ValidationErrorView> {
    when(age < 0, error_of("Age cannot be negative"@, Some(field))) + when(
        age > MAX_AGE,
        error_of("Age cannot exceed 150 years"@, Some(field)),
    ) + when(age == 0, error_of("Age must be greater than 0"@, Some(field)))
}

/// Checks an age: positive and at most `MAX_AGE`.
pub fn validate_age(age: i32, field_name: &str) -> (r: ValidationResult)
    ensures
        reports(r, age_errors(age, field_name@)),
{
    let mut errors: Vec<ValidationError> = Vec::new();
    if age < 0 {
        errors.push(field_error(field_name, "Age cannot be negative"));
    }
    if age > MAX_AGE {
        errors.push(field_error(field_name, "Age cannot exceed 150 years"));
    }
    if age == 0 {
        errors.push(field_error(field_name, "Age must be greater than 0"));
    }
    assert(errors_view(errors@) =~= age_errors(age, field_name@));
    finish(errors)
}

/// `c` is in `allowed`, alphabetic or white space.
pub open spec fn char_allowed(c: char, allowed: Seq<char>) -> bool {
    allowed.contains(c) || alphabetic(c) || white_space(c)
}

fn contains_char(s: &str, c: char) -> (r: bool)
    ensures
        r == s@.contains(c),
{
    let n = s.unicode_len();
    let mut i: usize = 0;
    while i < n
        invariant
            n == s@.len(),
            0 <= i <= n,
            forall|j: int| 0 <= j < i ==> s@[j] != c,
        decreases n - i,
    {
        if s.get_char(i) == c {
            return true;
        }
        i = i + 1;
    }
    false
}

/// Checks that every character of `value` is alphabetic, white space or
/// one of `allowed_chars`.
pub fn validate_allowed_characters(value: &str, field_name: &str, allowed_chars: &str) -> (r:
    ValidationResult)
    ensures
        reports(
            r,
            when(
                !(forall|i: int| 0 <= i < value@.len() ==> char_allowed(#[trigger] value@[i], allowed_chars@)),
                error_of(
                    "Field contains invalid characters. Allowed: "@ + allowed_chars@,
                    Some(field_name@),
                ),
            ),
        ),
{
    let n = value.unicode_len();
    let mut i: usize = 0;
    while i < n
        invariant
            n == value@.len(),
            0 <= i <= n,
            forall|j: int| 0 <= j < i ==> char_allowed(#[trigger] value@[j], allowed_chars@),
        decreases n - i,
    {
        let c = value.get_char(i);
        if !(contains_char(allowed_chars, c) || is_alphabetic(c) || is_whitespace(c)) {
            let message = String::from_str("Field contains invalid characters. Allowed: ").concat(
                allowed_chars,
            );
            let errors = vec![field_error_owned(field_name, message)];
            assert(errors_view(errors@) =~= seq![
                error_of("Field contains invalid characters. Allowed: "@ + allowed_chars@, Some(field_name@)),
            ]);
            return Err(errors);
        }
        i = i + 1;
    }
    Ok(())
}

/// Checks that `value` is at least `min_length` bytes long.
pub fn validate_min_length(value: &str, field_name: &str, min_length: usize) -> (r:
    ValidationResult)
    ensures
        reports(
            r,
            when(
                encode_utf8(value@).len() < min_length,
                error_of(
                    "Field must be at least "@ + decimal(min_length as nat) + " characters long"@,
                    Some(field_name@),
                ),
            ),
        ),
{
    if value.as_bytes().len() >= min_length {
        Ok(())
    } else {
        let message = String::from_str("Field must be at least ").concat(
            to_decimal(min_length as u64).as_str(),
        ).concat(" characters long");
        let errors = vec![field_error_owned(field_name, message)];
        assert(errors_view(errors@) =~= seq![
            error_of("Field must be at least "@ + decimal(min_length as nat) + " characters long"@, Some(field_name@)),
        ]);
        Err(errors)
    }
}

/// Checks that `value` is at most `max_length` bytes long.
pub fn validate_max_length(value: &str, field_name: &str, max_length: usize) -> (r:
    ValidationResult)
    ensures
        reports(
            r,
            when(
                encode_utf8(value@).len() > max_length,
                error_of(
                    "Field cannot exceed "@ + decimal(max_length as nat) + " characters"@,
                    Some(field_name@),
                ),
            ),
        ),
{
    if value.as_bytes().len() <= max_length {
        Ok(())
    } else {
        let message = String::from_str("Field cannot exceed ").concat(
            to_decimal(max_length as u64).as_str(),
        ).concat(" characters");
        let errors = vec![field_error_owned(field_name, message)];
        assert(errors_view(errors@) =~= seq![
            error_of("Field cannot exceed "@ + decimal(max_length as nat) + " characters"@, Some(field_name@)),
        ]);
        Err(errors)
    }
}

/// The errors of a value checked against `[min, max]`: below `min`, above
/// `max`; in that order.
pub open spec fn range_errors(value: i64, min: i64, max: i64, field: Seq<char>) -> Seq<
    ValidationErrorView,
> {
    when(value < min, error_of("Value must be at least "@ + signed_decimal(min as int), Some(field)))
        + when(
        value > max,
        error_of("Value cannot exceed "@ + signed_decimal(max as int), Some(field)),
    )
}

/// Checks that `value` lies in `[min, max]`.
pub fn validate_range(value: &i64, field_name: &str, min: &i64, max: &i64) -> (r:
    ValidationResult)
    ensures
        reports(r, range_errors(*value, *min, *max, field_name@)),
{
    let mut errors: Vec<ValidationError> = Vec::new();
    if *value < *min {
        let message = String::from_str("Value must be at least ").concat(
            to_signed_decimal(*min).as_str(),
        );
        errors.push(field_error_owned(field_name, message));
    }
    if *value > *max {
        let message = String::from_str("Value cannot exceed ").concat(
            to_signed_decimal(*max).as_str(),
        );
        errors.push(field_error_owned(field_name, message));
    }
    assert(errors_view(errors@) =~= range_errors(*value, *min, *max, field_name@));
    finish(errors)
}

} // verus!
