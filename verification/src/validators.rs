//! The shapes of the identifiers and names that requests carry.

use vstd::prelude::*;
use vstd::string::{StrSliceExecFns, StringExecFns};
use crate::errors::{AppError, ErrorKind};
use crate::store::{reference_name_is_valid, reference_name_validity};

verus! {

/// One of `0` to `9`.
pub open spec fn is_digit(c: char) -> bool {
    '0' <= c <= '9'
}

/// One of `0` to `9` and `a` to `f`.
pub open spec fn is_lower_hex(c: char) -> bool {
    is_digit(c) || 'a' <= c <= 'f'
}

/// One of `0` to `9` and `a` to `z`.
pub open spec fn is_lower_alphanumeric(c: char) -> bool {
    is_digit(c) || 'a' <= c <= 'z'
}

/// The fourth group of a version-4 identifier starts with one of these.
pub open spec fn is_variant_mark(c: char) -> bool {
    c == '8' || c == '9' || c == 'a' || c == 'A' || c == 'b' || c == 'B'
}

/// What has to stand at position `i` of a version-4 identifier in its
/// hyphenated form.
pub open spec fn fits_uuid_at(i: int, c: char) -> bool {
    if i == 8 || i == 13 || i == 18 || i == 23 {
        c == '-'
    } else if i == 14 {
        c == '4'
    } else if i == 19 {
        is_variant_mark(c)
    } else {
        is_lower_hex(c)
    }
}

/// A version-4 identifier in its hyphenated form: thirty-six characters in
/// groups of 8, 4, 4, 4 and 12 lower-case hexadecimal digits, the third
/// group starting with `4`, the fourth with one of `8 9 a A b B`.
pub open spec fn is_uuid_shaped(text: Seq<char>) -> bool {
    text.len() == 36 && forall|i: int| 0 <= i < 36 ==> fits_uuid_at(i, #[trigger] text[i])
}

/// The name of an object as the store prints it: forty characters, each a
/// digit or a lower-case letter.
pub open spec fn is_object_id_shaped(text: Seq<char>) -> bool {
    text.len() == 40 && forall|i: int| 0 <= i < 40 ==> is_lower_alphanumeric(#[trigger] text[i])
}

fn digit(c: char) -> (b: bool)
    ensures
        b == is_digit(c),
{
    '0' <= c && c <= '9'
}

fn lower_hex(c: char) -> (b: bool)
    ensures
        b == is_lower_hex(c),
{
    digit(c) || ('a' <= c && c <= 'f')
}

fn lower_alphanumeric(c: char) -> (b: bool)
    ensures
        b == is_lower_alphanumeric(c),
{
    digit(c) || ('a' <= c && c <= 'z')
}

fn fits_uuid(i: usize, c: char) -> (b: bool)
    ensures
        b == fits_uuid_at(i as int, c),
{
    if i == 8 || i == 13 || i == 18 || i == 23 {
        c == '-'
    } else if i == 14 {
        c == '4'
    } else if i == 19 {
        c == '8' || c == '9' || c == 'a' || c == 'A' || c == 'b' || c == 'B'
    } else {
        lower_hex(c)
    }
}

/// Whether `text` is a version-4 identifier in its hyphenated form.
pub fn is_uuid(text: &str) -> (b: bool)
    ensures
        b == is_uuid_shaped(text@),
{
    if text.unicode_len() != 36 {
        return false;
    }
    let mut i: usize = 0;
    while i < 36
        invariant
            i <= 36,
            text@.len() == 36,
            forall|k: int| 0 <= k < i ==> fits_uuid_at(k, #[trigger] text@[k]),
        decreases 36 - i,
    {
        if !fits_uuid(i, text.get_char(i)) {
            return false;
        }
        i += 1;
    }
    true
}

/// Whether `text` has the shape of an object's name.
pub fn is_git_object_id(text: &str) -> (b: bool)
    ensures
        b == is_object_id_shaped(text@),
{
    if text.unicode_len() != 40 {
        return false;
    }
    let mut i: usize = 0;
    while i < 40
        invariant
            i <= 40,
            text@.len() == 40,
            forall|k: int| 0 <= k < i ==> is_lower_alphanumeric(#[trigger] text@[k]),
        decreases 40 - i,
    {
        if !lower_alphanumeric(text.get_char(i)) {
            return false;
        }
        i += 1;
    }
    true
}

/// Whether `text` holds the character that ends a C string.
pub open spec fn has_nul(text: Seq<char>) -> bool {
    text.contains('\0')
}

fn contains_nul(text: &str) -> (b: bool)
    ensures
        b == has_nul(text@),
{
    let n = text.unicode_len();
    let mut i: usize = 0;
    while i < n
        invariant
            i <= n,
            n == text@.len(),
            forall|k: int| 0 <= k < i ==> text@[k] != '\0',
        decreases n - i,
    {
        if text.get_char(i) == '\0' {
            return true;
        }
        i += 1;
    }
    false
}

/// The full reference name under which a branch name is judged.
pub open spec fn judged_reference(branch_name: Seq<char>) -> Seq<char> {
    "refs/headers/"@ + branch_name
}

/// Whether `validate_git_reference_name` accepts `branch_name`: it holds no
/// NUL and the store accepts the reference name made of it.
pub open spec fn is_valid_branch_name(branch_name: Seq<char>) -> bool {
    !has_nul(branch_name) && reference_name_validity(judged_reference(branch_name))
}

/// The verdict on a branch name from what the store says of the reference
/// name made of it.
pub fn reference_name_verdict(accepted: bool) -> (r: Result<(), AppError>)
    ensures
        r is Ok <==> accepted,
        r matches Err(e) ==> e.says(ErrorKind::Validation, "invalid_git_reference_name"@),
{
    if accepted {
        Ok(())
    } else {
        Err(AppError::ValidationError(String::from_str("invalid_git_reference_name")))
    }
}

/// Accepts a branch name that can stand in a reference name, and rejects
/// any other as malformed input.
pub fn validate_git_reference_name(branch_name: &str) -> (r: Result<(), AppError>)
    ensures
        r is Ok <==> is_valid_branch_name(branch_name@),
        r matches Err(e) ==> e.says(ErrorKind::Validation, "invalid_git_reference_name"@),
{
    if contains_nul(branch_name) {
        return reference_name_verdict(false);
    }
    let mut reference = String::from_str("refs/headers/");
    reference.append(branch_name);
    proof {
        reveal_strlit("refs/headers/");
        assert forall|k: int| 0 <= k < reference@.len() implies reference@[k] != '\0' by {
            if k >= 13 {
                assert(reference@[k] == branch_name@[k - 13]);
            }
        }
    }
    reference_name_verdict(reference_name_is_valid(reference.as_str()))
}

} // verus!
