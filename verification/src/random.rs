//! Fresh identifiers and random text.

use vstd::prelude::*;
use crate::validators::{is_digit, is_lower_hex, is_uuid_shaped};

verus! {

/// One of `0` to `9`, `a` to `z` and `A` to `Z`.
pub open spec fn is_alphanumeric(c: char) -> bool {
    is_digit(c) || 'a' <= c <= 'z' || 'A' <= c <= 'Z'
}

/// `uuid::Uuid::new_v4`, written by `encode_lower` in its hyphenated form:
/// sixteen random bytes with the version and the variant set, as thirty-six
/// lower-case characters. Which identifier comes is left open; its shape
/// is what the outside source fixes.
#[verifier::external_body]
fn new_v4_hyphenated() -> (text: String)
    ensures
        is_uuid_shaped(text@),
        is_lower_hex(text@[19]),
{
    uuid::Uuid::new_v4().to_hyphenated().encode_lower(&mut uuid::Uuid::encode_buffer()).to_string()
}

/// `rand::Rng::sample_iter` over `rand::distributions::Alphanumeric`, for
/// `length` characters from the thread's generator. Which characters come
/// is left open; their number and their alphabet are what the outside
/// source fixes.
#[verifier::external_body]
fn sample_alphanumeric(length: usize) -> (text: String)
    ensures
        text@.len() == length,
        forall|i: int| 0 <= i < length ==> is_alphanumeric(#[trigger] text@[i]),
{
    rand::Rng::sample_iter(rand::thread_rng(), &rand::distributions::Alphanumeric).take(
        length,
    ).collect()
}

/// A fresh random identifier: a version-4 identifier in its hyphenated,
/// lower-case form.
pub fn uuid() -> (id: String)
    ensures
        is_uuid_shaped(id@),
        is_lower_hex(id@[19]),
{
    new_v4_hyphenated()
}

/// `length` random characters, each a digit or an ASCII letter.
pub fn random_string(length: usize) -> (text: String)
    ensures
        text@.len() == length,
        forall|i: int| 0 <= i < length ==> is_alphanumeric(#[trigger] text@[i]),
{
    sample_alphanumeric(length)
}

} // verus!
