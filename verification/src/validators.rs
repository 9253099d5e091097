//! Format rules for slugs, edit codes and document bodies.

use vstd::prelude::*;
use vstd::string::*;
use vstd::utf8::*;

verus! {

/// Longest document body that is accepted, in bytes of its UTF-8 encoding.
pub const MAX_DOCUMENT_BYTES: usize = 200_000;

/// Fewest characters of a slug or an edit code.
pub const MIN_NAME_LEN: usize = 4;

/// Most characters of a slug or an edit code.
pub const MAX_NAME_LEN: usize = 32;

/// An ASCII letter or digit.
pub open spec fn is_ascii_alphanumeric(c: char) -> bool {
    ('0' <= c && c <= '9') || ('a' <= c && c <= 'z') || ('A' <= c && c <= 'Z')
}

/// A slug is 4 to 32 characters, each an ASCII letter or digit.
pub open spec fn valid_slug(slug: Seq<char>) -> bool {
    &&& MIN_NAME_LEN <= slug.len() <= MAX_NAME_LEN
    &&& forall|i: int| 0 <= i < slug.len() ==> is_ascii_alphanumeric(#[trigger] slug[i])
}

/// An edit code is 4 to 32 ASCII characters.
pub open spec fn valid_edit_code(edit_code: Seq<char>) -> bool {
    &&& MIN_NAME_LEN <= edit_code.len() <= MAX_NAME_LEN
    &&& is_ascii_chars(edit_code)
}

/// A document is accepted when its UTF-8 encoding has at most
/// `MAX_DOCUMENT_BYTES` bytes.
pub open spec fn valid_document(contents: Seq<char>) -> bool {
    encode_utf8(contents).len() <= MAX_DOCUMENT_BYTES
}

/// The byte `b` is the code of an ASCII letter or digit.
fn is_alphanumeric_byte(b: u8) -> (r: bool)
    ensures
        r == ((48 <= b && b <= 57) || (97 <= b && b <= 122) || (65 <= b && b <= 90)),
{
    (48 <= b && b <= 57) || (97 <= b && b <= 122) || (65 <= b && b <= 90)
}

/// Whether `slug` breaks the slug format.
pub fn is_invalid_slug(slug: &str) -> (invalid: bool)
    ensures
        invalid == !valid_slug(slug@),
{
    if !slug.is_ascii() {
        return true;
    }
    proof {
        is_ascii_chars_encode_utf8(slug@);
    }
    let bytes = slug.as_bytes();
    let n: usize = bytes.len();
    if n < MIN_NAME_LEN || n > MAX_NAME_LEN {
        return true;
    }
    let mut i: usize = 0;
    while i < n
        invariant
            0 <= i <= n,
            n == slug@.len(),
            n == bytes@.len(),
            is_ascii_chars(slug@),
            forall|j: int| 0 <= j < n ==> slug@[j] as u8 == #[trigger] bytes@[j],
            forall|j: int| 0 <= j < i ==> is_ascii_alphanumeric(#[trigger] slug@[j]),
        decreases n - i,
    {
        if !is_alphanumeric_byte(bytes[i]) {
            return true;
        }
        i += 1;
    }
    false
}

/// Whether `edit_code` breaks the edit code format.
pub fn is_invalid_edit_code(edit_code: &str) -> (invalid: bool)
    ensures
        invalid == !valid_edit_code(edit_code@),
{
    if !edit_code.is_ascii() {
        return true;
    }
    proof {
        is_ascii_chars_encode_utf8(edit_code@);
    }
    let n: usize = edit_code.as_bytes().len();
    n < MIN_NAME_LEN || n > MAX_NAME_LEN
}

/// Whether `contents` is too large to be stored.
pub fn is_invalid_document(contents: &str) -> (invalid: bool)
    ensures
        invalid == !valid_document(contents@),
{
    contents.as_bytes().len() > MAX_DOCUMENT_BYTES
}

} // verus!
