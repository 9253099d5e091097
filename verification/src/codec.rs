//! The binary layout of stored values: little-endian fixed-width integers and
//! length-prefixed UTF-8 strings, and the two capabilities that turn a domain
//! type into stored bytes and back.

use vstd::prelude::*;
use vstd::bytes::*;
use vstd::slice::*;
use vstd::string::*;
use vstd::utf8::*;

verus! {

/// Why stored bytes are not the encoding of any value.
#[derive(Clone, Copy, Debug, PartialEq, Eq, Structural)]
pub enum DecodeError {
    /// The bytes end before the value is complete.
    UnexpectedEnd,
    /// A string field does not hold valid UTF-8.
    InvalidUtf8,
    /// Bytes are left over after the value.
    TrailingBytes,
}

/// A value that has a stored form: the bytes that the store keeps for it.
pub trait IntoIVec: View + Sized {
    /// Whether `v` can be the view of a value in memory.
    spec fn storable(v: Self::V) -> bool;

    /// The stored form of the value whose view is `v`.
    spec fn encoding(v: Self::V) -> Seq<u8>;

    /// Writes out the stored form of `self`.
    fn to_ivec(&self) -> (bytes: Vec<u8>)
        ensures
            Self::storable(self@),
            bytes@ == Self::encoding(self@),
    ;
}

/// A value that can be read back from its stored form, as the value that
/// was written.
pub trait FromIVec: IntoIVec {
    /// The view of the value that `bytes` stores, or why they store none.
    spec fn decoding(bytes: Seq<u8>) -> Result<Self::V, DecodeError>;

    /// Reads a value back from `bytes`.
    fn from_ivec(bytes: &[u8]) -> (r: Result<Self, DecodeError>)
        ensures
            match r {
                Ok(value) => Self::decoding(bytes@) == Ok::<Self::V, DecodeError>(value@),
                Err(e) => Self::decoding(bytes@) == Err::<Self::V, DecodeError>(e),
            },
    ;

    /// Round trip: the stored form of a value reads back as that value.
    proof fn lemma_round_trip(v: Self::V)
        requires
            Self::storable(v),
        ensures
            Self::decoding(Self::encoding(v)) == Ok::<Self::V, DecodeError>(v),
    ;

    /// Bytes that read back as a value are the stored form of that value:
    /// no two byte strings store the same value.
    proof fn lemma_decoding_exact(bytes: Seq<u8>)
        requires
            Self::decoding(bytes) is Ok,
        ensures
            Self::storable(Self::decoding(bytes)->Ok_0),
            Self::encoding(Self::decoding(bytes)->Ok_0) == bytes,
    ;
}

/// Width of a length prefix or a 64-bit integer field.
pub const U64_WIDTH: usize = 8;

/// Width of a 32-bit integer field.
pub const U32_WIDTH: usize = 4;

/// A string field: the byte length of its UTF-8 encoding as a little-endian
/// `u64`, then the encoding itself.
pub open spec fn string_field(s: Seq<char>) -> Seq<u8> {
    spec_u64_to_le_bytes(encode_utf8(s).len() as u64) + encode_utf8(s)
}

/// The string field at the start of `bytes`, with the bytes that follow it.
pub open spec fn parse_string_field(bytes: Seq<u8>) -> Result<(Seq<char>, Seq<u8>), DecodeError> {
    if bytes.len() < U64_WIDTH {
        Err(DecodeError::UnexpectedEnd)
    } else {
        let n = spec_u64_from_le_bytes(bytes.subrange(0, U64_WIDTH as int));
        if bytes.len() - U64_WIDTH < n {
            Err(DecodeError::UnexpectedEnd)
        } else {
            let body = bytes.subrange(U64_WIDTH as int, U64_WIDTH + n);
            if valid_utf8(body) {
                Ok((decode_utf8(body), bytes.subrange(U64_WIDTH + n, bytes.len() as int)))
            } else {
                Err(DecodeError::InvalidUtf8)
            }
        }
    }
}

/// A string field followed by `rest` parses back into the string and `rest`.
pub proof fn lemma_parse_string_field(s: Seq<char>, rest: Seq<u8>)
    requires
        fits_string_field(s),
    ensures
        parse_string_field(string_field(s) + rest) == Ok::<(Seq<char>, Seq<u8>), DecodeError>(
            (s, rest),
        ),
{
    let body = encode_utf8(s);
    let n = body.len() as u64;
    let bytes = string_field(s) + rest;
    lemma_auto_spec_u64_to_from_le_bytes();
    encode_utf8_valid_utf8(s);
    encode_utf8_decode_utf8(s);
    assert(bytes.subrange(0, U64_WIDTH as int) =~= spec_u64_to_le_bytes(n));
    assert(bytes.subrange(U64_WIDTH as int, U64_WIDTH + n) =~= body);
    assert(bytes.subrange(U64_WIDTH + n, bytes.len() as int) =~= rest);
}

/// Bytes that parse as a string field are that field followed by the rest.
pub proof fn lemma_parse_string_field_inverse(bytes: Seq<u8>)
    requires
        parse_string_field(bytes) is Ok,
    ensures
        bytes == string_field(parse_string_field(bytes)->Ok_0.0) + parse_string_field(
            bytes,
        )->Ok_0.1,
        fits_string_field(parse_string_field(bytes)->Ok_0.0),
{
    let n = spec_u64_from_le_bytes(bytes.subrange(0, U64_WIDTH as int));
    lemma_auto_spec_u64_to_from_le_bytes();
    decode_utf8_encode_utf8(bytes.subrange(U64_WIDTH as int, U64_WIDTH + n));
}

/// Appends a copy of `bytes` to `out`.
pub fn put_bytes(out: &mut Vec<u8>, bytes: &[u8])
    ensures
        final(out)@ == old(out)@ + bytes@,
{
    let mut copy = slice_to_vec(bytes);
    out.append(&mut copy);
}

/// Appends `value` to `out` as eight little-endian bytes.
pub fn put_u64(out: &mut Vec<u8>, value: u64)
    ensures
        final(out)@ == old(out)@ + spec_u64_to_le_bytes(value),
{
    let mut field = u64_to_le_bytes(value);
    out.append(&mut field);
}

/// Appends `value` to `out` as four little-endian bytes.
pub fn put_u32(out: &mut Vec<u8>, value: u32)
    ensures
        final(out)@ == old(out)@ + spec_u32_to_le_bytes(value),
{
    let mut field = u32_to_le_bytes(value);
    out.append(&mut field);
}

/// Whether a string of these characters fits in a string field.
pub open spec fn fits_string_field(s: Seq<char>) -> bool {
    encode_utf8(s).len() <= u64::MAX
}

/// Appends `s` to `out` as a string field.
pub fn put_string(out: &mut Vec<u8>, s: &str)
    ensures
        fits_string_field(s@),
        final(out)@ == old(out)@ + string_field(s@),
{
    let body = s.as_bytes();
    put_u64(out, body.len() as u64);
    put_bytes(out, body);
}

/// `String::from_utf8`: the string that `bytes` encode, if they are valid
/// UTF-8, and `None` if they are not.
#[verifier::external_body]
fn string_from_utf8(bytes: Vec<u8>) -> (r: Option<String>)
    ensures
        match r {
            Some(s) => valid_utf8(bytes@) && s@ == decode_utf8(bytes@),
            None => !valid_utf8(bytes@),
        },
{
    String::from_utf8(bytes).ok()
}

/// Reads the string field at the start of `bytes`; on success also gives the
/// number of bytes that the field takes.
pub fn take_string(bytes: &[u8]) -> (r: Result<(String, usize), DecodeError>)
    ensures
        match r {
            Ok((s, used)) => {
                &&& used <= bytes@.len()
                &&& parse_string_field(bytes@) == Ok::<(Seq<char>, Seq<u8>), DecodeError>(
                    (s@, bytes@.subrange(used as int, bytes@.len() as int)),
                )
            },
            Err(e) => parse_string_field(bytes@) == Err::<(Seq<char>, Seq<u8>), DecodeError>(e),
        },
{
    let len: usize = bytes.len();
    if len < U64_WIDTH {
        return Err(DecodeError::UnexpectedEnd);
    }
    let n: u64 = u64_from_le_bytes(slice_subrange(bytes, 0, U64_WIDTH));
    if ((len - U64_WIDTH) as u64) < n {
        return Err(DecodeError::UnexpectedEnd);
    }
    let end: usize = U64_WIDTH + n as usize;
    let body = slice_to_vec(slice_subrange(bytes, U64_WIDTH, end));
    match string_from_utf8(body) {
        Some(s) => Ok((s, end)),
        None => Err(DecodeError::InvalidUtf8),
    }
}

} // verus!
