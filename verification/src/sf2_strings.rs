//! Text decoding for SF2 metadata: zero-terminated strings in `INFO` leaf
//! chunks, and fixed-length 20-byte name fields in records. Bytes after the
//! first NUL of a fixed-length field are ignored: some producers leave
//! garbage there.

use vstd::prelude::*;

use vstd::string::StringSliceAdditionalSpecFns;
use vstd::utf8::{decode_utf8, encode_utf8_decode_utf8, valid_utf8};

use crate::byteseq::{find_byte, lemma_find_byte_bounds, spec_find_byte};
use crate::sf2_error::Sf2Error;

verus! {

/// The characters of a zero-terminated string: the bytes before the first
/// NUL, decoded as UTF-8. `None` when there is no NUL or the prefix is not
/// valid UTF-8.
pub open spec fn spec_zstr(data: Seq<u8>) -> Option<Seq<char>> {
    let p = spec_find_byte(data, 0);
    if p == data.len() {
        Option::None
    } else if !valid_utf8(data.take(p)) {
        Option::None
    } else {
        Option::Some(decode_utf8(data.take(p)))
    }
}

/// The characters of a fixed-length name field: the bytes before the first
/// NUL (or the whole field when none), decoded as UTF-8; `None` when that
/// prefix is not valid UTF-8.
pub open spec fn spec_fixedstr(data: Seq<u8>) -> Option<Seq<char>> {
    let p = spec_find_byte(data, 0);
    if !valid_utf8(data.take(p)) {
        Option::None
    } else {
        Option::Some(decode_utf8(data.take(p)))
    }
}

/// Relies on core::str::from_utf8: it succeeds exactly on valid UTF-8 input,
/// and the returned string slice views the same bytes.
#[verifier::external_body]
pub(crate) fn str_from_utf8(v: &[u8]) -> (r: Option<&str>)
    ensures
        r is Some <==> valid_utf8(v@),
        r matches Some(s) ==> s.spec_bytes() == v@,
{
    core::str::from_utf8(v).ok()
}

/// Decodes a zero-terminated string: the bytes before the first NUL as
/// UTF-8. No NUL, or an invalid prefix, is a malformed string.
pub fn str_from_zstr<'a>(data: &'a [u8]) -> (r: Result<&'a str, Sf2Error>)
    ensures
        match r {
            Result::Ok(s) => spec_zstr(data@) == Option::Some(s@),
            Result::Err(e) => spec_zstr(data@) is None && e == Sf2Error::MalformedZstr,
        },
{
    let p = find_byte(data, 0);
    proof {
        lemma_find_byte_bounds(data@, 0);
    }
    if p == data.len() {
        return Result::Err(Sf2Error::MalformedZstr);
    }
    let prefix = vstd::slice::slice_subrange(data, 0, p);
    proof {
        assert(prefix@ =~= data@.take(p as int));
    }
    match str_from_utf8(prefix) {
        Option::Some(s) => {
            proof {
                encode_utf8_decode_utf8(s@);
            }
            Result::Ok(s)
        },
        Option::None => Result::Err(Sf2Error::MalformedZstr),
    }
}

/// Decodes a fixed-length name field: the bytes before the first NUL (or the
/// whole field) as UTF-8; trailing bytes after the NUL are ignored.
pub fn str_from_fixedstr<'a>(data: &'a [u8]) -> (r: Result<&'a str, Sf2Error>)
    ensures
        match r {
            Result::Ok(s) => spec_fixedstr(data@) == Option::Some(s@),
            Result::Err(e) => spec_fixedstr(data@) is None && e == Sf2Error::MalformedFixedstr,
        },
{
    let p = find_byte(data, 0);
    proof {
        lemma_find_byte_bounds(data@, 0);
    }
    let prefix = vstd::slice::slice_subrange(data, 0, p);
    proof {
        assert(prefix@ =~= data@.take(p as int));
    }
    match str_from_utf8(prefix) {
        Option::Some(s) => {
            proof {
                encode_utf8_decode_utf8(s@);
            }
            Result::Ok(s)
        },
        Option::None => Result::Err(Sf2Error::MalformedFixedstr),
    }
}

} // verus!
