//! Decoding a retrieved secret payload into text: the one operation of this
//! layer that can itself fail, and the place where a decode failure enters
//! the unified taxonomy.

use vstd::prelude::*;

verus! {

use vstd::utf8::decode_utf8;
use vstd::utf8::valid_utf8;
use crate::error::KeyringError;
use crate::error::KeyringResult;
use crate::error::spec_from_parse;
use crate::error::spec_from_unicode;
use crate::native::parse_error_of;
use crate::native::unicode_error_of;

/// Decode an owned secret payload into text. A payload that is not valid
/// UTF-8 fails with `Parse`, carrying the decode error of the decoding step.
pub fn decode_secret(bytes: Vec<u8>) -> (r: KeyringResult<String>)
    ensures
        valid_utf8(bytes@) ==> (r matches Ok(s) && s@ == decode_utf8(bytes@)),
        !valid_utf8(bytes@) ==> (r matches Err(e) && e == spec_from_parse(
            parse_error_of(bytes@),
        )),
{
    match String::from_utf8(bytes) {
        Ok(s) => Ok(s),
        Err(e) => Err(KeyringError::from(e)),
    }
}

/// Decode a borrowed secret payload into text. A payload that is not valid
/// UTF-8 fails with `Unicode`, carrying the decode error of the decoding
/// step.
pub fn decode_secret_text<'a>(bytes: &'a [u8]) -> (r: KeyringResult<&'a str>)
    ensures
        valid_utf8(bytes@) ==> (r matches Ok(s) && s@ == decode_utf8(bytes@)),
        !valid_utf8(bytes@) ==> (r matches Err(e) && e == spec_from_unicode(
            unicode_error_of(bytes@),
        )),
{
    match std::str::from_utf8(bytes) {
        Ok(s) => Ok(s),
        Err(e) => Err(KeyringError::from(e)),
    }
}

} // verus!
