//! Trusted boundary around the native secret-storage backend and the standard
//! library's UTF-8 decoders. Everything else in the crate is verified against
//! the contracts stated here.

use vstd::prelude::*;

verus! {

use vstd::utf8::decode_utf8;
use vstd::utf8::valid_utf8;

#[verifier::external_type_specification]
#[verifier::external_body]
pub struct ExSecretServiceError(secret_service::Error);

#[verifier::external_type_specification]
#[verifier::external_body]
pub struct ExFromUtf8Error(std::string::FromUtf8Error);

#[verifier::external_type_specification]
#[verifier::external_body]
pub struct ExUtf8Error(std::str::Utf8Error);

/// The one-line text that the backend error prints for itself.
pub uninterp spec fn secret_service_text(e: secret_service::Error) -> Seq<char>;

/// The one-line text that a byte-sequence decode error prints for itself.
pub uninterp spec fn parse_error_text(e: std::string::FromUtf8Error) -> Seq<char>;

/// The one-line text that a text-slice decode error prints for itself.
pub uninterp spec fn unicode_error_text(e: std::str::Utf8Error) -> Seq<char>;

/// The decode error that `String::from_utf8` reports for a given byte
/// sequence; the error is a pure function of the bytes.
pub uninterp spec fn parse_error_of(bytes: Seq<u8>) -> std::string::FromUtf8Error;

/// The decode error that `str::from_utf8` reports for a given byte sequence;
/// the error is a pure function of the bytes.
pub uninterp spec fn unicode_error_of(bytes: Seq<u8>) -> std::str::Utf8Error;

/// Relies on the `Display` impl of `secret_service::Error`: the printed text
/// depends on the error value alone.
#[verifier::external_body]
pub(crate) fn secret_service_display(e: &secret_service::Error) -> (r: String)
    ensures
        r@ == secret_service_text(*e),
{
    format!("{}", e)
}

/// Relies on the `Display` impl of `std::string::FromUtf8Error`: the printed
/// text depends on the error value alone.
#[verifier::external_body]
pub(crate) fn parse_error_display(e: &std::string::FromUtf8Error) -> (r: String)
    ensures
        r@ == parse_error_text(*e),
{
    format!("{}", e)
}

/// Relies on the `Display` impl of `std::str::Utf8Error`: the printed text
/// depends on the error value alone.
#[verifier::external_body]
pub(crate) fn unicode_error_display(e: &std::str::Utf8Error) -> (r: String)
    ensures
        r@ == unicode_error_text(*e),
{
    format!("{}", e)
}

/// Relies on `String::from_utf8`: it succeeds exactly on valid UTF-8, returns
/// the decoded text, and on failure reports an error that is a pure function
/// of the input bytes.
pub assume_specification [ String::from_utf8 ](v: Vec<u8>) -> (r: Result<
    String,
    std::string::FromUtf8Error,
>)
    ensures
        r matches Ok(s) ==> valid_utf8(v@) && s@ == decode_utf8(v@),
        r matches Err(e) ==> !valid_utf8(v@) && e == parse_error_of(v@),
;

/// Relies on `str::from_utf8`: it succeeds exactly on valid UTF-8, returns the
/// borrowed text, and on failure reports an error that is a pure function of
/// the input bytes.
pub assume_specification<'a> [ std::str::from_utf8 ](v: &'a [u8]) -> (r: Result<
    &'a str,
    std::str::Utf8Error,
>)
    ensures
        r matches Ok(s) ==> valid_utf8(v@) && s@ == decode_utf8(v@),
        r matches Err(e) ==> !valid_utf8(v@) && e == unicode_error_of(v@),
;

} // verus!
