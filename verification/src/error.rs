//! The unified failure type of the credential API: one closed taxonomy that
//! absorbs the native backend's failures and the library-level ones, keeps
//! the wrapped native value intact, and formats a one-line diagnostic.

use vstd::prelude::*;

verus! {

use crate::native::parse_error_text;
use crate::native::secret_service_text;
use crate::native::parse_error_display;
use crate::native::secret_service_display;
use crate::native::unicode_error_display;
use crate::native::unicode_error_text;

/// The failure envelope of every credential operation: a value or one
/// `KeyringError`, never both and never neither.
pub type KeyringResult<T> = Result<T, KeyringError>;

/// Every failure mode reachable from the credential API. Exactly one backend
/// is compiled in per target; on this target it is the Secret Service, so
/// `SecretServiceError` is the only backend-wrapping variant that exists.
#[derive(Debug)]
pub enum KeyringError {
    /// The native secret-storage subsystem failed; wraps the full native
    /// error, untransformed.
    SecretServiceError(secret_service::Error),
    /// No secret-storage subsystem could be reached on this host.
    NoBackendFound,
    /// The operation targeted a secret that does not exist.
    NoPasswordFound,
    /// A retrieved payload was not valid UTF-8 (decoding owned bytes).
    Parse(std::string::FromUtf8Error),
    /// A retrieved payload was not valid UTF-8 (decoding a borrowed slice).
    Unicode(std::str::Utf8Error),
}

/// The direct cause of a failure: a borrow of the underlying error that a
/// wrapping variant carries. Causeless variants have none.
pub enum ErrorCause<'a> {
    SecretService(&'a secret_service::Error),
    Parse(&'a std::string::FromUtf8Error),
    Unicode(&'a std::str::Utf8Error),
}

/// The conversion rule for the native backend error.
pub open spec fn spec_from_secret_service(err: secret_service::Error) -> KeyringError {
    KeyringError::SecretServiceError(err)
}

/// The conversion rule for an owned-bytes decode failure.
pub open spec fn spec_from_parse(err: std::string::FromUtf8Error) -> KeyringError {
    KeyringError::Parse(err)
}

/// The conversion rule for a borrowed-slice decode failure.
pub open spec fn spec_from_unicode(err: std::str::Utf8Error) -> KeyringError {
    KeyringError::Unicode(err)
}

/// `c` is exactly the cause that `e` owes: the wrapped underlying error for a
/// wrapping variant, nothing for a causeless one.
pub open spec fn cause_matches<'a>(e: KeyringError, c: Option<ErrorCause<'a>>) -> bool {
    match e {
        KeyringError::SecretServiceError(err) => c matches Some(ErrorCause::SecretService(w))
            && *w == err,
        KeyringError::Parse(err) => c matches Some(ErrorCause::Parse(w)) && *w == err,
        KeyringError::Unicode(err) => c matches Some(ErrorCause::Unicode(w)) && *w == err,
        KeyringError::NoBackendFound => c is None,
        KeyringError::NoPasswordFound => c is None,
    }
}

/// The one-line diagnostic text of a failure: a fixed message for the
/// causeless variants, and "<Kind>: <underlying text>" for the wrapping ones.
pub open spec fn spec_message(e: KeyringError) -> Seq<char> {
    match e {
        KeyringError::SecretServiceError(err) => "Secret Service Error: "@
            + secret_service_text(err),
        KeyringError::NoBackendFound => "Keyring error: No Backend Found"@,
        KeyringError::NoPasswordFound => "Keyring Error: No Password Found"@,
        KeyringError::Parse(err) => "Keyring Parse Error: "@ + parse_error_text(err),
        KeyringError::Unicode(err) => "Keyring Unicode Error: "@ + unicode_error_text(err),
    }
}

/// The bare description of a failure: the underlying error's own text for a
/// wrapping variant, a fixed message for a causeless one.
pub open spec fn spec_description(e: KeyringError) -> Seq<char> {
    match e {
        KeyringError::SecretServiceError(err) => secret_service_text(err),
        KeyringError::NoBackendFound => "No Backend Found"@,
        KeyringError::NoPasswordFound => "No Password Found"@,
        KeyringError::Parse(err) => parse_error_text(err),
        KeyringError::Unicode(err) => unicode_error_text(err),
    }
}

impl KeyringError {
    /// The one-line human-readable diagnostic; always non-empty.
    pub fn message(&self) -> (r: String)
        ensures
            r@ == spec_message(*self),
            r@.len() > 0,
    {
        proof {
            reveal_strlit("Secret Service Error: ");
            reveal_strlit("Keyring error: No Backend Found");
            reveal_strlit("Keyring Error: No Password Found");
            reveal_strlit("Keyring Parse Error: ");
            reveal_strlit("Keyring Unicode Error: ");
        }
        match self {
            KeyringError::SecretServiceError(err) => {
                let detail = secret_service_display(err);
                ("Secret Service Error: ").to_owned().concat(detail.as_str())
            },
            KeyringError::NoBackendFound => ("Keyring error: No Backend Found").to_owned(),
            KeyringError::NoPasswordFound => ("Keyring Error: No Password Found").to_owned(),
            KeyringError::Parse(err) => {
                let detail = parse_error_display(err);
                ("Keyring Parse Error: ").to_owned().concat(detail.as_str())
            },
            KeyringError::Unicode(err) => {
                let detail = unicode_error_display(err);
                ("Keyring Unicode Error: ").to_owned().concat(detail.as_str())
            },
        }
    }

    /// The underlying error's own text, or the fixed message of a causeless
    /// variant.
    pub fn description(&self) -> (r: String)
        ensures
            r@ == spec_description(*self),
    {
        match self {
            KeyringError::SecretServiceError(err) => secret_service_display(err),
            KeyringError::NoBackendFound => ("No Backend Found").to_owned(),
            KeyringError::NoPasswordFound => ("No Password Found").to_owned(),
            KeyringError::Parse(err) => parse_error_display(err),
            KeyringError::Unicode(err) => unicode_error_display(err),
        }
    }

    /// The direct cause: the wrapped native or decode error, one hop deep;
    /// the causeless variants are terminal.
    pub fn cause<'a>(&'a self) -> (c: Option<ErrorCause<'a>>)
        ensures
            cause_matches(*self, c),
    {
        match self {
            KeyringError::SecretServiceError(err) => Some(ErrorCause::SecretService(err)),
            KeyringError::Parse(err) => Some(ErrorCause::Parse(err)),
            KeyringError::Unicode(err) => Some(ErrorCause::Unicode(err)),
            KeyringError::NoBackendFound => None,
            KeyringError::NoPasswordFound => None,
        }
    }
}

/// `needle` occurs contiguously somewhere inside `hay`.
pub open spec fn contains_seq(hay: Seq<char>, needle: Seq<char>) -> bool {
    exists|i: int|
        0 <= i && i + needle.len() <= hay.len() && #[trigger] hay.subrange(i, i + needle.len())
            == needle
}

/// Law: converting a native backend error and then requesting the cause of
/// the converted value yields exactly the original native error.
pub proof fn lemma_backend_cause_round_trip<'a>(
    err: secret_service::Error,
    c: Option<ErrorCause<'a>>,
)
    requires
        cause_matches(spec_from_secret_service(err), c),
    ensures
        c matches Some(ErrorCause::SecretService(w)) && *w == err,
{
}

/// Law: the two causeless variants report no cause; they are terminal in the
/// causal chain.
pub proof fn lemma_causeless_no_cause<'a>(e: KeyringError, c: Option<ErrorCause<'a>>)
    requires
        e is NoBackendFound || e is NoPasswordFound,
        cause_matches(e, c),
    ensures
        c is None,
{
}

/// Law: each conversion rule is lossless — matching the value it produced
/// against its originating variant recovers the exact wrapped error.
pub proof fn lemma_conversion_round_trip(
    ss: secret_service::Error,
    pe: std::string::FromUtf8Error,
    ue: std::str::Utf8Error,
)
    ensures
        spec_from_secret_service(ss) matches KeyringError::SecretServiceError(w) && w == ss,
        spec_from_parse(pe) matches KeyringError::Parse(w) && w == pe,
        spec_from_unicode(ue) matches KeyringError::Unicode(w) && w == ue,
{
}

proof fn lemma_concat_contains(p: Seq<char>, d: Seq<char>)
    ensures
        contains_seq(p + d, d),
{
    let i = p.len() as int;
    assert((p + d).subrange(i, i + d.len() as int) =~= d);
}

/// Law: the formatted message of every failure contains the failure's own
/// description as a substring.
pub proof fn lemma_message_contains_description(e: KeyringError)
    ensures
        contains_seq(spec_message(e), spec_description(e)),
{
    match e {
        KeyringError::SecretServiceError(err) => {
            lemma_concat_contains("Secret Service Error: "@, secret_service_text(err));
        },
        KeyringError::Parse(err) => {
            lemma_concat_contains("Keyring Parse Error: "@, parse_error_text(err));
        },
        KeyringError::Unicode(err) => {
            lemma_concat_contains("Keyring Unicode Error: "@, unicode_error_text(err));
        },
        KeyringError::NoBackendFound => {
            reveal_strlit("Keyring error: No Backend Found");
            reveal_strlit("No Backend Found");
            let hay = "Keyring error: No Backend Found"@;
            let needle = "No Backend Found"@;
            assert(hay.subrange(15, 15 + needle.len() as int) =~= needle);
        },
        KeyringError::NoPasswordFound => {
            reveal_strlit("Keyring Error: No Password Found");
            reveal_strlit("No Password Found");
            let hay = "Keyring Error: No Password Found"@;
            let needle = "No Password Found"@;
            assert(hay.subrange(15, 15 + needle.len() as int) =~= needle);
        },
    }
}

impl From<secret_service::Error> for KeyringError {
    fn from(err: secret_service::Error) -> Self {
        KeyringError::SecretServiceError(err)
    }
}

impl vstd::std_specs::convert::FromSpecImpl<secret_service::Error> for KeyringError {
    open spec fn obeys_from_spec() -> bool {
        true
    }

    open spec fn from_spec(err: secret_service::Error) -> Self {
        spec_from_secret_service(err)
    }
}

impl From<std::string::FromUtf8Error> for KeyringError {
    fn from(err: std::string::FromUtf8Error) -> Self {
        KeyringError::Parse(err)
    }
}

impl vstd::std_specs::convert::FromSpecImpl<std::string::FromUtf8Error> for KeyringError {
    open spec fn obeys_from_spec() -> bool {
        true
    }

    open spec fn from_spec(err: std::string::FromUtf8Error) -> Self {
        spec_from_parse(err)
    }
}

impl From<std::str::Utf8Error> for KeyringError {
    fn from(err: std::str::Utf8Error) -> Self {
        KeyringError::Unicode(err)
    }
}

impl vstd::std_specs::convert::FromSpecImpl<std::str::Utf8Error> for KeyringError {
    open spec fn obeys_from_spec() -> bool {
        true
    }

    open spec fn from_spec(err: std::str::Utf8Error) -> Self {
        spec_from_unicode(err)
    }
}

} // verus!
