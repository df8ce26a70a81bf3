//! The errors of the library.
use vstd::prelude::*;

verus! {

/// What went wrong.
#[derive(Clone, Copy, Debug, PartialEq, Eq, Structural)]
pub enum ErrorCode {
    /// An mDNS message or name could not be handled, or a service could not be
    /// registered.
    MdnsError,
    /// There is no such exchange, or it is busy or closed.
    NoExchange,
    /// There is no session for the exchange.
    NoSession,
    /// A table or a buffer is full.
    NoSpace,
}

/// An error, told by its code.
#[derive(Clone, Copy, Debug, PartialEq, Eq, Structural)]
pub struct Error {
    pub code: ErrorCode,
}

impl Error {
    /// The error with the given code.
    pub fn new(code: ErrorCode) -> (e: Error)
        ensures
            e.code == code,
    {
        Error { code }
    }

    /// The code of this error.
    pub fn code(&self) -> (code: ErrorCode)
        ensures
            code == self.code,
    {
        self.code
    }
}

impl From<ErrorCode> for Error {
    fn from(code: ErrorCode) -> (e: Error) {
        Error::new(code)
    }
}

impl vstd::std_specs::convert::FromSpecImpl<ErrorCode> for Error {
    open spec fn obeys_from_spec() -> bool {
        true
    }

    open spec fn from_spec(code: ErrorCode) -> Error {
        Error { code }
    }
}

/// `domain::base::ShortBuf`: a buffer was too short for a DNS message. Opaque
/// here.
#[verifier::external_type_specification]
#[verifier::external_body]
pub struct ExShortBuf(domain::base::ShortBuf);

/// `domain::base::octets::ParseError`: a DNS message could not be parsed. Opaque
/// here.
#[verifier::external_type_specification]
#[verifier::external_body]
pub struct ExParseError(domain::base::octets::ParseError);

/// `domain::base::name::FromStrError`: a string is no domain name. Opaque here.
#[verifier::external_type_specification]
#[verifier::external_body]
pub struct ExFromStrError(domain::base::name::FromStrError);

impl From<domain::base::ShortBuf> for Error {
    fn from(_e: domain::base::ShortBuf) -> (e: Error) {
        Error::new(ErrorCode::NoSpace)
    }
}

impl vstd::std_specs::convert::FromSpecImpl<domain::base::ShortBuf> for Error {
    open spec fn obeys_from_spec() -> bool {
        true
    }

    open spec fn from_spec(_e: domain::base::ShortBuf) -> Error {
        Error { code: ErrorCode::NoSpace }
    }
}

impl From<domain::base::octets::ParseError> for Error {
    fn from(_e: domain::base::octets::ParseError) -> (e: Error) {
        Error::new(ErrorCode::MdnsError)
    }
}

impl vstd::std_specs::convert::FromSpecImpl<domain::base::octets::ParseError> for Error {
    open spec fn obeys_from_spec() -> bool {
        true
    }

    open spec fn from_spec(_e: domain::base::octets::ParseError) -> Error {
        Error { code: ErrorCode::MdnsError }
    }
}

impl From<domain::base::name::FromStrError> for Error {
    fn from(_e: domain::base::name::FromStrError) -> (e: Error) {
        Error::new(ErrorCode::MdnsError)
    }
}

impl vstd::std_specs::convert::FromSpecImpl<domain::base::name::FromStrError> for Error {
    open spec fn obeys_from_spec() -> bool {
        true
    }

    open spec fn from_spec(_e: domain::base::name::FromStrError) -> Error {
        Error { code: ErrorCode::MdnsError }
    }
}

/// An error has the code that it was made with, by whichever way, and tells it. A buffer
/// that is too short is a lack of space; a message that cannot be parsed and a string that
/// is no domain name are mDNS errors.
pub proof fn error_has_the_code_of_its_cause(
    code: ErrorCode,
    made: Error,
    told: ErrorCode,
    converted: Error,
    short_buf: domain::base::ShortBuf,
    of_short_buf: Error,
    parse_error: domain::base::octets::ParseError,
    of_parse_error: Error,
    from_str_error: domain::base::name::FromStrError,
    of_from_str_error: Error,
)
    requires
        call_ensures(Error::new, (code,), made),
        call_ensures(Error::code, (&made,), told),
        call_ensures(<Error as From<ErrorCode>>::from, (code,), converted),
        call_ensures(<Error as From<domain::base::ShortBuf>>::from, (short_buf,), of_short_buf),
        call_ensures(
            <Error as From<domain::base::octets::ParseError>>::from,
            (parse_error,),
            of_parse_error,
        ),
        call_ensures(
            <Error as From<domain::base::name::FromStrError>>::from,
            (from_str_error,),
            of_from_str_error,
        ),
    ensures
        made.code == code,
        told == code,
        converted.code == code,
        of_short_buf.code == ErrorCode::NoSpace,
        of_parse_error.code == ErrorCode::MdnsError,
        of_from_str_error.code == ErrorCode::MdnsError,
{
}

} // verus!
