//! The errors of the library.

use vstd::prelude::*;
use vstd::string::StringExecFns;
use crate::num::{ParseIntError, spec_int_error_description};

verus! {

#[verifier::external_type_specification]
#[verifier::external_body]
pub struct ExIoError(std::io::Error);

#[verifier::external_type_specification]
#[verifier::external_body]
pub struct ExUtf8Error(std::str::Utf8Error);

#[verifier::external_type_specification]
#[verifier::external_body]
pub struct ExHttpError(solicit::http::HttpError);

/// An error of the gRPC library. The errors of UTF-8 decoding, of I/O and of
/// the HTTP/2 connection are kept as they came; an error of TLS carries the
/// description of the underlying error.
#[derive(Debug)]
pub enum GrpcError {
    Utf8Error(std::str::Utf8Error),
    ParseIntError(ParseIntError),
    IoError(std::io::Error),
    HttpError(solicit::http::HttpError),
    SslError(String),
    BadRequest(&'static str),
}

/// The result of an operation of the library.
pub type GrpcResult<T> = Result<T, GrpcError>;

/// The description of a UTF-8 error. Calls `Error::description` of
/// `std::str::Utf8Error`; nothing is stated of the text.
#[verifier::external_body]
#[allow(deprecated)]
fn utf8_error_description(e: &std::str::Utf8Error) -> &str {
    std::error::Error::description(e)
}

/// The description of an I/O error. Calls `Error::description` of
/// `std::io::Error`; nothing is stated of the text, which depends on the
/// error's kind or on the error it wraps.
#[verifier::external_body]
#[allow(deprecated)]
fn io_error_description(e: &std::io::Error) -> &str {
    std::error::Error::description(e)
}

/// The texts that describe an error of the HTTP/2 connection, one for each
/// kind of error.
pub open spec fn is_http_error_description(d: Seq<char>) -> bool {
    ||| d == "Encountered an IO error"@
    ||| d == "Encountered an invalid HTTP/2 frame"@
    ||| d == "Encountered an error with HPACK compression"@
    ||| d == "Attempted an operation with an unknown HTTP/2 stream ID"@
    ||| d == "An error attempting to establish an HTTP/2 connection"@
    ||| d == "The received response was malformed"@
    ||| d == "An unknown error"@
}

/// The description of an error of the HTTP/2 connection, as
/// `Error::description` of `solicit::http::HttpError` gives it: a fixed text
/// chosen by the error's variant alone.
pub uninterp spec fn spec_http_error_description(e: solicit::http::HttpError) -> Seq<char>;

/// The description of an error of the HTTP/2 connection. Calls
/// `Error::description` of `solicit::http::HttpError`, which matches on the
/// error's variant and returns one fixed text for each; the text is the one
/// named by `spec_http_error_description` for this error, and it is one of
/// the seven texts that `is_http_error_description` lists.
#[verifier::external_body]
#[allow(deprecated)]
fn http_error_description(e: &solicit::http::HttpError) -> (r: &str)
    ensures
        r@ == spec_http_error_description(*e),
        is_http_error_description(r@),
{
    std::error::Error::description(e)
}

impl GrpcError {
    /// The description of the error, where it is stated: for a parse
    /// error, an HTTP/2 error, a TLS error and a bad request. The errors of
    /// UTF-8 decoding and of I/O describe themselves, by the standard library.
    pub open spec fn spec_description(&self) -> Option<Seq<char>> {
        match self {
            GrpcError::ParseIntError(e) => Some(spec_int_error_description(e.kind)),
            GrpcError::HttpError(e) => Some(spec_http_error_description(*e)),
            GrpcError::SslError(d) => Some(d@),
            GrpcError::BadRequest(m) => Some(m@),
            _ => None,
        }
    }

    /// The words that the displayed message starts with.
    pub open spec fn spec_prefix(&self) -> Seq<char> {
        match self {
            GrpcError::Utf8Error(_) => "parse utf8 error, "@,
            GrpcError::ParseIntError(_) => "parse int error, "@,
            GrpcError::IoError(_) => "io error, "@,
            GrpcError::HttpError(_) => "http error, "@,
            GrpcError::SslError(_) => "ssl error, "@,
            GrpcError::BadRequest(_) => "bad request, "@,
        }
    }

    /// The message `text` displays the error with the description `d`: it
    /// is the prefix of the error's kind followed by `d`, and `d` is the
    /// error's description where that is stated.
    pub open spec fn displays_as(&self, text: Seq<char>, d: Seq<char>) -> bool {
        &&& text == self.spec_prefix() + d
        &&& self.spec_description() matches Some(k) ==> d == k
    }

    /// The description of the underlying error (for a bad request, its message).
    pub fn description(&self) -> (r: &str)
        ensures
            self.spec_description() matches Some(d) ==> r@ == d,
            self is HttpError ==> is_http_error_description(r@),
    {
        match self {
            GrpcError::Utf8Error(e) => utf8_error_description(e),
            GrpcError::ParseIntError(e) => e.description(),
            GrpcError::IoError(e) => io_error_description(e),
            GrpcError::HttpError(e) => http_error_description(e),
            GrpcError::SslError(d) => d.as_str(),
            GrpcError::BadRequest(m) => *m,
        }
    }

    /// The message that displays the error with the given description: the
    /// words of the error's kind, then the description.
    pub fn display_with(&self, description: &str) -> (r: String)
        ensures
            r@ == self.spec_prefix() + description@,
    {
        let prefix: &str = match self {
            GrpcError::Utf8Error(_) => "parse utf8 error, ",
            GrpcError::ParseIntError(_) => "parse int error, ",
            GrpcError::IoError(_) => "io error, ",
            GrpcError::HttpError(_) => "http error, ",
            GrpcError::SslError(_) => "ssl error, ",
            GrpcError::BadRequest(_) => "bad request, ",
        };
        let mut s = prefix.to_owned();
        s.append(description);
        s
    }

    /// The message that displays the error: the kind of error, a comma and
    /// the description.
    pub fn to_display_string(&self) -> (r: String)
        ensures
            exists|d: Seq<char>| #[trigger] self.displays_as(r@, d),
            self matches GrpcError::HttpError(e) ==> r@ == "http error, "@
                + spec_http_error_description(*e),
    {
        let d = self.description();
        let s = self.display_with(d);
        assert(self.displays_as(s@, d@));
        s
    }
}

impl From<ParseIntError> for GrpcError {
    fn from(err: ParseIntError) -> (r: GrpcError) {
        GrpcError::ParseIntError(err)
    }
}

impl vstd::std_specs::convert::FromSpecImpl<ParseIntError> for GrpcError {
    open spec fn obeys_from_spec() -> bool {
        true
    }

    open spec fn from_spec(err: ParseIntError) -> GrpcError {
        GrpcError::ParseIntError(err)
    }
}

impl From<std::str::Utf8Error> for GrpcError {
    fn from(err: std::str::Utf8Error) -> (r: GrpcError) {
        GrpcError::Utf8Error(err)
    }
}

impl vstd::std_specs::convert::FromSpecImpl<std::str::Utf8Error> for GrpcError {
    open spec fn obeys_from_spec() -> bool {
        true
    }

    open spec fn from_spec(err: std::str::Utf8Error) -> GrpcError {
        GrpcError::Utf8Error(err)
    }
}

impl From<std::io::Error> for GrpcError {
    fn from(err: std::io::Error) -> (r: GrpcError) {
        GrpcError::IoError(err)
    }
}

impl vstd::std_specs::convert::FromSpecImpl<std::io::Error> for GrpcError {
    open spec fn obeys_from_spec() -> bool {
        true
    }

    open spec fn from_spec(err: std::io::Error) -> GrpcError {
        GrpcError::IoError(err)
    }
}

impl From<solicit::http::HttpError> for GrpcError {
    fn from(err: solicit::http::HttpError) -> (r: GrpcError) {
        GrpcError::HttpError(err)
    }
}

impl vstd::std_specs::convert::FromSpecImpl<solicit::http::HttpError> for GrpcError {
    open spec fn obeys_from_spec() -> bool {
        true
    }

    open spec fn from_spec(err: solicit::http::HttpError) -> GrpcError {
        GrpcError::HttpError(err)
    }
}

} // verus!
