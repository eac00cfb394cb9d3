//! Error kinds raised while preparing or running a load test.

use vstd::prelude::*;

verus! {

/// Result alias used throughout the library.
pub type AppResult<T> = Result<T, ErrorType>;

/// Everything that can go wrong while preparing or running a load test.
///
/// The configuration errors (`InvalidHeaderStructure`, `InvalidHeaderName`,
/// `InvalidHeaderValue`, `InvalidMethod`, `InvalidProxy`) and
/// `HttpClientBuildFailed` occur before any worker starts, so a run that
/// fails with one of them records no samples. `HttpRequestFailed` marks a
/// single failed attempt and is always recovered locally by recording a
/// `Failed` sample. `InvalidError` reports a worker thread that terminated
/// abnormally instead of completing its loop.
#[derive(Clone, Copy, Debug, PartialEq, Eq, Structural)]
pub enum ErrorType {
    InvalidHeaderStructure,
    InvalidHeaderName,
    InvalidHeaderValue,
    InvalidMethod,
    InvalidProxy,
    HttpClientBuildFailed,
    HttpRequestFailed,
    InvalidError,
}

impl ErrorType {
    /// The message shown to the user for this error.
    pub open spec fn spec_message(self) -> Seq<char> {
        match self {
            ErrorType::InvalidHeaderStructure => "Invalid header structure. Headers must be provided in the following format: <HEADER_NAME>:<HEADER_VALUE>"@,
            ErrorType::InvalidHeaderName => "Invalid header name. Can't parse header name."@,
            ErrorType::InvalidHeaderValue => "Invalid header value. Can't parse header value."@,
            ErrorType::InvalidMethod => "Invalid method. Please use one of the GET, POST, PUT, DELETE, HEAD and OPTIONS methods."@,
            ErrorType::InvalidProxy => "Invalid proxy. Please provide valid http, https or socks proxy."@,
            ErrorType::HttpClientBuildFailed => "Failed to build HTTP client. TLS backend can't initialized or system configuration can't load probably."@,
            ErrorType::HttpRequestFailed => "HTTP request failed due to timeout reached."@,
            ErrorType::InvalidError => "Invalid error. Please report this error to our GitHub issues page."@,
        }
    }

    /// The message shown to the user for this error.
    pub fn message(&self) -> (r: &'static str)
        ensures
            r@ == self.spec_message(),
    {
        match *self {
            ErrorType::InvalidHeaderStructure => "Invalid header structure. Headers must be provided in the following format: <HEADER_NAME>:<HEADER_VALUE>",
            ErrorType::InvalidHeaderName => "Invalid header name. Can't parse header name.",
            ErrorType::InvalidHeaderValue => "Invalid header value. Can't parse header value.",
            ErrorType::InvalidMethod => "Invalid method. Please use one of the GET, POST, PUT, DELETE, HEAD and OPTIONS methods.",
            ErrorType::InvalidProxy => "Invalid proxy. Please provide valid http, https or socks proxy.",
            ErrorType::HttpClientBuildFailed => "Failed to build HTTP client. TLS backend can't initialized or system configuration can't load probably.",
            ErrorType::HttpRequestFailed => "HTTP request failed due to timeout reached.",
            ErrorType::InvalidError => "Invalid error. Please report this error to our GitHub issues page.",
        }
    }
}

} // verus!
