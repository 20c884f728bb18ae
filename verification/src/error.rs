use vstd::prelude::*;

verus! {

/// `hyper::Error`, carried through unopened.
#[verifier::external_type_specification]
#[verifier::external_body]
pub struct ExHyperError(hyper::Error);

/// `hyper_tls::Error`, carried through unopened.
#[verifier::external_type_specification]
#[verifier::external_body]
pub struct ExTlsError(hyper_tls::Error);

/// `std::string::FromUtf8Error`, carried through unopened.
#[verifier::external_type_specification]
#[verifier::external_body]
pub struct ExFromUtf8Error(std::string::FromUtf8Error);

/// `serde_json::Error`, carried through unopened.
#[verifier::external_type_specification]
#[verifier::external_body]
pub struct ExJsonError(serde_json::Error);

/// Every way in which a call to the homeserver can fail.
#[derive(Debug)]
pub enum RixError {
    /// The HTTP exchange itself failed.
    HTTP(hyper::Error),
    /// The TLS connector could not be set up.
    TLS(hyper_tls::Error),
    /// A body that had to be text was not UTF-8.
    UTF8(std::string::FromUtf8Error),
    /// A body that had to be JSON could not be read.
    JSON(serde_json::Error),
    /// Any other failure, described in words.
    Other(String),
}

impl From<hyper::Error> for RixError {
    fn from(e: hyper::Error) -> (r: RixError) {
        RixError::HTTP(e)
    }
}

impl vstd::std_specs::convert::FromSpecImpl<hyper::Error> for RixError {
    open spec fn obeys_from_spec() -> bool {
        true
    }

    open spec fn from_spec(v: hyper::Error) -> RixError {
        RixError::HTTP(v)
    }
}

impl From<hyper_tls::Error> for RixError {
    fn from(e: hyper_tls::Error) -> (r: RixError) {
        RixError::TLS(e)
    }
}

impl vstd::std_specs::convert::FromSpecImpl<hyper_tls::Error> for RixError {
    open spec fn obeys_from_spec() -> bool {
        true
    }

    open spec fn from_spec(v: hyper_tls::Error) -> RixError {
        RixError::TLS(v)
    }
}

impl From<std::string::FromUtf8Error> for RixError {
    fn from(e: std::string::FromUtf8Error) -> (r: RixError) {
        RixError::UTF8(e)
    }
}

impl vstd::std_specs::convert::FromSpecImpl<std::string::FromUtf8Error> for RixError {
    open spec fn obeys_from_spec() -> bool {
        true
    }

    open spec fn from_spec(v: std::string::FromUtf8Error) -> RixError {
        RixError::UTF8(v)
    }
}

impl From<serde_json::Error> for RixError {
    fn from(e: serde_json::Error) -> (r: RixError) {
        RixError::JSON(e)
    }
}

impl vstd::std_specs::convert::FromSpecImpl<serde_json::Error> for RixError {
    open spec fn obeys_from_spec() -> bool {
        true
    }

    open spec fn from_spec(v: serde_json::Error) -> RixError {
        RixError::JSON(v)
    }
}

impl From<String> for RixError {
    fn from(details: String) -> (r: RixError) {
        RixError::Other(details)
    }
}

impl vstd::std_specs::convert::FromSpecImpl<String> for RixError {
    open spec fn obeys_from_spec() -> bool {
        true
    }

    open spec fn from_spec(v: String) -> RixError {
        RixError::Other(v)
    }
}

/// True when `e` is `RixError::Other` with exactly the text `msg`.
pub open spec fn is_other(e: RixError, msg: Seq<char>) -> bool {
    e matches RixError::Other(m) && m@ == msg
}

} // verus!
