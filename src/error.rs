use hyper::Error as HyperError;
use serde_json::Error as JsonError;
use vstd::prelude::*;

verus! {

/// A failure to read the response stream.
#[verifier::external_type_specification]
#[verifier::external_body]
pub struct ExIoError(std::io::Error);

/// A body that serde_json could not read as JSON.
#[verifier::external_type_specification]
#[verifier::external_body]
pub struct ExJsonError(JsonError);

/// A transport failure reported by hyper.
#[verifier::external_type_specification]
#[verifier::external_body]
pub struct ExHyperError(HyperError);

/// Why a response body could not be turned into the expected record.
#[derive(Debug)]
pub enum DecodeError {
    /// The body is not JSON.
    Syntax(JsonError),
    /// The body is JSON of another shape; the text names the offending part.
    Schema(String),
}

/// Every way a call can fail.
#[derive(Debug)]
pub enum Error {
    /// Reading the response stream failed.
    Io(std::io::Error),
    /// The body did not decode into the expected record.
    Json(DecodeError),
    /// The server could not be reached or the exchange broke off.
    Http(HyperError),
    /// The server answered with a status outside 2xx.
    HttpStatus(u16),
}

impl Error {
    /// A schema error: the body is JSON but not of the expected shape.
    pub open spec fn is_schema(self) -> bool {
        self matches Error::Json(DecodeError::Schema(_))
    }

    /// A schema error that carries the message `m`.
    pub open spec fn is_schema_with(self, m: Seq<char>) -> bool {
        self matches Error::Json(DecodeError::Schema(s)) && s@ == m
    }
}

} // verus!
