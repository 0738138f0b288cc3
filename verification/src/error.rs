//! The library's error model: every failed operation ends in exactly one of
//! these kinds, and callers can branch on them.

use vstd::prelude::*;

verus! {

/// Why an API operation failed.
#[derive(Clone, Debug)]
pub enum Error {
    /// The HTTP exchange itself failed: connection trouble, or a non-2xx
    /// status. The message comes from the transport.
    Transport(String),
    /// A request body could not be encoded. The built-in form encoder is
    /// total and never yields this; the kind exists so that callers of
    /// alternative transports can classify such failures.
    Encoding(String),
    /// The response body matched neither the success nor the failure shape
    /// of the response envelope.
    Decode,
    /// The service answered with its failure envelope; carries the
    /// server-supplied message verbatim.
    ApiError(String),
}

impl Error {
    /// A short label for the kind, for callers that want to log it.
    pub fn kind_name(&self) -> (r: &'static str)
        ensures
            self is Transport ==> r@ == "transport error"@,
            self is Encoding ==> r@ == "encoding error"@,
            self is Decode ==> r@ == "decode error"@,
            self is ApiError ==> r@ == "API error"@,
    {
        match self {
            Error::Transport(_) => "transport error",
            Error::Encoding(_) => "encoding error",
            Error::Decode => "decode error",
            Error::ApiError(_) => "API error",
        }
    }
}

/// Accepts exactly the 2xx success statuses; any other status is a
/// transport error, to be surfaced before envelope decoding is attempted.
pub fn error_for_status(status: u16) -> (r: Result<(), Error>)
    ensures
        r is Ok <==> 200 <= status <= 299,
        !(200 <= status <= 299) ==> (r matches Err(e) && e matches Error::Transport(m) && m@
            == "non-success HTTP status"@),
{
    if 200 <= status && status <= 299 {
        Ok(())
    } else {
        Err(Error::Transport("non-success HTTP status".to_owned()))
    }
}

} // verus!
