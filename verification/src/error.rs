//! The failures of a call: of the codec, of the channel, of an operation.

use vstd::prelude::*;
use vstd::string::StringExecFns;
use crate::pickle::error_text;

verus! {

/// The error of std's I/O. It is carried, never opened.
#[verifier::external_type_specification]
#[verifier::external_body]
pub struct ExIoError(std::io::Error);

/// Renders an I/O error with its `Debug` impl. Nothing is claimed of the text.
#[verifier::external_body]
fn io_error_debug(e: &std::io::Error) -> (s: String) {
    format!("{:?}", e)
}

/// Errors specific to transport
#[derive(Debug)]
pub enum TransportError {
    /// Error when sending (from the perspective of the the local program)
    SendError(String),
    /// Error when receiving (from the perspective of the the local program)
    ReceiveError(String),
    /// Error when establishing connection
    ConnectError(String),
}

impl TransportError {
    /// The error as text: the variant's name, then the detail in brackets.
    pub open spec fn rendering(self) -> Seq<char> {
        match self {
            TransportError::SendError(s) => "SendError("@ + s@ + ")"@,
            TransportError::ReceiveError(s) => "ReceiveError("@ + s@ + ")"@,
            TransportError::ConnectError(s) => "ConnectError("@ + s@ + ")"@,
        }
    }

    /// A failed write.
    pub fn io_send(e: std::io::Error) -> (r: Self)
        ensures
            r is SendError,
    {
        Self::sending_failed(io_error_debug(&e))
    }

    /// A failed read.
    pub fn io_receive(e: std::io::Error) -> (r: Self)
        ensures
            r is ReceiveError,
    {
        Self::receiving_failed(io_error_debug(&e))
    }

    /// The failure of a write, with the text that describes it. For an I/O error
    /// the text is whatever the error prints of itself, so [`Self::io_send`] can
    /// say no more than the variant; what is made of the text is said here.
    pub fn sending_failed(detail: String) -> (r: Self)
        ensures
            r == TransportError::SendError(detail),
    {
        Self::SendError(detail)
    }

    /// The failure of a read, with the text that describes it. See
    /// [`Self::sending_failed`].
    pub fn receiving_failed(detail: String) -> (r: Self)
        ensures
            r == TransportError::ReceiveError(detail),
    {
        Self::ReceiveError(detail)
    }

    /// The error as text.
    pub fn render(&self) -> (s: String)
        ensures
            s@ == self.rendering(),
    {
        match self {
            TransportError::SendError(d) => bracketed("SendError(", d),
            TransportError::ReceiveError(d) => bracketed("ReceiveError(", d),
            TransportError::ConnectError(d) => bracketed("ConnectError(", d),
        }
    }
}

fn bracketed(head: &str, detail: &String) -> (s: String)
    ensures
        s@ == head@ + detail@ + ")"@,
{
    let mut s = String::from_str(head);
    s.append(detail.as_str());
    s.append(")");
    s
}

/// Why a call failed.
#[derive(Debug)]
pub enum RpcError {
    /// Bytes that the codec could not read, or a value that it could not write.
    ParseError(serde_pickle::Error),
    /// The channel failed.
    TransportError(TransportError),
    /// A failure of the operation itself, or of finding it.
    Custom(String),
}

/// What a call gives: its value, or why it failed.
pub type RpcResult<A> = Result<A, RpcError>;

impl RpcError {
    /// The error as text: for a codec error whatever the codec prints.
    pub fn render(&self) -> (s: String)
        ensures
            self matches RpcError::TransportError(e) ==> s@ == e.rendering(),
            self matches RpcError::Custom(d) ==> s@ == d@,
    {
        match self {
            RpcError::ParseError(e) => error_text(e),
            RpcError::TransportError(e) => e.render(),
            RpcError::Custom(d) => d.clone(),
        }
    }
}

impl From<serde_pickle::Error> for RpcError {
    fn from(e: serde_pickle::Error) -> (r: Self) {
        Self::ParseError(e)
    }
}

impl vstd::std_specs::convert::FromSpecImpl<serde_pickle::Error> for RpcError {
    open spec fn obeys_from_spec() -> bool {
        true
    }

    open spec fn from_spec(e: serde_pickle::Error) -> Self {
        Self::ParseError(e)
    }
}

impl From<TransportError> for RpcError {
    fn from(e: TransportError) -> (r: Self) {
        Self::TransportError(e)
    }
}

impl vstd::std_specs::convert::FromSpecImpl<TransportError> for RpcError {
    open spec fn obeys_from_spec() -> bool {
        true
    }

    open spec fn from_spec(e: TransportError) -> Self {
        Self::TransportError(e)
    }
}

/// A channel's result as a call's result: a failure of the channel becomes
/// `RpcError::TransportError`, anything else is handed on.
pub open spec fn transported<T>(result: Result<T, TransportError>) -> RpcResult<T> {
    match result {
        Ok(v) => Ok(v),
        Err(e) => Err(RpcError::TransportError(e)),
    }
}

/// Turns a channel's result into a call's result.
pub fn into_rpc_result_transport<T>(result: Result<T, TransportError>) -> (r: RpcResult<T>)
    ensures
        r == transported(result),
{
    match result {
        Ok(bytes) => Ok(bytes),
        Err(e) => Err(RpcError::TransportError(e)),
    }
}

} // verus!
