//! Failures of the transport: connecting, sending a frame, receiving a frame.

use vstd::prelude::*;

verus! {

#[verifier::external_type_specification]
#[verifier::external_body]
pub struct ExIoError(std::io::Error);

/// Connection failure: the version tokens disagree, or the transport failed.
#[derive(Debug)]
pub enum ConnectError {
    BadHandshake(String),
    Io(std::io::Error),
}

/// Failure while writing a frame.
#[derive(Debug)]
pub enum SendError {
    Io(std::io::Error),
}

/// Failure while reading a frame: the transport failed or ended early, or
/// the payload is not UTF-8.
#[derive(Debug)]
pub enum RecvError {
    Io(std::io::Error),
    BadEncoding,
}

/// Failure of one request/response exchange, telling which half broke.
#[derive(Debug)]
pub enum RequestError {
    Send(SendError),
    Recv(RecvError),
}

impl From<SendError> for RequestError {
    fn from(e: SendError) -> (r: RequestError)
        ensures
            r == RequestError::Send(e),
    {
        RequestError::Send(e)
    }
}

impl vstd::std_specs::convert::FromSpecImpl<SendError> for RequestError {
    open spec fn obeys_from_spec() -> bool {
        true
    }

    open spec fn from_spec(e: SendError) -> RequestError {
        RequestError::Send(e)
    }
}

impl From<RecvError> for RequestError {
    fn from(e: RecvError) -> (r: RequestError)
        ensures
            r == RequestError::Recv(e),
    {
        RequestError::Recv(e)
    }
}

impl vstd::std_specs::convert::FromSpecImpl<RecvError> for RequestError {
    open spec fn obeys_from_spec() -> bool {
        true
    }

    open spec fn from_spec(e: RecvError) -> RequestError {
        RequestError::Recv(e)
    }
}

pub type ConnectResult<T> = Result<T, ConnectError>;

pub type SendResult = Result<(), SendError>;

pub type RecvResult = Result<String, RecvError>;

pub type RequestResult = Result<String, RequestError>;

/// Relies on `std::io::Error::from(ErrorKind::UnexpectedEof)`: the error for a
/// source that ends before the bytes a frame announces.
#[verifier::external_body]
pub(crate) fn unexpected_eof() -> std::io::Error {
    std::io::Error::from(std::io::ErrorKind::UnexpectedEof)
}

} // verus!
