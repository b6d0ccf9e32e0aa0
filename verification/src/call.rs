//! One call of the service, as far as it can be decided without a network:
//! which request goes out, and what the caller gets for each way in which
//! the exchange can end.
//!
//! A call is a single attempt. The transport sends the request and hands
//! back the body as text, or the error that stopped it; the body is then
//! parsed as JSON into the value that the endpoint answers with. A call
//! that the transport could not complete fails with [`ClientError::Transport`] and
//! its body, there being none, is never parsed; a body that is not the
//! expected JSON fails with [`ClientError::Decode`].

use vstd::prelude::*;
use vstd::string::StringExecFns;

verus! {

/// Why a call of the service failed.
#[derive(Debug)]
pub enum ClientError {
    /// The request did not get through, or its answer could not be read.
    Transport(reqwest::Error),
    /// The answer arrived, but its body is not JSON of the expected shape.
    Decode(serde_json::Error),
}

impl From<reqwest::Error> for ClientError {
    fn from(error: reqwest::Error) -> (e: ClientError) {
        ClientError::Transport(error)
    }
}

impl vstd::std_specs::convert::FromSpecImpl<reqwest::Error> for ClientError {
    open spec fn obeys_from_spec() -> bool {
        true
    }

    open spec fn from_spec(error: reqwest::Error) -> ClientError {
        ClientError::Transport(error)
    }
}

impl From<serde_json::Error> for ClientError {
    fn from(error: serde_json::Error) -> (e: ClientError) {
        ClientError::Decode(error)
    }
}

impl vstd::std_specs::convert::FromSpecImpl<serde_json::Error> for ClientError {
    open spec fn obeys_from_spec() -> bool {
        true
    }

    open spec fn from_spec(error: serde_json::Error) -> ClientError {
        ClientError::Decode(error)
    }
}

/// A GET request as the transport is to send it: the target and the one
/// header that every call sets.
#[derive(Debug)]
pub struct GetRequest {
    /// The URI to get, query included.
    pub uri: String,
    /// The name of the header.
    pub header_name: &'static str,
    /// The value of the header.
    pub header_value: &'static str,
}

/// The GET request for `uri`. It carries the content type that every call
/// declares, and nothing else.
pub fn get_request(uri: &str) -> (request: GetRequest)
    ensures
        request.uri@ == uri@,
        request.header_name@ == "content-type"@,
        request.header_value@ == "application/javascript"@,
{
    GetRequest {
        uri: String::from_str(uri),
        header_name: "content-type",
        header_value: "application/javascript",
    }
}

/// What the caller gets for what the transport handed back: the body, or a
/// transport error that holds the transport's own.
pub open spec fn received(sent: Result<String, reqwest::Error>) -> Result<String, ClientError> {
    match sent {
        Ok(body) => Ok(body),
        Err(error) => Err(ClientError::Transport(error)),
    }
}

/// What the caller gets for what the parser made of the body: the value, or
/// a decode error that holds the parser's own.
pub open spec fn decoded<T>(parsed: Result<T, serde_json::Error>) -> Result<T, ClientError> {
    match parsed {
        Ok(value) => Ok(value),
        Err(error) => Err(ClientError::Decode(error)),
    }
}

/// Turns the transport's result into the call's.
pub fn receive(sent: Result<String, reqwest::Error>) -> (body: Result<String, ClientError>)
    ensures
        body == received(sent),
{
    match sent {
        Ok(body) => Ok(body),
        Err(error) => Err(ClientError::from(error)),
    }
}

/// Turns the parser's result into the call's.
pub fn decode<T>(parsed: Result<T, serde_json::Error>) -> (value: Result<T, ClientError>)
    ensures
        value == decoded(parsed),
{
    match parsed {
        Ok(value) => Ok(value),
        Err(error) => Err(ClientError::from(error)),
    }
}

/// Ends a call: given what the transport handed back and the parser for the
/// endpoint's answer, gives what the call returns.
///
/// A transport failure is returned as it is, as [`ClientError::Transport`]. The
/// parser is not run then: nothing is asked of `parse` for that case, so this
/// function could not call it. A body is handed to the parser, once, and
/// what the parser makes of it decides the rest: its value is the call's,
/// its error the call's [`ClientError::Decode`].
pub fn response<T, F: FnOnce(String) -> Result<T, serde_json::Error>>(
    sent: Result<String, reqwest::Error>,
    parse: F,
) -> (value: Result<T, ClientError>)
    requires
        sent matches Ok(body) ==> parse.requires((body,)),
    ensures
        sent matches Err(error) ==> value == Err::<T, ClientError>(ClientError::Transport(error)),
        sent matches Ok(body) ==> exists|parsed: Result<T, serde_json::Error>|
            parse.ensures((body,), parsed) && value == decoded(parsed),
{
    match receive(sent) {
        Ok(body) => {
            let parsed = parse(body);
            decode(parsed)
        },
        Err(error) => Err(error),
    }
}

} // verus!
