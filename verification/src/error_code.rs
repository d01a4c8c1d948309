//! JSON-RPC errors and the two ways in which a request is answered with one.

use vstd::prelude::*;

verus! {

/// The code of an error that the client can mend by sending another request.
pub const INVALID_REQUEST_ERROR_CODE: i64 = -32600;

/// The code of an error that lies on the server's side.
pub const INTERNAL_ERROR_CODE: i64 = -32603;

/// The error object of a JSON-RPC answer.
#[derive(Debug, PartialEq, Eq)]
pub struct JSONRPCErrorError {
    pub code: i64,
    pub message: String,
    /// The JSON text of additional data.
    pub data: Option<String>,
}

/// What a [`JSONRPCErrorError`] says.
pub struct ErrorView {
    pub code: i64,
    pub message: Seq<char>,
    pub data: Option<Seq<char>>,
}

impl View for JSONRPCErrorError {
    type V = ErrorView;

    open spec fn view(&self) -> ErrorView {
        ErrorView {
            code: self.code,
            message: self.message@,
            data: match self.data {
                Some(data) => Some(data@),
                None => None,
            },
        }
    }
}

impl Clone for JSONRPCErrorError {
    fn clone(&self) -> (error: Self)
        ensures
            error == *self,
    {
        JSONRPCErrorError {
            code: self.code,
            message: self.message.clone(),
            data: match &self.data {
                Some(data) => Some(data.clone()),
                None => None,
            },
        }
    }
}

/// The error that blames the request, with `message` and no data.
pub open spec fn invalid_request_view(message: Seq<char>) -> ErrorView {
    ErrorView { code: INVALID_REQUEST_ERROR_CODE, message, data: None }
}

/// The error that blames the server, with `message` and no data.
pub open spec fn internal_error_view(message: Seq<char>) -> ErrorView {
    ErrorView { code: INTERNAL_ERROR_CODE, message, data: None }
}

/// Builds the error that blames the request.
pub fn invalid_request(message: String) -> (error: JSONRPCErrorError)
    ensures
        error@ == invalid_request_view(message@),
{
    JSONRPCErrorError { code: INVALID_REQUEST_ERROR_CODE, message, data: None }
}

/// Builds the error that blames the server.
pub fn internal_error(message: String) -> (error: JSONRPCErrorError)
    ensures
        error@ == internal_error_view(message@),
{
    JSONRPCErrorError { code: INTERNAL_ERROR_CODE, message, data: None }
}

} // verus!
