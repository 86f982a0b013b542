use vstd::prelude::*;

verus! {

/// Mathematical model of an `InnerErrorResponse`.
pub struct SpecInnerErrorResponse {
    pub code: int,
    pub description: Seq<char>,
    pub debug: Option<Seq<char>>,
}

/// Mathematical model of an `ErrorResponse`.
pub struct SpecErrorResponse {
    pub error: SpecInnerErrorResponse,
}

/// Mathematical model of a `ClientError`.
pub enum SpecClientError {
    Reqwest(Seq<char>),
    Serde(Seq<char>),
    ServerError(SpecErrorResponse),
    ApiKeyMissing,
}

/// Object inside of an ErrorResponse.
#[derive(Debug, PartialEq)]
pub struct InnerErrorResponse {
    /// The status code of the error (maps to the HTTP status code in most cases).
    pub code: i32,
    /// The error message.
    pub description: String,
    /// If the remote allows listing of debug messages, this will be populated.
    /// It gives concrete context of what went wrong on the remote.
    pub debug: Option<String>,
}

impl View for InnerErrorResponse {
    type V = SpecInnerErrorResponse;

    open spec fn view(&self) -> SpecInnerErrorResponse {
        SpecInnerErrorResponse {
            code: self.code as int,
            description: self.description@,
            debug: match self.debug {
                Some(s) => Some(s@),
                None => None,
            },
        }
    }
}

/// ErrorResponse is returned from the remote when an error occurs.
/// Does not happen in most read scenarios.
#[derive(Debug, PartialEq)]
pub struct ErrorResponse {
    pub error: InnerErrorResponse,
}

impl View for ErrorResponse {
    type V = SpecErrorResponse;

    open spec fn view(&self) -> SpecErrorResponse {
        SpecErrorResponse { error: self.error@ }
    }
}

/// Any error that can happen during a request.
#[derive(Debug, PartialEq)]
pub enum ClientError {
    /// The underlying HTTP call itself failed; carries the transport
    /// error's message.
    Reqwest(String),
    /// A request failed to serialize or a response failed to
    /// deserialize; carries the parser's message.
    Serde(String),
    /// The remote has returned a non-successful HTTP status code.
    ServerError(ErrorResponse),
    /// A write request was attempted without an API Key.
    ApiKeyMissing,
}

impl View for ClientError {
    type V = SpecClientError;

    open spec fn view(&self) -> SpecClientError {
        match self {
            ClientError::Reqwest(m) => SpecClientError::Reqwest(m@),
            ClientError::Serde(m) => SpecClientError::Serde(m@),
            ClientError::ServerError(e) => SpecClientError::ServerError(e@),
            ClientError::ApiKeyMissing => SpecClientError::ApiKeyMissing,
        }
    }
}

} // verus!
