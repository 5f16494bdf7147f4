use vstd::prelude::*;
use crate::json::{holds_only, json_labelled, labelled};
use vstd::std_specs::convert::{FromSpecImpl, IntoSpec};

verus! {

/// The failure of the transport, as `reqwest` reports it. It is carried, never
/// read.
#[verifier::external_type_specification]
#[verifier::external_body]
pub struct ExTransportError(reqwest::Error);

/// The failure of a middleware stack, as `reqwest_middleware` reports it. It is
/// carried, never read.
#[verifier::external_type_specification]
#[verifier::external_body]
pub struct ExMiddlewareError(reqwest_middleware::Error);

/// Why a variable of the environment could not be had.
#[derive(Debug, Clone, Copy, PartialEq, Eq, Structural)]
pub enum VarError {
    /// The variable is not set.
    NotPresent,
    /// The variable is set to something that is not text.
    NotUnicode,
}

/// The structured body with which a server explains a failure.
#[derive(Debug)]
pub struct AxiosErrorValue<T> {
    pub status: String,
    pub message: T,
}

/// Every way in which a request can fail. A request ends in exactly one of
/// these, or in a reply.
#[derive(Debug)]
pub enum AxiosError<T> {
    /// The transport failed: the exchange did not complete.
    ReqwestError(reqwest::Error),
    /// A middleware of the transport failed.
    ReqwestMiddlewareError(reqwest_middleware::Error),
    /// A body could not be written as JSON, or could not be read as the JSON
    /// that was expected.
    SerdeError(serde_json::Error),
    /// The environment could not be read.
    EnvError(VarError),
    /// The request names a method that is not known; the text is the name.
    UnknownMethod(String),
    /// The server answered outside the success range, with a structured body.
    ResponseError(AxiosErrorValue<T>),
}

impl<T> AxiosError<T> {
    /// Parts a failure into the server's explanation, where it is one, and any
    /// other failure, which is the same for every type of message.
    pub fn into_explanation<U>(self) -> (parted: Result<AxiosErrorValue<T>, AxiosError<U>>)
        ensures
            match self {
                AxiosError::ReqwestError(problem) => parted matches Err(
                    AxiosError::ReqwestError(carried),
                ) && carried == problem,
                AxiosError::ReqwestMiddlewareError(problem) => parted matches Err(
                    AxiosError::ReqwestMiddlewareError(carried),
                ) && carried == problem,
                AxiosError::SerdeError(problem) => parted matches Err(
                    AxiosError::SerdeError(carried),
                ) && carried == problem,
                AxiosError::EnvError(problem) => parted matches Err(AxiosError::EnvError(carried))
                    && carried == problem,
                AxiosError::UnknownMethod(token) => parted matches Err(
                    AxiosError::UnknownMethod(carried),
                ) && carried == token,
                AxiosError::ResponseError(explained) => parted matches Ok(carried) && carried
                    == explained,
            },
    {
        match self {
            AxiosError::ReqwestError(problem) => Err(AxiosError::ReqwestError(problem)),
            AxiosError::ReqwestMiddlewareError(problem) => Err(
                AxiosError::ReqwestMiddlewareError(problem),
            ),
            AxiosError::SerdeError(problem) => Err(AxiosError::SerdeError(problem)),
            AxiosError::EnvError(problem) => Err(AxiosError::EnvError(problem)),
            AxiosError::UnknownMethod(token) => Err(AxiosError::UnknownMethod(token)),
            AxiosError::ResponseError(explained) => Ok(explained),
        }
    }
}

impl AxiosError<serde_json::Value> {
    /// The failure that carries `message` as it stands, under an empty status.
    pub fn from_message(message: serde_json::Value) -> (error: AxiosError<serde_json::Value>)
        ensures
            error matches AxiosError::ResponseError(value) && value.status@ == Seq::<char>::empty()
                && value.message == message,
    {
        AxiosError::ResponseError(AxiosErrorValue { status: String::new(), message })
    }

    /// The failure whose message is the object with the one member "message"
    /// that holds `body`, under an empty status.
    pub fn from_string(body: &str) -> (error: AxiosError<serde_json::Value>)
        ensures
            error matches AxiosError::ResponseError(value) && value.status@ == Seq::<char>::empty()
                && value.message == json_labelled("message"@, body@) && holds_only(
                value.message,
                "message"@,
                body@,
            ),
    {
        Self::from_message(labelled("message", body))
    }

    /// The failure whose message is what `into` makes of `body`, under an empty
    /// status.
    pub fn from_value<B: Into<serde_json::Value>>(body: B) -> (error: AxiosError<serde_json::Value>)
        ensures
            error matches AxiosError::ResponseError(value) && value.status@ == Seq::<char>::empty()
                && call_ensures(<B as Into<serde_json::Value>>::into, (body,), value.message)
                && (B::obeys_into_spec() ==> value.message == body.into_spec()),
    {
        Self::from_message(body.into())
    }
}

impl<T> From<reqwest::Error> for AxiosError<T> {
    fn from(problem: reqwest::Error) -> (error: Self) {
        AxiosError::ReqwestError(problem)
    }
}

impl<T> FromSpecImpl<reqwest::Error> for AxiosError<T> {
    open spec fn obeys_from_spec() -> bool {
        true
    }

    open spec fn from_spec(problem: reqwest::Error) -> Self {
        AxiosError::ReqwestError(problem)
    }
}

impl<T> From<reqwest_middleware::Error> for AxiosError<T> {
    fn from(problem: reqwest_middleware::Error) -> (error: Self) {
        AxiosError::ReqwestMiddlewareError(problem)
    }
}

impl<T> FromSpecImpl<reqwest_middleware::Error> for AxiosError<T> {
    open spec fn obeys_from_spec() -> bool {
        true
    }

    open spec fn from_spec(problem: reqwest_middleware::Error) -> Self {
        AxiosError::ReqwestMiddlewareError(problem)
    }
}

impl<T> From<serde_json::Error> for AxiosError<T> {
    fn from(problem: serde_json::Error) -> (error: Self) {
        AxiosError::SerdeError(problem)
    }
}

impl<T> FromSpecImpl<serde_json::Error> for AxiosError<T> {
    open spec fn obeys_from_spec() -> bool {
        true
    }

    open spec fn from_spec(problem: serde_json::Error) -> Self {
        AxiosError::SerdeError(problem)
    }
}

impl<T> From<VarError> for AxiosError<T> {
    fn from(problem: VarError) -> (error: Self) {
        AxiosError::EnvError(problem)
    }
}

impl<T> FromSpecImpl<VarError> for AxiosError<T> {
    open spec fn obeys_from_spec() -> bool {
        true
    }

    open spec fn from_spec(problem: VarError) -> Self {
        AxiosError::EnvError(problem)
    }
}

} // verus!
