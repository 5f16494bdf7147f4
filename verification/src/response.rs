use vstd::prelude::*;
use crate::error::{AxiosError, AxiosErrorValue};
use crate::json::{
    failure, json_decoded, json_encoded, json_member, json_text, member, parse, text,
};

verus! {

/// Whether a status code is in the success range: from 200 up to, and not
/// including, 300.
pub open spec fn success_status(status: u16) -> bool {
    200 <= status < 300
}

/// The status and the decoded body of a reply.
#[derive(Debug)]
pub struct AxiosResponse<T> {
    /// The status code of the reply.
    pub status: u16,
    /// The decoded body.
    pub data: T,
}

impl<T> AxiosResponse<T> {
    /// Whether the status is in the success range.
    pub fn ok(&self) -> (success: bool)
        ensures
            success == success_status(self.status),
    {
        self.status >= 200 && self.status < 300
    }
}

/// The status text and the message of the structured body that `value` holds:
/// `value` has a member "status" that is a JSON string, and a member "message".
/// `None` where it lacks either.
pub open spec fn envelope_of(value: serde_json::Value) -> Option<(Seq<char>, serde_json::Value)> {
    match json_member(value, "status"@) {
        Some(status) => match json_text(status) {
            Some(status_text) => match json_member(value, "message"@) {
                Some(message) => Some((status_text, message)),
                None => None,
            },
            None => None,
        },
        None => None,
    }
}

/// What a reply with this status and body comes to.
pub enum Outcome {
    /// A reply in the success range whose body is this document.
    Reply(serde_json::Value),
    /// A reply outside the success range that explains itself with this status
    /// text and message.
    Refusal(Seq<char>, serde_json::Value),
    /// A body that could not be read as what its status calls for.
    Unreadable,
}

/// What a reply comes to: in the success range the body is read as a
/// document; outside it, as a structured explanation.
pub open spec fn outcome_of(status: u16, body: Seq<char>) -> Outcome {
    match json_decoded(body) {
        None => Outcome::Unreadable,
        Some(value) => if success_status(status) {
            Outcome::Reply(value)
        } else {
            match envelope_of(value) {
                Some((status_text, message)) => Outcome::Refusal(status_text, message),
                None => Outcome::Unreadable,
            }
        },
    }
}

/// Whether `result` is what a caller gets for a reply that comes to `outcome`.
pub open spec fn meets(
    result: Result<AxiosResponse<serde_json::Value>, AxiosError<serde_json::Value>>,
    status: u16,
    outcome: Outcome,
) -> bool {
    match outcome {
        Outcome::Reply(value) => result matches Ok(reply) && reply.status == status && reply.data
            == value,
        Outcome::Refusal(status_text, message) => result matches Err(
            AxiosError::ResponseError(explained),
        ) && explained.status@ == status_text && explained.message == message,
        Outcome::Unreadable => result matches Err(AxiosError::SerdeError(_)),
    }
}

/// Puts a structured explanation together from what was found under "status"
/// and under "message". Both are needed.
pub fn assemble_envelope<T>(status: Option<String>, message: Option<T>) -> (envelope: Option<
    AxiosErrorValue<T>,
>)
    ensures
        match (status, message) {
            (Some(status_text), Some(content)) => envelope matches Some(explained)
                && explained.status == status_text && explained.message == content,
            _ => envelope is None,
        },
{
    match status {
        Some(status_text) => match message {
            Some(content) => Some(AxiosErrorValue { status: status_text, message: content }),
            None => None,
        },
        None => None,
    }
}

/// Reads the structured explanation out of a document.
pub fn read_envelope(value: &serde_json::Value) -> (envelope: Result<
    AxiosErrorValue<serde_json::Value>,
    serde_json::Error,
>)
    ensures
        match envelope_of(*value) {
            Some((status_text, message)) => envelope matches Ok(explained) && explained.status@
                == status_text && explained.message == message,
            None => envelope is Err,
        },
{
    let status = match member(value, "status") {
        Some(found) => text(&found),
        None => None,
    };
    let message = member(value, "message");
    match assemble_envelope(status, message) {
        Some(explained) => Ok(explained),
        None => Err(failure("the body is no object with a text `status` and a `message`")),
    }
}

/// The result for a reply in the success range, given what decoding its body
/// gave: the decoded body with the status, or the decoding failure.
pub fn accept<T, E>(status: u16, decoded: Result<T, serde_json::Error>) -> (result: Result<
    AxiosResponse<T>,
    AxiosError<E>,
>)
    ensures
        match decoded {
            Ok(data) => result matches Ok(reply) && reply.status == status && reply.data == data,
            Err(problem) => result matches Err(AxiosError::SerdeError(carried)) && carried
                == problem,
        },
{
    match decoded {
        Ok(data) => Ok(AxiosResponse { status, data }),
        Err(problem) => Err(AxiosError::SerdeError(problem)),
    }
}

/// The failure for a reply outside the success range, given what decoding its
/// body gave: the server's explanation, or the decoding failure.
pub fn reject<E>(decoded: Result<AxiosErrorValue<E>, serde_json::Error>) -> (error: AxiosError<E>)
    ensures
        match decoded {
            Ok(explained) => error matches AxiosError::ResponseError(carried) && carried
                == explained,
            Err(problem) => error matches AxiosError::SerdeError(carried) && carried == problem,
        },
{
    match decoded {
        Ok(explained) => AxiosError::ResponseError(explained),
        Err(problem) => AxiosError::SerdeError(problem),
    }
}

/// Decides what a reply is to its caller. A status in the success range gives
/// the decoded body; any other status gives the server's explanation as a
/// failure. A body that cannot be read as what its status calls for gives a
/// decoding failure, whatever the status.
pub fn decode_reply(status: u16, body: &str) -> (result: Result<
    AxiosResponse<serde_json::Value>,
    AxiosError<serde_json::Value>,
>)
    ensures
        meets(result, status, outcome_of(status, body@)),
{
    let parsed = parse(body);
    if status >= 200 && status < 300 {
        accept(status, parsed)
    } else {
        match parsed {
            Ok(value) => Err(reject(read_envelope(&value))),
            Err(problem) => Err(reject(Err(problem))),
        }
    }
}

/// A reply in the success range is never turned into the server's explanation
/// of a failure, whatever its body; a reply outside it is never turned into a
/// successful one.
pub proof fn lemma_status_decides_the_path(status: u16, body: Seq<char>)
    ensures
        success_status(status) ==> !(outcome_of(status, body) is Refusal),
        !success_status(status) ==> !(outcome_of(status, body) is Reply),
        success_status(status) <==> 200 <= status <= 299,
{
}

/// What goes out comes back: where the codec reads the text that it wrote for
/// `payload` back as `payload`, a reply in the success range that echoes that
/// text gives `payload` as its data.
pub proof fn lemma_echo_gives_the_payload_back(
    payload: serde_json::Value,
    status: u16,
    result: Result<AxiosResponse<serde_json::Value>, AxiosError<serde_json::Value>>,
)
    requires
        json_encoded(payload) matches Some(written) && json_decoded(written) == Some(payload),
        success_status(status),
        meets(result, status, outcome_of(status, json_encoded(payload)->Some_0)),
    ensures
        result matches Ok(reply) && reply.status == status && reply.data == payload,
{
}

} // verus!
