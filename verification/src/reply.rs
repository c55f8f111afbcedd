use crate::json::{JsonModel, JsonValue};
use crate::parse::{json_document, parse_document};
use vstd::prelude::*;

verus! {

/// What is wrong with a response body that was expected to hold a completion.
#[derive(Clone, Copy, Debug, PartialEq, Eq, Structural)]
pub enum Malformation {
    /// The body is not a JSON document.
    NotJson,
    /// The document has no member `choices`, or that member is no array.
    ChoicesNotArray,
    /// The first choice has no `message.content`, or it is no string. An empty
    /// `choices` has no first choice.
    ContentNotText,
}

/// A failed completion as mathematics.
pub enum ErrorModel {
    Transport { cause: Seq<char> },
    HttpStatus { status: u16 },
    MalformedResponse { fault: Malformation },
}

/// Why a completion failed.
#[derive(Debug, PartialEq, Eq)]
pub enum CompletionError {
    /// No response was obtained. `cause` is what the transport said of it.
    Transport { cause: String },
    /// The response came with a status outside 200 to 299.
    HttpStatus { status: u16 },
    /// The response came with a good status, but its body holds no completion.
    MalformedResponse { fault: Malformation },
}

impl View for CompletionError {
    type V = ErrorModel;

    open spec fn view(&self) -> ErrorModel {
        match self {
            CompletionError::Transport { cause } => ErrorModel::Transport { cause: cause@ },
            CompletionError::HttpStatus { status } => ErrorModel::HttpStatus { status: *status },
            CompletionError::MalformedResponse { fault } => ErrorModel::MalformedResponse {
                fault: *fault,
            },
        }
    }
}

/// The end of one attempt to send a request, as mathematics.
pub enum ReplyModel {
    Failed { cause: Seq<char> },
    Answered { status: u16, body: Seq<u8> },
}

/// The end of one attempt to send a request.
#[derive(Debug, PartialEq, Eq)]
pub enum Reply {
    /// No response was obtained: the connection failed, timed out, or broke
    /// off. `cause` is what the transport said of it.
    Failed { cause: String },
    /// A response came. Where the status is outside 200 to 299 the body is
    /// never looked at, and need not have been read.
    Answered { status: u16, body: Vec<u8> },
}

impl View for Reply {
    type V = ReplyModel;

    open spec fn view(&self) -> ReplyModel {
        match self {
            Reply::Failed { cause } => ReplyModel::Failed { cause: cause@ },
            Reply::Answered { status, body } => ReplyModel::Answered {
                status: *status,
                body: body@,
            },
        }
    }
}

/// What a completion comes to, as mathematics.
pub open spec fn outcome_model(outcome: Result<String, CompletionError>) -> Result<
    Seq<char>,
    ErrorModel,
> {
    match outcome {
        Ok(text) => Ok(text@),
        Err(error) => Err(error@),
    }
}

/// Whether a status says that the request succeeded.
pub open spec fn is_success(status: u16) -> bool {
    200 <= status < 300
}

/// The completion that a document holds: the string at
/// `choices[0].message.content`.
pub open spec fn content_of(document: JsonModel) -> Result<Seq<char>, Malformation> {
    match document.member("choices"@) {
        Some(JsonModel::Array(choices)) => {
            if choices.len() == 0 {
                Err(Malformation::ContentNotText)
            } else {
                match choices[0].member("message"@) {
                    Some(message) => match message.member("content"@) {
                        Some(JsonModel::Text(text)) => Ok(text),
                        _ => Err(Malformation::ContentNotText),
                    },
                    None => Err(Malformation::ContentNotText),
                }
            }
        },
        _ => Err(Malformation::ChoicesNotArray),
    }
}

/// The completion that a response body holds, given the document that was
/// read from it.
pub open spec fn completion_in(document: Option<JsonModel>) -> Result<Seq<char>, ErrorModel> {
    match document {
        None => Err(ErrorModel::MalformedResponse { fault: Malformation::NotJson }),
        Some(document) => match content_of(document) {
            Ok(text) => Ok(text),
            Err(fault) => Err(ErrorModel::MalformedResponse { fault }),
        },
    }
}

/// What a completion comes to, given how sending the request ended. Only a
/// response with a good status has its body read.
pub open spec fn completion_of(reply: ReplyModel) -> Result<Seq<char>, ErrorModel> {
    match reply {
        ReplyModel::Failed { cause } => Err(ErrorModel::Transport { cause }),
        ReplyModel::Answered { status, body } => if is_success(status) {
            completion_in(json_document(body))
        } else {
            Err(ErrorModel::HttpStatus { status })
        },
    }
}

/// Whether a status says that the request succeeded: it lies in 200 to 299.
pub fn status_is_success(status: u16) -> (yes: bool)
    ensures
        yes == is_success(status),
{
    200 <= status && status < 300
}

/// Finds the completion in a document.
pub fn extract_content(document: &JsonValue) -> (found: Result<String, Malformation>)
    ensures
        match found {
            Ok(text) => content_of(document@) == Ok::<_, Malformation>(text@),
            Err(fault) => content_of(document@) == Err::<Seq<char>, _>(fault),
        },
{
    let choices = match document.member("choices") {
        Some(value) => match value.items() {
            Some(items) => items,
            None => {
                return Err(Malformation::ChoicesNotArray);
            },
        },
        None => {
            return Err(Malformation::ChoicesNotArray);
        },
    };
    if choices.len() == 0 {
        return Err(Malformation::ContentNotText);
    }
    let content = match choices[0].member("message") {
        Some(message) => message.member("content"),
        None => None,
    };
    match content {
        Some(value) => match value.text() {
            Some(text) => Ok(text.clone()),
            None => Err(Malformation::ContentNotText),
        },
        None => Err(Malformation::ContentNotText),
    }
}

/// Reads the completion out of a parsed response body, or says that none
/// could be parsed.
pub fn completion_from_document(document: Option<JsonValue>) -> (outcome: Result<
    String,
    CompletionError,
>)
    ensures
        outcome_model(outcome) == completion_in(
            match document {
                Some(value) => Some(value@),
                None => None,
            },
        ),
{
    match document {
        None => Err(CompletionError::MalformedResponse { fault: Malformation::NotJson }),
        Some(value) => match extract_content(&value) {
            Ok(text) => Ok(text),
            Err(fault) => Err(CompletionError::MalformedResponse { fault }),
        },
    }
}

/// Reads the completion out of the body of a successful response.
pub fn read_completion(body: &[u8]) -> (outcome: Result<String, CompletionError>)
    ensures
        outcome_model(outcome) == completion_in(json_document(body@)),
{
    completion_from_document(parse_document(body))
}

} // verus!
