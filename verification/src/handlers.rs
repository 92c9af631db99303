//! What each handler answers, given what the work outside the library
//! brought back.

use vstd::prelude::*;
use vstd::string::{StrSliceExecFns, StringExecFns};
use vstd::utf8::encode_utf8;
use crate::response_message::{ResponseMessage, StatusCode};
use crate::server::{build_response, Asset};
use crate::text::str_eq;
use crate::wire::message_text;

verus! {

/// The bytes of a response with the given status that carries `body` as
/// content of type `content_type`.
pub open spec fn reply(status: StatusCode, content_type: Seq<char>, body: Seq<char>) -> Seq<u8> {
    encode_utf8(message_text(status, content_type, body))
}

/// One of the four operations of the calculator.
#[derive(Copy, Clone, Debug, PartialEq, Eq, Structural)]
pub enum Operation {
    Sum,
    Sub,
    Mult,
    Div,
}

impl Operation {
    /// The name under which a request asks for the operation.
    pub open spec fn name(self) -> Seq<char> {
        match self {
            Operation::Sum => "sum"@,
            Operation::Sub => "sub"@,
            Operation::Mult => "mult"@,
            Operation::Div => "div"@,
        }
    }

    /// The operation that `text` names, if it names one.
    pub open spec fn named(text: Seq<char>) -> Option<Operation> {
        if text == "sum"@ {
            Some(Operation::Sum)
        } else if text == "sub"@ {
            Some(Operation::Sub)
        } else if text == "mult"@ {
            Some(Operation::Mult)
        } else if text == "div"@ {
            Some(Operation::Div)
        } else {
            None
        }
    }

    /// The operation that `text` names, if it names one.
    pub fn parse_operation(text: &str) -> (operation: Option<Operation>)
        ensures
            operation == Operation::named(text@),
    {
        if str_eq(text, "sum") {
            Some(Operation::Sum)
        } else if str_eq(text, "sub") {
            Some(Operation::Sub)
        } else if str_eq(text, "mult") {
            Some(Operation::Mult)
        } else if str_eq(text, "div") {
            Some(Operation::Div)
        } else {
            None
        }
    }

    /// The name under which a request asks for the operation.
    pub fn label(&self) -> (label: &'static str)
        ensures
            label@ == self.name(),
    {
        match self {
            Operation::Sum => "sum",
            Operation::Sub => "sub",
            Operation::Mult => "mult",
            Operation::Div => "div",
        }
    }
}

/// A person to be stored: a name and an age, both as text.
#[derive(Debug, PartialEq, Eq)]
pub struct People {
    pub name: String,
    pub age: String,
}

/// A person as the contracts see it.
pub struct PeopleView {
    pub name: Seq<char>,
    pub age: Seq<char>,
}

impl View for People {
    type V = PeopleView;

    open spec fn view(&self) -> PeopleView {
        PeopleView { name: self.name@, age: self.age@ }
    }
}

/// The body that reports the result of a calculation.
pub open spec fn calculation_text(operation: Operation, result: Seq<char>) -> Seq<char> {
    "the "@ + operation.name() + " is: "@ + result
}

/// The JSON object that reports a failure with its cause. The cause is put
/// between the quotes as it is.
pub open spec fn error_envelope(cause: Seq<char>) -> Seq<char> {
    "{\"status\": \"err\", \"message\": \""@ + cause + "\"}"@
}

/// The answer to a `GET` of a path that is not registered.
pub open spec fn page_not_found_reply() -> Seq<u8> {
    reply(StatusCode::NotFound, "text/plain"@, "page not found!"@)
}

/// The answer to a request that no route is registered for, other than a
/// `GET`.
pub open spec fn route_not_found_reply() -> Seq<u8> {
    reply(StatusCode::NotFound, "text/plain"@, "route not found!"@)
}

/// The answer to the request for an asset: the content as it is, under the
/// content type of the asset, where the content could be read; a server
/// error where it could not.
pub open spec fn asset_reply(asset: Asset, content: Option<Seq<char>>) -> Seq<u8> {
    match content {
        Some(text) => reply(StatusCode::Success, asset.media_type(), text),
        None => reply(StatusCode::InternalServerError, "text/plain"@, "asset not available!"@),
    }
}

/// The answer that carries the result of a calculation.
pub open spec fn calculation_reply(operation: Operation, result: Seq<char>) -> Seq<u8> {
    reply(StatusCode::Success, "text/plain"@, calculation_text(operation, result))
}

/// The answer to a request that cannot be served for the given cause.
pub open spec fn failure_reply(cause: Seq<char>) -> Seq<u8> {
    reply(StatusCode::BadRequest, "application/json"@, error_envelope(cause))
}

/// The answer to a request whose person was stored.
pub open spec fn people_created_reply() -> Seq<u8> {
    reply(StatusCode::Success, "text/plain"@, "People was created!"@)
}

/// The answer to an event that the connection was not waiting for.
pub open spec fn out_of_turn_reply() -> Seq<u8> {
    reply(StatusCode::InternalServerError, "text/plain"@, "internal server error!"@)
}

/// The body that reports the result of a calculation.
pub fn calculation_body(operation: Operation, result: &str) -> (body: String)
    ensures
        body@ == calculation_text(operation, result@),
{
    let mut body = String::from_str("the ");
    body.append(operation.label());
    body.append(" is: ");
    body.append(result);
    body
}

/// The JSON object that reports a failure with its cause.
pub fn error_envelope_text(cause: &str) -> (body: String)
    ensures
        body@ == error_envelope(cause@),
{
    let mut body = String::from_str("{\"status\": \"err\", \"message\": \"");
    body.append(cause);
    body.append("\"}");
    body
}

/// The answer to a `GET` of a path that is not registered.
pub fn page_not_found_response() -> (bytes: Vec<u8>)
    ensures
        bytes@ == page_not_found_reply(),
{
    ResponseMessage::not_found_error("page not found!", "text/plain").content.as_str().as_bytes_vec()
}

/// The answer to a request that no route is registered for, other than a
/// `GET`.
pub fn route_not_found_response() -> (bytes: Vec<u8>)
    ensures
        bytes@ == route_not_found_reply(),
{
    ResponseMessage::not_found_error(
        "route not found!",
        "text/plain",
    ).content.as_str().as_bytes_vec()
}

/// The answer to the request for `asset`, whose content is `content` if the
/// file could be read.
pub fn asset_response(asset: Asset, content: Option<&str>) -> (bytes: Vec<u8>)
    ensures
        bytes@ == asset_reply(
            asset,
            match content {
                Some(text) => Some(text@),
                None => None,
            },
        ),
{
    match content {
        Some(text) => build_response(StatusCode::Success, asset.content_type(), text),
        None => build_response(
            StatusCode::InternalServerError,
            "text/plain",
            "asset not available!",
        ),
    }
}

/// The answer that carries `result` as the result of `operation`.
pub fn calculation_response(operation: Operation, result: &str) -> (bytes: Vec<u8>)
    ensures
        bytes@ == calculation_reply(operation, result@),
{
    let body = calculation_body(operation, result);
    build_response(StatusCode::Success, "text/plain", body.as_str())
}

/// The answer to a request that cannot be served for the given cause: a
/// body that does not decode, an operation that is not known, a store that
/// refuses the record.
pub fn failure_response(cause: &str) -> (bytes: Vec<u8>)
    ensures
        bytes@ == failure_reply(cause@),
{
    let body = error_envelope_text(cause);
    ResponseMessage::badrequest_error(
        body.as_str(),
        "application/json",
    ).content.as_str().as_bytes_vec()
}

/// The answer to a request whose person was stored.
pub fn people_created_response() -> (bytes: Vec<u8>)
    ensures
        bytes@ == people_created_reply(),
{
    build_response(StatusCode::Success, "text/plain", "People was created!")
}

/// The answer to an event that the connection was not waiting for.
pub fn out_of_turn_response() -> (bytes: Vec<u8>)
    ensures
        bytes@ == out_of_turn_reply(),
{
    build_response(StatusCode::InternalServerError, "text/plain", "internal server error!")
}

} // verus!
