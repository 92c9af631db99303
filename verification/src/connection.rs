//! One connection, as a state machine.
//!
//! The library decides; the program around it does the work that the library
//! cannot do: it reads the socket and the asset files, decodes JSON, does
//! the arithmetic on floating-point numbers, writes to the store, and
//! hands each outcome back as an `Event`. Every connection that starts ends
//! with exactly one response.

use vstd::prelude::*;
use crate::handlers::{
    asset_reply,
    asset_response,
    calculation_reply,
    calculation_response,
    failure_reply,
    failure_response,
    out_of_turn_reply,
    out_of_turn_response,
    page_not_found_reply,
    page_not_found_response,
    people_created_reply,
    people_created_response,
    route_not_found_reply,
    route_not_found_response,
    Operation,
    People,
    PeopleView,
};
use crate::request::{lossy_utf8, parse, parse_request, Request, RequestView};
use crate::server::{select, Asset, Handler, Route};

verus! {

/// What the work outside the library brought back.
#[derive(Debug, PartialEq, Eq)]
pub enum Event {
    /// The bytes of the one read from the socket.
    Received(Vec<u8>),
    /// The content of the asset, or nothing if the file could not be read.
    AssetRead(Option<String>),
    /// The name of the operation that the body asks for, or the cause for
    /// which the body could not be decoded.
    CalculationDecoded(Result<String, String>),
    /// The result of the calculation, as text.
    Calculated(String),
    /// The person that the body describes, or the cause for which the body
    /// could not be decoded.
    PeopleDecoded(Result<People, String>),
    /// That the person was stored, or the cause for which it was not.
    PeopleStored(Result<(), String>),
}

/// An event as the contracts see it.
pub enum EventView {
    Received(Seq<u8>),
    AssetRead(Option<Seq<char>>),
    CalculationDecoded(Result<Seq<char>, Seq<char>>),
    Calculated(Seq<char>),
    PeopleDecoded(Result<PeopleView, Seq<char>>),
    PeopleStored(Result<(), Seq<char>>),
}

impl View for Event {
    type V = EventView;

    open spec fn view(&self) -> EventView {
        match *self {
            Event::Received(bytes) => EventView::Received(bytes@),
            Event::AssetRead(content) => EventView::AssetRead(
                match content {
                    Some(text) => Some(text@),
                    None => None,
                },
            ),
            Event::CalculationDecoded(decoded) => EventView::CalculationDecoded(
                match decoded {
                    Ok(name) => Ok(name@),
                    Err(cause) => Err(cause@),
                },
            ),
            Event::Calculated(result) => EventView::Calculated(result@),
            Event::PeopleDecoded(decoded) => EventView::PeopleDecoded(
                match decoded {
                    Ok(people) => Ok(people@),
                    Err(cause) => Err(cause@),
                },
            ),
            Event::PeopleStored(stored) => EventView::PeopleStored(
                match stored {
                    Ok(_) => Ok(()),
                    Err(cause) => Err(cause@),
                },
            ),
        }
    }
}

/// What the program around the library is to do next.
#[derive(Debug, PartialEq, Eq)]
pub enum Action {
    /// Read the file of the asset.
    ReadAsset(Asset),
    /// Decode the body as the request of a calculation.
    DecodeCalculation(Vec<u8>),
    /// Apply the operation to the two numbers of the request.
    Calculate(Operation),
    /// Decode the body as a person.
    DecodePeople(Vec<u8>),
    /// Store the person.
    StorePeople(People),
    /// Write the bytes to the socket and close the connection.
    Respond(Vec<u8>),
    /// Nothing is left to do: the connection has had its response.
    Hangup,
}

/// An action as the contracts see it.
pub enum ActionView {
    ReadAsset(Asset),
    DecodeCalculation(Seq<u8>),
    Calculate(Operation),
    DecodePeople(Seq<u8>),
    StorePeople(PeopleView),
    Respond(Seq<u8>),
    Hangup,
}

impl View for Action {
    type V = ActionView;

    open spec fn view(&self) -> ActionView {
        match *self {
            Action::ReadAsset(asset) => ActionView::ReadAsset(asset),
            Action::DecodeCalculation(body) => ActionView::DecodeCalculation(body@),
            Action::Calculate(operation) => ActionView::Calculate(operation),
            Action::DecodePeople(body) => ActionView::DecodePeople(body@),
            Action::StorePeople(people) => ActionView::StorePeople(people@),
            Action::Respond(bytes) => ActionView::Respond(bytes@),
            Action::Hangup => ActionView::Hangup,
        }
    }
}

/// Where a connection stands.
#[derive(Copy, Clone, Debug, PartialEq, Eq, Structural)]
pub enum Connection {
    /// Accepted; nothing was read yet.
    Start,
    /// The file of the asset is being read.
    WaitingForAsset(Asset),
    /// The body is being decoded as the request of a calculation.
    WaitingForCalculation,
    /// The operation is being applied.
    WaitingForResult(Operation),
    /// The body is being decoded as a person.
    WaitingForPeople,
    /// The person is being stored.
    WaitingForStore,
    /// The response was handed out.
    Closed,
}

/// The cause that is reported for an operation that the calculator does
/// not know.
pub open spec fn unknown_operation() -> Seq<char> {
    "unknown operation"@
}

/// The first step of a connection: what the router selects for the request
/// decides between the work to be done and the answer to be given at once.
pub open spec fn first_step(request: RequestView) -> (Connection, ActionView) {
    match select(request.method, request.path) {
        Handler::Asset(asset) => (Connection::WaitingForAsset(asset), ActionView::ReadAsset(asset)),
        Handler::Calculate => (
            Connection::WaitingForCalculation,
            ActionView::DecodeCalculation(request.body),
        ),
        Handler::CreatePeople => (
            Connection::WaitingForPeople,
            ActionView::DecodePeople(request.body),
        ),
        Handler::PageNotFound => (Connection::Closed, ActionView::Respond(page_not_found_reply())),
        Handler::RouteNotFound => (
            Connection::Closed,
            ActionView::Respond(route_not_found_reply()),
        ),
        Handler::Unsupported => (Connection::Closed, ActionView::Respond(route_not_found_reply())),
    }
}

/// The step that a connection in `state` takes on `event`.
///
/// An event that the state was not waiting for is answered with a server
/// error; a closed connection takes no further step.
pub open spec fn next_step(state: Connection, event: EventView) -> (Connection, ActionView) {
    match (state, event) {
        (Connection::Closed, _) => (Connection::Closed, ActionView::Hangup),
        (Connection::Start, EventView::Received(bytes)) => first_step(parse(lossy_utf8(bytes))),
        (Connection::WaitingForAsset(asset), EventView::AssetRead(content)) => (
            Connection::Closed,
            ActionView::Respond(asset_reply(asset, content)),
        ),
        (Connection::WaitingForCalculation, EventView::CalculationDecoded(Ok(name))) => {
            match Operation::named(name) {
                Some(operation) => (
                    Connection::WaitingForResult(operation),
                    ActionView::Calculate(operation),
                ),
                None => (
                    Connection::Closed,
                    ActionView::Respond(failure_reply(unknown_operation())),
                ),
            }
        },
        (Connection::WaitingForCalculation, EventView::CalculationDecoded(Err(cause))) => (
            Connection::Closed,
            ActionView::Respond(failure_reply(cause)),
        ),
        (Connection::WaitingForResult(operation), EventView::Calculated(result)) => (
            Connection::Closed,
            ActionView::Respond(calculation_reply(operation, result)),
        ),
        (Connection::WaitingForPeople, EventView::PeopleDecoded(Ok(people))) => (
            Connection::WaitingForStore,
            ActionView::StorePeople(people),
        ),
        (Connection::WaitingForPeople, EventView::PeopleDecoded(Err(cause))) => (
            Connection::Closed,
            ActionView::Respond(failure_reply(cause)),
        ),
        (Connection::WaitingForStore, EventView::PeopleStored(Ok(_))) => (
            Connection::Closed,
            ActionView::Respond(people_created_reply()),
        ),
        (Connection::WaitingForStore, EventView::PeopleStored(Err(cause))) => (
            Connection::Closed,
            ActionView::Respond(failure_reply(cause)),
        ),
        _ => (Connection::Closed, ActionView::Respond(out_of_turn_reply())),
    }
}

/// The first step of a connection on a parsed request.
pub fn begin(request: Request) -> (step: (Connection, Action))
    ensures
        (step.0, step.1@) == first_step(request@),
{
    let handler = Route::new_route(&request.method, &request.path).handler();
    match handler {
        Handler::Asset(asset) => (Connection::WaitingForAsset(asset), Action::ReadAsset(asset)),
        Handler::Calculate => (
            Connection::WaitingForCalculation,
            Action::DecodeCalculation(request.body),
        ),
        Handler::CreatePeople => (Connection::WaitingForPeople, Action::DecodePeople(request.body)),
        Handler::PageNotFound => (Connection::Closed, Action::Respond(page_not_found_response())),
        Handler::RouteNotFound => (
            Connection::Closed,
            Action::Respond(route_not_found_response()),
        ),
        Handler::Unsupported => (Connection::Closed, Action::Respond(route_not_found_response())),
    }
}

impl Connection {
    /// A connection that was just accepted.
    pub fn new() -> (state: Self)
        ensures
            state == Connection::Start,
    {
        Connection::Start
    }

    /// How many steps the connection can still take before it is closed,
    /// at most.
    pub open spec fn steps_left(self) -> nat {
        match self {
            Connection::Start => 3,
            Connection::WaitingForCalculation => 2,
            Connection::WaitingForPeople => 2,
            Connection::WaitingForAsset(_) => 1,
            Connection::WaitingForResult(_) => 1,
            Connection::WaitingForStore => 1,
            Connection::Closed => 0,
        }
    }

    /// Takes one step: given what happened, the state that follows and what
    /// is to be done next.
    pub fn step(self, event: Event) -> (step: (Connection, Action))
        ensures
            (step.0, step.1@) == next_step(self, event@),
    {
        match (self, event) {
            (Connection::Closed, _) => (Connection::Closed, Action::Hangup),
            (Connection::Start, Event::Received(bytes)) => begin(parse_request(bytes.as_slice())),
            (Connection::WaitingForAsset(asset), Event::AssetRead(content)) => {
                let bytes = match &content {
                    Some(text) => asset_response(asset, Some(text.as_str())),
                    None => asset_response(asset, None),
                };
                (Connection::Closed, Action::Respond(bytes))
            },
            (Connection::WaitingForCalculation, Event::CalculationDecoded(Ok(name))) => {
                match Operation::parse_operation(name.as_str()) {
                    Some(operation) => (
                        Connection::WaitingForResult(operation),
                        Action::Calculate(operation),
                    ),
                    None => (
                        Connection::Closed,
                        Action::Respond(failure_response("unknown operation")),
                    ),
                }
            },
            (Connection::WaitingForCalculation, Event::CalculationDecoded(Err(cause))) => (
                Connection::Closed,
                Action::Respond(failure_response(cause.as_str())),
            ),
            (Connection::WaitingForResult(operation), Event::Calculated(result)) => (
                Connection::Closed,
                Action::Respond(calculation_response(operation, result.as_str())),
            ),
            (Connection::WaitingForPeople, Event::PeopleDecoded(Ok(people))) => (
                Connection::WaitingForStore,
                Action::StorePeople(people),
            ),
            (Connection::WaitingForPeople, Event::PeopleDecoded(Err(cause))) => (
                Connection::Closed,
                Action::Respond(failure_response(cause.as_str())),
            ),
            (Connection::WaitingForStore, Event::PeopleStored(Ok(_))) => (
                Connection::Closed,
                Action::Respond(people_created_response()),
            ),
            (Connection::WaitingForStore, Event::PeopleStored(Err(cause))) => (
                Connection::Closed,
                Action::Respond(failure_response(cause.as_str())),
            ),
            _ => (Connection::Closed, Action::Respond(out_of_turn_response())),
        }
    }
}

} // verus!
