//! The protocol messages. An inbound frame decodes to a request; the core
//! answers with responses: a full snapshot, a single appended record, or a
//! human-readable error. The error texts are part of the protocol and are
//! pinned here, character for character.

use vstd::prelude::*;
use vstd::string::StringExecFns;
use crate::record::{User, UserView, clone_users};

verus! {

/// A decoded client request.
#[derive(Debug)]
pub enum Request {
    /// Ask for the full current record list.
    Get,
    /// Create a record.
    Add { data: User },
    /// Replace the payload of the record carrying `id`.
    Edit { id: String, data: User },
    /// Remove the record carrying `id`.
    Delete { id: String },
}

/// The mathematical value of a request.
pub enum RequestView {
    Get,
    Add { data: UserView },
    Edit { id: Seq<char>, data: UserView },
    Delete { id: Seq<char> },
}

impl View for Request {
    type V = RequestView;

    open spec fn view(&self) -> RequestView {
        match self {
            Request::Get => RequestView::Get,
            Request::Add { data } => RequestView::Add { data: data@ },
            Request::Edit { id, data } => RequestView::Edit { id: id@, data: data@ },
            Request::Delete { id } => RequestView::Delete { id: id@ },
        }
    }
}

/// A message the core sends to clients.
#[derive(Debug, PartialEq)]
pub enum Response {
    /// The full collection snapshot; clients reconcile to it.
    Reload { data: Vec<User> },
    /// One newly created record.
    Append { data: User },
    /// A failure description, delivered to the offending client only.
    Error { message: String },
}

/// The mathematical value of a response.
pub enum ResponseView {
    Reload { data: Seq<UserView> },
    Append { data: UserView },
    Error { message: Seq<char> },
}

impl View for Response {
    type V = ResponseView;

    open spec fn view(&self) -> ResponseView {
        match self {
            Response::Reload { data } => ResponseView::Reload { data: data.deep_view() },
            Response::Append { data } => ResponseView::Append { data: data@ },
            Response::Error { message } => ResponseView::Error { message: message@ },
        }
    }
}

impl Clone for Response {
    fn clone(&self) -> (res: Self)
        ensures
            res@ == self@,
    {
        match self {
            Response::Reload { data } => Response::Reload { data: clone_users(data) },
            Response::Append { data } => Response::Append { data: data.clone() },
            Response::Error { message } => Response::Error { message: message.clone() },
        }
    }
}

/// One inbound frame, as the transport layer hands it to the core: a decoded
/// request, a frame that was not text, or text that was not a well-formed
/// request.
#[derive(Debug)]
pub enum Inbound {
    Request(Request),
    NonText,
    Malformed,
}

/// The mathematical value of an inbound frame.
pub enum InboundView {
    Request(RequestView),
    NonText,
    Malformed,
}

impl View for Inbound {
    type V = InboundView;

    open spec fn view(&self) -> InboundView {
        match self {
            Inbound::Request(r) => InboundView::Request(r@),
            Inbound::NonText => InboundView::NonText,
            Inbound::Malformed => InboundView::Malformed,
        }
    }
}

/// The error text for a frame that is not text.
pub open spec fn invalid_type_message() -> Seq<char> {
    "Invalid request type"@
}

/// The error text for text that is not a well-formed request.
pub open spec fn invalid_format_message() -> Seq<char> {
    "Invalid request format"@
}

/// The error text for a create whose identifier is already taken.
pub open spec fn duplicate_id_message(id: Seq<char>) -> Seq<char> {
    "User with ID '"@ + id + "' already exists"@
}

/// The error text for an edit or delete of an absent identifier.
pub open spec fn not_found_message(id: Seq<char>) -> Seq<char> {
    "Cannot find user with ID '"@ + id + "'"@
}

/// Builds the duplicate-identifier error text.
pub fn duplicate_id_text(id: &String) -> (r: String)
    ensures
        r@ == duplicate_id_message(id@),
{
    let mut m = String::from_str("User with ID '");
    m.append(id.as_str());
    m.append("' already exists");
    m
}

/// Builds the not-found error text.
pub fn not_found_text(id: &String) -> (r: String)
    ensures
        r@ == not_found_message(id@),
{
    let mut m = String::from_str("Cannot find user with ID '");
    m.append(id.as_str());
    m.append("'");
    m
}

} // verus!
