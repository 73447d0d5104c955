//! Replies: an HTTP status code and a JSON envelope whose `status` field
//! says how the request went.

use vstd::prelude::*;
use crate::model::{note_views, NoteModelResponse, NoteView};

verus! {

pub const STATUS_OK: u16 = 200;

pub const STATUS_BAD_REQUEST: u16 = 400;

pub const STATUS_NOT_FOUND: u16 = 404;

pub const STATUS_CONFLICT: u16 = 409;

pub const STATUS_INTERNAL_SERVER_ERROR: u16 = 500;

/// The JSON body of a reply.
#[derive(Debug)]
pub enum Body {
    /// `{status, message}` of the health check.
    Health { status: String, message: String },
    /// `{status, count, notes}` of a listing.
    List { status: String, count: usize, notes: Vec<NoteModelResponse> },
    /// `{status, data: {note}}` of a request that shows one note.
    Note { status: String, note: NoteModelResponse },
    /// `{status, message}` of a request that failed.
    Error { status: String, message: String },
    /// No body at all.
    Empty,
}

/// A reply: status code and body.
#[derive(Debug)]
pub struct ApiResponse {
    pub code: u16,
    pub body: Body,
}

pub ghost enum BodyView {
    Health { status: Seq<char>, message: Seq<char> },
    List { status: Seq<char>, count: nat, notes: Seq<NoteView> },
    Note { status: Seq<char>, note: NoteView },
    Error { status: Seq<char>, message: Seq<char> },
    Empty,
}

pub ghost struct ReplyView {
    pub code: u16,
    pub body: BodyView,
}

impl View for Body {
    type V = BodyView;

    open spec fn view(&self) -> BodyView {
        match self {
            Body::Health { status, message } => BodyView::Health {
                status: status@,
                message: message@,
            },
            Body::List { status, count, notes } => BodyView::List {
                status: status@,
                count: *count as nat,
                notes: note_views(notes@),
            },
            Body::Note { status, note } => BodyView::Note { status: status@, note: note@ },
            Body::Error { status, message } => BodyView::Error {
                status: status@,
                message: message@,
            },
            Body::Empty => BodyView::Empty,
        }
    }
}

impl View for ApiResponse {
    type V = ReplyView;

    open spec fn view(&self) -> ReplyView {
        ReplyView { code: self.code, body: self.body@ }
    }
}

/// The reply of the health check.
pub open spec fn health_reply() -> ReplyView {
    ReplyView {
        code: STATUS_OK,
        body: BodyView::Health { status: "ok"@, message: "API Services"@ },
    }
}

/// A reply that reports a failure.
pub open spec fn error_reply(code: u16, status: Seq<char>, message: Seq<char>) -> ReplyView {
    ReplyView { code, body: BodyView::Error { status, message } }
}

/// A reply that shows one note.
pub open spec fn note_reply(note: NoteView) -> ReplyView {
    ReplyView { code: STATUS_OK, body: BodyView::Note { status: "success"@, note } }
}

/// A reply that shows a page of notes.
pub open spec fn list_reply(notes: Seq<NoteView>) -> ReplyView {
    ReplyView {
        code: STATUS_OK,
        body: BodyView::List { status: "ok"@, count: notes.len(), notes },
    }
}

/// What a not-found reply says of the id.
pub open spec fn not_found_text(id: Seq<char>) -> Seq<char> {
    "Note with ID: "@ + id + " not found"@
}

/// The fixed reply of the health check.
pub fn health_check_handler() -> (r: ApiResponse)
    ensures
        r@ == health_reply(),
{
    ApiResponse {
        code: STATUS_OK,
        body: Body::Health {
            status: String::from_str("ok"),
            message: String::from_str("API Services"),
        },
    }
}

/// A failure reply with the given code, status word and message.
pub fn error_response(code: u16, status: &str, message: String) -> (r: ApiResponse)
    ensures
        r@ == error_reply(code, status@, message@),
{
    ApiResponse { code, body: Body::Error { status: String::from_str(status), message } }
}

/// The reply that shows one note.
pub fn note_response(note: NoteModelResponse) -> (r: ApiResponse)
    ensures
        r@ == note_reply(note@),
{
    ApiResponse { code: STATUS_OK, body: Body::Note { status: String::from_str("success"), note } }
}

/// The reply that shows a page of notes.
pub fn list_response(notes: Vec<NoteModelResponse>) -> (r: ApiResponse)
    ensures
        r@ == list_reply(note_views(notes@)),
{
    let count = notes.len();
    ApiResponse {
        code: STATUS_OK,
        body: Body::List { status: String::from_str("ok"), count, notes },
    }
}

/// The message of a not-found reply.
pub fn not_found_message(id: &str) -> (r: String)
    ensures
        r@ == not_found_text(id@),
{
    let mut m = String::from_str("Note with ID: ");
    m.append(id);
    m.append(" not found");
    m
}

} // verus!
