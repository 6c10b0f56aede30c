//! What the site answers: a status, a content type and a body.

use vstd::prelude::*;

verus! {

/// Status of an answer that carries what was asked for.
pub const STATUS_OK: u16 = 200;

/// Status of an answer to a request for something that is not there.
pub const STATUS_NOT_FOUND: u16 = 404;

/// The content types that the site sets itself.
#[derive(Clone, Copy, Debug, PartialEq, Eq, Structural)]
pub enum ContentType {
    /// `text/html; charset=utf-8`
    Html,
    /// `application/json`
    Json,
    /// `application/gzip`
    Gzip,
}

impl ContentType {
    /// The value of the `Content-Type` header.
    pub open spec fn mime_text(self) -> Seq<char> {
        match self {
            ContentType::Html => "text/html; charset=utf-8"@,
            ContentType::Json => "application/json"@,
            ContentType::Gzip => "application/gzip"@,
        }
    }

    /// The value of the `Content-Type` header.
    pub fn mime(&self) -> (text: &'static str)
        ensures
            text@ == self.mime_text(),
    {
        match self {
            ContentType::Html => "text/html; charset=utf-8",
            ContentType::Json => "application/json",
            ContentType::Gzip => "application/gzip",
        }
    }
}

/// The body of an answer.
#[derive(Clone, Debug, PartialEq, Eq)]
pub enum Body {
    /// Text, sent as it is.
    Text(String),
    /// Bytes, sent as they are.
    Bytes(Vec<u8>),
    /// The contents of the file at this path, to be read when the answer
    /// is sent.
    File(String),
}

/// A body as a mathematical value.
pub enum BodyView {
    Text(Seq<char>),
    Bytes(Seq<u8>),
    File(Seq<char>),
}

impl View for Body {
    type V = BodyView;

    open spec fn view(&self) -> BodyView {
        match self {
            Body::Text(text) => BodyView::Text(text@),
            Body::Bytes(bytes) => BodyView::Bytes(bytes@),
            Body::File(path) => BodyView::File(path@),
        }
    }
}

/// An answer to one request.
#[derive(Clone, Debug, PartialEq, Eq)]
pub struct Reply {
    /// The HTTP status code.
    pub status: u16,
    /// The content type, where the site sets one; `None` leaves the choice
    /// to whatever sends the answer.
    pub content_type: Option<ContentType>,
    pub body: Body,
}

/// An answer as a mathematical value.
pub struct ReplyView {
    pub status: u16,
    pub content_type: Option<ContentType>,
    pub body: BodyView,
}

impl View for Reply {
    type V = ReplyView;

    open spec fn view(&self) -> ReplyView {
        ReplyView { status: self.status, content_type: self.content_type, body: self.body@ }
    }
}

} // verus!
