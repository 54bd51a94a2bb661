//! The plain values that requests and responses are made of.

use vstd::prelude::*;

verus! {

/// The status of a response.
#[derive(Clone, Copy, Debug, PartialEq, Eq, Structural)]
pub enum Status {
    /// 200: the request was served.
    Success,
    /// 201: something was stored and can now be addressed.
    Created,
    /// 202: an upload was started or continued.
    Accepted,
    /// 404: nothing is stored under the name that was asked for.
    NotFound,
    /// 500: the storage backend failed.
    ServerError,
}

impl Status {
    /// The numeric status code.
    pub open spec fn spec_code(self) -> u16 {
        match self {
            Status::Success => 200,
            Status::Created => 201,
            Status::Accepted => 202,
            Status::NotFound => 404,
            Status::ServerError => 500,
        }
    }

    /// The numeric status code.
    #[verifier::when_used_as_spec(spec_code)]
    pub fn code(self) -> (code: u16)
        ensures
            code == self.spec_code(),
    {
        match self {
            Status::Success => 200,
            Status::Created => 201,
            Status::Accepted => 202,
            Status::NotFound => 404,
            Status::ServerError => 500,
        }
    }
}

/// What a request carried under one header name.
#[derive(Debug)]
pub enum HeaderField {
    /// The request had no such header.
    Absent,
    /// The header was there, but its value is not text.
    Unreadable,
    /// The header's value.
    Text(String),
}

/// The mathematical content of a [`HeaderField`].
pub enum HeaderFieldView {
    Absent,
    Unreadable,
    Text(Seq<char>),
}

impl View for HeaderField {
    type V = HeaderFieldView;

    open spec fn view(&self) -> HeaderFieldView {
        match self {
            HeaderField::Absent => HeaderFieldView::Absent,
            HeaderField::Unreadable => HeaderFieldView::Unreadable,
            HeaderField::Text(text) => HeaderFieldView::Text(text@),
        }
    }
}

impl HeaderFieldView {
    /// The header's text, where it has one.
    pub open spec fn text(self) -> Option<Seq<char>> {
        match self {
            HeaderFieldView::Text(text) => Some(text),
            _ => None,
        }
    }
}

/// One header of a response.
#[derive(Debug)]
pub struct Header {
    pub name: String,
    pub value: String,
}

impl View for Header {
    type V = (Seq<char>, Seq<char>);

    open spec fn view(&self) -> (Seq<char>, Seq<char>) {
        (self.name@, self.value@)
    }
}

/// A response: its status, its headers in order, and its body.
#[derive(Debug)]
pub struct Response {
    pub status: Status,
    pub headers: Vec<Header>,
    pub body: Vec<u8>,
}

/// The mathematical content of a [`Response`].
#[verifier::ext_equal]
pub struct ResponseView {
    pub status: Status,
    pub headers: Seq<(Seq<char>, Seq<char>)>,
    pub body: Seq<u8>,
}

impl View for Response {
    type V = ResponseView;

    open spec fn view(&self) -> ResponseView {
        ResponseView {
            status: self.status,
            headers: self.headers@.map_values(|header: Header| header@),
            body: self.body@,
        }
    }
}

impl ResponseView {
    /// A response with the given status and body and no headers.
    pub open spec fn bare(status: Status, body: Seq<u8>) -> ResponseView {
        ResponseView { status, headers: Seq::empty(), body }
    }

    /// This response with one more header at the end.
    pub open spec fn with_header(self, name: Seq<char>, value: Seq<char>) -> ResponseView {
        ResponseView { headers: self.headers.push((name, value)), ..self }
    }
}

impl Response {
    /// A response with the given status and body and no headers.
    pub fn new(status: Status, body: Vec<u8>) -> (resp: Response)
        ensures
            resp@ == ResponseView::bare(status, body@),
    {
        Response { status, headers: Vec::new(), body }
    }

    /// Adds a header after those already there.
    pub fn with_header(self, name: &str, value: String) -> (resp: Response)
        ensures
            resp@ == self@.with_header(name@, value@),
    {
        let mut resp = self;
        resp.headers.push(Header { name: name.to_owned(), value });
        resp
    }
}

} // verus!
