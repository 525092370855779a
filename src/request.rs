//! Outbound requests.

use crate::headers::{copy_headers, empty_headers, header_entries};
use std::sync::Arc;
use vstd::prelude::*;

verus! {

/// The body of a request.
#[derive(Debug)]
pub enum Body {
    /// No body at all.
    Empty,
    /// Bytes held in memory, shared between the duplicates of a request.
    Buffered(Arc<Vec<u8>>),
    /// A one-shot stream: once sent it is gone, so it cannot be duplicated.
    Streaming,
}

/// What a body holds, as far as the layer can see it.
pub ghost enum BodyView {
    Empty,
    Buffered(Seq<u8>),
    Streaming,
}

impl View for Body {
    type V = BodyView;

    open spec fn view(&self) -> BodyView {
        match self {
            Body::Empty => BodyView::Empty,
            Body::Buffered(b) => BodyView::Buffered(b@),
            Body::Streaming => BodyView::Streaming,
        }
    }
}

impl Body {
    /// Whether the body can be sent again.
    pub open spec fn spec_is_replayable(&self) -> bool {
        !(self is Streaming)
    }

    /// Duplicates a body, sharing the buffer of an in-memory one; `None` for
    /// a stream.
    pub fn try_clone(&self) -> (r: Option<Body>)
        ensures
            r is Some <==> self.spec_is_replayable(),
            r matches Some(b) ==> b@ == self@,
    {
        match self {
            Body::Empty => Some(Body::Empty),
            Body::Buffered(b) => Some(Body::Buffered(Arc::clone(b))),
            Body::Streaming => None,
        }
    }
}

} // verus!

verus! {

/// An outbound request: method, URL, headers and body.
#[derive(Debug)]
pub struct Request {
    pub method: String,
    pub url: String,
    pub headers: http::HeaderMap,
    pub body: Body,
}

/// What a request holds.
pub ghost struct RequestView {
    pub method: Seq<char>,
    pub url: Seq<char>,
    pub headers: Map<Seq<u8>, Seq<Seq<u8>>>,
    pub body: BodyView,
}

impl View for Request {
    type V = RequestView;

    open spec fn view(&self) -> RequestView {
        RequestView {
            method: self.method@,
            url: self.url@,
            headers: header_entries(self.headers),
            body: self.body@,
        }
    }
}

impl Request {
    /// A request with no headers and no body.
    pub fn new(method: String, url: String) -> (r: Request)
        ensures
            r@ == (RequestView {
                method: method@,
                url: url@,
                headers: Map::empty(),
                body: BodyView::Empty,
            }),
    {
        Request { method, url, headers: empty_headers(), body: Body::Empty }
    }

    /// Whether the request can be sent more than once.
    pub open spec fn spec_is_replayable(&self) -> bool {
        self.body.spec_is_replayable()
    }

    pub fn is_replayable(&self) -> (r: bool)
        ensures
            r == self.spec_is_replayable(),
    {
        match self.body {
            Body::Streaming => false,
            _ => true,
        }
    }

    /// Replaces the headers.
    pub fn with_headers(self, headers: http::HeaderMap) -> (r: Request)
        ensures
            r@ == (RequestView { headers: header_entries(headers), ..self@ }),
    {
        let mut r = self;
        r.headers = headers;
        r
    }

    /// Replaces the body.
    pub fn with_body(self, body: Body) -> (r: Request)
        ensures
            r@ == (RequestView { body: body@, ..self@ }),
    {
        let mut r = self;
        r.body = body;
        r
    }

    /// Duplicates the request. A request with a streaming body cannot be
    /// duplicated, and gives `None`; any other gives an equal request, whose
    /// in-memory body shares the buffer of the original.
    pub fn try_clone(&self) -> (r: Option<Request>)
        ensures
            r is Some <==> self.spec_is_replayable(),
            r matches Some(c) ==> c@ == self@,
    {
        match self.body.try_clone() {
            Some(body) => Some(
                Request {
                    method: self.method.clone(),
                    url: self.url.clone(),
                    headers: copy_headers(&self.headers),
                    body,
                },
            ),
            None => None,
        }
    }
}

} // verus!
