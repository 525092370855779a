//! Responses, with their body read in full.

use crate::error::Error;
use crate::headers::{copy_headers, header_entries};
use vstd::utf8::{decode_utf8, encode_utf8, valid_utf8};
use vstd::prelude::*;

verus! {

#[verifier::external_type_specification]
#[verifier::external_body]
pub struct ExExtensions(http::Extensions);

/// Relies on http::Extensions::new: an empty type map.
pub assume_specification[ http::Extensions::new ]() -> http::Extensions;

/// Relies on String::from_utf8: the bytes are accepted exactly when they are
/// valid UTF-8, and then make the text that they encode.
#[verifier::external_body]
fn utf8_to_string(b: Vec<u8>) -> (r: Option<String>)
    ensures
        r is Some <==> valid_utf8(b@),
        r is Some ==> r->0@ == decode_utf8(b@),
{
    String::from_utf8(b).ok()
}

/// The protocol version of a response.
#[derive(Clone, Copy, Debug, PartialEq, Eq, Structural)]
pub enum Version {
    Http09,
    Http10,
    Http11,
    H2,
    H3,
}

/// Whether a status code is a client error (4xx).
pub open spec fn is_client_error(status: u16) -> bool {
    400 <= status <= 499
}

/// Whether a status code is a server error (5xx).
pub open spec fn is_server_error(status: u16) -> bool {
    500 <= status <= 599
}

/// A response whose body has been read in full.
#[derive(Debug)]
pub struct Response {
    status: u16,
    version: Version,
    headers: http::HeaderMap,
    url: String,
    body: Vec<u8>,
    extensions: http::Extensions,
}

/// What a response holds, but for its extensions.
pub ghost struct ResponseView {
    pub status: u16,
    pub version: Version,
    pub headers: Map<Seq<u8>, Seq<Seq<u8>>>,
    pub url: Seq<char>,
    pub body: Seq<u8>,
}

impl View for Response {
    type V = ResponseView;

    closed spec fn view(&self) -> ResponseView {
        ResponseView {
            status: self.status,
            version: self.version,
            headers: header_entries(self.headers),
            url: self.url@,
            body: self.body@,
        }
    }
}

impl Response {
    /// A response with the given parts and no extensions.
    pub fn new(status: u16, version: Version, headers: http::HeaderMap, url: String, body: Vec<u8>) -> (r:
        Response)
        ensures
            r@ == (ResponseView {
                status,
                version,
                headers: header_entries(headers),
                url: url@,
                body: body@,
            }),
    {
        Response { status, version, headers, url, body, extensions: http::Extensions::new() }
    }

    /// The status code.
    pub fn status(&self) -> (r: u16)
        ensures
            r == self@.status,
    {
        self.status
    }

    /// The protocol version.
    pub fn version(&self) -> (r: Version)
        ensures
            r == self@.version,
    {
        self.version
    }

    /// The headers.
    pub fn headers(&self) -> (r: &http::HeaderMap)
        ensures
            header_entries(*r) == self@.headers,
    {
        &self.headers
    }

    /// The headers, to be changed in place.
    pub fn headers_mut(&mut self) -> (r: &mut http::HeaderMap)
        ensures
            header_entries(*r) == old(self)@.headers,
            final(self)@ == (ResponseView { headers: header_entries(*final(r)), ..old(self)@ }),
    {
        &mut self.headers
    }

    /// The size of the body, which has been read in full. This is not the
    /// value of a `Content-Length` header, which `headers` gives.
    pub fn content_length(&self) -> (r: Option<u64>)
        ensures
            r == Some(self@.body.len() as u64),
    {
        Some(self.body.len() as u64)
    }

    /// The final URL, after any redirects.
    pub fn url(&self) -> (r: &String)
        ensures
            r@ == self@.url,
    {
        &self.url
    }

    /// The extensions attached to the response.
    pub fn extensions(&self) -> &http::Extensions {
        &self.extensions
    }

    /// The extensions attached to the response, to be changed in place; the
    /// rest of the response stays as it was.
    pub fn extensions_mut(&mut self) -> (r: &mut http::Extensions)
        ensures
            final(self)@ == old(self)@,
    {
        &mut self.extensions
    }

    /// The body as text, decoded as UTF-8; an error where it is not valid
    /// UTF-8.
    pub fn text(self) -> (r: Result<String, Error>)
        ensures
            r is Ok <==> valid_utf8(self@.body),
            r matches Ok(s) ==> s@ == decode_utf8(self@.body),
            r matches Err(e) ==> e is Middleware,
    {
        match utf8_to_string(self.body) {
            Some(s) => Ok(s),
            None => Err(Error::Middleware("response body is not valid UTF-8".to_owned())),
        }
    }

    /// The body as bytes.
    pub fn bytes(self) -> (r: Result<Vec<u8>, Error>)
        ensures
            r matches Ok(b) && b@ == self@.body,
    {
        Ok(self.body)
    }

    /// Whether the status is a client or a server error.
    pub open spec fn spec_is_error_status(&self) -> bool {
        is_client_error(self@.status) || is_server_error(self@.status)
    }

    /// Turns a response whose status is a client or a server error into an
    /// error that carries the status; any other response is handed back.
    pub fn error_for_status(self) -> (r: Result<Response, Error>)
        ensures
            self.spec_is_error_status() ==> (r matches Err(Error::Status(s)) && s == self@.status),
            !self.spec_is_error_status() ==> (r matches Ok(res) && res == self),
    {
        if 400 <= self.status && self.status <= 599 {
            Err(Error::Status(self.status))
        } else {
            Ok(self)
        }
    }

    /// The check of `error_for_status`, made on a borrowed response.
    pub fn error_for_status_ref(&self) -> (r: Result<&Response, Error>)
        ensures
            self.spec_is_error_status() ==> (r matches Err(Error::Status(s)) && s == self@.status),
            !self.spec_is_error_status() ==> (r matches Ok(res) && res == self),
    {
        if 400 <= self.status && self.status <= 599 {
            Err(Error::Status(self.status))
        } else {
            Ok(self)
        }
    }

    /// A copy of the response; its extensions start empty.
    pub fn clone_without_extensions(&self) -> (r: Response)
        ensures
            r@ == self@,
    {
        Response {
            status: self.status,
            version: self.version,
            headers: copy_headers(&self.headers),
            url: self.url.clone(),
            body: self.body.clone(),
            extensions: http::Extensions::new(),
        }
    }
}

/// A body that holds the UTF-8 encoding of a text reads back as that text.
pub proof fn lemma_text_round_trip(r: Response, text: Seq<char>)
    requires
        r@.body == encode_utf8(text),
    ensures
        valid_utf8(r@.body),
        decode_utf8(r@.body) == text,
{
    vstd::utf8::encode_utf8_valid_utf8(text);
    vstd::utf8::encode_utf8_decode_utf8(text);
}

} // verus!
