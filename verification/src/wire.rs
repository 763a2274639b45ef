//! What a built operation looks like on the wire: method, path, optional body and the
//! encoding the body was declared with.

use vstd::prelude::*;

verus! {

/// The HTTP methods the protocol uses.
#[derive(Clone, Copy, PartialEq, Eq, Debug, Structural)]
pub enum Method {
    Get,
    Post,
}

impl Method {
    /// The method's name as it stands in a request line.
    pub open spec fn name(self) -> Seq<char> {
        match self {
            Method::Get => "GET"@,
            Method::Post => "POST"@,
        }
    }

    /// The method's name as it stands in a request line.
    pub fn as_str(self) -> (name: &'static str)
        ensures
            name@ == self.name(),
    {
        match self {
            Method::Get => "GET",
            Method::Post => "POST",
        }
    }
}

/// How the body of a request is encoded. Every operation carries this discriminant
/// from its construction on; nothing is found out at send time.
#[derive(Clone, Copy, PartialEq, Eq, Debug, Structural)]
pub enum BodyEncoding {
    /// Raw text, sent verbatim as `text/plain`.
    Text,
    /// Structured content, sent as JSON.
    Structured,
    /// No body at all.
    Empty,
}

impl BodyEncoding {
    /// The content type that announces a body of this encoding, if there is a body.
    pub open spec fn media_type(self) -> Option<Seq<char>> {
        match self {
            BodyEncoding::Text => Some("text/plain"@),
            BodyEncoding::Structured => Some("application/json"@),
            BodyEncoding::Empty => None,
        }
    }

    /// The content type that announces a body of this encoding, if there is a body.
    pub fn content_type(self) -> (header: Option<String>)
        ensures
            header.deep_view() == self.media_type(),
    {
        match self {
            BodyEncoding::Text => Some(String::from_str("text/plain")),
            BodyEncoding::Structured => Some(String::from_str("application/json")),
            BodyEncoding::Empty => None,
        }
    }
}

/// The wire form of one operation.
#[derive(Debug, PartialEq, Eq)]
pub struct WireRequest {
    pub method: Method,
    pub path: String,
    pub body: Option<String>,
    pub encoding: BodyEncoding,
}

/// The mathematical content of a [`WireRequest`].
pub struct WireRequestView {
    pub method: Method,
    pub path: Seq<char>,
    pub body: Option<Seq<char>>,
    pub encoding: BodyEncoding,
}

impl View for WireRequest {
    type V = WireRequestView;

    open spec fn view(&self) -> WireRequestView {
        WireRequestView {
            method: self.method,
            path: self.path@,
            body: self.body.deep_view(),
            encoding: self.encoding,
        }
    }
}

impl WireRequestView {
    /// A wire request is coherent when it declares a body encoding exactly where it
    /// carries a body.
    pub open spec fn coherent(self) -> bool {
        (self.body is None) == (self.encoding == BodyEncoding::Empty)
    }
}

} // verus!
