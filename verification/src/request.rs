//! The operations of the protocol, one builder per operation, and the closed union of
//! them with its mapping to the wire.

pub mod clear;
pub mod explore;
pub mod export;
pub mod import;
pub mod read;
pub mod transform;
pub mod upload;

use crate::request::clear::{ClearRequest, ClearRequestView};
use crate::request::explore::{ExploreRequest, ExploreRequestView};
use crate::request::export::{ExportRequest, ExportRequestView};
use crate::request::import::{ImportRequest, ImportRequestView};
use crate::request::read::{ReadRequest, ReadRequestView};
use crate::request::transform::{TransformRequest, TransformRequestView};
use crate::request::upload::{UploadRequest, UploadRequestView};
use crate::wire::{BodyEncoding, Method, WireRequest, WireRequestView};
use vstd::prelude::*;

verus! {

/// Any one operation of the protocol.
pub enum Request {
    Transform(TransformRequest),
    Import(ImportRequest),
    Read(ReadRequest),
    Explore(ExploreRequest),
    Upload(UploadRequest),
    Export(ExportRequest),
    Clear(ClearRequest),
}

/// The mathematical content of a [`Request`].
pub enum RequestView {
    Transform(TransformRequestView),
    Import(ImportRequestView),
    Read(ReadRequestView),
    Explore(ExploreRequestView),
    Upload(UploadRequestView),
    Export(ExportRequestView),
    Clear(ClearRequestView),
}

impl View for Request {
    type V = RequestView;

    open spec fn view(&self) -> RequestView {
        match self {
            Request::Transform(request) => RequestView::Transform(request@),
            Request::Import(request) => RequestView::Import(request@),
            Request::Read(request) => RequestView::Read(request@),
            Request::Explore(request) => RequestView::Explore(request@),
            Request::Upload(request) => RequestView::Upload(request@),
            Request::Export(request) => RequestView::Export(request@),
            Request::Clear(request) => RequestView::Clear(request@),
        }
    }
}

impl RequestView {
    /// The HTTP method: `POST` for the two operations that carry a body, `GET` for
    /// the rest.
    pub open spec fn method(self) -> Method {
        match self {
            RequestView::Transform(_) => Method::Post,
            RequestView::Upload(_) => Method::Post,
            _ => Method::Get,
        }
    }

    /// The request path, query string and all.
    pub open spec fn path(self) -> Seq<char> {
        match self {
            RequestView::Transform(request) => request.path(),
            RequestView::Import(request) => request.path(),
            RequestView::Read(request) => request.path(),
            RequestView::Explore(request) => request.path(),
            RequestView::Upload(request) => request.path(),
            RequestView::Export(request) => request.path(),
            RequestView::Clear(request) => request.path(),
        }
    }

    /// The body: the transform expression, the upload payload, or nothing.
    pub open spec fn body(self) -> Option<Seq<char>> {
        match self {
            RequestView::Transform(request) => Some(request.code()),
            RequestView::Upload(request) => Some(request.data),
            _ => None,
        }
    }

    /// The encoding the body is declared with: raw text where there is a body.
    pub open spec fn encoding(self) -> BodyEncoding {
        match self {
            RequestView::Transform(_) => BodyEncoding::Text,
            RequestView::Upload(_) => BodyEncoding::Text,
            _ => BodyEncoding::Empty,
        }
    }

    /// The wire form of the operation.
    pub open spec fn wire(self) -> WireRequestView {
        WireRequestView {
            method: self.method(),
            path: self.path(),
            body: self.body(),
            encoding: self.encoding(),
        }
    }
}

impl Request {
    /// The HTTP method of the operation.
    pub fn method(&self) -> (method: Method)
        ensures
            method == self@.method(),
    {
        match self {
            Request::Transform(request) => request.method(),
            Request::Import(request) => request.method(),
            Request::Read(request) => request.method(),
            Request::Explore(request) => request.method(),
            Request::Upload(request) => request.method(),
            Request::Export(request) => request.method(),
            Request::Clear(request) => request.method(),
        }
    }

    /// The request path of the operation.
    pub fn path(&self) -> (path: String)
        ensures
            path@ == self@.path(),
    {
        match self {
            Request::Transform(request) => request.path(),
            Request::Import(request) => request.path(),
            Request::Read(request) => request.path(),
            Request::Explore(request) => request.path(),
            Request::Upload(request) => request.path(),
            Request::Export(request) => request.path(),
            Request::Clear(request) => request.path(),
        }
    }

    /// The body of the operation, if it carries one.
    pub fn body(&self) -> (body: Option<String>)
        ensures
            body.deep_view() == self@.body(),
    {
        match self {
            Request::Transform(request) => request.body(),
            Request::Import(request) => request.body(),
            Request::Read(request) => request.body(),
            Request::Explore(request) => request.body(),
            Request::Upload(request) => request.body(),
            Request::Export(request) => request.body(),
            Request::Clear(request) => request.body(),
        }
    }

    /// The encoding the operation declares for its body.
    pub fn encoding(&self) -> (encoding: BodyEncoding)
        ensures
            encoding == self@.encoding(),
    {
        match self {
            Request::Transform(_) => BodyEncoding::Text,
            Request::Upload(_) => BodyEncoding::Text,
            _ => BodyEncoding::Empty,
        }
    }

    /// The wire form of the operation: method, path, body and body encoding, each
    /// determined by the operation's fields alone.
    pub fn wire(&self) -> (wire: WireRequest)
        ensures
            wire@ == self@.wire(),
            wire@.coherent(),
    {
        WireRequest {
            method: self.method(),
            path: self.path(),
            body: self.body(),
            encoding: self.encoding(),
        }
    }
}

} // verus!
