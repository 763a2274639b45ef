//! Upload: send a text payload to be stored under a pattern and a template.

use crate::details::{identity, identity_pattern, or_identity, or_identity_of};
use crate::namespace::{nest, path_segments, Namespace};
use crate::percent::{percent_encode, percent_encoded};
use crate::wire::Method;
use vstd::prelude::*;

verus! {

/// Builder of an upload operation.
pub struct UploadRequest {
    namespace: Namespace,
    pattern: Option<String>,
    template: Option<String>,
    data: String,
}

/// The mathematical content of an [`UploadRequest`].
pub struct UploadRequestView {
    pub namespace: Seq<Seq<char>>,
    pub pattern: Option<Seq<char>>,
    pub template: Option<Seq<char>>,
    pub data: Seq<char>,
}

impl UploadRequestView {
    /// The request every builder starts from: root namespace, no pattern, no
    /// template, empty payload.
    pub open spec fn initial() -> UploadRequestView {
        UploadRequestView {
            namespace: Seq::empty(),
            pattern: None,
            template: None,
            data: Seq::empty(),
        }
    }

    /// The template the payload is stored by: the one given, or else the identity
    /// pattern inside the namespace.
    pub open spec fn target(self) -> Seq<char> {
        match self.template {
            Some(template) => template,
            None => nest(self.namespace, identity()),
        }
    }

    /// The request path: the pattern (the identity pattern where none was given) and
    /// the target template, both percent-encoded.
    pub open spec fn path(self) -> Seq<char> {
        "/upload/"@ + percent_encoded(or_identity(self.pattern)) + "/"@ + percent_encoded(
            self.target(),
        )
    }
}

impl View for UploadRequest {
    type V = UploadRequestView;

    closed spec fn view(&self) -> UploadRequestView {
        UploadRequestView {
            namespace: self.namespace@,
            pattern: self.pattern.deep_view(),
            template: self.template.deep_view(),
            data: self.data@,
        }
    }
}

impl UploadRequest {
    /// An upload of nothing into the root namespace.
    pub fn new() -> (request: UploadRequest)
        ensures
            request@ == UploadRequestView::initial(),
    {
        UploadRequest {
            namespace: Namespace::new(),
            pattern: None,
            template: None,
            data: String::new(),
        }
    }

    /// The same request under the namespace of the path `ns`; an empty path names the
    /// root.
    pub fn namespace(self, ns: String) -> (request: UploadRequest)
        ensures
            request@ == (UploadRequestView { namespace: path_segments(ns@), ..self@ }),
    {
        let mut request = self;
        request.namespace = Namespace::or_root(ns);
        request
    }

    /// The same request with the pattern set.
    pub fn pattern(self, pattern: String) -> (request: UploadRequest)
        ensures
            request@ == (UploadRequestView { pattern: Some(pattern@), ..self@ }),
    {
        let mut request = self;
        request.pattern = Some(pattern);
        request
    }

    /// The same request with the template set.
    pub fn template(self, template: String) -> (request: UploadRequest)
        ensures
            request@ == (UploadRequestView { template: Some(template@), ..self@ }),
    {
        let mut request = self;
        request.template = Some(template);
        request
    }

    /// The same request carrying the payload `data`.
    pub fn data(self, data: String) -> (request: UploadRequest)
        ensures
            request@ == (UploadRequestView { data: data@, ..self@ }),
    {
        let mut request = self;
        request.data = data;
        request
    }

    /// Uploads are made with `POST`.
    pub fn method(&self) -> (method: Method)
        ensures
            method == Method::Post,
    {
        Method::Post
    }

    /// The request path.
    pub fn path(&self) -> (path: String)
        ensures
            path@ == self@.path(),
    {
        let mut path: String = String::from_str("/upload/");
        path.append(percent_encode(or_identity_of(&self.pattern)).as_str());
        path.append("/");
        match &self.template {
            Some(template) => {
                path.append(percent_encode(template.as_str()).as_str());
            },
            None => {
                let wrapped: String = self.namespace.with_namespace(identity_pattern());
                path.append(percent_encode(wrapped.as_str()).as_str());
            },
        }
        path
    }

    /// The body is the payload, unchanged.
    pub fn body(&self) -> (body: Option<String>)
        ensures
            body.deep_view() == Some(self@.data),
    {
        Some(self.data.clone())
    }
}

impl Default for UploadRequest {
    fn default() -> (request: UploadRequest)
        ensures
            request@ == UploadRequestView::initial(),
    {
        UploadRequest::new()
    }
}

} // verus!
