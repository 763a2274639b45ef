//! Import: have the engine load data from a URI into a namespace.

use crate::details::{
    first_or_identity, first_or_identity_of, identity, identity_pattern, TransformDetails,
    TransformDetailsView,
};
use crate::namespace::{nest, path_segments, Namespace};
use crate::wire::Method;
use vstd::prelude::*;

verus! {

/// Builder of an import operation.
pub struct ImportRequest {
    namespace: Namespace,
    transform_input: TransformDetails,
    uri: String,
}

/// The mathematical content of an [`ImportRequest`].
pub struct ImportRequestView {
    pub namespace: Seq<Seq<char>>,
    pub details: TransformDetailsView,
    pub uri: Seq<char>,
}

impl ImportRequestView {
    /// The request every builder starts from: root namespace, identity template, no
    /// URI.
    pub open spec fn initial() -> ImportRequestView {
        ImportRequestView {
            namespace: Seq::empty(),
            details: TransformDetailsView::initial(),
            uri: Seq::empty(),
        }
    }

    /// The request path: the identity pattern, the namespaced first template (the
    /// identity pattern where there is none), and the URI as the query. Nothing is
    /// escaped.
    pub open spec fn path(self) -> Seq<char> {
        "/import/"@ + identity() + "/"@ + nest(
            self.namespace,
            first_or_identity(self.details.templates),
        ) + "/?uri="@ + self.uri
    }
}

impl View for ImportRequest {
    type V = ImportRequestView;

    closed spec fn view(&self) -> ImportRequestView {
        ImportRequestView {
            namespace: self.namespace@,
            details: self.transform_input@,
            uri: self.uri@,
        }
    }
}

impl ImportRequest {
    /// An import into the root namespace, with no URI yet.
    pub fn new() -> (request: ImportRequest)
        ensures
            request@ == ImportRequestView::initial(),
    {
        ImportRequest {
            namespace: Namespace::new(),
            transform_input: TransformDetails::new(),
            uri: String::new(),
        }
    }

    /// The same request under the namespace of the path `ns`; an empty path names the
    /// root.
    pub fn namespace(self, ns: String) -> (request: ImportRequest)
        ensures
            request@ == (ImportRequestView { namespace: path_segments(ns@), ..self@ }),
    {
        let mut request = self;
        request.namespace = Namespace::or_root(ns);
        request
    }

    /// The same request with its patterns and templates replaced.
    pub fn transform_input(self, inp: TransformDetails) -> (request: ImportRequest)
        ensures
            request@ == (ImportRequestView { details: inp@, ..self@ }),
    {
        let mut request = self;
        request.transform_input = inp;
        request
    }

    /// The same request loading from `uri`.
    pub fn uri(self, uri: String) -> (request: ImportRequest)
        ensures
            request@ == (ImportRequestView { uri: uri@, ..self@ }),
    {
        let mut request = self;
        request.uri = uri;
        request
    }

    /// Imports are started with `GET`.
    pub fn method(&self) -> (method: Method)
        ensures
            method == Method::Get,
    {
        Method::Get
    }

    /// The request path with its query string.
    pub fn path(&self) -> (path: String)
        ensures
            path@ == self@.path(),
    {
        let template: &str = first_or_identity_of(&self.transform_input.templates);
        let mut path: String = String::from_str("/import/");
        path.append(identity_pattern());
        path.append("/");
        path.append(self.namespace.with_namespace(template).as_str());
        path.append("/?uri=");
        path.append(self.uri.as_str());
        path
    }

    /// An import carries no body.
    pub fn body(&self) -> (body: Option<String>)
        ensures
            body is None,
    {
        None
    }
}

impl Default for ImportRequest {
    fn default() -> (request: ImportRequest)
        ensures
            request@ == ImportRequestView::initial(),
    {
        ImportRequest::new()
    }
}

} // verus!
