//! Read: the unescaped form of export, with the expressions written into the path as
//! they are.

use crate::details::{
    first_or_identity, first_or_identity_of, TransformDetails, TransformDetailsView,
};
use crate::namespace::{nest, path_segments, Namespace};
use crate::wire::Method;
use vstd::prelude::*;

verus! {

/// Builder of a read operation.
pub struct ReadRequest {
    namespace: Namespace,
    transform_input: TransformDetails,
}

/// The mathematical content of a [`ReadRequest`].
pub struct ReadRequestView {
    pub namespace: Seq<Seq<char>>,
    pub details: TransformDetailsView,
}

impl ReadRequestView {
    /// The request every builder starts from: root namespace, identity pattern and
    /// template.
    pub open spec fn initial() -> ReadRequestView {
        ReadRequestView { namespace: Seq::empty(), details: TransformDetailsView::initial() }
    }

    /// The request path: the namespaced first pattern and the first template, neither
    /// of them escaped, each followed by a slash. A missing pattern or template is the
    /// identity pattern.
    pub open spec fn path(self) -> Seq<char> {
        "/export/"@ + nest(self.namespace, first_or_identity(self.details.patterns)) + "/"@
            + first_or_identity(self.details.templates) + "/"@
    }
}

impl View for ReadRequest {
    type V = ReadRequestView;

    closed spec fn view(&self) -> ReadRequestView {
        ReadRequestView { namespace: self.namespace@, details: self.transform_input@ }
    }
}

impl ReadRequest {
    /// A read of everything under the root namespace.
    pub fn new() -> (request: ReadRequest)
        ensures
            request@ == ReadRequestView::initial(),
    {
        ReadRequest { namespace: Namespace::new(), transform_input: TransformDetails::new() }
    }

    /// The same request under the namespace of the path `namespace`; an empty path
    /// names the root.
    pub fn namespace(self, namespace: String) -> (request: ReadRequest)
        ensures
            request@ == (ReadRequestView { namespace: path_segments(namespace@), ..self@ }),
    {
        let mut request = self;
        request.namespace = Namespace::or_root(namespace);
        request
    }

    /// The same request with its patterns and templates replaced.
    pub fn transform_input(self, inp: TransformDetails) -> (request: ReadRequest)
        ensures
            request@ == (ReadRequestView { details: inp@, ..self@ }),
    {
        let mut request = self;
        request.transform_input = inp;
        request
    }

    /// Reads are made with `GET`.
    pub fn method(&self) -> (method: Method)
        ensures
            method == Method::Get,
    {
        Method::Get
    }

    /// The request path.
    pub fn path(&self) -> (path: String)
        ensures
            path@ == self@.path(),
    {
        let pattern: &str = first_or_identity_of(&self.transform_input.patterns);
        let template: &str = first_or_identity_of(&self.transform_input.templates);
        let mut path: String = String::from_str("/export/");
        path.append(self.namespace.with_namespace(pattern).as_str());
        path.append("/");
        path.append(template);
        path.append("/");
        path
    }

    /// A read carries no body.
    pub fn body(&self) -> (body: Option<String>)
        ensures
            body is None,
    {
        None
    }
}

impl Default for ReadRequest {
    fn default() -> (request: ReadRequest)
        ensures
            request@ == ReadRequestView::initial(),
    {
        ReadRequest::new()
    }
}

} // verus!
