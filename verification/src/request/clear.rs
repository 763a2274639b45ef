//! Clear: remove what matches an expression.

use crate::namespace::{nest, path_segments, Namespace};
use crate::percent::{percent_encode, percent_encoded};
use crate::wire::Method;
use vstd::prelude::*;

verus! {

/// Builder of a clear operation.
pub struct ClearRequest {
    namespace: Namespace,
    expr: String,
}

/// The mathematical content of a [`ClearRequest`].
pub struct ClearRequestView {
    pub namespace: Seq<Seq<char>>,
    pub expr: Seq<char>,
}

impl ClearRequestView {
    /// The request every builder starts from: root namespace, empty expression.
    pub open spec fn initial() -> ClearRequestView {
        ClearRequestView { namespace: Seq::empty(), expr: Seq::empty() }
    }

    /// The request path: the namespaced expression, percent-encoded.
    pub open spec fn path(self) -> Seq<char> {
        "/clear/"@ + percent_encoded(nest(self.namespace, self.expr))
    }
}

impl View for ClearRequest {
    type V = ClearRequestView;

    closed spec fn view(&self) -> ClearRequestView {
        ClearRequestView { namespace: self.namespace@, expr: self.expr@ }
    }
}

impl ClearRequest {
    /// A clear with an empty expression under the root namespace.
    pub fn new() -> (request: ClearRequest)
        ensures
            request@ == ClearRequestView::initial(),
    {
        ClearRequest { namespace: Namespace::new(), expr: String::new() }
    }

    /// The same request under the namespace of the path `ns`; an empty path names the
    /// root.
    pub fn namespace(self, ns: String) -> (request: ClearRequest)
        ensures
            request@ == (ClearRequestView { namespace: path_segments(ns@), ..self@ }),
    {
        let mut request = self;
        request.namespace = Namespace::or_root(ns);
        request
    }

    /// The same request clearing what matches `expr`.
    pub fn expr(self, expr: String) -> (request: ClearRequest)
        ensures
            request@ == (ClearRequestView { expr: expr@, ..self@ }),
    {
        let mut request = self;
        request.expr = expr;
        request
    }

    /// Clears are made with `GET`.
    pub fn method(&self) -> (method: Method)
        ensures
            method == Method::Get,
    {
        Method::Get
    }

    /// The request path.
    pub fn path(&self) -> (path: String)
        ensures
            path@ == self@.path(),
    {
        let wrapped: String = self.namespace.with_namespace(self.expr.as_str());
        let mut path: String = String::from_str("/clear/");
        path.append(percent_encode(wrapped.as_str()).as_str());
        path
    }

    /// A clear carries no body.
    pub fn body(&self) -> (body: Option<String>)
        ensures
            body is None,
    {
        None
    }
}

impl Default for ClearRequest {
    fn default() -> (request: ClearRequest)
        ensures
            request@ == ClearRequestView::initial(),
    {
        ClearRequest::new()
    }
}

} // verus!
