//! Explore: walk what matches a pattern, resuming from a continuation token.

use crate::details::{or_identity, or_identity_of};
use crate::namespace::{nest, path_segments, Namespace};
use crate::wire::Method;
use vstd::prelude::*;

verus! {

/// Builder of an explore operation.
pub struct ExploreRequest {
    namespace: Namespace,
    pattern: Option<String>,
    token: String,
}

/// The mathematical content of an [`ExploreRequest`].
pub struct ExploreRequestView {
    pub namespace: Seq<Seq<char>>,
    pub pattern: Option<Seq<char>>,
    pub token: Seq<char>,
}

impl ExploreRequestView {
    /// The request every builder starts from: root namespace, no pattern, empty
    /// token.
    pub open spec fn initial() -> ExploreRequestView {
        ExploreRequestView { namespace: Seq::empty(), pattern: None, token: Seq::empty() }
    }

    /// The request path: the namespaced pattern (the identity pattern where none was
    /// given) and the token, neither of them escaped, each followed by a slash.
    pub open spec fn path(self) -> Seq<char> {
        "/explore/"@ + nest(self.namespace, or_identity(self.pattern)) + "/"@ + self.token + "/"@
    }
}

impl View for ExploreRequest {
    type V = ExploreRequestView;

    closed spec fn view(&self) -> ExploreRequestView {
        ExploreRequestView {
            namespace: self.namespace@,
            pattern: self.pattern.deep_view(),
            token: self.token@,
        }
    }
}

impl ExploreRequest {
    /// An exploration of the root namespace from the start.
    pub fn new() -> (request: ExploreRequest)
        ensures
            request@ == ExploreRequestView::initial(),
    {
        ExploreRequest { namespace: Namespace::new(), pattern: None, token: String::new() }
    }

    /// The same request under the namespace of the path `namespace`; an empty path
    /// names the root.
    pub fn namespace(self, namespace: String) -> (request: ExploreRequest)
        ensures
            request@ == (ExploreRequestView { namespace: path_segments(namespace@), ..self@ }),
    {
        let mut request = self;
        request.namespace = Namespace::or_root(namespace);
        request
    }

    /// The same request with the pattern set.
    pub fn pattern(self, pattern: String) -> (request: ExploreRequest)
        ensures
            request@ == (ExploreRequestView { pattern: Some(pattern@), ..self@ }),
    {
        let mut request = self;
        request.pattern = Some(pattern);
        request
    }

    /// The same request resuming from `token`.
    pub fn token(self, token: String) -> (request: ExploreRequest)
        ensures
            request@ == (ExploreRequestView { token: token@, ..self@ }),
    {
        let mut request = self;
        request.token = token;
        request
    }

    /// Explorations are made with `GET`.
    pub fn method(&self) -> (method: Method)
        ensures
            method == Method::Get,
    {
        Method::Get
    }

    /// The request path.
    pub fn path(&self) -> (path: String)
        ensures
            path@ == self@.path(),
    {
        let mut path: String = String::from_str("/explore/");
        path.append(self.namespace.with_namespace(or_identity_of(&self.pattern)).as_str());
        path.append("/");
        path.append(self.token.as_str());
        path.append("/");
        path
    }

    /// An exploration carries no body.
    pub fn body(&self) -> (body: Option<String>)
        ensures
            body is None,
    {
        None
    }
}

impl Clone for ExploreRequest {
    fn clone(&self) -> (copy: ExploreRequest)
        ensures
            copy@ == self@,
    {
        ExploreRequest {
            namespace: self.namespace.clone(),
            pattern: match &self.pattern {
                Some(pattern) => Some(pattern.clone()),
                None => None,
            },
            token: self.token.clone(),
        }
    }
}

impl Default for ExploreRequest {
    fn default() -> (request: ExploreRequest)
        ensures
            request@ == ExploreRequestView::initial(),
    {
        ExploreRequest::new()
    }
}

} // verus!
