//! Transform: rewrite what matches the patterns into the templates.

use crate::details::{TransformDetails, TransformDetailsView};
use crate::error::ErrorKind;
use crate::namespace::{nest, path_segments, Namespace};
use crate::text::{join, join_strings};
use crate::wire::Method;
use vstd::prelude::*;

verus! {

/// Every expression of a sequence inside the namespace, in order.
pub open spec fn wrap_each(namespace: Seq<Seq<char>>, expressions: Seq<Seq<char>>) -> Seq<
    Seq<char>,
> {
    Seq::new(expressions.len(), |i: int| nest(namespace, expressions[i]))
}

/// The grouping expression of a sequence: `(, E1 E2 ...)`, each expression inside the
/// namespace.
pub open spec fn group(namespace: Seq<Seq<char>>, expressions: Seq<Seq<char>>) -> Seq<char> {
    "(, "@ + join(wrap_each(namespace, expressions), " "@) + ")"@
}

/// Builder of a transform operation. It always holds at least one pattern and one
/// template.
pub struct TransformRequest {
    namespace: Namespace,
    transform_input: TransformDetails,
}

/// The mathematical content of a [`TransformRequest`].
pub struct TransformRequestView {
    pub namespace: Seq<Seq<char>>,
    pub details: TransformDetailsView,
}

impl TransformRequestView {
    /// The request every builder starts from: root namespace, identity pattern and
    /// template.
    pub open spec fn initial() -> TransformRequestView {
        TransformRequestView {
            namespace: Seq::empty(),
            details: TransformDetailsView::initial(),
        }
    }

    /// The transform expression: the group of the patterns, then the group of the
    /// templates.
    pub open spec fn code(self) -> Seq<char> {
        "(transform "@ + group(self.namespace, self.details.patterns) + " "@ + group(
            self.namespace,
            self.details.templates,
        ) + ")"@
    }

    /// The request path, the same for every transform.
    pub open spec fn path(self) -> Seq<char> {
        "/transform"@
    }
}

impl View for TransformRequest {
    type V = TransformRequestView;

    closed spec fn view(&self) -> TransformRequestView {
        TransformRequestView { namespace: self.namespace@, details: self.transform_input@ }
    }
}

impl TransformRequest {
    #[verifier::type_invariant]
    spec fn well_formed(&self) -> bool {
        self.transform_input@.complete()
    }

    /// The identity transform under the root namespace.
    pub fn new() -> (request: TransformRequest)
        ensures
            request@ == TransformRequestView::initial(),
    {
        TransformRequest { namespace: Namespace::new(), transform_input: TransformDetails::new() }
    }

    /// The same request under the namespace of the path `ns`; an empty path names the
    /// root.
    pub fn namespace(self, ns: String) -> (request: TransformRequest)
        ensures
            request@ == (TransformRequestView { namespace: path_segments(ns@), ..self@ }),
    {
        proof {
            use_type_invariant(&self);
        }
        TransformRequest {
            namespace: Namespace::or_root(ns),
            transform_input: self.transform_input,
        }
    }

    /// The same request with its patterns and templates replaced, provided there is
    /// at least one of each. Details with an empty pattern or template sequence are
    /// refused with [`ErrorKind::EncodingError`].
    pub fn transform_input(self, inp: TransformDetails) -> (outcome: Result<
        TransformRequest,
        ErrorKind,
    >)
        ensures
            inp@.complete() ==> (outcome matches Ok(request) && request@ == (TransformRequestView {
                details: inp@,
                ..self@
            })),
            !inp@.complete() ==> outcome matches Err(ErrorKind::EncodingError),
    {
        if inp.is_complete() {
            Ok(TransformRequest { namespace: self.namespace, transform_input: inp })
        } else {
            Err(ErrorKind::EncodingError)
        }
    }

    /// The grouping expression of `expressions` under this request's namespace.
    fn grouped(&self, expressions: &Vec<String>) -> (text: String)
        ensures
            text@ == group(self@.namespace, expressions.deep_view()),
    {
        let mut wrapped: Vec<String> = Vec::new();
        let mut i: usize = 0;
        while i < expressions.len()
            invariant
                i <= expressions.len(),
                wrapped.len() == i,
                forall|k: int|
                    0 <= k < i ==> wrapped@[k]@ == nest(self.namespace@, expressions@[k]@),
            decreases expressions.len() - i,
        {
            wrapped.push(self.namespace.with_namespace(expressions[i].as_str()));
            i += 1;
        }
        assert(wrapped.deep_view() =~= wrap_each(self.namespace@, expressions.deep_view()));
        let mut text: String = String::from_str("(, ");
        text.append(join_strings(&wrapped, " ").as_str());
        text.append(")");
        text
    }

    /// The grouping expression of the patterns.
    fn multi_patterns(&self) -> (text: String)
        ensures
            text@ == group(self@.namespace, self@.details.patterns),
    {
        self.grouped(&self.transform_input.patterns)
    }

    /// The grouping expression of the templates.
    fn multi_templates(&self) -> (text: String)
        ensures
            text@ == group(self@.namespace, self@.details.templates),
    {
        self.grouped(&self.transform_input.templates)
    }

    /// The transform expression that the engine is to run.
    pub fn transform_code(&self) -> (code: String)
        ensures
            code@ == self@.code(),
            self@.details.complete(),
    {
        proof {
            use_type_invariant(self);
        }
        let mut code: String = String::from_str("(transform ");
        code.append(self.multi_patterns().as_str());
        code.append(" ");
        code.append(self.multi_templates().as_str());
        code.append(")");
        code
    }

    /// Transforms are made with `POST`.
    pub fn method(&self) -> (method: Method)
        ensures
            method == Method::Post,
    {
        Method::Post
    }

    /// The request path.
    pub fn path(&self) -> (path: String)
        ensures
            path@ == self@.path(),
    {
        String::from_str("/transform")
    }

    /// The body is the transform expression.
    pub fn body(&self) -> (body: Option<String>)
        ensures
            body.deep_view() == Some(self@.code()),
    {
        Some(self.transform_code())
    }
}

impl Clone for TransformRequest {
    fn clone(&self) -> (copy: TransformRequest)
        ensures
            copy@ == self@,
    {
        proof {
            use_type_invariant(self);
        }
        TransformRequest {
            namespace: self.namespace.clone(),
            transform_input: self.transform_input.clone(),
        }
    }
}

impl Default for TransformRequest {
    fn default() -> (request: TransformRequest)
        ensures
            request@ == TransformRequestView::initial(),
    {
        TransformRequest::new()
    }
}

} // verus!
