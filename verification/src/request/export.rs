//! Export: read what matches a pattern, rewritten by a template, in a chosen format.

use crate::details::{or_identity, or_identity_of, ExportFormat};
use crate::namespace::{nest, path_segments, Namespace};
use crate::percent::{percent_encode, percent_encoded};
use crate::text::{decimal, decimal_string, join, join_strings};
use crate::wire::Method;
use vstd::prelude::*;

verus! {

/// Builder of an export operation.
pub struct ExportRequest {
    namespace: Namespace,
    pattern: Option<String>,
    template: Option<String>,
    format: Option<ExportFormat>,
    max_write: Option<usize>,
}

/// The mathematical content of an [`ExportRequest`].
pub struct ExportRequestView {
    pub namespace: Seq<Seq<char>>,
    pub pattern: Option<Seq<char>>,
    pub template: Option<Seq<char>>,
    pub format: Option<ExportFormat>,
    pub max_write: Option<usize>,
}

impl ExportRequestView {
    /// The request every builder starts from: root namespace, nothing chosen.
    pub open spec fn initial() -> ExportRequestView {
        ExportRequestView {
            namespace: Seq::empty(),
            pattern: None,
            template: None,
            format: None,
            max_write: None,
        }
    }

    /// The query parameters that were asked for, in the order they are written:
    /// the format, then the write limit. What was not asked for is left out.
    pub open spec fn parameters(self) -> Seq<Seq<char>> {
        let format = match self.format {
            Some(format) => seq!["format="@ + format.token()],
            None => Seq::empty(),
        };
        let limit = match self.max_write {
            Some(limit) => seq!["max_write="@ + decimal(limit as nat)],
            None => Seq::empty(),
        };
        format + limit
    }

    /// The query string: nothing where no parameter was asked for, otherwise `/?`
    /// and the parameters joined by `&`.
    pub open spec fn query(self) -> Seq<char> {
        if self.parameters().len() == 0 {
            Seq::empty()
        } else {
            "/?"@ + join(self.parameters(), "&"@)
        }
    }

    /// The request path: the percent-encoded namespaced pattern, the percent-encoded
    /// template, and the query string.
    pub open spec fn path(self) -> Seq<char> {
        "/export/"@ + percent_encoded(nest(self.namespace, or_identity(self.pattern))) + "/"@
            + percent_encoded(or_identity(self.template)) + self.query()
    }
}

impl View for ExportRequest {
    type V = ExportRequestView;

    closed spec fn view(&self) -> ExportRequestView {
        ExportRequestView {
            namespace: self.namespace@,
            pattern: self.pattern.deep_view(),
            template: self.template.deep_view(),
            format: self.format,
            max_write: self.max_write,
        }
    }
}

impl ExportRequest {
    /// An export of everything under the root namespace, with no query parameters.
    pub fn new() -> (request: ExportRequest)
        ensures
            request@ == ExportRequestView::initial(),
    {
        ExportRequest {
            namespace: Namespace::new(),
            pattern: None,
            template: None,
            format: None,
            max_write: None,
        }
    }

    /// The same request under the namespace of the path `ns`; an empty path names the
    /// root.
    pub fn namespace(self, ns: String) -> (request: ExportRequest)
        ensures
            request@ == (ExportRequestView { namespace: path_segments(ns@), ..self@ }),
    {
        let mut request = self;
        request.namespace = Namespace::or_root(ns);
        request
    }

    /// The same request with the pattern set.
    pub fn pattern(self, pattern: String) -> (request: ExportRequest)
        ensures
            request@ == (ExportRequestView { pattern: Some(pattern@), ..self@ }),
    {
        let mut request = self;
        request.pattern = Some(pattern);
        request
    }

    /// The same request with the template set.
    pub fn template(self, template: String) -> (request: ExportRequest)
        ensures
            request@ == (ExportRequestView { template: Some(template@), ..self@ }),
    {
        let mut request = self;
        request.template = Some(template);
        request
    }

    /// The same request asking for the output format `format`.
    pub fn format(self, format: ExportFormat) -> (request: ExportRequest)
        ensures
            request@ == (ExportRequestView { format: Some(format), ..self@ }),
    {
        let mut request = self;
        request.format = Some(format);
        request
    }

    /// The same request with the number of written results limited to `max_write`.
    pub fn max_write(self, max_write: usize) -> (request: ExportRequest)
        ensures
            request@ == (ExportRequestView { max_write: Some(max_write), ..self@ }),
    {
        let mut request = self;
        request.max_write = Some(max_write);
        request
    }

    /// Exports are read with `GET`.
    pub fn method(&self) -> (method: Method)
        ensures
            method == Method::Get,
    {
        Method::Get
    }

    /// The request path with its query string.
    pub fn path(&self) -> (path: String)
        ensures
            path@ == self@.path(),
    {
        let wrapped: String = self.namespace.with_namespace(or_identity_of(&self.pattern));
        let mut path: String = String::from_str("/export/");
        path.append(percent_encode(wrapped.as_str()).as_str());
        path.append("/");
        path.append(percent_encode(or_identity_of(&self.template)).as_str());

        let mut parameters: Vec<String> = Vec::new();
        match self.format {
            Some(format) => {
                let mut parameter: String = String::from_str("format=");
                parameter.append(format.as_str());
                parameters.push(parameter);
            },
            None => {},
        }
        match self.max_write {
            Some(limit) => {
                let mut parameter: String = String::from_str("max_write=");
                parameter.append(decimal_string(limit).as_str());
                parameters.push(parameter);
            },
            None => {},
        }
        assert(parameters.deep_view() =~= self@.parameters());

        if parameters.len() > 0 {
            path.append("/?");
            path.append(join_strings(&parameters, "&").as_str());
        }
        assert(path@ =~= self@.path());
        path
    }

    /// An export carries no body.
    pub fn body(&self) -> (body: Option<String>)
        ensures
            body is None,
    {
        None
    }
}

impl Default for ExportRequest {
    fn default() -> (request: ExportRequest)
        ensures
            request@ == ExportRequestView::initial(),
    {
        ExportRequest::new()
    }
}

} // verus!
