//! The expressions an operation works with: patterns, templates and the export format.

use vstd::prelude::*;

verus! {

/// The identity pattern `$x`, which stands in for a pattern or template that was not
/// given.
pub open spec fn identity() -> Seq<char> {
    "$x"@
}

/// The first expression of a sequence, or the identity pattern where there is none.
pub open spec fn first_or_identity(items: Seq<Seq<char>>) -> Seq<char> {
    if items.len() > 0 {
        items[0]
    } else {
        identity()
    }
}

/// An optional expression, or the identity pattern where it is missing.
pub open spec fn or_identity(item: Option<Seq<char>>) -> Seq<char> {
    match item {
        Some(expression) => expression,
        None => identity(),
    }
}

/// The identity pattern `$x`.
pub fn identity_pattern() -> (pattern: &'static str)
    ensures
        pattern@ == identity(),
{
    "$x"
}

/// The first expression of `items`, or the identity pattern where there is none.
pub fn first_or_identity_of(items: &Vec<String>) -> (first: &str)
    ensures
        first@ == first_or_identity(items.deep_view()),
{
    if items.len() > 0 {
        items[0].as_str()
    } else {
        identity_pattern()
    }
}

/// `item`, or the identity pattern where it is missing.
pub fn or_identity_of(item: &Option<String>) -> (expression: &str)
    ensures
        expression@ == or_identity(item.deep_view()),
{
    match item {
        Some(expression) => expression.as_str(),
        None => identity_pattern(),
    }
}

/// A copy of a sequence of expressions.
pub fn copy_expressions(items: &Vec<String>) -> (copy: Vec<String>)
    ensures
        copy.deep_view() == items.deep_view(),
{
    let mut copy: Vec<String> = Vec::new();
    let mut i: usize = 0;
    while i < items.len()
        invariant
            i <= items.len(),
            copy.len() == i,
            forall|k: int| 0 <= k < i ==> copy@[k]@ == items@[k]@,
        decreases items.len() - i,
    {
        copy.push(items[i].clone());
        i += 1;
    }
    assert(copy.deep_view() =~= items.deep_view());
    copy
}

/// The output encodings an export can ask for.
#[derive(Clone, Copy, PartialEq, Eq, Debug, Structural)]
pub enum ExportFormat {
    Metta,
    Json,
    Csv,
    Raw,
}

impl ExportFormat {
    /// The fixed lower-case token that names the format in a query string.
    pub open spec fn token(self) -> Seq<char> {
        match self {
            ExportFormat::Metta => "metta"@,
            ExportFormat::Json => "json"@,
            ExportFormat::Csv => "csv"@,
            ExportFormat::Raw => "raw"@,
        }
    }

    /// The fixed lower-case token that names the format in a query string.
    pub fn as_str(self) -> (token: &'static str)
        ensures
            token@ == self.token(),
    {
        match self {
            ExportFormat::Metta => "metta",
            ExportFormat::Json => "json",
            ExportFormat::Csv => "csv",
            ExportFormat::Raw => "raw",
        }
    }
}

/// The patterns and templates of a transformation. Order matters: it pairs patterns
/// and templates by position.
pub struct TransformDetails {
    pub patterns: Vec<String>,
    pub templates: Vec<String>,
}

/// The mathematical content of [`TransformDetails`].
pub struct TransformDetailsView {
    pub patterns: Seq<Seq<char>>,
    pub templates: Seq<Seq<char>>,
}

impl TransformDetailsView {
    /// The details every request starts from: the identity pattern, once as pattern
    /// and once as template.
    pub open spec fn initial() -> TransformDetailsView {
        TransformDetailsView { patterns: seq![identity()], templates: seq![identity()] }
    }

    /// Details are complete when they hold at least one pattern and one template.
    pub open spec fn complete(self) -> bool {
        self.patterns.len() > 0 && self.templates.len() > 0
    }
}

impl View for TransformDetails {
    type V = TransformDetailsView;

    open spec fn view(&self) -> TransformDetailsView {
        TransformDetailsView {
            patterns: self.patterns.deep_view(),
            templates: self.templates.deep_view(),
        }
    }
}

impl TransformDetails {
    /// The initial details: the identity pattern as the only pattern and the only
    /// template.
    pub fn new() -> (details: TransformDetails)
        ensures
            details@ == TransformDetailsView::initial(),
    {
        let mut patterns: Vec<String> = Vec::new();
        patterns.push(String::from_str(identity_pattern()));
        let mut templates: Vec<String> = Vec::new();
        templates.push(String::from_str(identity_pattern()));
        let details = TransformDetails { patterns, templates };
        assert(details@.patterns =~= seq![identity()]);
        assert(details@.templates =~= seq![identity()]);
        details
    }

    /// The same details with the patterns replaced.
    pub fn patterns(self, patterns: Vec<String>) -> (details: TransformDetails)
        ensures
            details.patterns == patterns,
            details.templates == self.templates,
    {
        let mut details = self;
        details.patterns = patterns;
        details
    }

    /// The same details with the templates replaced.
    pub fn templates(self, templates: Vec<String>) -> (details: TransformDetails)
        ensures
            details.patterns == self.patterns,
            details.templates == templates,
    {
        let mut details = self;
        details.templates = templates;
        details
    }

    /// Whether there is at least one pattern and one template.
    pub fn is_complete(&self) -> (complete: bool)
        ensures
            complete == self@.complete(),
    {
        self.patterns.len() > 0 && self.templates.len() > 0
    }
}

impl Clone for TransformDetails {
    fn clone(&self) -> (copy: TransformDetails)
        ensures
            copy@ == self@,
    {
        TransformDetails {
            patterns: copy_expressions(&self.patterns),
            templates: copy_expressions(&self.templates),
        }
    }
}

impl Default for TransformDetails {
    fn default() -> (details: TransformDetails)
        ensures
            details@ == TransformDetailsView::initial(),
    {
        TransformDetails::new()
    }
}

} // verus!
