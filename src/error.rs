use vstd::prelude::*;

verus! {

/// Which pair of options could not be combined.
#[derive(Clone, Copy, Debug, PartialEq, Eq, Structural)]
pub enum ConfigIssue {
    /// A template asks for text output while the output path asks for structured records.
    TemplateWithStructuredOutput,
    /// A structured record was routed to a text sink.
    RecordToTextSink,
    /// A text line was routed to the structured sink.
    TextToRecordSink,
}

/// Everything that aborts a run.
#[derive(Clone, Debug)]
pub enum VcfExprError {
    /// Conflicting construction options.
    Config(ConfigIssue),
    /// A tag that the header does not declare.
    UnknownTag(String),
    /// A sample name that the header does not list.
    UnknownSample(String),
    /// A record field name that the binding does not expose (or cannot set).
    FieldNotFound(String),
    /// A value whose type does not fit the tag or field it is written to.
    TypeMismatch(String),
    /// A script failed to compile or raised while running; carries its message.
    Expression(String),
    /// A header declaration table lacks a required key.
    MissingKey { key: String, func: String },
    /// A set-expression without a `name=` prefix.
    InvalidSetExpression(String),
    /// A header declaration whose Number or Type cannot be read.
    InvalidDeclaration(String),
    /// A header declaration of a tag id that is already declared.
    DuplicateTag(String),
}

/// The content of an error, with its texts as character sequences.
pub enum ErrorView {
    Config(ConfigIssue),
    UnknownTag(Seq<char>),
    UnknownSample(Seq<char>),
    FieldNotFound(Seq<char>),
    TypeMismatch(Seq<char>),
    Expression(Seq<char>),
    MissingKey(Seq<char>, Seq<char>),
    InvalidSetExpression(Seq<char>),
    InvalidDeclaration(Seq<char>),
    DuplicateTag(Seq<char>),
}

impl View for VcfExprError {
    type V = ErrorView;

    open spec fn view(&self) -> ErrorView {
        match self {
            VcfExprError::Config(c) => ErrorView::Config(*c),
            VcfExprError::UnknownTag(s) => ErrorView::UnknownTag(s@),
            VcfExprError::UnknownSample(s) => ErrorView::UnknownSample(s@),
            VcfExprError::FieldNotFound(s) => ErrorView::FieldNotFound(s@),
            VcfExprError::TypeMismatch(s) => ErrorView::TypeMismatch(s@),
            VcfExprError::Expression(s) => ErrorView::Expression(s@),
            VcfExprError::MissingKey { key, func } => ErrorView::MissingKey(key@, func@),
            VcfExprError::InvalidSetExpression(s) => ErrorView::InvalidSetExpression(s@),
            VcfExprError::InvalidDeclaration(s) => ErrorView::InvalidDeclaration(s@),
            VcfExprError::DuplicateTag(s) => ErrorView::DuplicateTag(s@),
        }
    }
}

/// The error view of a result, if it is an error.
pub open spec fn err_view<T>(r: Result<T, VcfExprError>) -> Option<ErrorView> {
    match r {
        Ok(_) => None,
        Err(e) => Some(e@),
    }
}

} // verus!
