//! Compile-time diagnostics: a stable code per error class and labelled spans.
use vstd::prelude::*;
use vstd::string::StringExecFns;

verus! {

/// A range of the source text.
#[derive(Clone, Copy, Debug, PartialEq, Eq, Structural)]
pub struct Span {
    pub start: usize,
    pub end: usize,
}

/// A message attached to a span of the source.
#[derive(Debug, PartialEq)]
pub struct Label {
    pub message: String,
    pub span: Span,
}

/// A compile-time error as reported: its class's code and its labels.
#[derive(Debug, PartialEq)]
pub struct DiagnosticError {
    pub code: usize,
    pub labels: Vec<Label>,
}

pub const CODE_MISSING_ARGUMENT: usize = 107;
pub const CODE_UNKNOWN_KEYWORD: usize = 108;
pub const CODE_INVALID_GROK_PATTERN: usize = 109;
pub const CODE_EXPECTED_LITERAL: usize = 110;
pub const CODE_EXPECTED_BYTES: usize = 111;

/// Why a call site does not compile. Each error stops the compilation of the
/// call site.
#[derive(Debug, PartialEq)]
pub enum CompileError {
    /// A required parameter has no argument.
    MissingArgument { keyword: String, span: Span },
    /// An argument names no parameter of the function.
    UnknownKeyword { keyword: String, span: Span },
    /// The argument must be a literal and is not.
    ExpectedLiteral { keyword: String, span: Span },
    /// The literal argument must be a byte string and is not.
    ExpectedBytes { keyword: String, span: Span },
    /// The grok pattern does not compile; `message` is grok's description.
    InvalidGrokPattern { message: String, span: Span },
}

impl CompileError {
    pub open spec fn spec_code(&self) -> usize {
        match self {
            CompileError::MissingArgument { .. } => CODE_MISSING_ARGUMENT,
            CompileError::UnknownKeyword { .. } => CODE_UNKNOWN_KEYWORD,
            CompileError::ExpectedLiteral { .. } => CODE_EXPECTED_LITERAL,
            CompileError::ExpectedBytes { .. } => CODE_EXPECTED_BYTES,
            CompileError::InvalidGrokPattern { .. } => CODE_INVALID_GROK_PATTERN,
        }
    }

    pub open spec fn spec_span(&self) -> Span {
        match self {
            CompileError::MissingArgument { span, .. } => *span,
            CompileError::UnknownKeyword { span, .. } => *span,
            CompileError::ExpectedLiteral { span, .. } => *span,
            CompileError::ExpectedBytes { span, .. } => *span,
            CompileError::InvalidGrokPattern { span, .. } => *span,
        }
    }

    /// The text of the error's label.
    pub open spec fn spec_message(&self) -> Seq<char> {
        match self {
            CompileError::MissingArgument { keyword, .. } => "missing required argument: "@ + keyword@,
            CompileError::UnknownKeyword { keyword, .. } => "unknown argument keyword: "@ + keyword@,
            CompileError::ExpectedLiteral { keyword, .. } => "argument must be a literal: "@ + keyword@,
            CompileError::ExpectedBytes { keyword, .. } => "argument must be a string: "@ + keyword@,
            CompileError::InvalidGrokPattern { message, .. } => "grok pattern error: "@ + message@,
        }
    }

    /// The stable code of the error's class.
    pub fn code(&self) -> (r: usize)
        ensures
            r == self.spec_code(),
    {
        match self {
            CompileError::MissingArgument { .. } => CODE_MISSING_ARGUMENT,
            CompileError::UnknownKeyword { .. } => CODE_UNKNOWN_KEYWORD,
            CompileError::ExpectedLiteral { .. } => CODE_EXPECTED_LITERAL,
            CompileError::ExpectedBytes { .. } => CODE_EXPECTED_BYTES,
            CompileError::InvalidGrokPattern { .. } => CODE_INVALID_GROK_PATTERN,
        }
    }

    /// The error's labels: one, on the offending argument.
    pub fn labels(&self) -> (r: Vec<Label>)
        ensures
            r@.len() == 1,
            r@[0].message@ == self.spec_message(),
            r@[0].span == self.spec_span(),
    {
        let (message, span) = match self {
            CompileError::MissingArgument { keyword, span } => (
                String::from_str("missing required argument: ").concat(keyword.as_str()),
                *span,
            ),
            CompileError::UnknownKeyword { keyword, span } => (
                String::from_str("unknown argument keyword: ").concat(keyword.as_str()),
                *span,
            ),
            CompileError::ExpectedLiteral { keyword, span } => (
                String::from_str("argument must be a literal: ").concat(keyword.as_str()),
                *span,
            ),
            CompileError::ExpectedBytes { keyword, span } => (
                String::from_str("argument must be a string: ").concat(keyword.as_str()),
                *span,
            ),
            CompileError::InvalidGrokPattern { message, span } => (
                String::from_str("grok pattern error: ").concat(message.as_str()),
                *span,
            ),
        };
        vec![Label { message, span }]
    }

    /// The error as reported.
    pub fn diagnostic(&self) -> (r: DiagnosticError)
        ensures
            r.code == self.spec_code(),
            r.labels@.len() == 1,
            r.labels@[0].message@ == self.spec_message(),
            r.labels@[0].span == self.spec_span(),
    {
        DiagnosticError { code: self.code(), labels: self.labels() }
    }
}

} // verus!
