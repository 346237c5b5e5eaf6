//! Data model of the diagnostic messages read from the build tool.

use vstd::prelude::*;

verus! {

/// Severity of a diagnostic, in the vocabulary of the upstream compiler.
#[derive(Debug, Clone, Copy, PartialEq, Eq, Structural)]
pub enum DiagnosticLevel {
    /// A fatal error that prevents compilation
    Error,
    /// A possible error of concern
    Warning,
    /// Additional information or context about the diagnostic
    Note,
    /// A suggestion on how to resolve the diagnostic
    Help,
    /// A note attached to the message for further information
    FailureNote,
    /// Indicates a bug within the compiler
    InternalCompilerError,
}

/// The location of a diagnostic in the source code.
pub struct DiagnosticSpan {
    /// The file where the span is located; the path is not validated.
    pub file_name: String,
    /// The first line number of the span (1-based, inclusive)
    pub line_start: usize,
    /// The last line number of the span (1-based, inclusive)
    pub line_end: usize,
    /// The first column number of the span (1-based, inclusive)
    pub column_start: usize,
    /// The last column number of the span (1-based, exclusive)
    pub column_end: usize,
    /// Whether this span is the "primary" span of its diagnostic
    pub is_primary: bool,
}

/// Mathematical model of a [`DiagnosticSpan`].
pub ghost struct SpanView {
    pub file_name: Seq<char>,
    pub line_start: int,
    pub line_end: int,
    pub column_start: int,
    pub column_end: int,
    pub is_primary: bool,
}

impl View for DiagnosticSpan {
    type V = SpanView;

    open spec fn view(&self) -> SpanView {
        SpanView {
            file_name: self.file_name@,
            line_start: self.line_start as int,
            line_end: self.line_end as int,
            column_start: self.column_start as int,
            column_end: self.column_end as int,
            is_primary: self.is_primary,
        }
    }
}

/// One diagnostic message of the compiler.
pub struct Diagnostic {
    /// Primary message
    pub message: String,
    /// Severity of the diagnostic
    pub level: DiagnosticLevel,
    /// Locations in the source code of this diagnostic
    pub spans: Vec<DiagnosticSpan>,
    /// Diagnostic as rendered by the compiler, when it supplies one
    pub rendered: Option<String>,
}

/// Mathematical model of a [`Diagnostic`].
pub ghost struct DiagnosticView {
    pub message: Seq<char>,
    pub level: DiagnosticLevel,
    pub spans: Seq<SpanView>,
    pub rendered: Option<Seq<char>>,
}

impl View for Diagnostic {
    type V = DiagnosticView;

    open spec fn view(&self) -> DiagnosticView {
        DiagnosticView {
            message: self.message@,
            level: self.level,
            spans: self.spans@.map_values(|s: DiagnosticSpan| s@),
            rendered: match self.rendered {
                Some(r) => Some(r@),
                None => None,
            },
        }
    }
}

/// Tagged envelope of one line of the build tool's output stream; only the
/// compiler-message tag carries a diagnostic. Other tags are discarded by the
/// caller before they reach this library, so no variant exists for them.
pub enum CargoMessage {
    /// Message emitted by the compiler
    CompilerMessage(Diagnostic),
}

impl View for CargoMessage {
    type V = DiagnosticView;

    open spec fn view(&self) -> DiagnosticView {
        match self {
            CargoMessage::CompilerMessage(d) => d@,
        }
    }
}

} // verus!
