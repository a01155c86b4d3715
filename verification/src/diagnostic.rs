//! The input model: what a lint run reports, message by message.

use vstd::prelude::*;

verus! {

/// The level a diagnostic was raised at.
#[derive(Clone, Copy, Debug, PartialEq, Eq, Hash, Structural)]
pub enum DiagnosticLevel {
    /// An internal compiler error.
    Ice,
    Error,
    Warning,
    /// A note attached to a failed compilation.
    FailureNote,
    Note,
    Help,
    /// A level this model has no name for.
    Unknown,
}

/// The rule that a diagnostic comes from.
#[derive(Clone, Debug)]
pub struct DiagnosticCode {
    pub code: String,
}

/// A stretch of source text that a diagnostic points at. Lines and columns
/// count from one.
#[derive(Clone, Debug)]
pub struct DiagnosticSpan {
    pub file_name: String,
    pub line_start: usize,
    pub line_end: usize,
    pub column_start: usize,
    pub column_end: usize,
    pub is_primary: bool,
}

/// The mathematical value of a [`DiagnosticSpan`].
pub ghost struct DiagnosticSpanView {
    pub file_name: Seq<char>,
    pub line_start: nat,
    pub line_end: nat,
    pub column_start: nat,
    pub column_end: nat,
    pub is_primary: bool,
}

impl View for DiagnosticSpan {
    type V = DiagnosticSpanView;

    open spec fn view(&self) -> DiagnosticSpanView {
        DiagnosticSpanView {
            file_name: self.file_name@,
            line_start: self.line_start as nat,
            line_end: self.line_end as nat,
            column_start: self.column_start as nat,
            column_end: self.column_end as nat,
            is_primary: self.is_primary,
        }
    }
}

impl DiagnosticSpanView {
    /// Columns count from one, so neither of them is zero.
    pub open spec fn well_formed(self) -> bool {
        self.column_start >= 1 && self.column_end >= 1
    }
}

impl DiagnosticSpan {
    /// Whether both columns are at least one.
    pub fn is_well_formed(&self) -> (r: bool)
        ensures
            r == self@.well_formed(),
    {
        self.column_start >= 1 && self.column_end >= 1
    }
}

/// The values of a run of spans, in the same order.
pub open spec fn span_views(spans: Seq<DiagnosticSpan>) -> Seq<DiagnosticSpanView> {
    Seq::new(spans.len(), |i: int| spans[i]@)
}

/// The rule name as a mathematical value, where there is a code.
pub open spec fn code_view(code: Option<DiagnosticCode>) -> Option<Seq<char>> {
    match code {
        Some(c) => Some(c.code@),
        None => None,
    }
}

/// One finding of the lint run.
#[derive(Clone, Debug)]
pub struct Diagnostic {
    pub message: String,
    pub code: Option<DiagnosticCode>,
    pub level: DiagnosticLevel,
    pub spans: Vec<DiagnosticSpan>,
}

/// The mathematical value of a [`Diagnostic`].
pub ghost struct DiagnosticView {
    pub message: Seq<char>,
    pub code: Option<Seq<char>>,
    pub level: DiagnosticLevel,
    pub spans: Seq<DiagnosticSpanView>,
}

impl View for Diagnostic {
    type V = DiagnosticView;

    open spec fn view(&self) -> DiagnosticView {
        DiagnosticView {
            message: self.message@,
            code: code_view(self.code),
            level: self.level,
            spans: span_views(self.spans@),
        }
    }
}

impl DiagnosticView {
    /// Every span is well formed.
    pub open spec fn well_formed(self) -> bool {
        forall|i: int| 0 <= i < self.spans.len() ==> (#[trigger] self.spans[i]).well_formed()
    }
}

impl Diagnostic {
    /// Whether every span has both columns at least one.
    pub fn is_well_formed(&self) -> (r: bool)
        ensures
            r == self@.well_formed(),
    {
        let mut i: usize = 0;
        while i < self.spans.len()
            invariant
                i <= self.spans.len(),
                forall|k: int| 0 <= k < i ==> (#[trigger] self@.spans[k]).well_formed(),
            decreases self.spans.len() - i,
        {
            if !self.spans[i].is_well_formed() {
                assert(!self@.spans[i as int].well_formed());
                return false;
            }
            i += 1;
        }
        true
    }
}

/// One item of the lint run's output.
#[derive(Clone, Debug)]
pub enum Message {
    /// A build product was made.
    CompilerArtifact,
    /// The compiler or the linter has something to say.
    CompilerMessage(Diagnostic),
    /// A build script has run.
    BuildScriptExecuted,
    /// The build is over.
    BuildFinished,
    /// Anything else.
    Unknown,
}

/// The mathematical value of a [`Message`]: the diagnostic it carries, if it
/// carries one.
pub open spec fn message_view(message: Message) -> Option<DiagnosticView> {
    match message {
        Message::CompilerMessage(diagnostic) => Some(diagnostic@),
        _ => None,
    }
}

impl View for Message {
    type V = Option<DiagnosticView>;

    open spec fn view(&self) -> Option<DiagnosticView> {
        message_view(*self)
    }
}

impl Message {
    /// Whether the diagnostic inside, if there is one, is well formed.
    pub open spec fn well_formed(self) -> bool {
        match self@ {
            Some(diagnostic) => diagnostic.well_formed(),
            None => true,
        }
    }

    /// Whether the diagnostic inside, if there is one, is well formed.
    pub fn is_well_formed(&self) -> (r: bool)
        ensures
            r == self.well_formed(),
    {
        match self {
            Message::CompilerMessage(diagnostic) => diagnostic.is_well_formed(),
            _ => true,
        }
    }
}

} // verus!
