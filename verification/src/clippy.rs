//! From a diagnostic to an issue.

use crate::diagnostic::{
    Diagnostic, DiagnosticLevel, DiagnosticSpan, DiagnosticSpanView, DiagnosticView, Message,
};
use crate::sonar::{
    location_views, Issue, IssueView, Location, LocationView, Severity, TextRange, TextRangeView,
    Type,
};
use vstd::prelude::*;

verus! {

/// Why a message gave no issue.
#[derive(Clone, Copy, Debug, PartialEq, Eq, Hash, Structural)]
pub enum Skipped {
    /// The message carries no diagnostic.
    NotADiagnostic,
    /// The diagnostic has no primary span.
    NoPrimarySpan,
}

/// The severity that stands for a level.
pub open spec fn severity_of(level: DiagnosticLevel) -> Severity {
    match level {
        DiagnosticLevel::Ice => Severity::Blocker,
        DiagnosticLevel::Error => Severity::Critical,
        DiagnosticLevel::FailureNote => Severity::Major,
        DiagnosticLevel::Warning => Severity::Minor,
        _ => Severity::Info,
    }
}

impl From<DiagnosticLevel> for Severity {
    fn from(value: DiagnosticLevel) -> (severity: Severity) {
        match value {
            DiagnosticLevel::Ice => Severity::Blocker,
            DiagnosticLevel::Error => Severity::Critical,
            DiagnosticLevel::FailureNote => Severity::Major,
            DiagnosticLevel::Warning => Severity::Minor,
            _ => Severity::Info,
        }
    }
}

impl vstd::std_specs::convert::FromSpecImpl<DiagnosticLevel> for Severity {
    open spec fn obeys_from_spec() -> bool {
        true
    }

    open spec fn from_spec(value: DiagnosticLevel) -> Severity {
        severity_of(value)
    }
}

/// The range that a span covers: the same lines, and each column one less.
pub open spec fn range_of(span: DiagnosticSpanView) -> TextRangeView {
    TextRangeView {
        start_line: span.line_start,
        end_line: span.line_end,
        start_column: Some((span.column_start - 1) as nat),
        end_column: Some((span.column_end - 1) as nat),
    }
}

impl TextRange {
    /// The range of a span, with its columns counted from zero.
    pub fn from(span: &DiagnosticSpan) -> (range: TextRange)
        requires
            span@.well_formed(),
        ensures
            range@ == range_of(span@),
    {
        TextRange {
            start_line: span.line_start,
            end_line: span.line_end,
            start_column: Some(span.column_start - 1),
            end_column: Some(span.column_end - 1),
        }
    }
}

/// The test that picks the primary spans.
pub open spec fn primary() -> spec_fn(DiagnosticSpanView) -> bool {
    |span: DiagnosticSpanView| span.is_primary
}

/// The test that picks the spans that are not primary.
pub open spec fn secondary() -> spec_fn(DiagnosticSpanView) -> bool {
    |span: DiagnosticSpanView| !span.is_primary
}

/// Whether some span is flagged primary.
pub open spec fn has_primary_span(spans: Seq<DiagnosticSpanView>) -> bool {
    exists|i: int| 0 <= i < spans.len() && (#[trigger] spans[i]).is_primary
}

/// Whether `i` is the place of the first span that is flagged primary.
pub open spec fn is_first_primary(spans: Seq<DiagnosticSpanView>, i: int) -> bool {
    &&& 0 <= i < spans.len()
    &&& spans[i].is_primary
    &&& forall|j: int| 0 <= j < i ==> !(#[trigger] spans[j]).is_primary
}

/// The place that a span stands for, under the diagnostic's message.
pub open spec fn location_of(message: Seq<char>, span: DiagnosticSpanView) -> LocationView {
    LocationView { message, file_path: span.file_name, text_range: Some(range_of(span)) }
}

/// The places of a run of spans, each under the same message.
pub open spec fn locations_of(message: Seq<char>, spans: Seq<DiagnosticSpanView>) -> Seq<
    LocationView,
> {
    Seq::new(spans.len(), |i: int| location_of(message, spans[i]))
}

/// The primary location of a diagnostic: the place of its first primary
/// span, if it has one.
pub open spec fn primary_location_of(diagnostic: DiagnosticView) -> Option<LocationView> {
    let chosen = diagnostic.spans.filter(primary());
    if chosen.len() > 0 {
        Some(location_of(diagnostic.message, chosen.first()))
    } else {
        None
    }
}

/// The secondary locations of a diagnostic: the places of the spans that are
/// not primary, in the order of the spans.
pub open spec fn secondary_locations_of(diagnostic: DiagnosticView) -> Seq<LocationView> {
    locations_of(diagnostic.message, diagnostic.spans.filter(secondary()))
}

/// The spans flagged primary are none exactly when no span is flagged, and
/// the first of them is the first span that is flagged.
pub proof fn first_flagged_span_leads(spans: Seq<DiagnosticSpanView>)
    ensures
        spans.filter(primary()).len() > 0 <==> has_primary_span(spans),
        forall|i: int| #[trigger]
            is_first_primary(spans, i) ==> spans.filter(primary()).len() > 0 && spans.filter(
                primary(),
            ).first() == spans[i],
    decreases spans.len(),
{
    reveal(Seq::filter);
    if spans.len() > 0 {
        let front = spans.drop_last();
        first_flagged_span_leads(front);
        if has_primary_span(spans) && !has_primary_span(front) {
            let k = choose|k: int| 0 <= k < spans.len() && (#[trigger] spans[k]).is_primary;
            if k < front.len() {
                assert(front[k].is_primary);
            }
        }
        assert forall|i: int| #[trigger] is_first_primary(spans, i) implies spans.filter(
            primary(),
        ).len() > 0 && spans.filter(primary()).first() == spans[i] by {
            if i < front.len() {
                assert(is_first_primary(front, i));
            } else {
                assert forall|j: int| 0 <= j < front.len() implies !(#[trigger] front[j]).is_primary by {
                }
            }
        }
    }
}

/// Builds the place of one span.
fn locate(message: &String, span: &DiagnosticSpan) -> (location: Location)
    requires
        span@.well_formed(),
    ensures
        location@ == location_of(message@, span@),
{
    Location {
        message: message.clone(),
        file_path: span.file_name.clone(),
        text_range: Some(TextRange::from(span)),
    }
}

/// Finds the primary location of a diagnostic and its secondary locations.
///
/// The primary location is that of the first span flagged primary; without
/// such a span there is nothing to report. Every span that is not primary
/// gives one secondary location, and all of them carry the diagnostic's own
/// message.
pub fn extract_locations(diagnostic: &Diagnostic) -> (found: Result<
    (Location, Vec<Location>),
    Skipped,
>)
    requires
        diagnostic@.well_formed(),
    ensures
        found is Ok <==> has_primary_span(diagnostic@.spans),
        match found {
            Ok((first, others)) => {
                &&& primary_location_of(diagnostic@) == Some(first@)
                &&& location_views(others@) == secondary_locations_of(diagnostic@)
            },
            Err(reason) => reason == Skipped::NoPrimarySpan,
        },
{
    let ghost spans = diagnostic@.spans;
    let ghost message = diagnostic@.message;
    let mut first: Option<Location> = None;
    let mut others: Vec<Location> = Vec::new();
    let mut i: usize = 0;
    proof {
        reveal(Seq::filter);
    }
    while i < diagnostic.spans.len()
        invariant
            i <= diagnostic.spans.len(),
            spans == diagnostic@.spans,
            message == diagnostic@.message,
            diagnostic@.well_formed(),
            location_views(others@) == locations_of(
                message,
                spans.take(i as int).filter(secondary()),
            ),
            match first {
                Some(location) => {
                    &&& spans.take(i as int).filter(primary()).len() > 0
                    &&& location@ == location_of(
                        message,
                        spans.take(i as int).filter(primary()).first(),
                    )
                },
                None => spans.take(i as int).filter(primary()).len() == 0,
            },
        decreases diagnostic.spans.len() - i,
    {
        let span = &diagnostic.spans[i];
        proof {
            let seen = spans.take(i as int);
            assert(spans.take(i + 1) =~= seen.push(spans[i as int]));
            seen.lemma_filter_push(spans[i as int], primary());
            seen.lemma_filter_push(spans[i as int], secondary());
        }
        if span.is_primary {
            if first.is_none() {
                first = Some(locate(&diagnostic.message, span));
            }
        } else {
            let ghost kept = spans.take(i as int).filter(secondary());
            let ghost before = others@;
            others.push(locate(&diagnostic.message, span));
            proof {
                assert(locations_of(message, kept).len() == kept.len());
                assert forall|k: int| 0 <= k < before.len() implies location_views(others@)[k]
                    == locations_of(message, kept.push(spans[i as int]))[k] by {
                    assert(location_views(before)[k] == locations_of(message, kept)[k]);
                }
            }
        }
        i += 1;
    }
    proof {
        assert(spans.take(i as int) =~= spans);
        first_flagged_span_leads(spans);
    }
    match first {
        Some(location) => Ok((location, others)),
        None => Err(Skipped::NoPrimarySpan),
    }
}

/// The name under which the linter is known to the platform.
pub const ENGINE_ID: &'static str = "clippy";

/// The rule that an issue is filed under: the diagnostic's code, or the
/// engine's own name where the diagnostic has none.
pub open spec fn rule_of(code: Option<Seq<char>>) -> Seq<char> {
    match code {
        Some(rule) => rule,
        None => ENGINE_ID@,
    }
}

/// The secondary locations as an issue holds them: absent when there are none.
pub open spec fn listed(locations: Seq<LocationView>) -> Option<Seq<LocationView>> {
    if locations.len() == 0 {
        None
    } else {
        Some(locations)
    }
}

/// The issue that a diagnostic stands for, if it has a primary span.
pub open spec fn issue_of(diagnostic: DiagnosticView) -> Option<IssueView> {
    match primary_location_of(diagnostic) {
        Some(first) => Some(
            IssueView {
                engine_id: ENGINE_ID@,
                rule_id: rule_of(diagnostic.code),
                primary_location: first,
                severity: severity_of(diagnostic.level),
                issue_type: Type::CodeSmell,
                secondary_locations: listed(secondary_locations_of(diagnostic)),
            },
        ),
        None => None,
    }
}

/// What becomes of a message: the issue of the diagnostic it carries, or the
/// reason why there is none.
pub open spec fn outcome_of(message: Option<DiagnosticView>) -> Result<IssueView, Skipped> {
    match message {
        Some(diagnostic) => match issue_of(diagnostic) {
            Some(issue) => Ok(issue),
            None => Err(Skipped::NoPrimarySpan),
        },
        None => Err(Skipped::NotADiagnostic),
    }
}

impl Issue {
    /// Builds the issue of a diagnostic.
    ///
    /// A diagnostic with a primary span always gives an issue, filed under
    /// the engine's name, with the diagnostic's code as its rule, the mapped
    /// severity and the one type this tool reports. A diagnostic without a
    /// primary span gives none, whatever other spans it has.
    pub fn try_from(diagnostic: Diagnostic) -> (made: Result<Issue, Skipped>)
        requires
            diagnostic@.well_formed(),
        ensures
            made is Ok <==> has_primary_span(diagnostic@.spans),
            match made {
                Ok(issue) => {
                    &&& issue_of(diagnostic@) == Some(issue@)
                    &&& forall|i: int| #[trigger]
                        is_first_primary(diagnostic@.spans, i)
                            ==> issue@.primary_location.file_path == diagnostic@.spans[i].file_name
                },
                Err(reason) => reason == Skipped::NoPrimarySpan && issue_of(diagnostic@) is None,
            },
    {
        proof {
            first_flagged_span_leads(diagnostic@.spans);
        }
        match extract_locations(&diagnostic) {
            Ok((first, others)) => {
                let rule_id = match diagnostic.code {
                    Some(code) => code.code,
                    None => ENGINE_ID.to_owned(),
                };
                let secondary_locations = if others.len() == 0 {
                    None
                } else {
                    Some(others)
                };
                Ok(
                    Issue {
                        engine_id: ENGINE_ID.to_owned(),
                        rule_id,
                        primary_location: first,
                        severity: Severity::from(diagnostic.level),
                        issue_type: Type::CodeSmell,
                        secondary_locations,
                    },
                )
            },
            Err(reason) => Err(reason),
        }
    }

    /// Builds the issue of a message: that of the diagnostic it carries.
    ///
    /// Any message that is not a compiler message is passed over; so is a
    /// diagnostic without a primary span.
    pub fn try_from_message(message: Message) -> (made: Result<Issue, Skipped>)
        requires
            message.well_formed(),
        ensures
            match made {
                Ok(issue) => outcome_of(message@) == Ok::<IssueView, Skipped>(issue@),
                Err(reason) => outcome_of(message@) == Err::<IssueView, Skipped>(reason),
            },
    {
        match message {
            Message::CompilerMessage(diagnostic) => Issue::try_from(diagnostic),
            _ => Err(Skipped::NotADiagnostic),
        }
    }
}

/// A diagnostic gives an issue exactly when one of its spans is flagged
/// primary; the issue then points at the file of the first such span.
pub proof fn primary_span_decides(diagnostic: DiagnosticView)
    ensures
        issue_of(diagnostic) is Some <==> has_primary_span(diagnostic.spans),
        forall|i: int| #[trigger]
            is_first_primary(diagnostic.spans, i) ==> issue_of(diagnostic) is Some && issue_of(
                diagnostic,
            )->0.primary_location.file_path == diagnostic.spans[i].file_name,
{
    first_flagged_span_leads(diagnostic.spans);
}

/// An issue lists secondary locations exactly when its diagnostic has a span
/// that is not flagged primary.
pub proof fn secondary_spans_decide(diagnostic: DiagnosticView)
    requires
        has_primary_span(diagnostic.spans),
    ensures
        issue_of(diagnostic) is Some,
        issue_of(diagnostic)->0.secondary_locations is Some <==> exists|i: int|
            0 <= i < diagnostic.spans.len() && !(#[trigger] diagnostic.spans[i]).is_primary,
{
    let spans = diagnostic.spans;
    let others = spans.filter(secondary());
    first_flagged_span_leads(spans);
    if others.len() > 0 {
        spans.lemma_filter_pred(secondary(), 0);
        spans.lemma_filter_contains_rev(secondary(), others[0]);
    }
    if exists|i: int| 0 <= i < spans.len() && !(#[trigger] spans[i]).is_primary {
        let i = choose|i: int| 0 <= i < spans.len() && !(#[trigger] spans[i]).is_primary;
        spans.lemma_filter_contains(secondary(), i);
    }
}

/// The severity of an issue depends on the level of its diagnostic and on
/// nothing else, and every level has one.
pub proof fn severity_follows_level(a: DiagnosticView, b: DiagnosticView)
    requires
        a.level == b.level,
        has_primary_span(a.spans),
        has_primary_span(b.spans),
    ensures
        issue_of(a) is Some,
        issue_of(b) is Some,
        issue_of(a)->0.severity == issue_of(b)->0.severity,
        issue_of(a)->0.severity == severity_of(a.level),
{
    primary_span_decides(a);
    primary_span_decides(b);
}

} // verus!
