//! The report model: issues, their locations and text ranges.

use vstd::prelude::*;

verus! {

/// How grave an issue is, from the gravest to the mildest.
#[derive(Clone, Copy, Debug, PartialEq, Eq, Hash, Structural)]
pub enum Severity {
    Blocker,
    Critical,
    Major,
    Minor,
    Info,
}

/// What sort of issue a record describes.
#[derive(Clone, Copy, Debug, PartialEq, Eq, Hash, Structural)]
pub enum Type {
    Bug,
    Vulnerability,
    CodeSmell,
}

/// A stretch of source text. Lines count from one, columns from zero; both
/// ends belong to the range.
#[derive(Clone, Copy, Debug)]
pub struct TextRange {
    pub start_line: usize,
    pub end_line: usize,
    pub start_column: Option<usize>,
    pub end_column: Option<usize>,
}

/// The mathematical value of a [`TextRange`].
pub ghost struct TextRangeView {
    pub start_line: nat,
    pub end_line: nat,
    pub start_column: Option<nat>,
    pub end_column: Option<nat>,
}

/// The column as a natural number, where there is one.
pub open spec fn column_view(column: Option<usize>) -> Option<nat> {
    match column {
        Some(c) => Some(c as nat),
        None => None,
    }
}

impl View for TextRange {
    type V = TextRangeView;

    open spec fn view(&self) -> TextRangeView {
        TextRangeView {
            start_line: self.start_line as nat,
            end_line: self.end_line as nat,
            start_column: column_view(self.start_column),
            end_column: column_view(self.end_column),
        }
    }
}

/// Whether two optional columns are the same.
fn same_column(a: Option<usize>, b: Option<usize>) -> (r: bool)
    ensures
        r == (column_view(a) == column_view(b)),
{
    match (a, b) {
        (Some(x), Some(y)) => x == y,
        (None, None) => true,
        _ => false,
    }
}

impl PartialEq for TextRange {
    fn eq(&self, other: &TextRange) -> (r: bool) {
        self.start_line == other.start_line && self.end_line == other.end_line && same_column(
            self.start_column,
            other.start_column,
        ) && same_column(self.end_column, other.end_column)
    }
}

impl vstd::std_specs::cmp::PartialEqSpecImpl for TextRange {
    open spec fn obeys_eq_spec() -> bool {
        true
    }

    open spec fn eq_spec(&self, other: &TextRange) -> bool {
        self@ == other@
    }
}

impl Eq for TextRange {

}

/// The range as an optional mathematical value.
pub open spec fn range_view(range: Option<TextRange>) -> Option<TextRangeView> {
    match range {
        Some(r) => Some(r@),
        None => None,
    }
}

/// A place in the sources, with the message shown there.
#[derive(Clone, Debug)]
pub struct Location {
    pub message: String,
    pub file_path: String,
    pub text_range: Option<TextRange>,
}

/// The mathematical value of a [`Location`].
pub ghost struct LocationView {
    pub message: Seq<char>,
    pub file_path: Seq<char>,
    pub text_range: Option<TextRangeView>,
}

impl View for Location {
    type V = LocationView;

    open spec fn view(&self) -> LocationView {
        LocationView {
            message: self.message@,
            file_path: self.file_path@,
            text_range: range_view(self.text_range),
        }
    }
}

/// Whether two optional ranges are the same.
fn same_range(a: &Option<TextRange>, b: &Option<TextRange>) -> (r: bool)
    ensures
        r == (range_view(*a) == range_view(*b)),
{
    match (a, b) {
        (Some(x), Some(y)) => x == y,
        (None, None) => true,
        _ => false,
    }
}

impl PartialEq for Location {
    fn eq(&self, other: &Location) -> (r: bool) {
        self.message == other.message && self.file_path == other.file_path && same_range(
            &self.text_range,
            &other.text_range,
        )
    }
}

impl vstd::std_specs::cmp::PartialEqSpecImpl for Location {
    open spec fn obeys_eq_spec() -> bool {
        true
    }

    open spec fn eq_spec(&self, other: &Location) -> bool {
        self@ == other@
    }
}

impl Eq for Location {

}

/// The values of a run of locations, in the same order.
pub open spec fn location_views(locations: Seq<Location>) -> Seq<LocationView> {
    Seq::new(locations.len(), |i: int| locations[i]@)
}

/// The values of an optional list of locations.
pub open spec fn optional_location_views(locations: Option<Vec<Location>>) -> Option<
    Seq<LocationView>,
> {
    match locations {
        Some(list) => Some(location_views(list@)),
        None => None,
    }
}

/// Whether two lists hold the same locations in the same order.
fn same_locations(a: &Vec<Location>, b: &Vec<Location>) -> (r: bool)
    ensures
        r == (location_views(a@) == location_views(b@)),
{
    if a.len() != b.len() {
        assert(location_views(a@).len() != location_views(b@).len());
        return false;
    }
    let mut i: usize = 0;
    while i < a.len()
        invariant
            a.len() == b.len(),
            i <= a.len(),
            forall|k: int| 0 <= k < i ==> a[k]@ == b[k]@,
        decreases a.len() - i,
    {
        if a[i] != b[i] {
            assert(location_views(a@)[i as int] != location_views(b@)[i as int]);
            return false;
        }
        i += 1;
    }
    assert(location_views(a@) =~= location_views(b@));
    true
}

/// Whether two optional lists of locations are the same.
fn same_optional_locations(a: &Option<Vec<Location>>, b: &Option<Vec<Location>>) -> (r: bool)
    ensures
        r == (optional_location_views(*a) == optional_location_views(*b)),
{
    match (a, b) {
        (Some(x), Some(y)) => same_locations(x, y),
        (None, None) => true,
        _ => false,
    }
}

/// One finding, as the platform takes it.
#[derive(Clone, Debug)]
pub struct Issue {
    pub engine_id: String,
    pub rule_id: String,
    pub primary_location: Location,
    pub severity: Severity,
    pub issue_type: Type,
    pub secondary_locations: Option<Vec<Location>>,
}

/// The mathematical value of an [`Issue`].
pub ghost struct IssueView {
    pub engine_id: Seq<char>,
    pub rule_id: Seq<char>,
    pub primary_location: LocationView,
    pub severity: Severity,
    pub issue_type: Type,
    pub secondary_locations: Option<Seq<LocationView>>,
}

impl View for Issue {
    type V = IssueView;

    open spec fn view(&self) -> IssueView {
        IssueView {
            engine_id: self.engine_id@,
            rule_id: self.rule_id@,
            primary_location: self.primary_location@,
            severity: self.severity,
            issue_type: self.issue_type,
            secondary_locations: optional_location_views(self.secondary_locations),
        }
    }
}

impl PartialEq for Issue {
    fn eq(&self, other: &Issue) -> (r: bool) {
        self.engine_id == other.engine_id && self.rule_id == other.rule_id
            && self.primary_location == other.primary_location && self.severity == other.severity
            && self.issue_type == other.issue_type && same_optional_locations(
            &self.secondary_locations,
            &other.secondary_locations,
        )
    }
}

impl vstd::std_specs::cmp::PartialEqSpecImpl for Issue {
    open spec fn obeys_eq_spec() -> bool {
        true
    }

    open spec fn eq_spec(&self, other: &Issue) -> bool {
        self@ == other@
    }
}

impl Eq for Issue {

}

/// The values of a run of issues, in the same order.
pub open spec fn issue_views(issues: Seq<Issue>) -> Seq<IssueView> {
    Seq::new(issues.len(), |i: int| issues[i]@)
}

/// The report: the issues in the order in which they were found.
#[derive(Clone, Debug)]
pub struct IssuesList {
    pub issues: Vec<Issue>,
}

impl View for IssuesList {
    type V = Seq<IssueView>;

    open spec fn view(&self) -> Seq<IssueView> {
        issue_views(self.issues@)
    }
}

} // verus!
