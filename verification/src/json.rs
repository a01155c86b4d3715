//! The report as JSON text.
//!
//! The layout of the text is laid down here: which keys an object has, in
//! which order, and which of them are left out. How a string is written as a
//! JSON string literal is left to `serde_json`.

use crate::sonar::{
    column_view, location_views, range_view, Issue, IssueView, IssuesList, Location, LocationView,
    Severity, TextRange, TextRangeView, Type,
};
use vstd::prelude::*;

verus! {

/// The error with which `serde_json` gives up.
#[verifier::external_type_specification]
#[verifier::external_body]
pub struct ExJsonError(serde_json::Error);

/// What `serde_json` makes of a text: the JSON string literal that it writes
/// for it (the text between double quotes, with the characters that JSON does
/// not take as they are written as escapes), or nothing where it gives up.
pub uninterp spec fn json_string(text: Seq<char>) -> Option<Seq<char>>;

/// Why a report could not be written.
#[derive(Debug)]
pub enum RenderError {
    /// A string could not be encoded.
    Encoding(serde_json::Error),
}

/// Encodes a text as a JSON string literal.
///
/// This is `serde_json::to_string` on a string slice. Whether it succeeds, and
/// what it then returns, depends on the text alone, and [`json_string`] is the
/// name of that. Nothing is claimed about which texts it succeeds on, nor
/// about the error it fails with.
#[verifier::external_body]
fn encode_string(text: &str) -> (encoded: Result<String, serde_json::Error>)
    ensures
        match encoded {
            Ok(literal) => json_string(text@) == Some(literal@),
            Err(_) => json_string(text@) is None,
        },
{
    serde_json::to_string(text)
}

/// The decimal digit for a number below ten.
pub open spec fn digit(d: nat) -> char {
    if d == 0 {
        '0'
    } else if d == 1 {
        '1'
    } else if d == 2 {
        '2'
    } else if d == 3 {
        '3'
    } else if d == 4 {
        '4'
    } else if d == 5 {
        '5'
    } else if d == 6 {
        '6'
    } else if d == 7 {
        '7'
    } else if d == 8 {
        '8'
    } else {
        '9'
    }
}

/// A number in decimal digits, without leading zeros.
pub open spec fn decimal(n: nat) -> Seq<char>
    decreases n,
{
    if n < 10 {
        seq![digit(n)]
    } else {
        decimal(n / 10).push(digit(n % 10))
    }
}

/// The number that a decimal digit stands for.
pub open spec fn digit_value(c: char) -> nat {
    if c == '1' {
        1
    } else if c == '2' {
        2
    } else if c == '3' {
        3
    } else if c == '4' {
        4
    } else if c == '5' {
        5
    } else if c == '6' {
        6
    } else if c == '7' {
        7
    } else if c == '8' {
        8
    } else if c == '9' {
        9
    } else {
        0
    }
}

/// The number that a run of decimal digits stands for.
pub open spec fn number_of(digits: Seq<char>) -> nat
    decreases digits.len(),
{
    if digits.len() == 0 {
        0
    } else {
        number_of(digits.drop_last()) * 10 + digit_value(digits.last())
    }
}

/// A number written in decimal reads back as itself, and only zero is written
/// with a zero in front.
pub proof fn decimal_reads_back(n: nat)
    ensures
        decimal(n).len() >= 1,
        number_of(decimal(n)) == n,
        decimal(n)[0] == '0' <==> n == 0,
    decreases n,
{
    if n < 10 {
        assert(decimal(n).drop_last().len() == 0);
        assert(number_of(decimal(n).drop_last()) == 0);
    } else {
        decimal_reads_back(n / 10);
        assert(decimal(n).drop_last() =~= decimal(n / 10));
    }
}

/// The text of one decimal digit.
fn digit_text(d: usize) -> (text: &'static str)
    requires
        d < 10,
    ensures
        text@ == seq![digit(d as nat)],
{
    proof {
        reveal_strlit("0");
        reveal_strlit("1");
        reveal_strlit("2");
        reveal_strlit("3");
        reveal_strlit("4");
        reveal_strlit("5");
        reveal_strlit("6");
        reveal_strlit("7");
        reveal_strlit("8");
        reveal_strlit("9");
    }
    let text = if d == 0 {
        "0"
    } else if d == 1 {
        "1"
    } else if d == 2 {
        "2"
    } else if d == 3 {
        "3"
    } else if d == 4 {
        "4"
    } else if d == 5 {
        "5"
    } else if d == 6 {
        "6"
    } else if d == 7 {
        "7"
    } else if d == 8 {
        "8"
    } else {
        "9"
    };
    text
}

/// Writes a number in decimal digits behind what is there.
fn write_decimal(out: &mut String, n: usize)
    ensures
        final(out)@ == old(out)@ + decimal(n as nat),
    decreases n,
{
    if n >= 10 {
        write_decimal(out, n / 10);
    }
    out.append(digit_text(n % 10));
}

/// A key with its number, or nothing where the number is absent.
pub open spec fn optional_number(key: Seq<char>, value: Option<nat>) -> Seq<char> {
    match value {
        Some(n) => key + decimal(n),
        None => Seq::empty(),
    }
}

/// The JSON object of a text range. The columns are left out where they are
/// absent.
pub open spec fn range_json(range: TextRangeView) -> Seq<char> {
    "{\"startLine\":"@ + decimal(range.start_line) + ",\"endLine\":"@ + decimal(range.end_line)
        + optional_number(",\"startColumn\":"@, range.start_column) + optional_number(
        ",\"endColumn\":"@,
        range.end_column,
    ) + "}"@
}

/// Writes a key with its number, or nothing where the number is absent.
fn write_optional_number(out: &mut String, key: &str, value: Option<usize>)
    ensures
        final(out)@ == old(out)@ + optional_number(key@, column_view(value)),
{
    match value {
        Some(n) => {
            out.append(key);
            write_decimal(out, n);
        },
        None => {
        },
    }
}

/// Writes the JSON object of a text range behind what is there.
fn write_range(out: &mut String, range: &TextRange)
    ensures
        final(out)@ == old(out)@ + range_json(range@),
{
    out.append("{\"startLine\":");
    write_decimal(out, range.start_line);
    out.append(",\"endLine\":");
    write_decimal(out, range.end_line);
    write_optional_number(out, ",\"startColumn\":", range.start_column);
    write_optional_number(out, ",\"endColumn\":", range.end_column);
    out.append("}");
}

/// The JSON text of a text range.
pub fn render_range(range: &TextRange) -> (text: String)
    ensures
        text@ == range_json(range@),
{
    let mut out = String::new();
    write_range(&mut out, range);
    out
}

/// A key with its text range, or nothing where the range is absent.
pub open spec fn optional_range(key: Seq<char>, range: Option<TextRangeView>) -> Seq<char> {
    match range {
        Some(r) => key + range_json(r),
        None => Seq::empty(),
    }
}

/// The JSON object of a location whose two strings are already written as
/// string literals. The text range is left out where it is absent.
pub open spec fn location_layout(
    message: Seq<char>,
    file_path: Seq<char>,
    range: Option<TextRangeView>,
) -> Seq<char> {
    "{\"message\":"@ + message + ",\"filePath\":"@ + file_path + optional_range(
        ",\"textRange\":"@,
        range,
    ) + "}"@
}

/// The JSON object of a location, or nothing where one of its strings cannot
/// be written.
pub open spec fn location_json(location: LocationView) -> Option<Seq<char>> {
    match (json_string(location.message), json_string(location.file_path)) {
        (Some(message), Some(file_path)) => Some(
            location_layout(message, file_path, location.text_range),
        ),
        _ => None,
    }
}

/// Lays out the JSON object of a location from its two strings, given as
/// string literals, and its text range.
pub fn location_text(message: &str, file_path: &str, range: &Option<TextRange>) -> (text: String)
    ensures
        text@ == location_layout(message@, file_path@, range_view(*range)),
{
    let mut out = String::new();
    out.append("{\"message\":");
    out.append(message);
    out.append(",\"filePath\":");
    out.append(file_path);
    match range {
        Some(r) => {
            out.append(",\"textRange\":");
            write_range(&mut out, r);
        },
        None => {},
    }
    out.append("}");
    out
}

/// The JSON text of a location.
///
/// The message and the file path are encoded as string literals and laid out
/// with the text range. This fails exactly when one of the two strings cannot
/// be encoded.
pub fn render_location(location: &Location) -> (rendered: Result<String, RenderError>)
    ensures
        match rendered {
            Ok(text) => location_json(location@) == Some(text@),
            Err(_) => location_json(location@) is None,
        },
{
    let message = match encode_string(location.message.as_str()) {
        Ok(literal) => literal,
        Err(cause) => {
            return Err(RenderError::Encoding(cause));
        },
    };
    let file_path = match encode_string(location.file_path.as_str()) {
        Ok(literal) => literal,
        Err(cause) => {
            return Err(RenderError::Encoding(cause));
        },
    };
    Ok(location_text(message.as_str(), file_path.as_str(), &location.text_range))
}

/// The texts of a run of strings, in the same order.
pub open spec fn texts(strings: Seq<String>) -> Seq<Seq<char>> {
    Seq::new(strings.len(), |i: int| strings[i]@)
}

/// The items one behind the other, with a comma between each two.
pub open spec fn joined(items: Seq<Seq<char>>) -> Seq<char>
    decreases items.len(),
{
    if items.len() == 0 {
        Seq::empty()
    } else if items.len() == 1 {
        items[0]
    } else {
        joined(items.drop_last()) + ","@ + items.last()
    }
}

/// The JSON array of items that are already written as JSON.
pub open spec fn array_layout(items: Seq<Seq<char>>) -> Seq<char> {
    "["@ + joined(items) + "]"@
}

/// Writes a JSON array behind what is there.
fn write_array(out: &mut String, items: &Vec<String>)
    ensures
        final(out)@ == old(out)@ + array_layout(texts(items@)),
{
    let ghost all = texts(items@);
    out.append("[");
    let mut i: usize = 0;
    while i < items.len()
        invariant
            i <= items.len(),
            all == texts(items@),
            out@ == old(out)@ + "["@ + joined(all.take(i as int)),
        decreases items.len() - i,
    {
        if i > 0 {
            out.append(",");
        }
        out.append(items[i].as_str());
        assert(all.take(i + 1).drop_last() =~= all.take(i as int));
        i += 1;
    }
    out.append("]");
    assert(all.take(i as int) =~= all);
}

/// The name of a severity, as the platform spells it.
pub open spec fn severity_name(severity: Severity) -> Seq<char> {
    match severity {
        Severity::Blocker => "BLOCKER"@,
        Severity::Critical => "CRITICAL"@,
        Severity::Major => "MAJOR"@,
        Severity::Minor => "MINOR"@,
        Severity::Info => "INFO"@,
    }
}

/// The name of an issue type, as the platform spells it.
pub open spec fn kind_name(issue_type: Type) -> Seq<char> {
    match issue_type {
        Type::Bug => "BUG"@,
        Type::Vulnerability => "VULNERABILITY"@,
        Type::CodeSmell => "CODE_SMELL"@,
    }
}

impl Severity {
    /// The name of the severity, as the platform spells it.
    pub fn name(&self) -> (text: &'static str)
        ensures
            text@ == severity_name(*self),
    {
        match self {
            Severity::Blocker => "BLOCKER",
            Severity::Critical => "CRITICAL",
            Severity::Major => "MAJOR",
            Severity::Minor => "MINOR",
            Severity::Info => "INFO",
        }
    }
}

impl Type {
    /// The name of the issue type, as the platform spells it.
    pub fn name(&self) -> (text: &'static str)
        ensures
            text@ == kind_name(*self),
    {
        match self {
            Type::Bug => "BUG",
            Type::Vulnerability => "VULNERABILITY",
            Type::CodeSmell => "CODE_SMELL",
        }
    }
}

/// A key with its array, or nothing where the array is absent.
pub open spec fn optional_array(key: Seq<char>, items: Option<Seq<Seq<char>>>) -> Seq<char> {
    match items {
        Some(list) => key + array_layout(list),
        None => Seq::empty(),
    }
}

/// The texts of an optional list of strings.
pub open spec fn optional_texts(strings: Option<Vec<String>>) -> Option<Seq<Seq<char>>> {
    match strings {
        Some(list) => Some(texts(list@)),
        None => None,
    }
}

/// The JSON object of an issue whose strings are already written as string
/// literals and whose locations are already written as JSON objects. The
/// secondary locations are left out where they are absent.
pub open spec fn issue_layout(
    engine_id: Seq<char>,
    rule_id: Seq<char>,
    primary: Seq<char>,
    severity: Severity,
    issue_type: Type,
    secondary: Option<Seq<Seq<char>>>,
) -> Seq<char> {
    "{\"engineId\":"@ + engine_id + ",\"ruleId\":"@ + rule_id + ",\"primaryLocation\":"@ + primary
        + ",\"severity\":\""@ + severity_name(severity) + "\",\"type\":\""@ + kind_name(issue_type)
        + "\""@ + optional_array(",\"secondaryLocations\":"@, secondary) + "}"@
}

/// The items, if every one of them could be written; nothing otherwise.
pub open spec fn every_one(items: Seq<Option<Seq<char>>>) -> Option<Seq<Seq<char>>> {
    if forall|i: int| 0 <= i < items.len() ==> (#[trigger] items[i]) is Some {
        Some(Seq::new(items.len(), |i: int| items[i]->0))
    } else {
        None
    }
}

/// The JSON objects of a run of locations, in the same order, or nothing
/// where one of them cannot be written.
pub open spec fn locations_json(locations: Seq<LocationView>) -> Option<Seq<Seq<char>>> {
    every_one(Seq::new(locations.len(), |i: int| location_json(locations[i])))
}

/// The JSON objects of an optional list of locations: an absent list is
/// written as an absent one, and nothing is written where one of the
/// locations cannot be.
pub open spec fn optional_locations_json(locations: Option<Seq<LocationView>>) -> Option<
    Option<Seq<Seq<char>>>,
> {
    match locations {
        Some(list) => match locations_json(list) {
            Some(written) => Some(Some(written)),
            None => None,
        },
        None => Some(None),
    }
}

/// The JSON object of an issue, or nothing where one of its strings or
/// locations cannot be written.
pub open spec fn issue_json(issue: IssueView) -> Option<Seq<char>> {
    match (
        json_string(issue.engine_id),
        json_string(issue.rule_id),
        location_json(issue.primary_location),
        optional_locations_json(issue.secondary_locations),
    ) {
        (Some(engine_id), Some(rule_id), Some(primary), Some(secondary)) => Some(
            issue_layout(engine_id, rule_id, primary, issue.severity, issue.issue_type, secondary),
        ),
        _ => None,
    }
}

/// Lays out the JSON object of an issue from its two strings, given as string
/// literals, its locations, given as JSON objects, its severity and its type.
pub fn issue_text(
    engine_id: &str,
    rule_id: &str,
    primary: &str,
    severity: Severity,
    issue_type: Type,
    secondary: &Option<Vec<String>>,
) -> (text: String)
    ensures
        text@ == issue_layout(
            engine_id@,
            rule_id@,
            primary@,
            severity,
            issue_type,
            optional_texts(*secondary),
        ),
{
    let mut out = String::new();
    out.append("{\"engineId\":");
    out.append(engine_id);
    out.append(",\"ruleId\":");
    out.append(rule_id);
    out.append(",\"primaryLocation\":");
    out.append(primary);
    out.append(",\"severity\":\"");
    out.append(severity.name());
    out.append("\",\"type\":\"");
    out.append(issue_type.name());
    out.append("\"");
    match secondary {
        Some(list) => {
            out.append(",\"secondaryLocations\":");
            write_array(&mut out, list);
        },
        None => {},
    }
    out.append("}");
    out
}

/// The JSON texts of a list of locations, in the same order. This fails
/// exactly when one of the locations cannot be written.
fn render_locations(locations: &Vec<Location>) -> (rendered: Result<Vec<String>, RenderError>)
    ensures
        match rendered {
            Ok(list) => locations_json(location_views(locations@)) == Some(texts(list@)),
            Err(_) => locations_json(location_views(locations@)) is None,
        },
{
    let ghost written = Seq::new(
        locations@.len(),
        |k: int| location_json(location_views(locations@)[k]),
    );
    let mut list: Vec<String> = Vec::new();
    let mut i: usize = 0;
    while i < locations.len()
        invariant
            i <= locations.len(),
            list@.len() == i,
            written == Seq::new(
                locations@.len(),
                |k: int| location_json(location_views(locations@)[k]),
            ),
            forall|k: int| 0 <= k < i ==> written[k] == Some((#[trigger] list@[k])@),
        decreases locations.len() - i,
    {
        match render_location(&locations[i]) {
            Ok(text) => {
                list.push(text);
            },
            Err(cause) => {
                assert(written[i as int] is None);
                return Err(cause);
            },
        }
        i += 1;
    }
    proof {
        assert forall|k: int| 0 <= k < written.len() implies (#[trigger] written[k]) is Some by {
            assert(written[k] == Some(list@[k]@));
        }
        assert(every_one(written)->0 =~= texts(list@));
    }
    Ok(list)
}

/// The JSON text of an issue.
///
/// The engine and the rule are encoded as string literals, the locations are
/// written as JSON objects, and all is laid out with the severity and the
/// type. This fails exactly when one of the strings of the issue or of its
/// locations cannot be encoded.
pub fn render_issue(issue: &Issue) -> (rendered: Result<String, RenderError>)
    ensures
        match rendered {
            Ok(text) => issue_json(issue@) == Some(text@),
            Err(_) => issue_json(issue@) is None,
        },
{
    let engine_id = match encode_string(issue.engine_id.as_str()) {
        Ok(literal) => literal,
        Err(cause) => {
            return Err(RenderError::Encoding(cause));
        },
    };
    let rule_id = match encode_string(issue.rule_id.as_str()) {
        Ok(literal) => literal,
        Err(cause) => {
            return Err(RenderError::Encoding(cause));
        },
    };
    let primary = match render_location(&issue.primary_location) {
        Ok(text) => text,
        Err(cause) => {
            return Err(cause);
        },
    };
    let secondary = match &issue.secondary_locations {
        Some(locations) => match render_locations(locations) {
            Ok(list) => Some(list),
            Err(cause) => {
                return Err(cause);
            },
        },
        None => None,
    };
    Ok(
        issue_text(
            engine_id.as_str(),
            rule_id.as_str(),
            primary.as_str(),
            issue.severity,
            issue.issue_type,
            &secondary,
        ),
    )
}

/// The JSON object of a report whose issues are already written as JSON
/// objects.
pub open spec fn report_layout(issues: Seq<Seq<char>>) -> Seq<char> {
    "{\"issues\":"@ + array_layout(issues) + "}"@
}

/// The JSON objects of a run of issues, in the same order, or nothing where
/// one of them cannot be written.
pub open spec fn issues_json(issues: Seq<IssueView>) -> Option<Seq<Seq<char>>> {
    every_one(Seq::new(issues.len(), |i: int| issue_json(issues[i])))
}

/// The JSON text of a report, or nothing where one of its issues cannot be
/// written.
pub open spec fn report_json(issues: Seq<IssueView>) -> Option<Seq<char>> {
    match issues_json(issues) {
        Some(written) => Some(report_layout(written)),
        None => None,
    }
}

/// Lays out the JSON object of a report from its issues, given as JSON
/// objects.
pub fn report_text(issues: &Vec<String>) -> (text: String)
    ensures
        text@ == report_layout(texts(issues@)),
{
    let mut out = String::new();
    out.append("{\"issues\":");
    write_array(&mut out, issues);
    out.append("}");
    out
}

impl IssuesList {
    /// The report as JSON text: one object with the issues in their order.
    ///
    /// This fails exactly when one of the issues cannot be written. A report
    /// without issues can always be written.
    pub fn to_json(&self) -> (rendered: Result<String, RenderError>)
        ensures
            match rendered {
                Ok(text) => report_json(self@) == Some(text@),
                Err(_) => report_json(self@) is None,
            },
            self@.len() == 0 ==> rendered is Ok,
    {
        let ghost written = Seq::new(self@.len(), |k: int| issue_json(self@[k]));
        let mut list: Vec<String> = Vec::new();
        let mut i: usize = 0;
        while i < self.issues.len()
            invariant
                i <= self.issues.len(),
                list@.len() == i,
                written == Seq::new(self@.len(), |k: int| issue_json(self@[k])),
                forall|k: int| 0 <= k < i ==> written[k] == Some((#[trigger] list@[k])@),
            decreases self.issues.len() - i,
        {
            match render_issue(&self.issues[i]) {
                Ok(text) => {
                    list.push(text);
                },
                Err(cause) => {
                    assert(written[i as int] is None);
                    return Err(cause);
                },
            }
            i += 1;
        }
        proof {
            assert forall|k: int| 0 <= k < written.len() implies (#[trigger] written[k]) is Some by {
                assert(written[k] == Some(list@[k]@));
            }
            assert(every_one(written)->0 =~= texts(list@));
        }
        Ok(report_text(&list))
    }
}

} // verus!
