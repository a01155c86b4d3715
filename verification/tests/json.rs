use cargo_sonar::diagnostic::{Diagnostic, DiagnosticCode, DiagnosticLevel, DiagnosticSpan};
use cargo_sonar::json::{
    issue_text, location_text, render_issue, render_location, render_range, report_text,
};
use cargo_sonar::sonar::{Issue, IssuesList, Location, Severity, TextRange, Type};
use serde_json::Value;

fn range(line: usize, from: Option<usize>, to: Option<usize>) -> TextRange {
    TextRange { start_line: line, end_line: line, start_column: from, end_column: to }
}

fn location(message: &str, file: &str, text_range: Option<TextRange>) -> Location {
    Location { message: message.to_string(), file_path: file.to_string(), text_range }
}

fn issue(rule: &str, secondary_locations: Option<Vec<Location>>) -> Issue {
    Issue {
        engine_id: "clippy".to_string(),
        rule_id: rule.to_string(),
        primary_location: location("unused variable", "src/a.rs", Some(range(3, Some(4), Some(9)))),
        severity: Severity::Minor,
        issue_type: Type::CodeSmell,
        secondary_locations,
    }
}

fn parse(text: &str) -> Value {
    serde_json::from_str(text).unwrap()
}

#[test]
fn issue_without_secondary_locations_has_no_such_key() {
    let text = render_issue(&issue("clippy::unused", None)).unwrap();
    assert!(!text.contains("secondaryLocations"));
    let value = parse(&text);
    let object = value.as_object().unwrap();
    assert!(!object.contains_key("secondaryLocations"));
    assert_eq!(object.len(), 5);
}

#[test]
fn issue_built_without_secondary_spans_has_no_such_key() {
    let d = Diagnostic {
        message: "unused variable".to_string(),
        code: None,
        level: DiagnosticLevel::Warning,
        spans: vec![DiagnosticSpan {
            file_name: "src/a.rs".to_string(),
            line_start: 3,
            line_end: 3,
            column_start: 5,
            column_end: 10,
            is_primary: true,
        }],
    };
    let built = Issue::try_from(d).unwrap();
    let value = parse(&render_issue(&built).unwrap());
    assert!(value.get("secondaryLocations").is_none());
}

#[test]
fn end_to_end_text() {
    let d = Diagnostic {
        message: "unused variable".to_string(),
        code: Some(DiagnosticCode { code: "clippy::unused".to_string() }),
        level: DiagnosticLevel::Warning,
        spans: vec![DiagnosticSpan {
            file_name: "src/a.rs".to_string(),
            line_start: 3,
            line_end: 3,
            column_start: 5,
            column_end: 10,
            is_primary: true,
        }],
    };
    let list = IssuesList { issues: vec![Issue::try_from(d).unwrap()] };
    assert_eq!(
        list.to_json().unwrap(),
        "{\"issues\":[{\"engineId\":\"clippy\",\"ruleId\":\"clippy::unused\",\
         \"primaryLocation\":{\"message\":\"unused variable\",\"filePath\":\"src/a.rs\",\
         \"textRange\":{\"startLine\":3,\"endLine\":3,\"startColumn\":4,\"endColumn\":9}},\
         \"severity\":\"MINOR\",\"type\":\"CODE_SMELL\"}]}"
    );
}

#[test]
fn empty_report() {
    assert_eq!(IssuesList::new().to_json().unwrap(), "{\"issues\":[]}");
}

#[test]
fn issues_come_in_their_order_with_commas_between() {
    let list = IssuesList {
        issues: vec![issue("first", None), issue("second", None), issue("third", None)],
    };
    let value = parse(&list.to_json().unwrap());
    let issues = value["issues"].as_array().unwrap();
    assert_eq!(issues.len(), 3);
    assert_eq!(issues[0]["ruleId"], "first");
    assert_eq!(issues[1]["ruleId"], "second");
    assert_eq!(issues[2]["ruleId"], "third");
    assert_eq!(value.as_object().unwrap().len(), 1);
}

#[test]
fn secondary_locations_are_written_when_present() {
    let secondary = vec![
        location("unused variable", "src/b.rs", Some(range(1, Some(0), Some(1)))),
        location("unused variable", "src/c.rs", None),
    ];
    let text = render_issue(&issue("r", Some(secondary))).unwrap();
    assert_eq!(
        text,
        "{\"engineId\":\"clippy\",\"ruleId\":\"r\",\
         \"primaryLocation\":{\"message\":\"unused variable\",\"filePath\":\"src/a.rs\",\
         \"textRange\":{\"startLine\":3,\"endLine\":3,\"startColumn\":4,\"endColumn\":9}},\
         \"severity\":\"MINOR\",\"type\":\"CODE_SMELL\",\
         \"secondaryLocations\":[\
         {\"message\":\"unused variable\",\"filePath\":\"src/b.rs\",\
         \"textRange\":{\"startLine\":1,\"endLine\":1,\"startColumn\":0,\"endColumn\":1}},\
         {\"message\":\"unused variable\",\"filePath\":\"src/c.rs\"}]}"
    );
}

#[test]
fn empty_list_of_secondary_locations_is_an_empty_array() {
    let text = render_issue(&issue("r", Some(vec![]))).unwrap();
    assert!(text.ends_with(",\"secondaryLocations\":[]}"));
    assert_eq!(parse(&text)["secondaryLocations"], Value::Array(vec![]));
}

#[test]
fn absent_text_range_is_left_out() {
    let text = render_location(&location("m", "f.rs", None)).unwrap();
    assert_eq!(text, "{\"message\":\"m\",\"filePath\":\"f.rs\"}");
}

#[test]
fn absent_columns_are_left_out_one_by_one() {
    assert_eq!(render_range(&range(7, None, None)), "{\"startLine\":7,\"endLine\":7}");
    assert_eq!(
        render_range(&range(7, Some(2), None)),
        "{\"startLine\":7,\"endLine\":7,\"startColumn\":2}"
    );
    assert_eq!(
        render_range(&range(7, None, Some(5))),
        "{\"startLine\":7,\"endLine\":7,\"endColumn\":5}"
    );
    assert_eq!(
        render_range(&range(7, Some(2), Some(5))),
        "{\"startLine\":7,\"endLine\":7,\"startColumn\":2,\"endColumn\":5}"
    );
}

#[test]
fn numbers_are_written_in_decimal() {
    let r = TextRange { start_line: 0, end_line: 10, start_column: Some(909), end_column: Some(1000) };
    assert_eq!(
        render_range(&r),
        "{\"startLine\":0,\"endLine\":10,\"startColumn\":909,\"endColumn\":1000}"
    );
    let big = TextRange {
        start_line: usize::MAX,
        end_line: 1234567890,
        start_column: None,
        end_column: None,
    };
    assert_eq!(
        render_range(&big),
        format!("{{\"startLine\":{},\"endLine\":1234567890}}", usize::MAX)
    );
    let value = parse(&render_range(&big));
    assert_eq!(value["startLine"].as_u64(), Some(usize::MAX as u64));
}

#[test]
fn strings_are_written_as_json_string_literals() {
    let l = location("say \"hi\"\n\tto C:\\dir", "src/\u{e9}t\u{e9}.rs", None);
    let text = render_location(&l).unwrap();
    assert_eq!(
        text,
        "{\"message\":\"say \\\"hi\\\"\\n\\tto C:\\\\dir\",\"filePath\":\"src/\u{e9}t\u{e9}.rs\"}"
    );
    let value = parse(&text);
    assert_eq!(value["message"].as_str(), Some("say \"hi\"\n\tto C:\\dir"));
    assert_eq!(value["filePath"].as_str(), Some("src/\u{e9}t\u{e9}.rs"));
}

#[test]
fn control_characters_are_escaped() {
    let l = location("bell\u{7}", "", None);
    let text = render_location(&l).unwrap();
    assert_eq!(text, "{\"message\":\"bell\\u0007\",\"filePath\":\"\"}");
}

#[test]
fn rule_and_engine_are_encoded_too() {
    let mut i = issue("a\"b", None);
    i.engine_id = "c\\d".to_string();
    let value = parse(&render_issue(&i).unwrap());
    assert_eq!(value["ruleId"].as_str(), Some("a\"b"));
    assert_eq!(value["engineId"].as_str(), Some("c\\d"));
}

#[test]
fn severities_and_types_have_their_names() {
    assert_eq!(Severity::Blocker.name(), "BLOCKER");
    assert_eq!(Severity::Critical.name(), "CRITICAL");
    assert_eq!(Severity::Major.name(), "MAJOR");
    assert_eq!(Severity::Minor.name(), "MINOR");
    assert_eq!(Severity::Info.name(), "INFO");
    assert_eq!(Type::Bug.name(), "BUG");
    assert_eq!(Type::Vulnerability.name(), "VULNERABILITY");
    assert_eq!(Type::CodeSmell.name(), "CODE_SMELL");

    let mut i = issue("r", None);
    i.severity = Severity::Blocker;
    i.issue_type = Type::Vulnerability;
    let value = parse(&render_issue(&i).unwrap());
    assert_eq!(value["severity"], "BLOCKER");
    assert_eq!(value["type"], "VULNERABILITY");
}

#[test]
fn layout_takes_its_parts_as_they_are() {
    assert_eq!(
        location_text("\"m\"", "\"f\"", &Some(range(1, Some(0), Some(0)))),
        "{\"message\":\"m\",\"filePath\":\"f\",\
         \"textRange\":{\"startLine\":1,\"endLine\":1,\"startColumn\":0,\"endColumn\":0}}"
    );
    assert_eq!(
        issue_text("E", "R", "P", Severity::Info, Type::Bug, &None),
        "{\"engineId\":E,\"ruleId\":R,\"primaryLocation\":P,\"severity\":\"INFO\",\"type\":\"BUG\"}"
    );
    assert_eq!(
        issue_text(
            "E",
            "R",
            "P",
            Severity::Major,
            Type::CodeSmell,
            &Some(vec!["A".to_string(), "B".to_string()])
        ),
        "{\"engineId\":E,\"ruleId\":R,\"primaryLocation\":P,\"severity\":\"MAJOR\",\
         \"type\":\"CODE_SMELL\",\"secondaryLocations\":[A,B]}"
    );
    assert_eq!(report_text(&vec![]), "{\"issues\":[]}");
    assert_eq!(report_text(&vec!["X".to_string()]), "{\"issues\":[X]}");
    assert_eq!(
        report_text(&vec!["X".to_string(), "Y".to_string(), "Z".to_string()]),
        "{\"issues\":[X,Y,Z]}"
    );
}

#[test]
fn report_reads_back_as_it_was_written() {
    let secondary = vec![location("unused variable", "src/b.rs", Some(range(8, Some(1), None)))];
    let list = IssuesList { issues: vec![issue("one", Some(secondary)), issue("two", None)] };
    let value = parse(&list.to_json().unwrap());
    let first = &value["issues"][0];
    assert_eq!(first["engineId"], "clippy");
    assert_eq!(first["ruleId"], "one");
    assert_eq!(first["severity"], "MINOR");
    assert_eq!(first["type"], "CODE_SMELL");
    assert_eq!(first["primaryLocation"]["message"], "unused variable");
    assert_eq!(first["primaryLocation"]["filePath"], "src/a.rs");
    assert_eq!(first["primaryLocation"]["textRange"]["startLine"], 3);
    assert_eq!(first["primaryLocation"]["textRange"]["endLine"], 3);
    assert_eq!(first["primaryLocation"]["textRange"]["startColumn"], 4);
    assert_eq!(first["primaryLocation"]["textRange"]["endColumn"], 9);
    assert_eq!(first["secondaryLocations"][0]["filePath"], "src/b.rs");
    assert_eq!(first["secondaryLocations"][0]["textRange"]["startColumn"], 1);
    assert!(first["secondaryLocations"][0]["textRange"].get("endColumn").is_none());
    assert!(value["issues"][1].get("secondaryLocations").is_none());
}
