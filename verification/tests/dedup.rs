use cargo_sonar::sonar::{Issue, IssuesList, Location, Severity, TextRange, Type};

fn issue(rule: &str, file: &str, line: usize) -> Issue {
    Issue {
        engine_id: "clippy".to_string(),
        rule_id: rule.to_string(),
        primary_location: Location {
            message: "message".to_string(),
            file_path: file.to_string(),
            text_range: Some(TextRange {
                start_line: line,
                end_line: line,
                start_column: Some(0),
                end_column: Some(1),
            }),
        },
        severity: Severity::Minor,
        issue_type: Type::CodeSmell,
        secondary_locations: None,
    }
}

fn rules(list: &IssuesList) -> Vec<String> {
    list.issues.iter().map(|i| i.rule_id.clone()).collect()
}

#[test]
fn two_equal_issues_leave_the_first() {
    let mut first = issue("clippy::a", "src/a.rs", 1);
    first.secondary_locations = Some(vec![Location {
        message: "message".to_string(),
        file_path: "src/b.rs".to_string(),
        text_range: None,
    }]);
    let second = first.clone();
    let mut list = IssuesList { issues: vec![first.clone(), second] };
    list.dedup();
    assert_eq!(list.issues.len(), 1);
    assert_eq!(list.issues[0], first);
}

#[test]
fn first_occurrences_stay_in_their_order() {
    let mut list = IssuesList {
        issues: vec![
            issue("a", "src/a.rs", 1),
            issue("b", "src/a.rs", 1),
            issue("a", "src/a.rs", 1),
            issue("c", "src/a.rs", 1),
            issue("b", "src/a.rs", 1),
            issue("a", "src/a.rs", 1),
            issue("d", "src/a.rs", 1),
        ],
    };
    list.dedup();
    assert_eq!(rules(&list), vec!["a", "b", "c", "d"]);
}

#[test]
fn nothing_is_sorted() {
    let mut list = IssuesList {
        issues: vec![issue("z", "src/a.rs", 1), issue("m", "src/a.rs", 1), issue("a", "src/a.rs", 1)],
    };
    list.dedup();
    assert_eq!(rules(&list), vec!["z", "m", "a"]);
}

#[test]
fn empty_report_stays_empty() {
    let mut list = IssuesList::new();
    list.dedup();
    assert!(list.issues.is_empty());
}

#[test]
fn a_run_of_equal_issues_leaves_one() {
    let mut list = IssuesList { issues: vec![issue("a", "src/a.rs", 1); 5] };
    list.dedup();
    assert_eq!(list.issues.len(), 1);
}

#[test]
fn a_second_pass_changes_nothing() {
    let mut list = IssuesList {
        issues: vec![issue("a", "f", 1), issue("b", "f", 1), issue("a", "f", 1)],
    };
    list.dedup();
    let once = list.clone();
    list.dedup();
    assert_eq!(list.issues, once.issues);
}

#[test]
fn any_field_tells_issues_apart() {
    let base = issue("a", "src/a.rs", 1);

    let mut engine = base.clone();
    engine.engine_id = "other".to_string();
    let mut rule = base.clone();
    rule.rule_id = "b".to_string();
    let mut severity = base.clone();
    severity.severity = Severity::Major;
    let mut kind = base.clone();
    kind.issue_type = Type::Bug;
    let mut message = base.clone();
    message.primary_location.message = "other".to_string();
    let mut path = base.clone();
    path.primary_location.file_path = "src/b.rs".to_string();
    let mut no_range = base.clone();
    no_range.primary_location.text_range = None;
    let mut line = base.clone();
    line.primary_location.text_range.as_mut().unwrap().end_line = 2;
    let mut column = base.clone();
    column.primary_location.text_range.as_mut().unwrap().start_column = None;
    let mut end_column = base.clone();
    end_column.primary_location.text_range.as_mut().unwrap().end_column = Some(7);
    let mut empty_list = base.clone();
    empty_list.secondary_locations = Some(vec![]);
    let mut one_more = base.clone();
    one_more.secondary_locations = Some(vec![base.primary_location.clone()]);
    let mut other_secondary = base.clone();
    other_secondary.secondary_locations = Some(vec![path.primary_location.clone()]);
    let mut two_secondary = base.clone();
    two_secondary.secondary_locations =
        Some(vec![base.primary_location.clone(), base.primary_location.clone()]);

    let all = vec![
        base,
        engine,
        rule,
        severity,
        kind,
        message,
        path,
        no_range,
        line,
        column,
        end_column,
        empty_list,
        one_more,
        other_secondary,
        two_secondary,
    ];
    for (i, a) in all.iter().enumerate() {
        for (j, b) in all.iter().enumerate() {
            assert_eq!(a == b, i == j);
        }
    }
    let mut list = IssuesList { issues: all.clone() };
    list.dedup();
    assert_eq!(list.issues, all);
}
