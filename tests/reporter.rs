use guardrails::reporter::{format_rule_name, format_violations, format_warnings};
use guardrails::rules::{Severity, Violation};

fn violation(rule: &str, severity: Severity, line: Option<u32>) -> Violation {
    Violation {
        rule: rule.to_string(),
        severity,
        failure: "Fix it".to_string(),
        file: "/src/a.ts".to_string(),
        line,
    }
}

#[test]
fn rule_name_of_biome_and_own_rules() {
    assert_eq!(format_rule_name("biome/lint/suspicious/noDebugger"), ("noDebugger".to_string(), "biome"));
    assert_eq!(format_rule_name("biome/other"), ("other".to_string(), "biome"));
    assert_eq!(format_rule_name("sync-io"), ("sync-io".to_string(), "guardrails"));
}

#[test]
fn violations_report_lists_each_issue() {
    let a = violation("security", Severity::High, Some(12));
    let b = violation("biome/lint/a11y/useAltText", Severity::Critical, None);
    let report = format_violations(&[&a, &b]);
    let expected = "GUARDRAILS: 2 issues blocked this operation\n\n\
[1] security (guardrails)\n    location: /src/a.ts:12\n    fix: Fix it\n\n\
[2] useAltText (biome)\n    location: /src/a.ts\n    fix: Fix it\n\n\
Fix the issues above and retry.";
    assert_eq!(report, expected);
}

#[test]
fn warnings_report_lists_each_warning() {
    let a = violation("flaky-test", Severity::Low, Some(3));
    let report = format_warnings(&[&a]);
    assert_eq!(report, "GUARDRAILS: 1 warnings\n  - flaky-test (guardrails) at /src/a.ts:3\n");
}

#[test]
fn empty_reports_are_empty() {
    assert_eq!(format_violations(&[]), "");
    assert_eq!(format_warnings(&[]), "");
}
