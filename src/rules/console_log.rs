//! Leftover console statements outside tests, stories and config files.
use vstd::prelude::*;
use super::{rule_compiles, CheckModel, CheckSource, Rule, RuleModel, RuleSource, Severity, LineCheckModel, LineCheckSource};
use crate::pattern::{regex_compiles, PatternError};

verus! {

/// The rule as data: the patterns it uses and the findings it reports.
#[verifier::opaque]
pub open spec fn model() -> RuleModel {
    RuleModel {
        file_pattern: "\\.(tsx?|jsx?)$"@,
        check: CheckModel::Lines {
            exclude: Some("(\\.(test|spec)\\.[jt]sx?$|/__tests__/|/test/|\\.stories\\.[jt]sx?$|\\.config\\.[jt]s$)"@),
            checks: seq![
                LineCheckModel {
                    pattern: "console\\.log\\s*\\("@,
                    path_filter: None,
                    also_requires: None,
                    rule_id: "console-log"@,
                    severity: Severity::Low,
                    message: "Remove console statement or use a proper logger"@,
                },
                LineCheckModel {
                    pattern: "console\\.debug\\s*\\("@,
                    path_filter: None,
                    also_requires: None,
                    rule_id: "console-debug"@,
                    severity: Severity::Low,
                    message: "Remove console statement or use a proper logger"@,
                },
                LineCheckModel {
                    pattern: "console\\.info\\s*\\("@,
                    path_filter: None,
                    also_requires: None,
                    rule_id: "console-info"@,
                    severity: Severity::Low,
                    message: "Remove console statement or use a proper logger"@,
                },
                LineCheckModel {
                    pattern: "console\\.trace\\s*\\("@,
                    path_filter: None,
                    also_requires: None,
                    rule_id: "console-trace"@,
                    severity: Severity::Low,
                    message: "Remove console statement or use a proper logger"@,
                },
                LineCheckModel {
                    pattern: "console\\.table\\s*\\("@,
                    path_filter: None,
                    also_requires: None,
                    rule_id: "console-table"@,
                    severity: Severity::Low,
                    message: "Remove console statement or use a proper logger"@,
                },
                LineCheckModel {
                    pattern: "console\\.dir\\s*\\("@,
                    path_filter: None,
                    also_requires: None,
                    rule_id: "console-dir"@,
                    severity: Severity::Low,
                    message: "Remove console statement or use a proper logger"@,
                },
            ],
        },
    }
}

/// The rule written down with its pattern sources.
pub fn source() -> (r: RuleSource)
    ensures
        r@ == model(),
{
    reveal(model);
    let mut checks: Vec<LineCheckSource> = Vec::new();
    checks.push(
        LineCheckSource {
            pattern: "console\\.log\\s*\\(",
            path_filter: None,
            also_requires: None,
            rule_id: "console-log",
            severity: Severity::Low,
            message: "Remove console statement or use a proper logger",
        },
    );
    checks.push(
        LineCheckSource {
            pattern: "console\\.debug\\s*\\(",
            path_filter: None,
            also_requires: None,
            rule_id: "console-debug",
            severity: Severity::Low,
            message: "Remove console statement or use a proper logger",
        },
    );
    checks.push(
        LineCheckSource {
            pattern: "console\\.info\\s*\\(",
            path_filter: None,
            also_requires: None,
            rule_id: "console-info",
            severity: Severity::Low,
            message: "Remove console statement or use a proper logger",
        },
    );
    checks.push(
        LineCheckSource {
            pattern: "console\\.trace\\s*\\(",
            path_filter: None,
            also_requires: None,
            rule_id: "console-trace",
            severity: Severity::Low,
            message: "Remove console statement or use a proper logger",
        },
    );
    checks.push(
        LineCheckSource {
            pattern: "console\\.table\\s*\\(",
            path_filter: None,
            also_requires: None,
            rule_id: "console-table",
            severity: Severity::Low,
            message: "Remove console statement or use a proper logger",
        },
    );
    checks.push(
        LineCheckSource {
            pattern: "console\\.dir\\s*\\(",
            path_filter: None,
            also_requires: None,
            rule_id: "console-dir",
            severity: Severity::Low,
            message: "Remove console statement or use a proper logger",
        },
    );
    let r = RuleSource {
        file_pattern: "\\.(tsx?|jsx?)$",
        check: CheckSource::Lines { exclude: Some("(\\.(test|spec)\\.[jt]sx?$|/__tests__/|/test/|\\.stories\\.[jt]sx?$|\\.config\\.[jt]s$)"), checks },
    };
    assert(r@.check->Lines_checks =~= model().check->Lines_checks);
    r
}

/// The compiled rule; fails exactly when `regex` refuses one of its patterns.
pub fn rule() -> (r: Result<Rule, PatternError>)
    ensures
        r is Ok <==> rule_compiles(model()),
        r matches Ok(x) ==> x@ == model(),
        r matches Err(e) ==> !regex_compiles(e.pattern@),
{
    Rule::compile(&source())
}

} // verus!
