//! Swallowed errors: empty catch blocks and empty promise catch handlers.
use vstd::prelude::*;
use super::{rule_compiles, CheckModel, CheckSource, Rule, RuleModel, RuleSource, Severity, LineCheckModel, LineCheckSource};
use crate::pattern::{regex_compiles, PatternError};

verus! {

/// The rule as data: the patterns it uses and the findings it reports.
#[verifier::opaque]
pub open spec fn model() -> RuleModel {
    RuleModel {
        file_pattern: "\\.(tsx?|jsx?)$"@,
        check: CheckModel::Lines {
            exclude: None,
            checks: seq![
                LineCheckModel {
                    pattern: "catch\\s*\\([^)]*\\)\\s*\\{\\s*\\}"@,
                    path_filter: None,
                    also_requires: None,
                    rule_id: "error-handling"@,
                    severity: Severity::High,
                    message: "Add error logging (console.error) or send to error tracking service"@,
                },
                LineCheckModel {
                    pattern: "catch\\s*\\([^)]*\\)\\s*\\{\\s*//.*\\s*\\}"@,
                    path_filter: None,
                    also_requires: None,
                    rule_id: "error-handling"@,
                    severity: Severity::Medium,
                    message: "Add error logging with comment explaining why it's intentionally suppressed"@,
                },
                LineCheckModel {
                    pattern: "\\.catch\\s*\\(\\s*\\(\\s*\\)\\s*=>\\s*\\{\\s*\\}\\s*\\)"@,
                    path_filter: None,
                    also_requires: None,
                    rule_id: "error-handling"@,
                    severity: Severity::High,
                    message: "Add error handling or comment explaining why error is ignored"@,
                },
                LineCheckModel {
                    pattern: "\\.catch\\s*\\(\\s*\\(\\s*\\)\\s*=>\\s*null\\s*\\)"@,
                    path_filter: None,
                    also_requires: None,
                    rule_id: "error-handling"@,
                    severity: Severity::Medium,
                    message: "Use Result type pattern or return explicit error type instead of null"@,
                },
            ],
        },
    }
}

/// The rule written down with its pattern sources.
pub fn source() -> (r: RuleSource)
    ensures
        r@ == model(),
{
    reveal(model);
    let mut checks: Vec<LineCheckSource> = Vec::new();
    checks.push(
        LineCheckSource {
            pattern: "catch\\s*\\([^)]*\\)\\s*\\{\\s*\\}",
            path_filter: None,
            also_requires: None,
            rule_id: "error-handling",
            severity: Severity::High,
            message: "Add error logging (console.error) or send to error tracking service",
        },
    );
    checks.push(
        LineCheckSource {
            pattern: "catch\\s*\\([^)]*\\)\\s*\\{\\s*//.*\\s*\\}",
            path_filter: None,
            also_requires: None,
            rule_id: "error-handling",
            severity: Severity::Medium,
            message: "Add error logging with comment explaining why it's intentionally suppressed",
        },
    );
    checks.push(
        LineCheckSource {
            pattern: "\\.catch\\s*\\(\\s*\\(\\s*\\)\\s*=>\\s*\\{\\s*\\}\\s*\\)",
            path_filter: None,
            also_requires: None,
            rule_id: "error-handling",
            severity: Severity::High,
            message: "Add error handling or comment explaining why error is ignored",
        },
    );
    checks.push(
        LineCheckSource {
            pattern: "\\.catch\\s*\\(\\s*\\(\\s*\\)\\s*=>\\s*null\\s*\\)",
            path_filter: None,
            also_requires: None,
            rule_id: "error-handling",
            severity: Severity::Medium,
            message: "Use Result type pattern or return explicit error type instead of null",
        },
    );
    let r = RuleSource {
        file_pattern: "\\.(tsx?|jsx?)$",
        check: CheckSource::Lines { exclude: None, checks },
    };
    assert(r@.check->Lines_checks =~= model().check->Lines_checks);
    r
}

/// The compiled rule; fails exactly when `regex` refuses one of its patterns.
pub fn rule() -> (r: Result<Rule, PatternError>)
    ensures
        r is Ok <==> rule_compiles(model()),
        r matches Ok(x) ==> x@ == model(),
        r matches Err(e) ==> !regex_compiles(e.pattern@),
{
    Rule::compile(&source())
}

} // verus!
