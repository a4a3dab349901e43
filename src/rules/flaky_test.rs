//! Timing and randomness that make tests flaky.
use vstd::prelude::*;
use super::{rule_compiles, CheckModel, CheckSource, Rule, RuleModel, RuleSource, Severity, LineCheckModel, LineCheckSource};
use crate::pattern::{regex_compiles, PatternError};

verus! {

/// The rule as data: the patterns it uses and the findings it reports.
#[verifier::opaque]
pub open spec fn model() -> RuleModel {
    RuleModel {
        file_pattern: "\\.(test|spec)\\.[jt]sx?$"@,
        check: CheckModel::Lines {
            exclude: None,
            checks: seq![
                LineCheckModel {
                    pattern: "setTimeout\\s*\\("@,
                    path_filter: None,
                    also_requires: None,
                    rule_id: "flaky-test"@,
                    severity: Severity::Low,
                    message: "setTimeout can cause flaky tests. Use fake timers (jest.useFakeTimers) instead of real timeouts"@,
                },
                LineCheckModel {
                    pattern: "(sleep|delay|wait)\\s*\\(\\s*\\d"@,
                    path_filter: None,
                    also_requires: None,
                    rule_id: "flaky-test"@,
                    severity: Severity::Low,
                    message: "sleep/delay can cause flaky tests. Use fake timers or waitFor instead of arbitrary delays"@,
                },
                LineCheckModel {
                    pattern: "Math\\.random\\s*\\("@,
                    path_filter: None,
                    also_requires: None,
                    rule_id: "flaky-test"@,
                    severity: Severity::Low,
                    message: "Math.random can cause flaky tests. Mock Math.random for deterministic tests"@,
                },
                LineCheckModel {
                    pattern: "Date\\.now\\s*\\(\\s*\\)"@,
                    path_filter: None,
                    also_requires: None,
                    rule_id: "flaky-test"@,
                    severity: Severity::Low,
                    message: "Date.now can cause flaky tests. Mock Date.now or use fake timers for time-dependent tests"@,
                },
                LineCheckModel {
                    pattern: "new\\s+Date\\s*\\(\\s*\\)"@,
                    path_filter: None,
                    also_requires: None,
                    rule_id: "flaky-test"@,
                    severity: Severity::Low,
                    message: "new Date() can cause flaky tests. Mock Date or pass date as parameter for deterministic tests"@,
                },
            ],
        },
    }
}

/// The rule written down with its pattern sources.
pub fn source() -> (r: RuleSource)
    ensures
        r@ == model(),
{
    reveal(model);
    let mut checks: Vec<LineCheckSource> = Vec::new();
    checks.push(
        LineCheckSource {
            pattern: "setTimeout\\s*\\(",
            path_filter: None,
            also_requires: None,
            rule_id: "flaky-test",
            severity: Severity::Low,
            message: "setTimeout can cause flaky tests. Use fake timers (jest.useFakeTimers) instead of real timeouts",
        },
    );
    checks.push(
        LineCheckSource {
            pattern: "(sleep|delay|wait)\\s*\\(\\s*\\d",
            path_filter: None,
            also_requires: None,
            rule_id: "flaky-test",
            severity: Severity::Low,
            message: "sleep/delay can cause flaky tests. Use fake timers or waitFor instead of arbitrary delays",
        },
    );
    checks.push(
        LineCheckSource {
            pattern: "Math\\.random\\s*\\(",
            path_filter: None,
            also_requires: None,
            rule_id: "flaky-test",
            severity: Severity::Low,
            message: "Math.random can cause flaky tests. Mock Math.random for deterministic tests",
        },
    );
    checks.push(
        LineCheckSource {
            pattern: "Date\\.now\\s*\\(\\s*\\)",
            path_filter: None,
            also_requires: None,
            rule_id: "flaky-test",
            severity: Severity::Low,
            message: "Date.now can cause flaky tests. Mock Date.now or use fake timers for time-dependent tests",
        },
    );
    checks.push(
        LineCheckSource {
            pattern: "new\\s+Date\\s*\\(\\s*\\)",
            path_filter: None,
            also_requires: None,
            rule_id: "flaky-test",
            severity: Severity::Low,
            message: "new Date() can cause flaky tests. Mock Date or pass date as parameter for deterministic tests",
        },
    );
    let r = RuleSource {
        file_pattern: "\\.(test|spec)\\.[jt]sx?$",
        check: CheckSource::Lines { exclude: None, checks },
    };
    assert(r@.check->Lines_checks =~= model().check->Lines_checks);
    r
}

/// The compiled rule; fails exactly when `regex` refuses one of its patterns.
pub fn rule() -> (r: Result<Rule, PatternError>)
    ensures
        r is Ok <==> rule_compiles(model()),
        r matches Ok(x) ==> x@ == model(),
        r matches Err(e) ==> !regex_compiles(e.pattern@),
{
    Rule::compile(&source())
}

} // verus!
