//! Synchronous file-system calls outside config files and scripts.
use vstd::prelude::*;
use super::{rule_compiles, CheckModel, CheckSource, Rule, RuleModel, RuleSource, Severity, LineCheckModel, LineCheckSource};
use crate::pattern::{regex_compiles, PatternError};

verus! {

/// The rule as data: the patterns it uses and the findings it reports.
#[verifier::opaque]
pub open spec fn model() -> RuleModel {
    RuleModel {
        file_pattern: "\\.(tsx?|jsx?)$"@,
        check: CheckModel::Lines {
            exclude: Some("(\\.config\\.[jt]s$|/scripts?/|/cli/|/bin/|\\.mjs$)"@),
            checks: seq![
                LineCheckModel {
                    pattern: "readFileSync\\s*\\("@,
                    path_filter: None,
                    also_requires: None,
                    rule_id: "sync-io"@,
                    severity: Severity::Medium,
                    message: "readFileSync blocks the event loop. Use readFile (fs/promises) instead."@,
                },
                LineCheckModel {
                    pattern: "writeFileSync\\s*\\("@,
                    path_filter: None,
                    also_requires: None,
                    rule_id: "sync-io"@,
                    severity: Severity::Medium,
                    message: "writeFileSync blocks the event loop. Use writeFile (fs/promises) instead."@,
                },
                LineCheckModel {
                    pattern: "existsSync\\s*\\("@,
                    path_filter: None,
                    also_requires: None,
                    rule_id: "sync-io"@,
                    severity: Severity::Medium,
                    message: "existsSync blocks the event loop. Use access (fs/promises) instead."@,
                },
                LineCheckModel {
                    pattern: "mkdirSync\\s*\\("@,
                    path_filter: None,
                    also_requires: None,
                    rule_id: "sync-io"@,
                    severity: Severity::Medium,
                    message: "mkdirSync blocks the event loop. Use mkdir (fs/promises) instead."@,
                },
                LineCheckModel {
                    pattern: "rm(dir)?Sync\\s*\\("@,
                    path_filter: None,
                    also_requires: None,
                    rule_id: "sync-io"@,
                    severity: Severity::Medium,
                    message: "rmSync/rmdirSync blocks the event loop. Use rm (fs/promises) instead."@,
                },
                LineCheckModel {
                    pattern: "(l)?statSync\\s*\\("@,
                    path_filter: None,
                    also_requires: None,
                    rule_id: "sync-io"@,
                    severity: Severity::Medium,
                    message: "statSync blocks the event loop. Use stat (fs/promises) instead."@,
                },
            ],
        },
    }
}

/// The rule written down with its pattern sources.
pub fn source() -> (r: RuleSource)
    ensures
        r@ == model(),
{
    reveal(model);
    let mut checks: Vec<LineCheckSource> = Vec::new();
    checks.push(
        LineCheckSource {
            pattern: "readFileSync\\s*\\(",
            path_filter: None,
            also_requires: None,
            rule_id: "sync-io",
            severity: Severity::Medium,
            message: "readFileSync blocks the event loop. Use readFile (fs/promises) instead.",
        },
    );
    checks.push(
        LineCheckSource {
            pattern: "writeFileSync\\s*\\(",
            path_filter: None,
            also_requires: None,
            rule_id: "sync-io",
            severity: Severity::Medium,
            message: "writeFileSync blocks the event loop. Use writeFile (fs/promises) instead.",
        },
    );
    checks.push(
        LineCheckSource {
            pattern: "existsSync\\s*\\(",
            path_filter: None,
            also_requires: None,
            rule_id: "sync-io",
            severity: Severity::Medium,
            message: "existsSync blocks the event loop. Use access (fs/promises) instead.",
        },
    );
    checks.push(
        LineCheckSource {
            pattern: "mkdirSync\\s*\\(",
            path_filter: None,
            also_requires: None,
            rule_id: "sync-io",
            severity: Severity::Medium,
            message: "mkdirSync blocks the event loop. Use mkdir (fs/promises) instead.",
        },
    );
    checks.push(
        LineCheckSource {
            pattern: "rm(dir)?Sync\\s*\\(",
            path_filter: None,
            also_requires: None,
            rule_id: "sync-io",
            severity: Severity::Medium,
            message: "rmSync/rmdirSync blocks the event loop. Use rm (fs/promises) instead.",
        },
    );
    checks.push(
        LineCheckSource {
            pattern: "(l)?statSync\\s*\\(",
            path_filter: None,
            also_requires: None,
            rule_id: "sync-io",
            severity: Severity::Medium,
            message: "statSync blocks the event loop. Use stat (fs/promises) instead.",
        },
    );
    let r = RuleSource {
        file_pattern: "\\.(tsx?|jsx?)$",
        check: CheckSource::Lines { exclude: Some("(\\.config\\.[jt]s$|/scripts?/|/cli/|/bin/|\\.mjs$)"), checks },
    };
    assert(r@.check->Lines_checks =~= model().check->Lines_checks);
    r
}

/// The compiled rule; fails exactly when `regex` refuses one of its patterns.
pub fn rule() -> (r: Result<Rule, PatternError>)
    ensures
        r is Ok <==> rule_compiles(model()),
        r matches Ok(x) ==> x@ == model(),
        r matches Err(e) ==> !regex_compiles(e.pattern@),
{
    Rule::compile(&source())
}

} // verus!
