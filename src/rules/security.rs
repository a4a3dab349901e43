//! Injection-prone DOM and timer calls, wildcard postMessage, secrets in web storage.
use vstd::prelude::*;
use super::{rule_compiles, CheckModel, CheckSource, Rule, RuleModel, RuleSource, Severity, LineCheckModel, LineCheckSource};
use crate::pattern::{regex_compiles, PatternError};

verus! {

/// The rule as data: the patterns it uses and the findings it reports.
#[verifier::opaque]
pub open spec fn model() -> RuleModel {
    RuleModel {
        file_pattern: "\\.(jsx?|tsx?|html?)$"@,
        check: CheckModel::Lines {
            exclude: None,
            checks: seq![
                LineCheckModel {
                    pattern: "document\\.write\\s*\\("@,
                    path_filter: Some("\\.(jsx?|tsx?|html?)$"@),
                    also_requires: None,
                    rule_id: "security"@,
                    severity: Severity::High,
                    message: "Use createElement/appendChild instead"@,
                },
                LineCheckModel {
                    pattern: "\\.innerHTML\\s*="@,
                    path_filter: Some("\\.(jsx?|tsx?|html?)$"@),
                    also_requires: None,
                    rule_id: "security"@,
                    severity: Severity::High,
                    message: "Use textContent or DOMPurify.sanitize() instead"@,
                },
                LineCheckModel {
                    pattern: "setTimeout\\s*\\(\\s*['\"`]"@,
                    path_filter: Some("\\.(tsx?|jsx?)$"@),
                    also_requires: None,
                    rule_id: "security"@,
                    severity: Severity::High,
                    message: "Use function reference: setTimeout(() => { ... }, delay)"@,
                },
                LineCheckModel {
                    pattern: "setInterval\\s*\\(\\s*['\"`]"@,
                    path_filter: Some("\\.(tsx?|jsx?)$"@),
                    also_requires: None,
                    rule_id: "security"@,
                    severity: Severity::High,
                    message: "Use function reference: setInterval(() => { ... }, delay)"@,
                },
                LineCheckModel {
                    pattern: "\\.postMessage\\s*\\([^,]+,\\s*['\"`]\\*['\"`]\\s*\\)"@,
                    path_filter: Some("\\.(tsx?|jsx?)$"@),
                    also_requires: None,
                    rule_id: "security"@,
                    severity: Severity::High,
                    message: "Specify exact target origin instead of '*'"@,
                },
                LineCheckModel {
                    pattern: "\\.outerHTML\\s*="@,
                    path_filter: Some("\\.(jsx?|tsx?|html?)$"@),
                    also_requires: None,
                    rule_id: "security"@,
                    severity: Severity::Medium,
                    message: "Use DOM methods instead"@,
                },
                LineCheckModel {
                    pattern: "localStorage\\.(setItem|getItem)\\s*\\(\\s*['\"`](token|password|secret|key|auth|credential)"@,
                    path_filter: Some("\\.(tsx?|jsx?)$"@),
                    also_requires: None,
                    rule_id: "security"@,
                    severity: Severity::Medium,
                    message: "Use httpOnly cookies for sensitive data"@,
                },
                LineCheckModel {
                    pattern: "sessionStorage\\.(setItem|getItem)\\s*\\(\\s*['\"`](token|password|secret|key|auth|credential)"@,
                    path_filter: Some("\\.(tsx?|jsx?)$"@),
                    also_requires: None,
                    rule_id: "security"@,
                    severity: Severity::Medium,
                    message: "Use httpOnly cookies for sensitive data"@,
                },
            ],
        },
    }
}

/// The rule written down with its pattern sources.
pub fn source() -> (r: RuleSource)
    ensures
        r@ == model(),
{
    reveal(model);
    let mut checks: Vec<LineCheckSource> = Vec::new();
    checks.push(
        LineCheckSource {
            pattern: "document\\.write\\s*\\(",
            path_filter: Some("\\.(jsx?|tsx?|html?)$"),
            also_requires: None,
            rule_id: "security",
            severity: Severity::High,
            message: "Use createElement/appendChild instead",
        },
    );
    checks.push(
        LineCheckSource {
            pattern: "\\.innerHTML\\s*=",
            path_filter: Some("\\.(jsx?|tsx?|html?)$"),
            also_requires: None,
            rule_id: "security",
            severity: Severity::High,
            message: "Use textContent or DOMPurify.sanitize() instead",
        },
    );
    checks.push(
        LineCheckSource {
            pattern: "setTimeout\\s*\\(\\s*['\"`]",
            path_filter: Some("\\.(tsx?|jsx?)$"),
            also_requires: None,
            rule_id: "security",
            severity: Severity::High,
            message: "Use function reference: setTimeout(() => { ... }, delay)",
        },
    );
    checks.push(
        LineCheckSource {
            pattern: "setInterval\\s*\\(\\s*['\"`]",
            path_filter: Some("\\.(tsx?|jsx?)$"),
            also_requires: None,
            rule_id: "security",
            severity: Severity::High,
            message: "Use function reference: setInterval(() => { ... }, delay)",
        },
    );
    checks.push(
        LineCheckSource {
            pattern: "\\.postMessage\\s*\\([^,]+,\\s*['\"`]\\*['\"`]\\s*\\)",
            path_filter: Some("\\.(tsx?|jsx?)$"),
            also_requires: None,
            rule_id: "security",
            severity: Severity::High,
            message: "Specify exact target origin instead of '*'",
        },
    );
    checks.push(
        LineCheckSource {
            pattern: "\\.outerHTML\\s*=",
            path_filter: Some("\\.(jsx?|tsx?|html?)$"),
            also_requires: None,
            rule_id: "security",
            severity: Severity::Medium,
            message: "Use DOM methods instead",
        },
    );
    checks.push(
        LineCheckSource {
            pattern: "localStorage\\.(setItem|getItem)\\s*\\(\\s*['\"`](token|password|secret|key|auth|credential)",
            path_filter: Some("\\.(tsx?|jsx?)$"),
            also_requires: None,
            rule_id: "security",
            severity: Severity::Medium,
            message: "Use httpOnly cookies for sensitive data",
        },
    );
    checks.push(
        LineCheckSource {
            pattern: "sessionStorage\\.(setItem|getItem)\\s*\\(\\s*['\"`](token|password|secret|key|auth|credential)",
            path_filter: Some("\\.(tsx?|jsx?)$"),
            also_requires: None,
            rule_id: "security",
            severity: Severity::Medium,
            message: "Use httpOnly cookies for sensitive data",
        },
    );
    let r = RuleSource {
        file_pattern: "\\.(jsx?|tsx?|html?)$",
        check: CheckSource::Lines { exclude: None, checks },
    };
    assert(r@.check->Lines_checks =~= model().check->Lines_checks);
    r
}

/// The compiled rule; fails exactly when `regex` refuses one of its patterns.
pub fn rule() -> (r: Result<Rule, PatternError>)
    ensures
        r is Ok <==> rule_compiles(model()),
        r matches Ok(x) ==> x@ == model(),
        r matches Err(e) ==> !regex_compiles(e.pattern@),
{
    Rule::compile(&source())
}

} // verus!
