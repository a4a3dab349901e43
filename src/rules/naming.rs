//! Naming conventions: PascalCase components, interfaces and types; hooks named useXxx.
use vstd::prelude::*;
use super::{rule_compiles, CheckModel, CheckSource, Rule, RuleModel, RuleSource, Severity, LineCheckModel, LineCheckSource};
use crate::pattern::{regex_compiles, PatternError};

verus! {

/// The rule as data: the patterns it uses and the findings it reports.
#[verifier::opaque]
pub open spec fn model() -> RuleModel {
    RuleModel {
        file_pattern: "\\.(tsx?|jsx?)$"@,
        check: CheckModel::Lines {
            exclude: None,
            checks: seq![
                LineCheckModel {
                    pattern: "const\\s+[a-z][a-zA-Z]*\\s*=\\s*\\([^)]*\\)\\s*=>"@,
                    path_filter: Some("/components/.*\\.tsx$"@),
                    also_requires: Some("const\\s+[a-z][a-zA-Z]*\\s*=\\s*\\([^)]*\\)\\s*=>\\s*[{(][^}]*<"@),
                    rule_id: "naming-convention"@,
                    severity: Severity::Medium,
                    message: "Rename to PascalCase (e.g., myComponent → MyComponent)"@,
                },
                LineCheckModel {
                    pattern: "const\\s+[a-tv-z][a-zA-Z]*\\s*=.*=>\\s*\\{"@,
                    path_filter: Some("/hooks/.*\\.ts$"@),
                    also_requires: Some("use(State|Effect|Callback|Memo)"@),
                    rule_id: "naming-convention"@,
                    severity: Severity::High,
                    message: "Rename to useXxx (custom hooks must start with 'use')"@,
                },
                LineCheckModel {
                    pattern: "interface\\s+[a-z]"@,
                    path_filter: None,
                    also_requires: None,
                    rule_id: "naming-convention"@,
                    severity: Severity::Low,
                    message: "Rename interface to PascalCase"@,
                },
                LineCheckModel {
                    pattern: "type\\s+[a-z][a-zA-Z]*\\s*="@,
                    path_filter: None,
                    also_requires: None,
                    rule_id: "naming-convention"@,
                    severity: Severity::Low,
                    message: "Rename type to PascalCase"@,
                },
            ],
        },
    }
}

/// The rule written down with its pattern sources.
pub fn source() -> (r: RuleSource)
    ensures
        r@ == model(),
{
    reveal(model);
    let mut checks: Vec<LineCheckSource> = Vec::new();
    checks.push(
        LineCheckSource {
            pattern: "const\\s+[a-z][a-zA-Z]*\\s*=\\s*\\([^)]*\\)\\s*=>",
            path_filter: Some("/components/.*\\.tsx$"),
            also_requires: Some("const\\s+[a-z][a-zA-Z]*\\s*=\\s*\\([^)]*\\)\\s*=>\\s*[{(][^}]*<"),
            rule_id: "naming-convention",
            severity: Severity::Medium,
            message: "Rename to PascalCase (e.g., myComponent → MyComponent)",
        },
    );
    checks.push(
        LineCheckSource {
            pattern: "const\\s+[a-tv-z][a-zA-Z]*\\s*=.*=>\\s*\\{",
            path_filter: Some("/hooks/.*\\.ts$"),
            also_requires: Some("use(State|Effect|Callback|Memo)"),
            rule_id: "naming-convention",
            severity: Severity::High,
            message: "Rename to useXxx (custom hooks must start with 'use')",
        },
    );
    checks.push(
        LineCheckSource {
            pattern: "interface\\s+[a-z]",
            path_filter: None,
            also_requires: None,
            rule_id: "naming-convention",
            severity: Severity::Low,
            message: "Rename interface to PascalCase",
        },
    );
    checks.push(
        LineCheckSource {
            pattern: "type\\s+[a-z][a-zA-Z]*\\s*=",
            path_filter: None,
            also_requires: None,
            rule_id: "naming-convention",
            severity: Severity::Low,
            message: "Rename type to PascalCase",
        },
    );
    let r = RuleSource {
        file_pattern: "\\.(tsx?|jsx?)$",
        check: CheckSource::Lines { exclude: None, checks },
    };
    assert(r@.check->Lines_checks =~= model().check->Lines_checks);
    r
}

/// The compiled rule; fails exactly when `regex` refuses one of its patterns.
pub fn rule() -> (r: Result<Rule, PatternError>)
    ensures
        r is Ok <==> rule_compiles(model()),
        r matches Ok(x) ==> x@ == model(),
        r matches Err(e) ==> !regex_compiles(e.pattern@),
{
    Rule::compile(&source())
}

} // verus!
