//! Direct DOM access in React components.
use vstd::prelude::*;
use super::{rule_compiles, CheckModel, CheckSource, Rule, RuleModel, RuleSource, Severity, LineCheckModel, LineCheckSource};
use crate::pattern::{regex_compiles, PatternError};

verus! {

/// The rule as data: the patterns it uses and the findings it reports.
#[verifier::opaque]
pub open spec fn model() -> RuleModel {
    RuleModel {
        file_pattern: "\\.(tsx|jsx)$"@,
        check: CheckModel::Lines {
            exclude: None,
            checks: seq![
                LineCheckModel {
                    pattern: "document\\.getElementById\\s*\\("@,
                    path_filter: None,
                    also_requires: None,
                    rule_id: "dom-access"@,
                    severity: Severity::Medium,
                    message: "Avoid document.getElementById in React. Use useRef or React state instead."@,
                },
                LineCheckModel {
                    pattern: "document\\.querySelector(All)?\\s*\\("@,
                    path_filter: None,
                    also_requires: None,
                    rule_id: "dom-access"@,
                    severity: Severity::Medium,
                    message: "Avoid document.querySelector in React. Use useRef or React state instead."@,
                },
                LineCheckModel {
                    pattern: "document\\.getElementsBy(ClassName|TagName|Name)\\s*\\("@,
                    path_filter: None,
                    also_requires: None,
                    rule_id: "dom-access"@,
                    severity: Severity::Medium,
                    message: "Avoid document.getElementsBy* in React. Use useRef or React state instead."@,
                },
                LineCheckModel {
                    pattern: "document\\.createElement\\s*\\("@,
                    path_filter: None,
                    also_requires: None,
                    rule_id: "dom-access"@,
                    severity: Severity::Medium,
                    message: "Avoid document.createElement in React. Use useRef or React state instead."@,
                },
                LineCheckModel {
                    pattern: "\\.appendChild\\s*\\("@,
                    path_filter: None,
                    also_requires: None,
                    rule_id: "dom-access"@,
                    severity: Severity::Medium,
                    message: "Avoid appendChild in React. Use useRef or React state instead."@,
                },
            ],
        },
    }
}

/// The rule written down with its pattern sources.
pub fn source() -> (r: RuleSource)
    ensures
        r@ == model(),
{
    reveal(model);
    let mut checks: Vec<LineCheckSource> = Vec::new();
    checks.push(
        LineCheckSource {
            pattern: "document\\.getElementById\\s*\\(",
            path_filter: None,
            also_requires: None,
            rule_id: "dom-access",
            severity: Severity::Medium,
            message: "Avoid document.getElementById in React. Use useRef or React state instead.",
        },
    );
    checks.push(
        LineCheckSource {
            pattern: "document\\.querySelector(All)?\\s*\\(",
            path_filter: None,
            also_requires: None,
            rule_id: "dom-access",
            severity: Severity::Medium,
            message: "Avoid document.querySelector in React. Use useRef or React state instead.",
        },
    );
    checks.push(
        LineCheckSource {
            pattern: "document\\.getElementsBy(ClassName|TagName|Name)\\s*\\(",
            path_filter: None,
            also_requires: None,
            rule_id: "dom-access",
            severity: Severity::Medium,
            message: "Avoid document.getElementsBy* in React. Use useRef or React state instead.",
        },
    );
    checks.push(
        LineCheckSource {
            pattern: "document\\.createElement\\s*\\(",
            path_filter: None,
            also_requires: None,
            rule_id: "dom-access",
            severity: Severity::Medium,
            message: "Avoid document.createElement in React. Use useRef or React state instead.",
        },
    );
    checks.push(
        LineCheckSource {
            pattern: "\\.appendChild\\s*\\(",
            path_filter: None,
            also_requires: None,
            rule_id: "dom-access",
            severity: Severity::Medium,
            message: "Avoid appendChild in React. Use useRef or React state instead.",
        },
    );
    let r = RuleSource {
        file_pattern: "\\.(tsx|jsx)$",
        check: CheckSource::Lines { exclude: None, checks },
    };
    assert(r@.check->Lines_checks =~= model().check->Lines_checks);
    r
}

/// The compiled rule; fails exactly when `regex` refuses one of its patterns.
pub fn rule() -> (r: Result<Rule, PatternError>)
    ensures
        r is Ok <==> rule_compiles(model()),
        r matches Ok(x) ==> x@ == model(),
        r matches Err(e) ==> !regex_compiles(e.pattern@),
{
    Rule::compile(&source())
}

} // verus!
