//! Imports that cross layer boundaries: utils or services importing UI, components importing pages.
use vstd::prelude::*;
use super::{rule_compiles, CheckModel, CheckSource, Rule, RuleModel, RuleSource, Severity, LineCheckModel, LineCheckSource};
use crate::pattern::{regex_compiles, PatternError};

verus! {

/// The rule as data: the patterns it uses and the findings it reports.
#[verifier::opaque]
pub open spec fn model() -> RuleModel {
    RuleModel {
        file_pattern: "\\.(tsx?|jsx?)$"@,
        check: CheckModel::Lines {
            exclude: None,
            checks: seq![
                LineCheckModel {
                    pattern: "from\\s+['\"].*/(components|hooks|pages|features)/"@,
                    path_filter: Some("/utils/"@),
                    also_requires: None,
                    rule_id: "architecture"@,
                    severity: Severity::High,
                    message: "Remove import or move function to appropriate layer (utils should not depend on UI)"@,
                },
                LineCheckModel {
                    pattern: "from\\s+['\"].*/(components|hooks|pages)/"@,
                    path_filter: Some("/services/"@),
                    also_requires: None,
                    rule_id: "architecture"@,
                    severity: Severity::High,
                    message: "Use callback parameters or events instead (services should not depend on UI)"@,
                },
                LineCheckModel {
                    pattern: "from\\s+['\"].*\\/pages/"@,
                    path_filter: Some("/components/"@),
                    also_requires: None,
                    rule_id: "architecture"@,
                    severity: Severity::High,
                    message: "Pass data via props instead (components should not import pages)"@,
                },
            ],
        },
    }
}

/// The rule written down with its pattern sources.
pub fn source() -> (r: RuleSource)
    ensures
        r@ == model(),
{
    reveal(model);
    let mut checks: Vec<LineCheckSource> = Vec::new();
    checks.push(
        LineCheckSource {
            pattern: "from\\s+['\"].*/(components|hooks|pages|features)/",
            path_filter: Some("/utils/"),
            also_requires: None,
            rule_id: "architecture",
            severity: Severity::High,
            message: "Remove import or move function to appropriate layer (utils should not depend on UI)",
        },
    );
    checks.push(
        LineCheckSource {
            pattern: "from\\s+['\"].*/(components|hooks|pages)/",
            path_filter: Some("/services/"),
            also_requires: None,
            rule_id: "architecture",
            severity: Severity::High,
            message: "Use callback parameters or events instead (services should not depend on UI)",
        },
    );
    checks.push(
        LineCheckSource {
            pattern: "from\\s+['\"].*\\/pages/",
            path_filter: Some("/components/"),
            also_requires: None,
            rule_id: "architecture",
            severity: Severity::High,
            message: "Pass data via props instead (components should not import pages)",
        },
    );
    let r = RuleSource {
        file_pattern: "\\.(tsx?|jsx?)$",
        check: CheckSource::Lines { exclude: None, checks },
    };
    assert(r@.check->Lines_checks =~= model().check->Lines_checks);
    r
}

/// The compiled rule; fails exactly when `regex` refuses one of its patterns.
pub fn rule() -> (r: Result<Rule, PatternError>)
    ensures
        r is Ok <==> rule_compiles(model()),
        r matches Ok(x) ==> x@ == model(),
        r matches Err(e) ==> !regex_compiles(e.pattern@),
{
    Rule::compile(&source())
}

} // verus!
