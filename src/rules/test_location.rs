//! Test files placed under a src directory.
use vstd::prelude::*;
use super::{rule_compiles, CheckModel, CheckSource, Rule, RuleModel, RuleSource, Severity};
use crate::pattern::{regex_compiles, PatternError};

verus! {

/// The rule as data: the patterns it uses and the findings it reports.
#[verifier::opaque]
pub open spec fn model() -> RuleModel {
    RuleModel {
        file_pattern: ".*"@,
        check: CheckModel::Paths {
            require: Some("/src/"@),
            patterns: seq![
                "\\.(test|spec)\\.[jt]sx?$"@,
                "/__tests__/"@,
                "/tests?/"@,
            ],
            rule_id: "test-location"@,
            severity: Severity::Medium,
            message: "Test files should be in tests/ or __tests__/ directory outside src/"@,
        },
    }
}

/// The rule written down with its pattern sources.
pub fn source() -> (r: RuleSource)
    ensures
        r@ == model(),
{
    reveal(model);
    let mut patterns: Vec<&'static str> = Vec::new();
    patterns.push("\\.(test|spec)\\.[jt]sx?$");
    patterns.push("/__tests__/");
    patterns.push("/tests?/");
    let r = RuleSource {
        file_pattern: ".*",
        check: CheckSource::Paths {
            require: Some("/src/"),
            patterns,
            rule_id: "test-location",
            severity: Severity::Medium,
            message: "Test files should be in tests/ or __tests__/ directory outside src/",
        },
    };
    assert(r@.check->Paths_patterns =~= model().check->Paths_patterns);
    r
}

/// The compiled rule; fails exactly when `regex` refuses one of its patterns.
pub fn rule() -> (r: Result<Rule, PatternError>)
    ensures
        r is Ok <==> rule_compiles(model()),
        r matches Ok(x) ==> x@ == model(),
        r matches Err(e) ==> !regex_compiles(e.pattern@),
{
    Rule::compile(&source())
}

} // verus!
