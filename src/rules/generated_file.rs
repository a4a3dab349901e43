//! Generated files, which should be regenerated rather than edited.
use vstd::prelude::*;
use super::{rule_compiles, CheckModel, CheckSource, Rule, RuleModel, RuleSource, Severity};
use crate::pattern::{regex_compiles, PatternError};

verus! {

/// The rule as data: the patterns it uses and the findings it reports.
#[verifier::opaque]
pub open spec fn model() -> RuleModel {
    RuleModel {
        file_pattern: ".*"@,
        check: CheckModel::Paths {
            require: None,
            patterns: seq![
                "\\.generated\\.[a-zA-Z]+$"@,
                "\\.g\\.(ts|js|dart)$"@,
                "_generated\\.[a-zA-Z]+$"@,
                "\\.auto\\.[a-zA-Z]+$"@,
                "/generated/"@,
                "/__generated__/"@,
            ],
            rule_id: "generated-file"@,
            severity: Severity::High,
            message: "Do not edit generated files directly. Modify the source and regenerate."@,
        },
    }
}

/// The rule written down with its pattern sources.
pub fn source() -> (r: RuleSource)
    ensures
        r@ == model(),
{
    reveal(model);
    let mut patterns: Vec<&'static str> = Vec::new();
    patterns.push("\\.generated\\.[a-zA-Z]+$");
    patterns.push("\\.g\\.(ts|js|dart)$");
    patterns.push("_generated\\.[a-zA-Z]+$");
    patterns.push("\\.auto\\.[a-zA-Z]+$");
    patterns.push("/generated/");
    patterns.push("/__generated__/");
    let r = RuleSource {
        file_pattern: ".*",
        check: CheckSource::Paths {
            require: None,
            patterns,
            rule_id: "generated-file",
            severity: Severity::High,
            message: "Do not edit generated files directly. Modify the source and regenerate.",
        },
    };
    assert(r@.check->Paths_patterns =~= model().check->Paths_patterns);
    r
}

/// The compiled rule; fails exactly when `regex` refuses one of its patterns.
pub fn rule() -> (r: Result<Rule, PatternError>)
    ensures
        r is Ok <==> rule_compiles(model()),
        r matches Ok(x) ==> x@ == model(),
        r matches Err(e) ==> !regex_compiles(e.pattern@),
{
    Rule::compile(&source())
}

} // verus!
