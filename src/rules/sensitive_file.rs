//! Files that commonly hold secrets: env files, credentials, keys.
use vstd::prelude::*;
use super::{rule_compiles, CheckModel, CheckSource, Rule, RuleModel, RuleSource, Severity};
use crate::pattern::{regex_compiles, PatternError};

verus! {

/// The rule as data: the patterns it uses and the findings it reports.
#[verifier::opaque]
pub open spec fn model() -> RuleModel {
    RuleModel {
        file_pattern: ".*"@,
        check: CheckModel::Paths {
            require: None,
            patterns: seq![
                "\\.env(\\.[a-zA-Z]+)?$"@,
                "credentials\\.[a-zA-Z]+$"@,
                "_credentials\\.[a-zA-Z]+$"@,
                "_key\\.[a-zA-Z]+$"@,
                "_secret\\.[a-zA-Z]+$"@,
                "\\.pem$"@,
                "\\.key$"@,
                "id_rsa"@,
                "id_ed25519"@,
            ],
            rule_id: "sensitive-file"@,
            severity: Severity::Critical,
            message: "Do not write to sensitive files. Use environment variables or secret management."@,
        },
    }
}

/// The rule written down with its pattern sources.
pub fn source() -> (r: RuleSource)
    ensures
        r@ == model(),
{
    reveal(model);
    let mut patterns: Vec<&'static str> = Vec::new();
    patterns.push("\\.env(\\.[a-zA-Z]+)?$");
    patterns.push("credentials\\.[a-zA-Z]+$");
    patterns.push("_credentials\\.[a-zA-Z]+$");
    patterns.push("_key\\.[a-zA-Z]+$");
    patterns.push("_secret\\.[a-zA-Z]+$");
    patterns.push("\\.pem$");
    patterns.push("\\.key$");
    patterns.push("id_rsa");
    patterns.push("id_ed25519");
    let r = RuleSource {
        file_pattern: ".*",
        check: CheckSource::Paths {
            require: None,
            patterns,
            rule_id: "sensitive-file",
            severity: Severity::Critical,
            message: "Do not write to sensitive files. Use environment variables or secret management.",
        },
    };
    assert(r@.check->Paths_patterns =~= model().check->Paths_patterns);
    r
}

/// The compiled rule; fails exactly when `regex` refuses one of its patterns.
pub fn rule() -> (r: Result<Rule, PatternError>)
    ensures
        r is Ok <==> rule_compiles(model()),
        r matches Ok(x) ==> x@ == model(),
        r matches Err(e) ==> !regex_compiles(e.pattern@),
{
    Rule::compile(&source())
}

} // verus!
