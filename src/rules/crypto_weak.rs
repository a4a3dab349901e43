//! Weak hash and cipher algorithms: MD5, SHA-1, DES, RC4.
use vstd::prelude::*;
use super::{rule_compiles, CheckModel, CheckSource, Rule, RuleModel, RuleSource, Severity, LineCheckModel, LineCheckSource};
use crate::pattern::{regex_compiles, PatternError};

verus! {

/// The rule as data: the patterns it uses and the findings it reports.
#[verifier::opaque]
pub open spec fn model() -> RuleModel {
    RuleModel {
        file_pattern: "\\.(tsx?|jsx?)$"@,
        check: CheckModel::Lines {
            exclude: None,
            checks: seq![
                LineCheckModel {
                    pattern: "(createHash\\s*\\(\\s*['\"]md5['\"]|MD5\\s*\\(|\\.md5\\s*\\()"@,
                    path_filter: None,
                    also_requires: None,
                    rule_id: "crypto-weak"@,
                    severity: Severity::High,
                    message: "MD5 is cryptographically weak. Use SHA-256 or SHA-3 instead"@,
                },
                LineCheckModel {
                    pattern: "(createHash\\s*\\(\\s*['\"]sha1['\"]|SHA1\\s*\\(|\\.sha1\\s*\\()"@,
                    path_filter: None,
                    also_requires: None,
                    rule_id: "crypto-weak"@,
                    severity: Severity::High,
                    message: "SHA-1 is cryptographically weak. Use SHA-256 or SHA-3 instead"@,
                },
                LineCheckModel {
                    pattern: "(createCipher\\s*\\(\\s*['\"]des['\"]|DES\\s*\\(|\\.des\\s*\\()"@,
                    path_filter: None,
                    also_requires: None,
                    rule_id: "crypto-weak"@,
                    severity: Severity::High,
                    message: "DES is cryptographically weak. Use AES-256 instead"@,
                },
                LineCheckModel {
                    pattern: "(createCipher\\s*\\(\\s*['\"]rc4['\"]|RC4\\s*\\(|\\.rc4\\s*\\()"@,
                    path_filter: None,
                    also_requires: None,
                    rule_id: "crypto-weak"@,
                    severity: Severity::High,
                    message: "RC4 is cryptographically weak. Use AES-256 instead"@,
                },
            ],
        },
    }
}

/// The rule written down with its pattern sources.
pub fn source() -> (r: RuleSource)
    ensures
        r@ == model(),
{
    reveal(model);
    let mut checks: Vec<LineCheckSource> = Vec::new();
    checks.push(
        LineCheckSource {
            pattern: "(createHash\\s*\\(\\s*['\"]md5['\"]|MD5\\s*\\(|\\.md5\\s*\\()",
            path_filter: None,
            also_requires: None,
            rule_id: "crypto-weak",
            severity: Severity::High,
            message: "MD5 is cryptographically weak. Use SHA-256 or SHA-3 instead",
        },
    );
    checks.push(
        LineCheckSource {
            pattern: "(createHash\\s*\\(\\s*['\"]sha1['\"]|SHA1\\s*\\(|\\.sha1\\s*\\()",
            path_filter: None,
            also_requires: None,
            rule_id: "crypto-weak",
            severity: Severity::High,
            message: "SHA-1 is cryptographically weak. Use SHA-256 or SHA-3 instead",
        },
    );
    checks.push(
        LineCheckSource {
            pattern: "(createCipher\\s*\\(\\s*['\"]des['\"]|DES\\s*\\(|\\.des\\s*\\()",
            path_filter: None,
            also_requires: None,
            rule_id: "crypto-weak",
            severity: Severity::High,
            message: "DES is cryptographically weak. Use AES-256 instead",
        },
    );
    checks.push(
        LineCheckSource {
            pattern: "(createCipher\\s*\\(\\s*['\"]rc4['\"]|RC4\\s*\\(|\\.rc4\\s*\\()",
            path_filter: None,
            also_requires: None,
            rule_id: "crypto-weak",
            severity: Severity::High,
            message: "RC4 is cryptographically weak. Use AES-256 instead",
        },
    );
    let r = RuleSource {
        file_pattern: "\\.(tsx?|jsx?)$",
        check: CheckSource::Lines { exclude: None, checks },
    };
    assert(r@.check->Lines_checks =~= model().check->Lines_checks);
    r
}

/// The compiled rule; fails exactly when `regex` refuses one of its patterns.
pub fn rule() -> (r: Result<Rule, PatternError>)
    ensures
        r is Ok <==> rule_compiles(model()),
        r matches Ok(x) ==> x@ == model(),
        r matches Err(e) ==> !regex_compiles(e.pattern@),
{
    Rule::compile(&source())
}

} // verus!
