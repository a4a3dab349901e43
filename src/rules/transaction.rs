//! Several write operations in a use-case or service file without a transaction boundary.
use vstd::prelude::*;
use vstd::string::StringExecFns;
use super::{count_matches, count_non_comment_matches, find_line, find_non_comment_match, line_number, rule_compiles, violations_view, CheckModel, CheckSource, Rule, RuleModel, RuleSource, Severity, Violation, ViolationModel};
use crate::lines::code_lines;
use crate::pattern::{regex_compiles, regex_is_match, Pattern, PatternError};
use crate::text::{decimal, push_decimal};
use vstd::string::StringSliceAdditionalSpecFns;
use vstd::utf8::encode_utf8;

verus! {

/// One finding when the path lies in a target directory, at least two
/// non-comment lines hold a write operation, and no non-comment line holds a
/// transaction boundary. It points at the first write.
pub open spec fn transaction_findings(
    target_dir: Seq<char>,
    write_ops: Seq<char>,
    boundary: Seq<char>,
    b: Seq<u8>,
    path: Seq<char>,
) -> Seq<ViolationModel> {
    let count = count_matches(write_ops, b, code_lines(b));
    if !regex_is_match(target_dir, encode_utf8(path)) || count < 2 || find_line(
        boundary,
        b,
    ) is Some {
        Seq::empty()
    } else {
        seq![
            ViolationModel {
                rule: "transaction-boundary"@,
                severity: Severity::Medium,
                failure: "Add transaction boundary (UnitOfWork, @Transactional, or explicit tx) - "@
                    + decimal(count) + " write ops detected"@,
                file: path,
                line: line_number(find_line(write_ops, b)),
            },
        ]
    }
}

pub fn check_transaction(
    target_dir: &Pattern,
    write_ops: &Pattern,
    boundary: &Pattern,
    content: &[u8],
    path: &str,
) -> (r: Vec<Violation>)
    ensures
        violations_view(r@) == transaction_findings(
            target_dir@,
            write_ops@,
            boundary@,
            content@,
            path@,
        ),
{
    let mut out: Vec<Violation> = Vec::new();
    if !target_dir.is_match(path.as_bytes()) {
        assert(violations_view(out@) =~= Seq::empty());
        return out;
    }
    let count = count_non_comment_matches(content, write_ops);
    if count < 2 {
        assert(violations_view(out@) =~= Seq::empty());
        return out;
    }
    if find_non_comment_match(content, boundary).is_some() {
        assert(violations_view(out@) =~= Seq::empty());
        return out;
    }
    let mut failure = "Add transaction boundary (UnitOfWork, @Transactional, or explicit tx) - ".to_owned();
    push_decimal(&mut failure, count);
    failure.append(" write ops detected");
    out.push(
        Violation {
            rule: "transaction-boundary".to_owned(),
            severity: Severity::Medium,
            failure,
            file: path.to_owned(),
            line: find_non_comment_match(content, write_ops),
        },
    );
    assert(violations_view(out@) =~= transaction_findings(
        target_dir@,
        write_ops@,
        boundary@,
        content@,
        path@,
    ));
    out
}

/// The rule as data: the patterns it uses and the findings it reports.
#[verifier::opaque]
pub open spec fn model() -> RuleModel {
    RuleModel {
        file_pattern: "\\.(tsx?|jsx?)$"@,
        check: CheckModel::Transaction {
            target_dir: "/(usecases?|use-cases?|application|services?|domain|handlers?|app)/"@,
            write_ops: "\\.(save|create|update|delete|insert|persist)\\s*\\("@,
            boundary: "(?i)(@Transactional|\\btransaction\\b|\\$transaction|\\bunitOfWork\\b|\\brunInTransaction\\b|\\bwithTransaction\\b|\\bbeginTransaction\\b|\\bQueryRunner\\b|\\bgetManager\\b|knex\\.transaction|sequelize\\.transaction|db\\.transaction)"@,
        },
    }
}

/// The rule written down with its pattern sources.
pub fn source() -> (r: RuleSource)
    ensures
        r@ == model(),
{
    reveal(model);
    RuleSource {
        file_pattern: "\\.(tsx?|jsx?)$",
        check: CheckSource::Transaction {
            target_dir: "/(usecases?|use-cases?|application|services?|domain|handlers?|app)/",
            write_ops: "\\.(save|create|update|delete|insert|persist)\\s*\\(",
            boundary: "(?i)(@Transactional|\\btransaction\\b|\\$transaction|\\bunitOfWork\\b|\\brunInTransaction\\b|\\bwithTransaction\\b|\\bbeginTransaction\\b|\\bQueryRunner\\b|\\bgetManager\\b|knex\\.transaction|sequelize\\.transaction|db\\.transaction)",
        },
    }
}

/// The compiled rule; fails exactly when `regex` refuses one of its patterns.
pub fn rule() -> (r: Result<Rule, PatternError>)
    ensures
        r is Ok <==> rule_compiles(model()),
        r matches Ok(x) ==> x@ == model(),
        r matches Err(e) ==> !regex_compiles(e.pattern@),
{
    Rule::compile(&source())
}

} // verus!
