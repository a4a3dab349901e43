//! Logging calls whose arguments name sensitive data.
use vstd::prelude::*;
use super::{rule_compiles, violations_view, CheckModel, CheckSource, Rule, RuleModel, RuleSource, Severity, Violation, ViolationModel};
use crate::extract::{
    advance_to, balanced_content, code_portions, extract_code_portions, extract_paren_content,
    in_comment, lemma_reach_further, reach, LPAREN, RPAREN,
};
use crate::scanner::{initial_state, StringScanner};
use crate::lines::{
    build_line_offsets, count_newlines, lemma_line_lookup, line_u32, newlines_before, newlines_upto,
    strictly_increasing,
};
use crate::pattern::{regex_compiles, regex_find_iter, regex_is_match, Pattern, PatternError};
use std::collections::HashSet;
use vstd::string::StringSliceAdditionalSpecFns;

verus! {

/// Findings so far, and the lines that already have one, each known by the
/// number of newlines before it.
pub type LogState = (Seq<ViolationModel>, Set<usize>);

/// The code of the arguments of the call whose `(` stands just before `end`
/// matches the keyword pattern; false if the call never closes.
pub open spec fn sensitive_args(keyword: Seq<char>, b: Seq<u8>, end: int) -> bool {
    match balanced_content(b, end, LPAREN, RPAREN) {
        Some(args) => regex_is_match(keyword, code_portions(args)),
        None => false,
    }
}

/// One logging call match: reported unless it is commented out, its arguments
/// name nothing sensitive, or its line already has a finding.
pub open spec fn log_step(
    st: LogState,
    m: (usize, usize),
    message: Seq<char>,
    keyword: Seq<char>,
    b: Seq<u8>,
    path: Seq<char>,
) -> LogState {
    let before = count_newlines(b, m.0 as int);
    let line = 1 + before as int;
    if in_comment(b, m.0 as int) || !sensitive_args(keyword, b, m.1 as int) || st.1.contains(
        before as usize,
    ) {
        st
    } else {
        (
            st.0.push(
                ViolationModel {
                    rule: "sensitive-logging"@,
                    severity: Severity::High,
                    failure: message,
                    file: path,
                    line: Some(#[verifier::truncate] (line as u32)),
                },
            ),
            st.1.insert(before as usize),
        )
    }
}

pub open spec fn log_fold(
    st: LogState,
    ms: Seq<(usize, usize)>,
    message: Seq<char>,
    keyword: Seq<char>,
    b: Seq<u8>,
    path: Seq<char>,
) -> LogState
    decreases ms.len(),
{
    if ms.len() == 0 {
        st
    } else {
        log_step(log_fold(st, ms.drop_last(), message, keyword, b, path), ms.last(), message, keyword, b, path)
    }
}

pub open spec fn console_message() -> Seq<char> {
    "Logging sensitive data (password, token, secret). Remove or mask before logging."@
}

pub open spec fn logger_message() -> Seq<char> {
    "Logging sensitive data via logger. Remove or mask before logging."@
}

/// The console calls in order, then the logger calls in order; at most one
/// finding per line.
pub open spec fn logging_findings(
    console_call: Seq<char>,
    logger_call: Seq<char>,
    keyword: Seq<char>,
    b: Seq<u8>,
    path: Seq<char>,
) -> Seq<ViolationModel> {
    let first = log_fold(
        (Seq::empty(), Set::empty()),
        regex_find_iter(console_call, b),
        console_message(),
        keyword,
        b,
        path,
    );
    log_fold(first, regex_find_iter(logger_call, b), logger_message(), keyword, b, path).0
}

proof fn lemma_commented_fold(
    st: LogState,
    ms: Seq<(usize, usize)>,
    message: Seq<char>,
    keyword: Seq<char>,
    b: Seq<u8>,
    path: Seq<char>,
)
    requires
        forall|i: int| 0 <= i < ms.len() ==> in_comment(b, (#[trigger] ms[i]).0 as int),
    ensures
        log_fold(st, ms, message, keyword, b, path) == st,
    decreases ms.len(),
{
    if ms.len() > 0 {
        assert forall|i: int| 0 <= i < ms.drop_last().len() implies in_comment(
            b,
            (#[trigger] ms.drop_last()[i]).0 as int,
        ) by {
            assert(ms.drop_last()[i] == ms[i]);
        }
        lemma_commented_fold(st, ms.drop_last(), message, keyword, b, path);
        assert(in_comment(b, ms[ms.len() - 1].0 as int));
    }
}

/// Comment suppression: when every logging call of the text starts inside a
/// comment, nothing is reported, however often the calls name sensitive data.
pub proof fn lemma_commented_calls_never_reported(
    console_call: Seq<char>,
    logger_call: Seq<char>,
    keyword: Seq<char>,
    b: Seq<u8>,
    path: Seq<char>,
)
    requires
        forall|i: int|
            0 <= i < regex_find_iter(console_call, b).len() ==> in_comment(
                b,
                (#[trigger] regex_find_iter(console_call, b)[i]).0 as int,
            ),
        forall|i: int|
            0 <= i < regex_find_iter(logger_call, b).len() ==> in_comment(
                b,
                (#[trigger] regex_find_iter(logger_call, b)[i]).0 as int,
            ),
    ensures
        logging_findings(console_call, logger_call, keyword, b, path) == Seq::<ViolationModel>::empty(),
{
    let st: LogState = (Seq::empty(), Set::empty());
    lemma_commented_fold(st, regex_find_iter(console_call, b), console_message(), keyword, b, path);
    lemma_commented_fold(st, regex_find_iter(logger_call, b), logger_message(), keyword, b, path);
}

/// Whether the code of `args`, without strings and comments, matches the keyword pattern.
pub fn contains_sensitive_keyword(args: &[u8], keyword: &Pattern) -> (r: bool)
    ensures
        r == regex_is_match(keyword@, code_portions(args@)),
{
    let code = extract_code_portions(args);
    keyword.is_match(code.as_slice())
}

fn log_matches(
    matches: &Vec<(usize, usize)>,
    message: &str,
    keyword: &Pattern,
    content: &str,
    offsets: &Vec<usize>,
    path: &str,
    out: &mut Vec<Violation>,
    reported: &mut HashSet<usize>,
)
    requires
        offsets@ == newlines_upto(content.spec_bytes(), content.spec_bytes().len() as int),
        strictly_increasing(offsets@),
        offsets@.len() <= content.spec_bytes().len(),
        forall|j: int|
            0 <= j < matches@.len() ==> #[trigger] matches@[j].0 <= matches@[j].1
                <= content.spec_bytes().len(),
        forall|j: int| 0 < j < matches@.len() ==> matches@[j - 1].1 <= #[trigger] matches@[j].0,
    ensures
        (violations_view(final(out)@), final(reported)@) == log_fold(
            (violations_view(old(out)@), old(reported)@),
            matches@,
            message@,
            keyword@,
            content.spec_bytes(),
            path@,
        ),
{
    let bytes = content.as_bytes();
    let len = bytes.len();
    broadcast use vstd::std_specs::hash::group_hash_axioms;

    let ghost init = (violations_view(out@), reported@);
    // One scan of the text serves every match, since matches come in order.
    let mut scanner = StringScanner::new(bytes, 0);
    let mut bound: usize = 0;
    let mut i: usize = 0;
    while i < matches.len()
        invariant
            i <= matches@.len(),
            scanner.wf(),
            scanner.text() == bytes@,
            scanner.state() == reach(bytes@, initial_state(0), bound as int),
            i < matches@.len() ==> bound <= matches@[i as int].0,
            forall|j: int| 0 < j < matches@.len() ==> matches@[j - 1].1 <= #[trigger] matches@[j].0,
            bytes@ == content.spec_bytes(),
            len == bytes@.len(),
            offsets@ == newlines_upto(bytes@, bytes@.len() as int),
            strictly_increasing(offsets@),
            offsets@.len() <= bytes@.len(),
            forall|j: int| 0 <= j < matches@.len() ==> #[trigger] matches@[j].0 <= matches@[j].1 <= bytes@.len(),
            (violations_view(out@), reported@) == log_fold(
                init,
                matches@.take(i as int),
                message@,
                keyword@,
                bytes@,
                path@,
            ),
        decreases matches@.len() - i,
    {
        let (start, end) = matches[i];
        assert(matches@.take(i + 1).drop_last() =~= matches@.take(i as int));
        assert(matches@.take(i + 1).last() == matches@[i as int]);
        proof {
            lemma_reach_further(bytes@, initial_state(0), bound as int, start as int);
        }
        advance_to(&mut scanner, start);
        bound = start;
        if i + 1 < matches.len() {
            assert(matches@[i as int].1 <= matches@[i + 1].0);
        }
        if !(scanner.in_line_comment || scanner.in_block_comment) {
            if let Some(args) = extract_paren_content(bytes, end) {
                if contains_sensitive_keyword(args, keyword) {
                    let n = newlines_before(offsets.as_slice(), start);
                    proof {
                        lemma_line_lookup(bytes@, start as int, n + 1);
                    }
                    if reported.insert(n) {
                        let ghost old_out = out@;
                        out.push(
                            Violation {
                                rule: "sensitive-logging".to_owned(),
                                severity: Severity::High,
                                failure: message.to_owned(),
                                file: path.to_owned(),
                                line: Some(line_u32(n)),
                            },
                        );
                        assert(violations_view(out@) =~= violations_view(old_out).push(
                            out@[old_out.len() as int]@,
                        ));
                    }
                }
            }
        }
        i += 1;
    }
    assert(matches@.take(i as int) =~= matches@);
}

pub fn check_sensitive_logging(
    console_call: &Pattern,
    logger_call: &Pattern,
    keyword: &Pattern,
    content: &str,
    path: &str,
) -> (r: Vec<Violation>)
    ensures
        violations_view(r@) == logging_findings(
            console_call@,
            logger_call@,
            keyword@,
            content.spec_bytes(),
            path@,
        ),
{
    let bytes = content.as_bytes();
    let len = bytes.len();
    let offsets = build_line_offsets(content);
    proof {
        crate::lines::lemma_newlines_count(bytes@);
    }
    let mut out: Vec<Violation> = Vec::new();
    let mut reported: HashSet<usize> = HashSet::new();
    assert(violations_view(out@) =~= Seq::empty());
    let console = console_call.find_spans(bytes);
    log_matches(
        &console,
        "Logging sensitive data (password, token, secret). Remove or mask before logging.",
        keyword,
        content,
        &offsets,
        path,
        &mut out,
        &mut reported,
    );
    let logger = logger_call.find_spans(bytes);
    log_matches(
        &logger,
        "Logging sensitive data via logger. Remove or mask before logging.",
        keyword,
        content,
        &offsets,
        path,
        &mut out,
        &mut reported,
    );
    out
}

/// The rule as data: the patterns it uses and the findings it reports.
#[verifier::opaque]
pub open spec fn model() -> RuleModel {
    RuleModel {
        file_pattern: "\\.(tsx?|jsx?)$"@,
        check: CheckModel::SensitiveLogging {
            console_call: "console\\.(log|warn|error|info|debug)\\s*\\("@,
            logger_call: "(logger|log)\\.(log|warn|error|info|debug)\\s*\\("@,
            keyword: "\\b(password|secret|token|apiKey|api_key|credential|auth|private_key|privateKey|accessToken|access_token|refreshToken|refresh_token)\\b"@,
        },
    }
}

/// The rule written down with its pattern sources.
pub fn source() -> (r: RuleSource)
    ensures
        r@ == model(),
{
    reveal(model);
    RuleSource {
        file_pattern: "\\.(tsx?|jsx?)$",
        check: CheckSource::SensitiveLogging {
            console_call: "console\\.(log|warn|error|info|debug)\\s*\\(",
            logger_call: "(logger|log)\\.(log|warn|error|info|debug)\\s*\\(",
            keyword: "\\b(password|secret|token|apiKey|api_key|credential|auth|private_key|privateKey|accessToken|access_token|refreshToken|refresh_token)\\b",
        },
    }
}

/// The compiled rule; fails exactly when `regex` refuses one of its patterns.
pub fn rule() -> (r: Result<Rule, PatternError>)
    ensures
        r is Ok <==> rule_compiles(model()),
        r matches Ok(x) ==> x@ == model(),
        r matches Err(e) ==> !regex_compiles(e.pattern@),
{
    Rule::compile(&source())
}

} // verus!
