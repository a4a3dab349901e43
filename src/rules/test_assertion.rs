//! Test blocks whose body holds no assertion.
use vstd::prelude::*;
use vstd::string::StringExecFns;
use super::{rule_compiles, violations_view, CheckModel, CheckSource, Rule, RuleModel, RuleSource, Severity, Violation, ViolationModel};
use crate::extract::{balanced_content, extract_brace_content};
use crate::lines::{
    build_line_offsets, count_newlines, lemma_line_lookup, line_u32, newlines_before, newlines_upto,
    skip_ws, trim_start, trim_start_offset,
};
use crate::pattern::{regex_captures_iter, regex_compiles, regex_is_match, Pattern, PatternError};
use crate::scanner::{LBRACE, RBRACE, SLASH};
use crate::text::{lossy_string, utf8_lossy};
use vstd::string::StringSliceAdditionalSpecFns;

verus! {

/// The capture group of the test start pattern that holds the test's name.
pub const NAME_GROUP: usize = 2;

/// The body of the block whose `{` stands just before `end`; empty if it never closes.
pub open spec fn test_body(b: Seq<u8>, end: int) -> Seq<u8> {
    match balanced_content(b, end, LBRACE, RBRACE) {
        Some(x) => x,
        None => Seq::empty(),
    }
}

/// A body that is blank, or starts with a line comment, once leading whitespace is trimmed.
pub open spec fn placeholder_body(body: Seq<u8>) -> bool {
    let t = trim_start(body);
    t.len() == 0 || (t.len() >= 2 && t[0] == SLASH && t[1] == SLASH)
}

pub open spec fn test_name(b: Seq<u8>, g: Option<(usize, usize)>) -> Seq<char> {
    match g {
        Some(span) => utf8_lossy(b.subrange(span.0 as int, span.1 as int)),
        None => "unknown"@,
    }
}

/// The finding for one test start match, if its body holds no assertion.
pub open spec fn test_finding(
    cap: (usize, usize, Option<(usize, usize)>),
    assertion: Seq<char>,
    b: Seq<u8>,
    path: Seq<char>,
) -> Seq<ViolationModel> {
    let body = test_body(b, cap.1 as int);
    if regex_is_match(assertion, body) || placeholder_body(body) {
        Seq::empty()
    } else {
        seq![
            ViolationModel {
                rule: "test-assertion"@,
                severity: Severity::Medium,
                failure: "Test '"@ + test_name(b, cap.2)
                    + "' has no assertions. Add expect() or assert calls."@,
                file: path,
                line: Some(#[verifier::truncate] ((1 + count_newlines(b, cap.0 as int)) as u32)),
            },
        ]
    }
}

pub open spec fn findings_of_tests(
    caps: Seq<(usize, usize, Option<(usize, usize)>)>,
    assertion: Seq<char>,
    b: Seq<u8>,
    path: Seq<char>,
) -> Seq<ViolationModel>
    decreases caps.len(),
{
    if caps.len() == 0 {
        Seq::empty()
    } else {
        findings_of_tests(caps.drop_last(), assertion, b, path) + test_finding(
            caps.last(),
            assertion,
            b,
            path,
        )
    }
}

/// One finding per test block, in order, whose body neither matches the
/// assertion pattern nor is a placeholder; it names the test and its line.
pub open spec fn assertion_findings(
    test_start: Seq<char>,
    assertion: Seq<char>,
    b: Seq<u8>,
    path: Seq<char>,
) -> Seq<ViolationModel> {
    findings_of_tests(regex_captures_iter(test_start, b, NAME_GROUP), assertion, b, path)
}

pub fn check_test_assertions(
    test_start: &Pattern,
    assertion: &Pattern,
    content: &str,
    path: &str,
) -> (r: Vec<Violation>)
    ensures
        violations_view(r@) == assertion_findings(
            test_start@,
            assertion@,
            content.spec_bytes(),
            path@,
        ),
{
    let bytes = content.as_bytes();
    let len = bytes.len();
    let offsets = build_line_offsets(content);
    proof {
        crate::lines::lemma_newlines_count(bytes@);
    }
    let caps = test_start.capture_spans(bytes, NAME_GROUP);
    let mut out: Vec<Violation> = Vec::new();
    let mut i: usize = 0;
    while i < caps.len()
        invariant
            i <= caps@.len(),
            bytes@ == content.spec_bytes(),
            len == bytes@.len(),
            offsets@ == newlines_upto(bytes@, bytes@.len() as int),
            crate::lines::strictly_increasing(offsets@),
            offsets@.len() <= bytes@.len(),
            caps@ == regex_captures_iter(test_start@, bytes@, NAME_GROUP),
            forall|j: int| 0 <= j < caps@.len() ==> #[trigger] caps@[j].0 <= caps@[j].1 <= bytes@.len(),
            forall|j: int|
                0 <= j < caps@.len() ==> (#[trigger] caps@[j].2 matches Some(g) ==> g.0 <= g.1
                    <= bytes@.len()),
            violations_view(out@) == findings_of_tests(caps@.take(i as int), assertion@, bytes@, path@),
        decreases caps@.len() - i,
    {
        let (start, end, name) = caps[i];
        assert(caps@.take(i + 1).drop_last() =~= caps@.take(i as int));
        assert(caps@.take(i + 1).last() == caps@[i as int]);
        let body: &[u8] = match extract_brace_content(bytes, end) {
            Some(inner) => inner,
            None => &[],
        };
        assert(body@ == test_body(bytes@, end as int));
        let ghost before = out@;
        if !assertion.is_match(body) {
            let t = trim_start_offset(body);
            let rest = body.len() - t;
            if !(rest == 0 || (rest >= 2 && body[t] == SLASH && body[t + 1] == SLASH)) {
                let n = newlines_before(&offsets, start);
                proof {
                    lemma_line_lookup(bytes@, start as int, n + 1);
                }
                let mut failure = "Test '".to_owned();
                match name {
                    Some((a, z)) => {
                        let n = lossy_string(&bytes[a..z]);
                        failure.append(n.as_str());
                    },
                    None => failure.append("unknown"),
                }
                failure.append("' has no assertions. Add expect() or assert calls.");
                out.push(
                    Violation {
                        rule: "test-assertion".to_owned(),
                        severity: Severity::Medium,
                        failure,
                        file: path.to_owned(),
                        line: Some(line_u32(n)),
                    },
                );
                assert(violations_view(out@) =~= violations_view(before) + test_finding(
                    caps@[i as int],
                    assertion@,
                    bytes@,
                    path@,
                ));
            } else {
                assert(violations_view(out@) =~= violations_view(before) + Seq::empty());
            }
        } else {
            assert(violations_view(out@) =~= violations_view(before) + Seq::empty());
        }
        i += 1;
    }
    assert(caps@.take(i as int) =~= caps@);
    out
}

/// The rule as data: the patterns it uses and the findings it reports.
#[verifier::opaque]
pub open spec fn model() -> RuleModel {
    RuleModel {
        file_pattern: "\\.(test|spec)\\.[jt]sx?$"@,
        check: CheckModel::TestAssertion {
            test_start: "(it|test)\\s*\\(\\s*['\"]([^'\"]+)['\"]\\s*,\\s*(async\\s*)?\\(\\s*\\)\\s*=>\\s*\\{"@,
            assertion: "(expect\\s*\\(|assert\\.|should\\.|\\.toEqual|\\.toBe|\\.toHaveBeenCalled|\\.rejects\\.|\\.resolves\\.)"@,
        },
    }
}

/// The rule written down with its pattern sources.
pub fn source() -> (r: RuleSource)
    ensures
        r@ == model(),
{
    reveal(model);
    RuleSource {
        file_pattern: "\\.(test|spec)\\.[jt]sx?$",
        check: CheckSource::TestAssertion {
            test_start: "(it|test)\\s*\\(\\s*['\"]([^'\"]+)['\"]\\s*,\\s*(async\\s*)?\\(\\s*\\)\\s*=>\\s*\\{",
            assertion: "(expect\\s*\\(|assert\\.|should\\.|\\.toEqual|\\.toBe|\\.toHaveBeenCalled|\\.rejects\\.|\\.resolves\\.)",
        },
    }
}

/// The compiled rule; fails exactly when `regex` refuses one of its patterns.
pub fn rule() -> (r: Result<Rule, PatternError>)
    ensures
        r is Ok <==> rule_compiles(model()),
        r matches Ok(x) ==> x@ == model(),
        r matches Err(e) ==> !regex_compiles(e.pattern@),
{
    Rule::compile(&source())
}

} // verus!
