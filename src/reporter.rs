//! Text reports of findings: blocking issues and warnings.
use vstd::prelude::*;
use vstd::string::StringExecFns;
use crate::rules::{Violation, ViolationModel};
use crate::text::{chars_of, decimal, push_chars, push_decimal};

verus! {

/// Where the last `/` of `s` stands, if any.
pub open spec fn last_slash(s: Seq<char>, n: int) -> int
    decreases n,
{
    if n <= 0 {
        -1
    } else if s[n - 1] == '/' {
        n - 1
    } else {
        last_slash(s, n - 1)
    }
}

/// The part of `s` after its last `/`, or all of `s`.
pub open spec fn after_last_slash(s: Seq<char>) -> Seq<char> {
    s.subrange(last_slash(s, s.len() as int) + 1, s.len() as int)
}

/// A rule's display name and its source: for `biome/...` rules the last path
/// segment and "biome", for the others the rule itself and "guardrails".
pub open spec fn rule_name(rule: Seq<char>) -> (Seq<char>, Seq<char>) {
    if rule.len() >= 6 && rule.take(6) == "biome/"@ {
        let short = if rule.len() >= 11 && rule.take(11) == "biome/lint/"@ {
            rule.skip(11)
        } else {
            rule
        };
        (after_last_slash(short), "biome"@)
    } else {
        (rule, "guardrails"@)
    }
}

proof fn lemma_last_slash(s: Seq<char>, n: int)
    requires
        0 <= n <= s.len(),
    ensures
        -1 <= last_slash(s, n) < n,
    decreases n,
{
    if n > 0 {
        lemma_last_slash(s, n - 1);
    }
}

fn starts_with_chars(cs: &Vec<char>, prefix: &str) -> (r: bool)
    ensures
        r == (cs@.len() >= prefix@.len() && cs@.take(prefix@.len() as int) == prefix@),
{
    let p = chars_of(prefix);
    if p.len() > cs.len() {
        return false;
    }
    let mut i: usize = 0;
    while i < p.len()
        invariant
            p@ == prefix@,
            p@.len() <= cs@.len(),
            i <= p@.len(),
            forall|j: int| 0 <= j < i ==> cs@[j] == p@[j],
        decreases p@.len() - i,
    {
        if cs[i] != p[i] {
            assert(cs@.take(p@.len() as int)[i as int] != p@[i as int]);
            return false;
        }
        i += 1;
    }
    assert(cs@.take(p@.len() as int) =~= p@);
    true
}

/// A rule's display name and where it comes from.
pub fn format_rule_name(rule: &str) -> (r: (String, &'static str))
    ensures
        (r.0@, r.1@) == rule_name(rule@),
{
    let cs = chars_of(rule);
    proof {
        reveal_strlit("biome/");
        reveal_strlit("biome/lint/");
    }
    let mut name = String::new();
    if starts_with_chars(&cs, "biome/") {
        let from: usize = if starts_with_chars(&cs, "biome/lint/") {
            11
        } else {
            0
        };
        assert(cs@.skip(0) =~= cs@);
        let ghost short = cs@.skip(from as int);
        let mut i = cs.len();
        while i > from && cs[i - 1] != '/'
            invariant
                from <= i <= cs@.len(),
                short == cs@.skip(from as int),
                last_slash(short, short.len() as int) == last_slash(short, i - from),
            decreases i,
        {
            i -= 1;
        }
        proof {
            lemma_last_slash(short, i - from);
        }
        push_chars(&mut name, cs.as_slice(), i, cs.len());
        assert(name@ =~= after_last_slash(short));
        (name, "biome")
    } else {
        push_chars(&mut name, cs.as_slice(), 0, cs.len());
        assert(name@ =~= rule@);
        (name, "guardrails")
    }
}

/// `file:line`, or the file alone when there is no line.
pub open spec fn location(v: ViolationModel) -> Seq<char> {
    match v.line {
        Some(l) => v.file + ":"@ + decimal(l as nat),
        None => v.file,
    }
}

fn push_location(s: &mut String, v: &Violation)
    ensures
        final(s)@ == old(s)@ + location(v@),
{
    s.append(v.file.as_str());
    if let Some(l) = v.line {
        s.append(":");
        push_decimal(s, l as usize);
        assert(final(s)@ =~= old(s)@ + location(v@));
    }
}

/// The lines of blocking issue `i` (from 0), each after a newline.
pub open spec fn issue_block(i: nat, v: ViolationModel) -> Seq<char> {
    "\n["@ + decimal(i + 1) + "] "@ + rule_name(v.rule).0 + " ("@ + rule_name(v.rule).1
        + ")\n    location: "@ + location(v) + "\n    fix: "@ + v.failure + "\n"@
}

pub open spec fn issue_blocks(vs: Seq<ViolationModel>) -> Seq<char>
    decreases vs.len(),
{
    if vs.len() == 0 {
        Seq::empty()
    } else {
        issue_blocks(vs.drop_last()) + issue_block((vs.len() - 1) as nat, vs.last())
    }
}

pub open spec fn refs_view(vs: Seq<&Violation>) -> Seq<ViolationModel> {
    vs.map_values(|v: &Violation| v@)
}

/// The report of blocking issues: a header with their number, a numbered
/// entry per issue with its location and fix, and a closing line. Empty when
/// there are none.
pub open spec fn blocked_report(vs: Seq<ViolationModel>) -> Seq<char> {
    if vs.len() == 0 {
        Seq::empty()
    } else {
        "GUARDRAILS: "@ + decimal(vs.len()) + " issues blocked this operation\n"@ + issue_blocks(vs)
            + "\nFix the issues above and retry."@
    }
}

fn push_issue(out: &mut String, i: usize, v: &Violation)
    requires
        i < usize::MAX,
    ensures
        final(out)@ == old(out)@ + issue_block(i as nat, v@),
{
    let (name, source) = format_rule_name(v.rule.as_str());
    let ghost n = name@;
    let ghost src = source@;
    out.append("\n[");
    push_decimal(out, i + 1);
    out.append("] ");
    out.append(name.as_str());
    out.append(" (");
    out.append(source);
    out.append(")\n    location: ");
    push_location(out, v);
    out.append("\n    fix: ");
    out.append(v.failure.as_str());
    out.append("\n");
    assert(out@ =~= old(out)@ + issue_block(i as nat, v@));
}

/// The report of the blocking issues, one numbered entry each.
pub fn format_violations(violations: &[&Violation]) -> (r: String)
    ensures
        r@ == blocked_report(refs_view(violations@)),
{
    let ghost vs = refs_view(violations@);
    if violations.len() == 0 {
        return String::new();
    }
    let mut out = String::new();
    out.append("GUARDRAILS: ");
    push_decimal(&mut out, violations.len());
    out.append(" issues blocked this operation\n");
    let ghost head = out@;
    let mut i: usize = 0;
    while i < violations.len()
        invariant
            i <= violations@.len(),
            vs == refs_view(violations@),
            out@ == head + issue_blocks(vs.take(i as int)),
        decreases violations@.len() - i,
    {
        let v = violations[i];
        push_issue(&mut out, i, v);
        assert(vs.take(i + 1).drop_last() =~= vs.take(i as int));
        assert(vs.take(i + 1).last() == v@);
        i += 1;
    }
    assert(vs.take(i as int) =~= vs);
    out.append("\nFix the issues above and retry.");
    out
}

pub open spec fn warning_lines(vs: Seq<ViolationModel>) -> Seq<char>
    decreases vs.len(),
{
    if vs.len() == 0 {
        Seq::empty()
    } else {
        warning_lines(vs.drop_last()) + "\n  - "@ + rule_name(vs.last().rule).0 + " ("@ + rule_name(
            vs.last().rule,
        ).1 + ") at "@ + location(vs.last())
    }
}

/// The report of warnings: a header with their number and one line each.
/// Empty when there are none.
pub open spec fn warnings_report(vs: Seq<ViolationModel>) -> Seq<char> {
    if vs.len() == 0 {
        Seq::empty()
    } else {
        "GUARDRAILS: "@ + decimal(vs.len()) + " warnings"@ + warning_lines(vs) + "\n"@
    }
}

/// The report of non-blocking findings, one line each.
pub fn format_warnings(violations: &[&Violation]) -> (r: String)
    ensures
        r@ == warnings_report(refs_view(violations@)),
{
    let ghost vs = refs_view(violations@);
    if violations.len() == 0 {
        return String::new();
    }
    let mut out = String::new();
    out.append("GUARDRAILS: ");
    push_decimal(&mut out, violations.len());
    out.append(" warnings");
    let ghost head = out@;
    let mut i: usize = 0;
    while i < violations.len()
        invariant
            i <= violations@.len(),
            vs == refs_view(violations@),
            out@ == head + warning_lines(vs.take(i as int)),
        decreases violations@.len() - i,
    {
        let v = violations[i];
        let ghost before = out@;
        let (name, source) = format_rule_name(v.rule.as_str());
        out.append("\n  - ");
        out.append(name.as_str());
        out.append(" (");
        out.append(source);
        out.append(") at ");
        push_location(&mut out, v);
        assert(vs.take(i + 1).drop_last() =~= vs.take(i as int));
        assert(vs.take(i + 1).last() == v@);
        assert(out@ =~= head + warning_lines(vs.take(i + 1)));
        i += 1;
    }
    assert(vs.take(i as int) =~= vs);
    out.append("\n");
    out
}

} // verus!
