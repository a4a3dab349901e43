//! Turning the external linter's diagnostics into findings.
use vstd::prelude::*;
use vstd::string::StringExecFns;
use crate::lines::{
    build_line_offsets, count_newlines, lemma_line_lookup, lemma_newlines_count, lemma_newlines_upto,
    line_u32, newlines_before, newlines_upto,
};
use crate::rules::{Severity, Violation, ViolationModel};
use crate::text::{str_eq};
use vstd::string::StringSliceAdditionalSpecFns;
use vstd::utf8::encode_utf8;

verus! {

/// The suggested fix for a linter category that has one.
pub open spec fn fix_for(category: Seq<char>) -> Option<Seq<char>> {
    if category == "lint/security/noGlobalEval"@ {
        Some("Use JSON.parse() for data, or restructure to avoid dynamic code execution"@)
    } else if category == "lint/suspicious/noExplicitAny"@ {
        Some("Use `unknown` with type guards, or define a specific type/interface"@)
    } else if category == "lint/suspicious/noDebugger"@ {
        Some("Remove debugger statement"@)
    } else if category == "lint/suspicious/noConsole"@ {
        Some("Remove console.log or use a proper logger"@)
    } else if category == "lint/correctness/noUnusedVariables"@ {
        Some("Remove the variable, or prefix with _ if intentional"@)
    } else if category == "lint/correctness/noUnusedImports"@ {
        Some("Remove the unused import"@)
    } else if category == "lint/a11y/useAltText"@ {
        Some("Add alt attribute to img element"@)
    } else if category == "lint/a11y/useButtonType"@ {
        Some("Add type attribute to button element"@)
    } else if category == "lint/a11y/noBlankTarget"@ {
        Some("Add rel=\"noopener noreferrer\" to links with target=\"_blank\""@)
    } else {
        None
    }
}

/// The suggested fix for a linter category, for the categories that have one.
pub fn get_fix_for_rule(category: &str) -> (r: Option<&'static str>)
    ensures
        match r {
            Some(s) => fix_for(category@) == Some(s@),
            None => fix_for(category@) is None,
        },
{
    if str_eq(category, "lint/security/noGlobalEval") {
        Some("Use JSON.parse() for data, or restructure to avoid dynamic code execution")
    } else if str_eq(category, "lint/suspicious/noExplicitAny") {
        Some("Use `unknown` with type guards, or define a specific type/interface")
    } else if str_eq(category, "lint/suspicious/noDebugger") {
        Some("Remove debugger statement")
    } else if str_eq(category, "lint/suspicious/noConsole") {
        Some("Remove console.log or use a proper logger")
    } else if str_eq(category, "lint/correctness/noUnusedVariables") {
        Some("Remove the variable, or prefix with _ if intentional")
    } else if str_eq(category, "lint/correctness/noUnusedImports") {
        Some("Remove the unused import")
    } else if str_eq(category, "lint/a11y/useAltText") {
        Some("Add alt attribute to img element")
    } else if str_eq(category, "lint/a11y/useButtonType") {
        Some("Add type attribute to button element")
    } else if str_eq(category, "lint/a11y/noBlankTarget") {
        Some("Add rel=\"noopener noreferrer\" to links with target=\"_blank\"")
    } else {
        None
    }
}

/// A piece of an advice message.
pub struct BiomeMessagePart {
    pub content: String,
}

/// An advice attached to a diagnostic: a log message made of parts, or
/// another kind, which carries no fix text.
pub enum BiomeAdvice {
    Log { log: (String, Vec<BiomeMessagePart>) },
    Other,
}

pub struct BiomeAdvices {
    pub advices: Vec<BiomeAdvice>,
}

/// Where a diagnostic points: a byte span and the linted source.
pub struct BiomeLocation {
    pub span: Option<Vec<u32>>,
    pub source_code: Option<String>,
}

/// One diagnostic of the external linter.
pub struct BiomeDiagnostic {
    pub category: String,
    pub severity: String,
    pub description: String,
    pub advices: BiomeAdvices,
    pub location: BiomeLocation,
}

pub open spec fn parts_text(ps: Seq<BiomeMessagePart>) -> Seq<char>
    decreases ps.len(),
{
    if ps.len() == 0 {
        Seq::empty()
    } else {
        parts_text(ps.drop_last()) + ps.last().content@
    }
}

/// The text of an advice: its parts run together; empty for other kinds.
pub open spec fn advice_text(a: BiomeAdvice) -> Seq<char> {
    match a {
        BiomeAdvice::Log { log } => parts_text(log.1@),
        BiomeAdvice::Other => Seq::empty(),
    }
}

/// The advices' texts, in order, leaving out empty ones, joined by single spaces.
pub open spec fn joined_texts(advs: Seq<BiomeAdvice>) -> Seq<char>
    decreases advs.len(),
{
    if advs.len() == 0 {
        Seq::empty()
    } else {
        let before = joined_texts(advs.drop_last());
        let t = advice_text(advs.last());
        if t.len() == 0 {
            before
        } else if before.len() == 0 {
            t
        } else {
            before + " "@ + t
        }
    }
}

/// The fix text of the advices, or `fallback` when none has text.
pub open spec fn fix_from_advices(advs: Seq<BiomeAdvice>, fallback: Seq<char>) -> Seq<char> {
    if joined_texts(advs).len() == 0 {
        fallback
    } else {
        joined_texts(advs)
    }
}

fn advice_string(a: &BiomeAdvice) -> (r: String)
    ensures
        r@ == advice_text(*a),
{
    let mut out = String::new();
    match a {
        BiomeAdvice::Log { log } => {
            let parts = &log.1;
            let mut i: usize = 0;
            while i < parts.len()
                invariant
                    i <= parts@.len(),
                    out@ == parts_text(parts@.take(i as int)),
                decreases parts@.len() - i,
            {
                out.append(parts[i].content.as_str());
                assert(parts@.take(i + 1).drop_last() =~= parts@.take(i as int));
                i += 1;
            }
            assert(parts@.take(i as int) =~= parts@);
        },
        BiomeAdvice::Other => {},
    }
    out
}

/// The advices' texts joined by spaces, or `fallback` when none has text.
pub fn extract_fix_from_advices(advices: &BiomeAdvices, fallback: &str) -> (r: String)
    ensures
        r@ == fix_from_advices(advices.advices@, fallback@),
{
    let advs = &advices.advices;
    let mut out = String::new();
    let mut i: usize = 0;
    while i < advs.len()
        invariant
            i <= advs@.len(),
            out@ == joined_texts(advs@.take(i as int)),
        decreases advs@.len() - i,
    {
        let t = advice_string(&advs[i]);
        assert(advs@.take(i + 1).drop_last() =~= advs@.take(i as int));
        if !t.as_str().is_empty() {
            if !out.as_str().is_empty() {
                out.append(" ");
            }
            out.append(t.as_str());
        }
        i += 1;
    }
    assert(advs@.take(i as int) =~= advs@);
    if out.as_str().is_empty() {
        fallback.to_owned()
    } else {
        out
    }
}

/// How a linter severity maps onto a finding's severity.
pub open spec fn biome_severity(s: Seq<char>) -> Severity {
    if s == "error"@ {
        Severity::High
    } else if s == "warning"@ {
        Severity::Medium
    } else {
        Severity::Low
    }
}

/// The line of byte `o` of `b`: one more than the newlines before it (all of
/// them when `o` lies past the end).
pub open spec fn line_at(b: Seq<u8>, o: int) -> int {
    1 + count_newlines(b, if o <= b.len() { o } else { b.len() as int }) as int
}

/// The finding for one diagnostic, with lines counted in `source`.
pub open spec fn diagnostic_finding(d: BiomeDiagnostic, source: Seq<u8>, file: Seq<char>) -> ViolationModel {
    ViolationModel {
        rule: "biome/"@ + d.category@,
        severity: biome_severity(d.severity@),
        failure: match fix_for(d.category@) {
            Some(f) => f,
            None => fix_from_advices(d.advices.advices@, d.description@),
        },
        file,
        line: match d.location.span {
            Some(span) => Some(#[verifier::truncate] (line_at(source, if span@.len() > 0 { span@[0] as int } else { 0 }) as u32)),
            None => None,
        },
    }
}

/// The source that lines are counted in: that of the first diagnostic, or empty.
pub open spec fn diagnostics_source(ds: Seq<BiomeDiagnostic>) -> Seq<u8> {
    if ds.len() > 0 && ds[0].location.source_code is Some {
        encode_utf8(ds[0].location.source_code->0@)
    } else {
        Seq::empty()
    }
}

/// The line of byte `offset` of `source`, given its newline offsets, as a `u32`.
fn line_in(source: &[u8], offsets: &[usize], offset: usize) -> (r: u32)
    requires
        offsets@ == newlines_upto(source@, source@.len() as int),
    ensures
        r == #[verifier::truncate] (line_at(source@, offset as int) as u32),
{
    let len = source.len();
    proof {
        lemma_newlines_count(source@);
        lemma_newlines_upto(source@, source@.len() as int);
    }
    let n = newlines_before(offsets, offset);
    proof {
        if offset <= len {
            lemma_line_lookup(source@, offset as int, n + 1);
        } else {
            lemma_line_lookup(source@, len as int, n + 1);
        }
    }
    line_u32(n)
}

/// The finding for one linter diagnostic: its category under `biome/`, its
/// severity mapped, the known fix for the category or else the advices' text
/// (or the description), and the line of the span's start in `source`.
pub fn biome_violation(
    d: &BiomeDiagnostic,
    source: &str,
    offsets: &[usize],
    file_path: &str,
) -> (r: Violation)
    requires
        offsets@ == newlines_upto(source.spec_bytes(), source.spec_bytes().len() as int),
    ensures
        r@ == diagnostic_finding(*d, source.spec_bytes(), file_path@),
{
    let severity = if str_eq(d.severity.as_str(), "error") {
        Severity::High
    } else if str_eq(d.severity.as_str(), "warning") {
        Severity::Medium
    } else {
        Severity::Low
    };
    let line = match &d.location.span {
        Some(span) => {
            let offset: u32 = if span.len() > 0 {
                span[0]
            } else {
                0
            };
            Some(line_in(source.as_bytes(), offsets, offset as usize))
        },
        None => None,
    };
    let failure = match get_fix_for_rule(d.category.as_str()) {
        Some(f) => f.to_owned(),
        None => extract_fix_from_advices(&d.advices, d.description.as_str()),
    };
    let mut rule = "biome/".to_owned();
    rule.append(d.category.as_str());
    Violation { rule, severity, failure, file: file_path.to_owned(), line }
}

pub open spec fn diagnostics_view(ds: Seq<BiomeDiagnostic>, source: Seq<u8>, file: Seq<char>) -> Seq<
    ViolationModel,
> {
    Seq::new(ds.len(), |i: int| diagnostic_finding(ds[i], source, file))
}

/// One finding per diagnostic, in order; lines are counted in the source
/// that the first diagnostic carries.
pub fn biome_violations(diagnostics: &Vec<BiomeDiagnostic>, file_path: &str) -> (r: Vec<Violation>)
    ensures
        r@.len() == diagnostics@.len(),
        forall|i: int|
            0 <= i < r@.len() ==> (#[trigger] r@[i])@ == diagnostic_finding(
                diagnostics@[i],
                diagnostics_source(diagnostics@),
                file_path@,
            ),
{
    let empty = String::new();
    let source: &str = if diagnostics.len() > 0 {
        match &diagnostics[0].location.source_code {
            Some(s) => s.as_str(),
            None => empty.as_str(),
        }
    } else {
        empty.as_str()
    };
    assert(source.spec_bytes() == diagnostics_source(diagnostics@));
    let offsets = build_line_offsets(source);
    let mut out: Vec<Violation> = Vec::new();
    let mut i: usize = 0;
    while i < diagnostics.len()
        invariant
            i <= diagnostics@.len(),
            out@.len() == i,
            source.spec_bytes() == diagnostics_source(diagnostics@),
            offsets@ == newlines_upto(source.spec_bytes(), source.spec_bytes().len() as int),
            forall|j: int|
                0 <= j < i ==> (#[trigger] out@[j])@ == diagnostic_finding(
                    diagnostics@[j],
                    diagnostics_source(diagnostics@),
                    file_path@,
                ),
        decreases diagnostics@.len() - i,
    {
        out.push(biome_violation(&diagnostics[i], source, offsets.as_slice(), file_path));
        i += 1;
    }
    out
}

} // verus!
