//! Findings, rule descriptions, and the engine that runs enabled rules over a file.
pub mod architecture;
pub mod bundle_size;
pub mod console_log;
pub mod crypto_weak;
pub mod dom_access;
pub mod error_handling;
pub mod flaky_test;
pub mod generated_file;
pub mod naming;
pub mod security;
pub mod sensitive_file;
pub mod sensitive_logging;
pub mod sync_io;
pub mod test_assertion;
pub mod test_location;
pub mod transaction;
mod matching;
mod model;

pub use matching::{
    count_matches, count_non_comment_matches, find_line, find_non_comment_match, first_match,
    lemma_comment_lines_never_match, line_number, lines_from, matches_only_in_comments,
};
pub use model::{
    check_compiles, checks_view, line_check_compiles, opt_compiles, opt_str_view, opt_view,
    patterns_view, rule_compiles, source_checks_view, strs_view, Check, CheckModel, CheckSource,
    LineCheck, LineCheckModel, LineCheckSource, Rule, RuleModel, RuleSource,
};

use vstd::prelude::*;
use crate::config::{Config, RulesConfig};
use crate::pattern::{regex_compiles, regex_is_match, Pattern, PatternError};
use vstd::string::StringSliceAdditionalSpecFns;
use vstd::utf8::encode_utf8;

verus! {

/// How serious a finding is; Critical ranks highest.
#[derive(Debug, Clone, Copy, PartialEq, Eq, Structural)]
pub enum Severity {
    Critical,
    High,
    Medium,
    Low,
}

impl Severity {
    pub open spec fn spec_rank(self) -> u8 {
        match self {
            Severity::Critical => 3,
            Severity::High => 2,
            Severity::Medium => 1,
            Severity::Low => 0,
        }
    }

    /// Rank in the order Low < Medium < High < Critical.
    pub fn rank(&self) -> (r: u8)
        ensures
            r == self.spec_rank(),
    {
        match self {
            Severity::Critical => 3,
            Severity::High => 2,
            Severity::Medium => 1,
            Severity::Low => 0,
        }
    }

    /// The upper-case label shown in reports.
    pub fn as_str(&self) -> (r: &'static str)
        ensures
            r@ == match *self {
                Severity::Critical => "CRITICAL"@,
                Severity::High => "HIGH"@,
                Severity::Medium => "MEDIUM"@,
                Severity::Low => "LOW"@,
            },
    {
        match self {
            Severity::Critical => "CRITICAL",
            Severity::High => "HIGH",
            Severity::Medium => "MEDIUM",
            Severity::Low => "LOW",
        }
    }
}

/// One reported instance of a risky pattern.
#[derive(Debug, Clone)]
pub struct Violation {
    pub rule: String,
    pub severity: Severity,
    pub failure: String,
    pub file: String,
    pub line: Option<u32>,
}

pub struct ViolationModel {
    pub rule: Seq<char>,
    pub severity: Severity,
    pub failure: Seq<char>,
    pub file: Seq<char>,
    pub line: Option<u32>,
}

impl View for Violation {
    type V = ViolationModel;

    open spec fn view(&self) -> ViolationModel {
        ViolationModel {
            rule: self.rule@,
            severity: self.severity,
            failure: self.failure@,
            file: self.file@,
            line: self.line,
        }
    }
}

pub open spec fn violations_view(v: Seq<Violation>) -> Seq<ViolationModel> {
    v.map_values(|x: Violation| x@)
}

/// The finding of one line check on text `b` at `path`, if any.
pub open spec fn line_check_findings(c: LineCheckModel, b: Seq<u8>, path: Seq<char>) -> Seq<
    ViolationModel,
> {
    if c.path_filter matches Some(f) && !regex_is_match(f, encode_utf8(path)) {
        Seq::empty()
    } else if c.also_requires matches Some(a) && find_line(a, b) is None {
        Seq::empty()
    } else {
        match find_line(c.pattern, b) {
            Some(n) => seq![
                ViolationModel {
                    rule: c.rule_id,
                    severity: c.severity,
                    failure: c.message,
                    file: path,
                    line: line_number(Some(n)),
                },
            ],
            None => Seq::empty(),
        }
    }
}

/// The findings of a list of line checks, in the order of the list.
pub open spec fn lines_findings(checks: Seq<LineCheckModel>, b: Seq<u8>, path: Seq<char>) -> Seq<
    ViolationModel,
>
    decreases checks.len(),
{
    if checks.len() == 0 {
        Seq::empty()
    } else {
        lines_findings(checks.drop_last(), b, path) + line_check_findings(checks.last(), b, path)
    }
}

/// The finding of a path-only check.
pub open spec fn paths_findings(
    require: Option<Seq<char>>,
    patterns: Seq<Seq<char>>,
    rule_id: Seq<char>,
    severity: Severity,
    message: Seq<char>,
    path: Seq<char>,
) -> Seq<ViolationModel> {
    if require matches Some(r) && !regex_is_match(r, encode_utf8(path)) {
        Seq::empty()
    } else if exists|i: int|
        0 <= i < patterns.len() && regex_is_match(#[trigger] patterns[i], encode_utf8(path)) {
        seq![
            ViolationModel { rule: rule_id, severity, failure: message, file: path, line: None },
        ]
    } else {
        Seq::empty()
    }
}

/// What a check reports on text `b` at `path`, in order.
pub open spec fn check_findings(c: CheckModel, b: Seq<u8>, path: Seq<char>) -> Seq<ViolationModel> {
    match c {
        CheckModel::Lines { exclude, checks } => if exclude matches Some(x) && regex_is_match(
            x,
            encode_utf8(path),
        ) {
            Seq::empty()
        } else {
            lines_findings(checks, b, path)
        },
        CheckModel::Paths { require, patterns, rule_id, severity, message } => paths_findings(
            require,
            patterns,
            rule_id,
            severity,
            message,
            path,
        ),
        CheckModel::Transaction { target_dir, write_ops, boundary } =>
            transaction::transaction_findings(target_dir, write_ops, boundary, b, path),
        CheckModel::TestAssertion { test_start, assertion } =>
            test_assertion::assertion_findings(test_start, assertion, b, path),
        CheckModel::SensitiveLogging { console_call, logger_call, keyword } =>
            sensitive_logging::logging_findings(console_call, logger_call, keyword, b, path),
    }
}

fn run_line_check(c: &LineCheck, content: &[u8], path: &str, out: &mut Vec<Violation>)
    ensures
        violations_view(final(out)@) == violations_view(old(out)@) + line_check_findings(
            c@,
            content@,
            path@,
        ),
{
    let ghost before = out@;
    let path_bytes = path.as_bytes();
    if let Some(f) = &c.path_filter {
        if !f.is_match(path_bytes) {
            assert(violations_view(before) =~= violations_view(before) + Seq::empty());
            return;
        }
    }
    if let Some(a) = &c.also_requires {
        if find_non_comment_match(content, a).is_none() {
            assert(violations_view(before) =~= violations_view(before) + Seq::empty());
            return;
        }
    }
    match find_non_comment_match(content, &c.pattern) {
        Some(n) => {
            out.push(
                Violation {
                    rule: c.rule_id.clone(),
                    severity: c.severity,
                    failure: c.message.clone(),
                    file: path.to_owned(),
                    line: Some(n),
                },
            );
            assert(violations_view(out@) =~= violations_view(before) + line_check_findings(
                c@,
                content@,
                path@,
            ));
        },
        None => {
            assert(violations_view(before) =~= violations_view(before) + Seq::empty());
        },
    }
}

fn run_line_checks(
    exclude: &Option<Pattern>,
    checks: &Vec<LineCheck>,
    content: &[u8],
    path: &str,
) -> (r: Vec<Violation>)
    ensures
        violations_view(r@) == check_findings(
            CheckModel::Lines { exclude: opt_view(*exclude), checks: checks_view(checks@) },
            content@,
            path@,
        ),
{
    let mut out: Vec<Violation> = Vec::new();
    if let Some(x) = exclude {
        if x.is_match(path.as_bytes()) {
            assert(violations_view(out@) =~= Seq::empty());
            return out;
        }
    }
    let mut i: usize = 0;
    while i < checks.len()
        invariant
            i <= checks@.len(),
            violations_view(out@) == lines_findings(checks_view(checks@).take(i as int), content@, path@),
        decreases checks@.len() - i,
    {
        run_line_check(&checks[i], content, path, &mut out);
        assert(checks_view(checks@).take(i + 1).drop_last() =~= checks_view(checks@).take(i as int));
        i += 1;
    }
    assert(checks_view(checks@).take(i as int) =~= checks_view(checks@));
    out
}

fn run_paths(
    require: &Option<Pattern>,
    patterns: &Vec<Pattern>,
    rule_id: &String,
    severity: Severity,
    message: &String,
    path: &str,
) -> (r: Vec<Violation>)
    ensures
        violations_view(r@) == paths_findings(
            opt_view(*require),
            patterns_view(patterns@),
            rule_id@,
            severity,
            message@,
            path@,
        ),
{
    let mut out: Vec<Violation> = Vec::new();
    let path_bytes = path.as_bytes();
    if let Some(r) = require {
        if !r.is_match(path_bytes) {
            assert(violations_view(out@) =~= Seq::empty());
            return out;
        }
    }
    let mut i: usize = 0;
    while i < patterns.len()
        invariant
            i <= patterns@.len(),
            path_bytes@ == encode_utf8(path@),
            out@.len() == 0,
            opt_view(*require) matches Some(r) ==> regex_is_match(r, encode_utf8(path@)),
            forall|j: int|
                0 <= j < i ==> !regex_is_match(#[trigger] patterns_view(patterns@)[j], path_bytes@),
        decreases patterns@.len() - i,
    {
        if patterns[i].is_match(path_bytes) {
            assert(regex_is_match(patterns_view(patterns@)[i as int], encode_utf8(path@)));
            out.push(
                Violation {
                    rule: rule_id.clone(),
                    severity,
                    failure: message.clone(),
                    file: path.to_owned(),
                    line: None,
                },
            );
            assert(violations_view(out@) =~= paths_findings(
                opt_view(*require),
                patterns_view(patterns@),
                rule_id@,
                severity,
                message@,
                path@,
            ));
            return out;
        }
        i += 1;
    }
    assert(violations_view(out@) =~= Seq::empty());
    out
}

impl Rule {
    /// Whether the rule applies to files at `path`.
    pub fn applies_to(&self, path: &str) -> (r: bool)
        ensures
            r == regex_is_match(self@.file_pattern, encode_utf8(path@)),
    {
        self.file_pattern.is_match(path.as_bytes())
    }

    /// The rule's findings on `content` at `path`, in order.
    pub fn check(&self, content: &str, file_path: &str) -> (r: Vec<Violation>)
        ensures
            violations_view(r@) == check_findings(self@.check, content.spec_bytes(), file_path@),
    {
        let bytes = content.as_bytes();
        match &self.check {
            Check::Lines { exclude, checks } => run_line_checks(exclude, checks, bytes, file_path),
            Check::Paths { require, patterns, rule_id, severity, message } => run_paths(
                require,
                patterns,
                rule_id,
                *severity,
                message,
                file_path,
            ),
            Check::Transaction { target_dir, write_ops, boundary } =>
                transaction::check_transaction(target_dir, write_ops, boundary, bytes, file_path),
            Check::TestAssertion { test_start, assertion } =>
                test_assertion::check_test_assertions(test_start, assertion, content, file_path),
            Check::SensitiveLogging { console_call, logger_call, keyword } =>
                sensitive_logging::check_sensitive_logging(
                console_call,
                logger_call,
                keyword,
                content,
                file_path,
            ),
        }
    }
}

/// The findings of the rules that apply to `path`, in the order of the rules.
pub open spec fn analysis(rules: Seq<RuleModel>, b: Seq<u8>, path: Seq<char>) -> Seq<ViolationModel>
    decreases rules.len(),
{
    if rules.len() == 0 {
        Seq::empty()
    } else {
        analysis(rules.drop_last(), b, path) + if regex_is_match(
            rules.last().file_pattern,
            encode_utf8(path),
        ) {
            check_findings(rules.last().check, b, path)
        } else {
            Seq::empty()
        }
    }
}

pub open spec fn rules_view(v: Seq<Rule>) -> Seq<RuleModel> {
    v.map_values(|r: Rule| r@)
}

/// Runs every rule whose file pattern matches `file_path` and gathers the
/// findings in rule order, each rule's in the order it found them.
pub fn analyze(rules: &Vec<Rule>, content: &str, file_path: &str) -> (r: Vec<Violation>)
    ensures
        violations_view(r@) == analysis(rules_view(rules@), content.spec_bytes(), file_path@),
{
    let mut out: Vec<Violation> = Vec::new();
    let mut i: usize = 0;
    while i < rules.len()
        invariant
            i <= rules@.len(),
            violations_view(out@) == analysis(
                rules_view(rules@).take(i as int),
                content.spec_bytes(),
                file_path@,
            ),
        decreases rules@.len() - i,
    {
        let rule = &rules[i];
        assert(rules_view(rules@).take(i + 1).drop_last() =~= rules_view(rules@).take(i as int));
        assert(rules_view(rules@).take(i + 1).last() == rule@);
        if rule.applies_to(file_path) {
            let mut found = rule.check(content, file_path);
            let ghost before = out@;
            let ghost added = found@;
            out.append(&mut found);
            assert(violations_view(out@) =~= violations_view(before) + violations_view(added));
        } else {
            assert(violations_view(out@) =~= violations_view(out@) + Seq::empty());
        }
        i += 1;
    }
    assert(rules_view(rules@).take(i as int) =~= rules_view(rules@));
    out
}

#[verifier::opaque]
pub open spec fn with_rule(s: Seq<RuleModel>, on: bool, m: RuleModel) -> Seq<RuleModel> {
    if on {
        s.push(m)
    } else {
        s
    }
}

/// The rules that `c` enables, in registration order.
pub open spec fn enabled_models(c: RulesConfig) -> Seq<RuleModel> {
    let s = Seq::empty();
    let s = with_rule(s, c.sensitive_file, sensitive_file::model());
    let s = with_rule(s, c.architecture, architecture::model());
    let s = with_rule(s, c.naming, naming::model());
    let s = with_rule(s, c.transaction, transaction::model());
    let s = with_rule(s, c.security, security::model());
    let s = with_rule(s, c.crypto_weak, crypto_weak::model());
    let s = with_rule(s, c.generated_file, generated_file::model());
    let s = with_rule(s, c.test_location, test_location::model());
    let s = with_rule(s, c.dom_access, dom_access::model());
    let s = with_rule(s, c.sync_io, sync_io::model());
    let s = with_rule(s, c.bundle_size, bundle_size::model());
    let s = with_rule(s, c.test_assertion, test_assertion::model());
    let s = with_rule(s, c.flaky_test, flaky_test::model());
    let s = with_rule(s, c.sensitive_logging, sensitive_logging::model());
    s
}

pub open spec fn sources_view(v: Seq<RuleSource>) -> Seq<RuleModel> {
    v.map_values(|r: RuleSource| r@)
}

fn add_source_if(v: &mut Vec<RuleSource>, on: bool, src: RuleSource)
    ensures
        sources_view(final(v)@) == with_rule(sources_view(old(v)@), on, src@),
{
    reveal(with_rule);
    if on {
        let ghost before = v@;
        v.push(src);
        assert(sources_view(v@) =~= sources_view(before).push(src@));
    }
}

/// The sources of the rules that `c` enables, in registration order.
pub fn enabled_sources(c: &RulesConfig) -> (r: Vec<RuleSource>)
    ensures
        sources_view(r@) == enabled_models(*c),
{
    let mut sources: Vec<RuleSource> = Vec::new();
    assert(sources_view(sources@) =~= Seq::<RuleModel>::empty());
    add_source_if(&mut sources, c.sensitive_file, sensitive_file::source());
    add_source_if(&mut sources, c.architecture, architecture::source());
    add_source_if(&mut sources, c.naming, naming::source());
    add_source_if(&mut sources, c.transaction, transaction::source());
    add_source_if(&mut sources, c.security, security::source());
    add_source_if(&mut sources, c.crypto_weak, crypto_weak::source());
    add_source_if(&mut sources, c.generated_file, generated_file::source());
    add_source_if(&mut sources, c.test_location, test_location::source());
    add_source_if(&mut sources, c.dom_access, dom_access::source());
    add_source_if(&mut sources, c.sync_io, sync_io::source());
    add_source_if(&mut sources, c.bundle_size, bundle_size::source());
    add_source_if(&mut sources, c.test_assertion, test_assertion::source());
    add_source_if(&mut sources, c.flaky_test, flaky_test::source());
    add_source_if(&mut sources, c.sensitive_logging, sensitive_logging::source());
    sources
}

/// Compiles the enabled rules, in registration order; fails exactly when
/// `regex` refuses a pattern of an enabled rule.
pub fn load_rules(config: &Config) -> (r: Result<Vec<Rule>, PatternError>)
    ensures
        r is Ok <==> forall|i: int|
            0 <= i < enabled_models(config.rules).len() ==> rule_compiles(
                #[trigger] enabled_models(config.rules)[i],
            ),
        r matches Ok(v) ==> rules_view(v@) == enabled_models(config.rules),
        r matches Err(e) ==> !regex_compiles(e.pattern@),
{
    let sources = enabled_sources(&config.rules);
    let ghost models = sources_view(sources@);
    let mut rules: Vec<Rule> = Vec::new();
    let mut i: usize = 0;
    while i < sources.len()
        invariant
            i <= sources@.len(),
            models == sources_view(sources@),
            models == enabled_models(config.rules),
            rules@.len() == i,
            forall|j: int| 0 <= j < i ==> rule_compiles(#[trigger] models[j]),
            forall|j: int| 0 <= j < i ==> (#[trigger] rules@[j])@ == models[j],
        decreases sources@.len() - i,
    {
        match Rule::compile(&sources[i]) {
            Ok(rule) => rules.push(rule),
            Err(e) => {
                assert(models[i as int] == sources@[i as int]@);
                return Err(e);
            },
        }
        i += 1;
    }
    assert(rules_view(rules@) =~= models);
    Ok(rules)
}

/// Checking is deterministic: two runs of the same rule on the same text and
/// path report the same findings, in the same order.
pub proof fn lemma_check_deterministic(
    rule: RuleModel,
    b: Seq<u8>,
    path: Seq<char>,
    first: Seq<ViolationModel>,
    second: Seq<ViolationModel>,
)
    requires
        first == check_findings(rule.check, b, path),
        second == check_findings(rule.check, b, path),
    ensures
        first == second,
{
}

} // verus!
