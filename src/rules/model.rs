//! Rules as data: pattern sources, their compiled form, and compiling.
use vstd::prelude::*;
use super::Severity;
use crate::pattern::{regex_compiles, Pattern, PatternError};

verus! {

/// One line-pattern check of a rule, as data: the pattern searched for on
/// non-comment lines, an optional pattern the file path must match, an optional
/// pattern that must also occur in the text, and the finding to report.
pub struct LineCheckModel {
    pub pattern: Seq<char>,
    pub path_filter: Option<Seq<char>>,
    pub also_requires: Option<Seq<char>>,
    pub rule_id: Seq<char>,
    pub severity: Severity,
    pub message: Seq<char>,
}

/// What a rule checks, as data; patterns are regular-expression sources.
pub enum CheckModel {
    /// Each check reports the first non-comment line it matches; nothing is
    /// reported for paths that match `exclude`.
    Lines { exclude: Option<Seq<char>>, checks: Seq<LineCheckModel> },
    /// One finding, with no line, when the path matches any of `patterns`
    /// (and `require`, if given).
    Paths {
        require: Option<Seq<char>>,
        patterns: Seq<Seq<char>>,
        rule_id: Seq<char>,
        severity: Severity,
        message: Seq<char>,
    },
    /// Several write operations without a transaction boundary.
    Transaction { target_dir: Seq<char>, write_ops: Seq<char>, boundary: Seq<char> },
    /// Test blocks whose body holds no assertion.
    TestAssertion { test_start: Seq<char>, assertion: Seq<char> },
    /// Logging calls whose arguments name sensitive data.
    SensitiveLogging { console_call: Seq<char>, logger_call: Seq<char>, keyword: Seq<char> },
}

/// A rule as data: the pattern its file paths must match, and its check.
pub struct RuleModel {
    pub file_pattern: Seq<char>,
    pub check: CheckModel,
}

pub open spec fn opt_view(o: Option<Pattern>) -> Option<Seq<char>> {
    match o {
        Some(p) => Some(p@),
        None => None,
    }
}

pub open spec fn opt_str_view(o: Option<&'static str>) -> Option<Seq<char>> {
    match o {
        Some(p) => Some(p@),
        None => None,
    }
}

pub open spec fn strs_view(v: Seq<&'static str>) -> Seq<Seq<char>> {
    v.map_values(|p: &'static str| p@)
}

pub open spec fn patterns_view(v: Seq<Pattern>) -> Seq<Seq<char>> {
    v.map_values(|p: Pattern| p@)
}

pub open spec fn source_checks_view(v: Seq<LineCheckSource>) -> Seq<LineCheckModel> {
    v.map_values(|c: LineCheckSource| c@)
}

pub open spec fn checks_view(v: Seq<LineCheck>) -> Seq<LineCheckModel> {
    v.map_values(|c: LineCheck| c@)
}

pub open spec fn opt_compiles(o: Option<Seq<char>>) -> bool {
    o matches Some(p) ==> regex_compiles(p)
}

pub open spec fn line_check_compiles(c: LineCheckModel) -> bool {
    regex_compiles(c.pattern) && opt_compiles(c.path_filter) && opt_compiles(c.also_requires)
}

pub open spec fn check_compiles(c: CheckModel) -> bool {
    match c {
        CheckModel::Lines { exclude, checks } => opt_compiles(exclude) && forall|i: int|
            0 <= i < checks.len() ==> line_check_compiles(#[trigger] checks[i]),
        CheckModel::Paths { require, patterns, .. } => opt_compiles(require) && forall|i: int|
            0 <= i < patterns.len() ==> regex_compiles(#[trigger] patterns[i]),
        CheckModel::Transaction { target_dir, write_ops, boundary } => regex_compiles(target_dir)
            && regex_compiles(write_ops) && regex_compiles(boundary),
        CheckModel::TestAssertion { test_start, assertion } => regex_compiles(test_start)
            && regex_compiles(assertion),
        CheckModel::SensitiveLogging { console_call, logger_call, keyword } => regex_compiles(
            console_call,
        ) && regex_compiles(logger_call) && regex_compiles(keyword),
    }
}

/// Every pattern of the rule is accepted by `regex`.
pub open spec fn rule_compiles(m: RuleModel) -> bool {
    regex_compiles(m.file_pattern) && check_compiles(m.check)
}

/// A line check written down with pattern sources.
pub struct LineCheckSource {
    pub pattern: &'static str,
    pub path_filter: Option<&'static str>,
    pub also_requires: Option<&'static str>,
    pub rule_id: &'static str,
    pub severity: Severity,
    pub message: &'static str,
}

/// A check written down with pattern sources.
pub enum CheckSource {
    Lines { exclude: Option<&'static str>, checks: Vec<LineCheckSource> },
    Paths {
        require: Option<&'static str>,
        patterns: Vec<&'static str>,
        rule_id: &'static str,
        severity: Severity,
        message: &'static str,
    },
    Transaction { target_dir: &'static str, write_ops: &'static str, boundary: &'static str },
    TestAssertion { test_start: &'static str, assertion: &'static str },
    SensitiveLogging {
        console_call: &'static str,
        logger_call: &'static str,
        keyword: &'static str,
    },
}

/// A rule written down with pattern sources, before compiling.
pub struct RuleSource {
    pub file_pattern: &'static str,
    pub check: CheckSource,
}

impl View for LineCheckSource {
    type V = LineCheckModel;

    open spec fn view(&self) -> LineCheckModel {
        LineCheckModel {
            pattern: self.pattern@,
            path_filter: opt_str_view(self.path_filter),
            also_requires: opt_str_view(self.also_requires),
            rule_id: self.rule_id@,
            severity: self.severity,
            message: self.message@,
        }
    }
}

impl View for CheckSource {
    type V = CheckModel;

    open spec fn view(&self) -> CheckModel {
        match self {
            CheckSource::Lines { exclude, checks } => CheckModel::Lines {
                exclude: opt_str_view(*exclude),
                checks: source_checks_view(checks@),
            },
            CheckSource::Paths { require, patterns, rule_id, severity, message } => CheckModel::Paths {
                require: opt_str_view(*require),
                patterns: strs_view(patterns@),
                rule_id: rule_id@,
                severity: *severity,
                message: message@,
            },
            CheckSource::Transaction { target_dir, write_ops, boundary } => CheckModel::Transaction {
                target_dir: target_dir@,
                write_ops: write_ops@,
                boundary: boundary@,
            },
            CheckSource::TestAssertion { test_start, assertion } => CheckModel::TestAssertion {
                test_start: test_start@,
                assertion: assertion@,
            },
            CheckSource::SensitiveLogging { console_call, logger_call, keyword } =>
                CheckModel::SensitiveLogging {
                console_call: console_call@,
                logger_call: logger_call@,
                keyword: keyword@,
            },
        }
    }
}

impl View for RuleSource {
    type V = RuleModel;

    open spec fn view(&self) -> RuleModel {
        RuleModel { file_pattern: self.file_pattern@, check: self.check@ }
    }
}

/// A compiled line check.
pub struct LineCheck {
    pub pattern: Pattern,
    pub path_filter: Option<Pattern>,
    pub also_requires: Option<Pattern>,
    pub rule_id: String,
    pub severity: Severity,
    pub message: String,
}

/// A compiled check.
pub enum Check {
    Lines { exclude: Option<Pattern>, checks: Vec<LineCheck> },
    Paths {
        require: Option<Pattern>,
        patterns: Vec<Pattern>,
        rule_id: String,
        severity: Severity,
        message: String,
    },
    Transaction { target_dir: Pattern, write_ops: Pattern, boundary: Pattern },
    TestAssertion { test_start: Pattern, assertion: Pattern },
    SensitiveLogging { console_call: Pattern, logger_call: Pattern, keyword: Pattern },
}

/// A compiled rule: which file paths it applies to, and what it checks.
pub struct Rule {
    pub file_pattern: Pattern,
    pub check: Check,
}

impl View for LineCheck {
    type V = LineCheckModel;

    open spec fn view(&self) -> LineCheckModel {
        LineCheckModel {
            pattern: self.pattern@,
            path_filter: opt_view(self.path_filter),
            also_requires: opt_view(self.also_requires),
            rule_id: self.rule_id@,
            severity: self.severity,
            message: self.message@,
        }
    }
}

impl View for Check {
    type V = CheckModel;

    open spec fn view(&self) -> CheckModel {
        match self {
            Check::Lines { exclude, checks } => CheckModel::Lines {
                exclude: opt_view(*exclude),
                checks: checks_view(checks@),
            },
            Check::Paths { require, patterns, rule_id, severity, message } => CheckModel::Paths {
                require: opt_view(*require),
                patterns: patterns_view(patterns@),
                rule_id: rule_id@,
                severity: *severity,
                message: message@,
            },
            Check::Transaction { target_dir, write_ops, boundary } => CheckModel::Transaction {
                target_dir: target_dir@,
                write_ops: write_ops@,
                boundary: boundary@,
            },
            Check::TestAssertion { test_start, assertion } => CheckModel::TestAssertion {
                test_start: test_start@,
                assertion: assertion@,
            },
            Check::SensitiveLogging { console_call, logger_call, keyword } =>
                CheckModel::SensitiveLogging {
                console_call: console_call@,
                logger_call: logger_call@,
                keyword: keyword@,
            },
        }
    }
}

impl View for Rule {
    type V = RuleModel;

    open spec fn view(&self) -> RuleModel {
        RuleModel { file_pattern: self.file_pattern@, check: self.check@ }
    }
}

fn compile_opt(src: Option<&'static str>) -> (r: Result<Option<Pattern>, PatternError>)
    ensures
        r is Ok <==> opt_compiles(opt_str_view(src)),
        r matches Ok(p) ==> opt_view(p) == opt_str_view(src),
        r matches Err(e) ==> !regex_compiles(e.pattern@),
{
    match src {
        Some(s) => match Pattern::new(s) {
            Ok(p) => Ok(Some(p)),
            Err(e) => Err(e),
        },
        None => Ok(None),
    }
}

fn compile_line_check(src: &LineCheckSource) -> (r: Result<LineCheck, PatternError>)
    ensures
        r is Ok <==> line_check_compiles(src@),
        r matches Ok(c) ==> c@ == src@,
        r matches Err(e) ==> !regex_compiles(e.pattern@),
{
    let pattern = match Pattern::new(src.pattern) {
        Ok(p) => p,
        Err(e) => return Err(e),
    };
    let path_filter = match compile_opt(src.path_filter) {
        Ok(p) => p,
        Err(e) => return Err(e),
    };
    let also_requires = match compile_opt(src.also_requires) {
        Ok(p) => p,
        Err(e) => return Err(e),
    };
    Ok(
        LineCheck {
            pattern,
            path_filter,
            also_requires,
            rule_id: src.rule_id.to_owned(),
            severity: src.severity,
            message: src.message.to_owned(),
        },
    )
}

fn compile_line_checks(srcs: &Vec<LineCheckSource>) -> (r: Result<Vec<LineCheck>, PatternError>)
    ensures
        r is Ok <==> forall|i: int|
            0 <= i < source_checks_view(srcs@).len() ==> line_check_compiles(
                #[trigger] source_checks_view(srcs@)[i],
            ),
        r matches Ok(v) ==> checks_view(v@) == source_checks_view(srcs@),
        r matches Err(e) ==> !regex_compiles(e.pattern@),
{
    let mut out: Vec<LineCheck> = Vec::new();
    let mut i: usize = 0;
    while i < srcs.len()
        invariant
            i <= srcs@.len(),
            out@.len() == i,
            forall|j: int|
                0 <= j < i ==> line_check_compiles(
                    #[trigger] source_checks_view(srcs@)[j],
                ),
            forall|j: int| 0 <= j < i ==> (#[trigger] out@[j])@ == srcs@[j]@,
        decreases srcs@.len() - i,
    {
        match compile_line_check(&srcs[i]) {
            Ok(c) => out.push(c),
            Err(e) => {
                assert(source_checks_view(srcs@)[i as int] == srcs@[i as int]@);
                return Err(e);
            },
        }
        i += 1;
    }
    assert(checks_view(out@) =~= source_checks_view(srcs@));
    Ok(out)
}

fn compile_patterns(srcs: &Vec<&'static str>) -> (r: Result<Vec<Pattern>, PatternError>)
    ensures
        r is Ok <==> forall|i: int|
            0 <= i < strs_view(srcs@).len() ==> regex_compiles(
                #[trigger] strs_view(srcs@)[i],
            ),
        r matches Ok(v) ==> patterns_view(v@) == strs_view(srcs@),
        r matches Err(e) ==> !regex_compiles(e.pattern@),
{
    let mut out: Vec<Pattern> = Vec::new();
    let mut i: usize = 0;
    while i < srcs.len()
        invariant
            i <= srcs@.len(),
            out@.len() == i,
            forall|j: int|
                0 <= j < i ==> regex_compiles(#[trigger] strs_view(srcs@)[j]),
            forall|j: int| 0 <= j < i ==> (#[trigger] out@[j])@ == srcs@[j]@,
        decreases srcs@.len() - i,
    {
        match Pattern::new(srcs[i]) {
            Ok(p) => out.push(p),
            Err(e) => {
                assert(strs_view(srcs@)[i as int] == srcs@[i as int]@);
                return Err(e);
            },
        }
        i += 1;
    }
    assert(patterns_view(out@) =~= strs_view(srcs@));
    Ok(out)
}

fn compile_check(src: &CheckSource) -> (r: Result<Check, PatternError>)
    ensures
        r is Ok <==> check_compiles(src@),
        r matches Ok(c) ==> c@ == src@,
        r matches Err(e) ==> !regex_compiles(e.pattern@),
{
    match src {
        CheckSource::Lines { exclude, checks } => {
            let exclude = match compile_opt(*exclude) {
                Ok(p) => p,
                Err(e) => return Err(e),
            };
            let checks = match compile_line_checks(checks) {
                Ok(v) => v,
                Err(e) => {
                    assert(src@ matches CheckModel::Lines { checks: c, .. } && c
                        == source_checks_view(checks@));
                    return Err(e);
                },
            };
            Ok(Check::Lines { exclude, checks })
        },
        CheckSource::Paths { require, patterns, rule_id, severity, message } => {
            let require = match compile_opt(*require) {
                Ok(p) => p,
                Err(e) => return Err(e),
            };
            let patterns = match compile_patterns(patterns) {
                Ok(v) => v,
                Err(e) => {
                    assert(src@ matches CheckModel::Paths { patterns: ps, .. } && ps == strs_view(
                        patterns@,
                    ));
                    return Err(e);
                },
            };
            Ok(
                Check::Paths {
                    require,
                    patterns,
                    rule_id: (*rule_id).to_owned(),
                    severity: *severity,
                    message: (*message).to_owned(),
                },
            )
        },
        CheckSource::Transaction { target_dir, write_ops, boundary } => {
            let target_dir = match Pattern::new(target_dir) {
                Ok(p) => p,
                Err(e) => return Err(e),
            };
            let write_ops = match Pattern::new(write_ops) {
                Ok(p) => p,
                Err(e) => return Err(e),
            };
            let boundary = match Pattern::new(boundary) {
                Ok(p) => p,
                Err(e) => return Err(e),
            };
            Ok(Check::Transaction { target_dir, write_ops, boundary })
        },
        CheckSource::TestAssertion { test_start, assertion } => {
            let test_start = match Pattern::new(test_start) {
                Ok(p) => p,
                Err(e) => return Err(e),
            };
            let assertion = match Pattern::new(assertion) {
                Ok(p) => p,
                Err(e) => return Err(e),
            };
            Ok(Check::TestAssertion { test_start, assertion })
        },
        CheckSource::SensitiveLogging { console_call, logger_call, keyword } => {
            let console_call = match Pattern::new(console_call) {
                Ok(p) => p,
                Err(e) => return Err(e),
            };
            let logger_call = match Pattern::new(logger_call) {
                Ok(p) => p,
                Err(e) => return Err(e),
            };
            let keyword = match Pattern::new(keyword) {
                Ok(p) => p,
                Err(e) => return Err(e),
            };
            Ok(Check::SensitiveLogging { console_call, logger_call, keyword })
        },
    }
}

impl Rule {
    /// Compiles every pattern of `src`; fails exactly when `regex` refuses one of them.
    pub fn compile(src: &RuleSource) -> (r: Result<Rule, PatternError>)
        ensures
            r is Ok <==> rule_compiles(src@),
            r matches Ok(rule) ==> rule@ == src@,
            r matches Err(e) ==> !regex_compiles(e.pattern@),
    {
        let file_pattern = match Pattern::new(src.file_pattern) {
            Ok(p) => p,
            Err(e) => return Err(e),
        };
        let check = match compile_check(&src.check) {
            Ok(c) => c,
            Err(e) => return Err(e),
        };
        Ok(Rule { file_pattern, check })
    }
}

} // verus!
