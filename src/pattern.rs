//! Compiled regular expressions over byte text, from the `regex` crate.
use vstd::prelude::*;

verus! {

#[verifier::external_type_specification]
#[verifier::external_body]
pub struct ExRegex(regex::bytes::Regex);

#[verifier::external_type_specification]
#[verifier::external_body]
pub struct ExRegexError(regex::Error);

/// Whether `regex` accepts `pattern` (valid syntax, within its default size limit).
pub uninterp spec fn regex_compiles(pattern: Seq<char>) -> bool;

/// Whether `pattern` matches somewhere in `hay`.
pub uninterp spec fn regex_is_match(pattern: Seq<char>, hay: Seq<u8>) -> bool;

/// The successive non-overlapping matches of `pattern` in `hay`, as byte spans.
pub uninterp spec fn regex_find_iter(pattern: Seq<char>, hay: Seq<u8>) -> Seq<(usize, usize)>;

/// The successive non-overlapping matches of `pattern` in `hay`: the span of
/// each whole match, with the span of capture group `group` if it took part.
pub uninterp spec fn regex_captures_iter(pattern: Seq<char>, hay: Seq<u8>, group: usize) -> Seq<
    (usize, usize, Option<(usize, usize)>),
>;

/// A compiled regular expression together with its source text. Only
/// `compile_regex` builds one, so `re` is always `source` compiled.
pub struct Pattern {
    re: regex::bytes::Regex,
    source: String,
}

/// A pattern that `regex` refused.
#[derive(Debug)]
pub struct PatternError {
    pub pattern: String,
}

impl View for Pattern {
    type V = Seq<char>;

    closed spec fn view(&self) -> Seq<char> {
        self.source@
    }
}

/// Relies on regex::bytes::Regex::new: it succeeds exactly on the patterns
/// that `regex` accepts; the source is kept beside the compiled form.
#[verifier::external_body]
fn compile_regex(source: &str) -> (r: Result<Pattern, regex::Error>)
    ensures
        r is Ok <==> regex_compiles(source@),
        r matches Ok(p) ==> p@ == source@,
{
    match regex::bytes::Regex::new(source) {
        Ok(re) => Ok(Pattern { re, source: source.to_string() }),
        Err(e) => Err(e),
    }
}

impl Pattern {
    /// Compiles `source`; fails exactly when `regex` refuses it.
    pub fn new(source: &str) -> (r: Result<Pattern, PatternError>)
        ensures
            r is Ok <==> regex_compiles(source@),
            r matches Ok(p) ==> p@ == source@,
            r matches Err(e) ==> e.pattern@ == source@,
    {
        match compile_regex(source) {
            Ok(p) => Ok(p),
            Err(_) => Err(PatternError { pattern: source.to_owned() }),
        }
    }

    /// Relies on regex::bytes::Regex::is_match: whether the pattern matches anywhere in `hay`.
    #[verifier::external_body]
    pub(crate) fn is_match(&self, hay: &[u8]) -> (r: bool)
        ensures
            r == regex_is_match(self@, hay@),
    {
        self.re.is_match(hay)
    }

    /// Relies on regex::bytes::Regex::find_iter: successive non-overlapping
    /// matches, each a span of `hay`, in increasing order.
    #[verifier::external_body]
    pub(crate) fn find_spans(&self, hay: &[u8]) -> (r: Vec<(usize, usize)>)
        ensures
            r@ == regex_find_iter(self@, hay@),
            forall|i: int| 0 <= i < r@.len() ==> #[trigger] r@[i].0 <= r@[i].1 <= hay@.len(),
            forall|i: int| 0 < i < r@.len() ==> r@[i - 1].1 <= #[trigger] r@[i].0,
    {
        self.re.find_iter(hay).map(|m| (m.start(), m.end())).collect()
    }

    /// Relies on regex::bytes::Regex::captures_iter: successive non-overlapping
    /// matches, each a span of `hay`, with the span of capture group `group`.
    #[verifier::external_body]
    pub(crate) fn capture_spans(&self, hay: &[u8], group: usize) -> (r: Vec<
        (usize, usize, Option<(usize, usize)>),
    >)
        ensures
            r@ == regex_captures_iter(self@, hay@, group),
            forall|i: int| 0 <= i < r@.len() ==> #[trigger] r@[i].0 <= r@[i].1 <= hay@.len(),
            forall|i: int|
                0 <= i < r@.len() ==> (#[trigger] r@[i].2 matches Some(g) ==> g.0 <= g.1
                    <= hay@.len()),
    {
        self.re.captures_iter(hay).map(
            |c| (c.get_match().start(), c.get_match().end(), c.get(group).map(|g| (g.start(), g.end()))),
        ).collect()
    }
}

} // verus!
