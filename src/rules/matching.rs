//! Line-by-line matching that skips lines starting with a comment marker.
use vstd::prelude::*;
use crate::extract::line_end;
use crate::lines::{
    code_lines, code_lines_from, comment_line, line_content_end, lines_view, non_comment_lines,
};
use crate::pattern::{regex_is_match, Pattern};

verus! {

/// The number of the first line in `ls` on which `pattern` matches.
pub open spec fn first_match(pattern: Seq<char>, b: Seq<u8>, ls: Seq<(int, int, int)>) -> Option<int>
    decreases ls.len(),
{
    if ls.len() == 0 {
        None
    } else if regex_is_match(pattern, b.subrange(ls[0].1, ls[0].2)) {
        Some(ls[0].0)
    } else {
        first_match(pattern, b, ls.drop_first())
    }
}

/// How many lines of `ls` `pattern` matches on.
pub open spec fn count_matches(pattern: Seq<char>, b: Seq<u8>, ls: Seq<(int, int, int)>) -> nat
    decreases ls.len(),
{
    if ls.len() == 0 {
        0
    } else {
        count_matches(pattern, b, ls.drop_first()) + if regex_is_match(
            pattern,
            b.subrange(ls[0].1, ls[0].2),
        ) {
            1nat
        } else {
            0nat
        }
    }
}

/// The first non-comment line of `b` on which `pattern` matches.
pub open spec fn find_line(pattern: Seq<char>, b: Seq<u8>) -> Option<int> {
    first_match(pattern, b, code_lines(b))
}

pub open spec fn line_number(n: Option<int>) -> Option<u32> {
    match n {
        Some(k) => Some(#[verifier::truncate] (k as u32)),
        None => None,
    }
}

/// The 1-based number of the first line that does not start with a comment
/// marker and on which `pattern` matches.
pub fn find_non_comment_match(content: &[u8], pattern: &Pattern) -> (r: Option<u32>)
    ensures
        r == line_number(find_line(pattern@, content@)),
{
    let lines = non_comment_lines(content);
    let ghost ls = code_lines(content@);
    assert(ls.skip(0) =~= ls);
    assert(forall|j: int|
        0 <= j < lines@.len() ==> #[trigger] lines@[j].start <= lines@[j].end <= content@.len());
    let mut i: usize = 0;
    while i < lines.len()
        invariant
            i <= lines@.len(),
            ls == lines_view(lines@),
            ls == code_lines(content@),
            forall|j: int|
                0 <= j < lines@.len() ==> #[trigger] lines@[j].start <= lines@[j].end
                    <= content@.len(),
            first_match(pattern@, content@, ls) == first_match(
                pattern@,
                content@,
                ls.skip(i as int),
            ),
        decreases lines@.len() - i,
    {
        let line = &lines[i];
        assert(ls.skip(i as int)[0] == (line.number as int, line.start as int, line.end as int));
        let text = &content[line.start..line.end];
        assert(text@ == content@.subrange(line.start as int, line.end as int));
        if pattern.is_match(text) {
            return Some(#[verifier::truncate] (line.number as u32));
        }
        assert(ls.skip(i as int).drop_first() =~= ls.skip(i + 1));
        i += 1;
    }
    None
}

/// How many lines that do not start with a comment marker `pattern` matches on.
pub fn count_non_comment_matches(content: &[u8], pattern: &Pattern) -> (r: usize)
    ensures
        r == count_matches(pattern@, content@, code_lines(content@)),
{
    let lines = non_comment_lines(content);
    let ghost ls = code_lines(content@);
    assert(ls.skip(0) =~= ls);
    assert(forall|j: int|
        0 <= j < lines@.len() ==> #[trigger] lines@[j].start <= lines@[j].end <= content@.len());
    let mut i: usize = 0;
    let mut count: usize = 0;
    while i < lines.len()
        invariant
            i <= lines@.len(),
            count <= i,
            ls == lines_view(lines@),
            ls == code_lines(content@),
            forall|j: int|
                0 <= j < lines@.len() ==> #[trigger] lines@[j].start <= lines@[j].end
                    <= content@.len(),
            count + count_matches(pattern@, content@, ls.skip(i as int)) == count_matches(
                pattern@,
                content@,
                ls,
            ),
        decreases lines@.len() - i,
    {
        let line = &lines[i];
        assert(ls.skip(i as int)[0] == (line.number as int, line.start as int, line.end as int));
        assert(ls.skip(i as int).drop_first() =~= ls.skip(i + 1));
        if pattern.is_match(&content[line.start..line.end]) {
            count += 1;
        }
        i += 1;
    }
    assert(ls.skip(i as int) =~= Seq::<(int, int, int)>::empty());
    count
}

/// Every line of `b` from offset `p` on, as (start, end), split as `str::lines` splits.
pub open spec fn lines_from(b: Seq<u8>, p: int) -> Seq<(int, int)>
    decreases b.len() - p,
{
    if p < 0 || p >= b.len() {
        Seq::empty()
    } else {
        let e = line_end(b, p);
        let rest = if p <= e < b.len() {
            lines_from(b, e + 1)
        } else {
            Seq::empty()
        };
        seq![(p, line_content_end(b, p, e))] + rest
    }
}

/// The pattern matches only lines that start with a comment marker.
pub open spec fn matches_only_in_comments(pattern: Seq<char>, b: Seq<u8>) -> bool {
    forall|i: int|
        0 <= i < lines_from(b, 0).len() && regex_is_match(
            pattern,
            b.subrange(#[trigger] lines_from(b, 0)[i].0, lines_from(b, 0)[i].1),
        ) ==> comment_line(b.subrange(lines_from(b, 0)[i].0, lines_from(b, 0)[i].1))
}

proof fn lemma_code_lines_are_lines(b: Seq<u8>, p: int, n: int)
    requires
        0 <= p,
    ensures
        forall|i: int|
            0 <= i < code_lines_from(b, p, n).len() ==> {
                let l = #[trigger] code_lines_from(b, p, n)[i];
                &&& !comment_line(b.subrange(l.1, l.2))
                &&& exists|k: int|
                    0 <= k < lines_from(b, p).len() && #[trigger] lines_from(b, p)[k] == (l.1, l.2)
            },
    decreases b.len() - p,
{
    if p < b.len() {
        let e = line_end(b, p);
        if p <= e < b.len() {
            lemma_code_lines_are_lines(b, e + 1, n + 1);
            let rest = lines_from(b, e + 1);
            assert forall|k: int| 0 <= k < rest.len() implies lines_from(b, p)[k + 1] == rest[k] by {
            }
        }
        let cl = code_lines_from(b, p, n);
        assert forall|i: int| 0 <= i < cl.len() implies {
            let l = #[trigger] cl[i];
            &&& !comment_line(b.subrange(l.1, l.2))
            &&& exists|k: int|
                0 <= k < lines_from(b, p).len() && #[trigger] lines_from(b, p)[k] == (l.1, l.2)
        } by {
            let end = line_content_end(b, p, e);
            if !comment_line(b.subrange(p, end)) && i == 0 {
                assert(lines_from(b, p)[0] == (p, end));
            } else if p <= e < b.len() {
                let j = if comment_line(b.subrange(p, end)) { i } else { i - 1 };
                assert(cl[i] == code_lines_from(b, e + 1, n + 1)[j]);
                let l = cl[i];
                let k = choose|k: int|
                    0 <= k < lines_from(b, e + 1).len() && #[trigger] lines_from(b, e + 1)[k] == (
                        l.1,
                        l.2,
                    );
                assert(lines_from(b, p)[k + 1] == (l.1, l.2));
            }
        }
    }
}

proof fn lemma_no_code_match(pattern: Seq<char>, b: Seq<u8>, ls: Seq<(int, int, int)>)
    requires
        forall|i: int|
            0 <= i < ls.len() ==> !regex_is_match(pattern, b.subrange(#[trigger] ls[i].1, ls[i].2)),
    ensures
        first_match(pattern, b, ls) is None,
        count_matches(pattern, b, ls) == 0,
    decreases ls.len(),
{
    if ls.len() > 0 {
        assert forall|i: int| 0 <= i < ls.drop_first().len() implies !regex_is_match(
            pattern,
            b.subrange(#[trigger] ls.drop_first()[i].1, ls.drop_first()[i].2),
        ) by {
            assert(ls.drop_first()[i] == ls[i + 1]);
        }
        assert(!regex_is_match(pattern, b.subrange(ls[0].1, ls[0].2)));
        lemma_no_code_match(pattern, b, ls.drop_first());
    }
}

/// Comment suppression on line checks: a pattern that matches only lines that
/// start with a comment marker (`//`, `/*`, `* `, a lone `*`) is never reported
/// and never counted.
pub proof fn lemma_comment_lines_never_match(pattern: Seq<char>, b: Seq<u8>)
    requires
        matches_only_in_comments(pattern, b),
    ensures
        find_line(pattern, b) is None,
        count_matches(pattern, b, code_lines(b)) == 0,
{
    lemma_code_lines_are_lines(b, 0, 1);
    let ls = code_lines(b);
    assert forall|i: int| 0 <= i < ls.len() implies !regex_is_match(
        pattern,
        b.subrange(#[trigger] ls[i].1, ls[i].2),
    ) by {
        let l = ls[i];
        let k = choose|k: int|
            0 <= k < lines_from(b, 0).len() && #[trigger] lines_from(b, 0)[k] == (l.1, l.2);
        assert(lines_from(b, 0)[k].0 == l.1);
    }
    lemma_no_code_match(pattern, b, ls);
}

} // verus!
