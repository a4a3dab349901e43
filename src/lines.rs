//! Line index: newline offsets and offset-to-line lookup.
use vstd::prelude::*;
use crate::extract::line_end;
use crate::scanner::{NEWLINE, SLASH, STAR};
use vstd::string::StringSliceAdditionalSpecFns;

verus! {

/// Offsets of the newline bytes among the first `n` bytes, in increasing order.
pub open spec fn newlines_upto(b: Seq<u8>, n: int) -> Seq<usize>
    decreases n,
{
    if n <= 0 {
        Seq::empty()
    } else if b[n - 1] == NEWLINE {
        newlines_upto(b, n - 1).push((n - 1) as usize)
    } else {
        newlines_upto(b, n - 1)
    }
}

/// How many newline bytes stand before offset `o`.
pub open spec fn count_newlines(b: Seq<u8>, o: int) -> nat
    decreases o,
{
    if o <= 0 {
        0
    } else {
        count_newlines(b, o - 1) + if b[o - 1] == NEWLINE { 1nat } else { 0nat }
    }
}

pub open spec fn strictly_increasing(s: Seq<usize>) -> bool {
    forall|i: int, j: int| 0 <= i < j < s.len() ==> s[i] < s[j]
}

pub proof fn lemma_newlines_upto(b: Seq<u8>, n: int)
    requires
        0 <= n <= b.len(),
        b.len() <= usize::MAX,
    ensures
        strictly_increasing(newlines_upto(b, n)),
        newlines_upto(b, n).len() == count_newlines(b, n),
        forall|i: int| 0 <= i < newlines_upto(b, n).len() ==> #[trigger] newlines_upto(b, n)[i] < n,
        forall|i: int|
            0 <= i < newlines_upto(b, n).len() ==> b[#[trigger] newlines_upto(b, n)[i] as int]
                == NEWLINE,
    decreases n,
{
    if n > 0 {
        lemma_newlines_upto(b, n - 1);
    }
}

/// The newlines before `m` are a prefix of those before `n`; the rest lie at or after `m`.
proof fn lemma_newlines_prefix(b: Seq<u8>, m: int, n: int)
    requires
        0 <= m <= n <= b.len(),
        b.len() <= usize::MAX,
    ensures
        newlines_upto(b, m).len() <= newlines_upto(b, n).len(),
        newlines_upto(b, m) == newlines_upto(b, n).subrange(0, newlines_upto(b, m).len() as int),
        forall|i: int|
            newlines_upto(b, m).len() <= i < newlines_upto(b, n).len() ==> #[trigger] newlines_upto(
                b,
                n,
            )[i] >= m,
    decreases n - m,
{
    if m < n {
        lemma_newlines_prefix(b, m, n - 1);
        lemma_newlines_upto(b, n - 1);
        assert(newlines_upto(b, n - 1) =~= newlines_upto(b, n).subrange(
            0,
            newlines_upto(b, n - 1).len() as int,
        ));
        assert(newlines_upto(b, m) =~= newlines_upto(b, n).subrange(
            0,
            newlines_upto(b, m).len() as int,
        ));
    } else {
        assert(newlines_upto(b, m) =~= newlines_upto(b, n).subrange(
            0,
            newlines_upto(b, m).len() as int,
        ));
    }
}

/// The text's newline offsets are increasing and no more numerous than its bytes.
pub proof fn lemma_newlines_count(b: Seq<u8>)
    requires
        b.len() <= usize::MAX,
    ensures
        strictly_increasing(newlines_upto(b, b.len() as int)),
        newlines_upto(b, b.len() as int).len() <= b.len(),
{
    lemma_newlines_upto(b, b.len() as int);
    lemma_count_bound(b, b.len() as int);
}

proof fn lemma_count_bound(b: Seq<u8>, n: int)
    requires
        0 <= n <= b.len(),
    ensures
        count_newlines(b, n) <= n,
    decreases n,
{
    if n > 0 {
        lemma_count_bound(b, n - 1);
    }
}

/// Offsets of every newline byte of `content`, in increasing order.
pub fn build_line_offsets(content: &str) -> (r: Vec<usize>)
    ensures
        r@ == newlines_upto(content.spec_bytes(), content.spec_bytes().len() as int),
        strictly_increasing(r@),
{
    let bytes = content.as_bytes();
    let mut r: Vec<usize> = Vec::new();
    let mut i: usize = 0;
    while i < bytes.len()
        invariant
            i <= bytes@.len(),
            bytes@ == content.spec_bytes(),
            r@ == newlines_upto(bytes@, i as int),
        decreases bytes@.len() - i,
    {
        if bytes[i] == NEWLINE {
            r.push(i);
        }
        i += 1;
    }
    proof {
        lemma_newlines_upto(bytes@, bytes@.len() as int);
    }
    r
}

/// The 1-based line holding byte `offset`, given the sorted newline offsets:
/// one more than the number of newlines strictly before `offset`, so that a
/// newline belongs to the line it ends. The requirement says that the line
/// number fits in a `usize`.
pub fn offset_to_line(offsets: &[usize], offset: usize) -> (r: usize)
    requires
        strictly_increasing(offsets@),
        offsets@.len() < usize::MAX || offset < usize::MAX,
    ensures
        1 <= r <= offsets@.len() + 1,
        forall|i: int| 0 <= i < r - 1 ==> #[trigger] offsets@[i] < offset,
        forall|i: int| r - 1 <= i < offsets@.len() ==> #[trigger] offsets@[i] >= offset,
{
    newlines_before(offsets, offset) + 1
}


proof fn lemma_increasing_at_least_index(s: Seq<usize>, i: int)
    requires
        strictly_increasing(s),
        0 <= i < s.len(),
    ensures
        s[i] >= i,
    decreases i,
{
    if i > 0 {
        lemma_increasing_at_least_index(s, i - 1);
    }
}

/// How many of the sorted newline offsets lie strictly before `offset`.
pub fn newlines_before(offsets: &[usize], offset: usize) -> (r: usize)
    requires
        strictly_increasing(offsets@),
    ensures
        r <= offsets@.len(),
        r <= offset,
        forall|i: int| 0 <= i < r ==> #[trigger] offsets@[i] < offset,
        forall|i: int| r <= i < offsets@.len() ==> #[trigger] offsets@[i] >= offset,
{
    let mut lo: usize = 0;
    let mut hi: usize = offsets.len();
    while lo < hi
        invariant
            lo <= hi <= offsets@.len(),
            strictly_increasing(offsets@),
            forall|i: int| 0 <= i < lo ==> #[trigger] offsets@[i] < offset,
            forall|i: int| hi <= i < offsets@.len() ==> #[trigger] offsets@[i] >= offset,
        decreases hi - lo,
    {
        let mid = lo + (hi - lo) / 2;
        if offsets[mid] < offset {
            lo = mid + 1;
        } else {
            hi = mid;
        }
    }
    if lo > 0 {
        proof {
            lemma_increasing_at_least_index(offsets@, lo - 1);
        }
    }
    lo
}

/// The line number that follows `n` newlines, as a `u32` that wraps like `as u32`.
pub fn line_u32(n: usize) -> (r: u32)
    ensures
        r == #[verifier::truncate] ((n as int + 1) as u32),
{
    let low = #[verifier::truncate] (n as u32);
    let r = low.wrapping_add(1);
    assert(r == #[verifier::truncate] ((n as int + 1) as u32)) by (bit_vector)
        requires low == #[verifier::truncate] (n as u32), r == low.wrapping_add(1);
    r
}

/// Looking up any offset up to the text's length in the text's own index gives
/// one more than the number of newline bytes strictly before that offset.
pub proof fn lemma_line_lookup(b: Seq<u8>, o: int, line: int)
    requires
        b.len() <= usize::MAX,
        0 <= o <= b.len(),
        1 <= line <= newlines_upto(b, b.len() as int).len() + 1,
        forall|i: int| 0 <= i < line - 1 ==> #[trigger] newlines_upto(b, b.len() as int)[i] < o,
        forall|i: int|
            line - 1 <= i < newlines_upto(b, b.len() as int).len() ==> #[trigger] newlines_upto(
                b,
                b.len() as int,
            )[i] >= o,
    ensures
        line == 1 + count_newlines(b, o),
{
    let all = newlines_upto(b, b.len() as int);
    let pre = newlines_upto(b, o);
    lemma_newlines_prefix(b, o, b.len() as int);
    lemma_newlines_upto(b, o);
    lemma_newlines_upto(b, b.len() as int);
    if line - 1 < pre.len() {
        assert(all[line - 1] == pre[line - 1]);
        assert(all[line - 1] >= o);
    }
    if line - 1 > pre.len() {
        assert(all[pre.len() as int] < o);
    }
}

pub const SPACE: u8 = 0x20;
pub const CARRIAGE_RETURN: u8 = 0x0d;

/// Byte length of the whitespace character whose UTF-8 encoding starts at `i`,
/// or 0 if none does. The whitespace characters are those of Unicode's
/// White_Space property, which `char::is_whitespace` and `str::trim_start` use.
pub open spec fn ws_len(b: Seq<u8>, i: int) -> int {
    if i < 0 || i >= b.len() {
        0
    } else if b[i] == SPACE || (0x09 <= b[i] <= 0x0d) {
        1
    } else if b[i] == 0xc2 && i + 1 < b.len() && (b[i + 1] == 0x85 || b[i + 1] == 0xa0) {
        2
    } else if i + 2 < b.len() && ((b[i] == 0xe1 && b[i + 1] == 0x9a && b[i + 2] == 0x80) || (b[i]
        == 0xe2 && b[i + 1] == 0x80 && ((0x80 <= b[i + 2] <= 0x8a) || b[i + 2] == 0xa8 || b[i + 2]
        == 0xa9 || b[i + 2] == 0xaf)) || (b[i] == 0xe2 && b[i + 1] == 0x81 && b[i + 2] == 0x9f) || (
    b[i] == 0xe3 && b[i + 1] == 0x80 && b[i + 2] == 0x80)) {
        3
    } else {
        0
    }
}

/// Where the text `b` resumes after the whitespace that starts at `i`.
pub open spec fn skip_ws(b: Seq<u8>, i: int) -> int
    decreases b.len() - i,
{
    if 0 <= i && ws_len(b, i) > 0 {
        skip_ws(b, i + ws_len(b, i))
    } else {
        i
    }
}

/// `line` without its leading whitespace.
pub open spec fn trim_start(line: Seq<u8>) -> Seq<u8> {
    line.subrange(skip_ws(line, 0), line.len() as int)
}

proof fn lemma_skip_ws(b: Seq<u8>, i: int)
    requires
        0 <= i <= b.len(),
    ensures
        i <= skip_ws(b, i) <= b.len(),
    decreases b.len() - i,
{
    if ws_len(b, i) > 0 {
        lemma_skip_ws(b, i + ws_len(b, i));
    }
}

fn ws_len_at(b: &[u8], i: usize) -> (r: usize)
    ensures
        r == ws_len(b@, i as int),
        i < b@.len() ==> r <= b@.len() - i,
        i >= b@.len() ==> r == 0,
{
    let n = b.len();
    if i >= n {
        return 0;
    }
    let c = b[i];
    if c == SPACE || (0x09 <= c && c <= 0x0d) {
        1
    } else if c == 0xc2 && n - i > 1 && (b[i + 1] == 0x85 || b[i + 1] == 0xa0) {
        2
    } else if n - i > 2 && ((c == 0xe1 && b[i + 1] == 0x9a && b[i + 2] == 0x80) || (c == 0xe2
        && b[i + 1] == 0x80 && ((0x80 <= b[i + 2] && b[i + 2] <= 0x8a) || b[i + 2] == 0xa8 || b[i
        + 2] == 0xa9 || b[i + 2] == 0xaf)) || (c == 0xe2 && b[i + 1] == 0x81 && b[i + 2] == 0x9f)
        || (c == 0xe3 && b[i + 1] == 0x80 && b[i + 2] == 0x80)) {
        3
    } else {
        0
    }
}

/// The offset in `line` at which its text starts after leading whitespace.
pub fn trim_start_offset(line: &[u8]) -> (r: usize)
    ensures
        r == skip_ws(line@, 0),
        r <= line@.len(),
{
    let len = line.len();
    let mut i: usize = 0;
    let mut w = ws_len_at(line, 0);
    while w > 0
        invariant
            len == line@.len(),
            i <= line@.len(),
            w == ws_len(line@, i as int),
            i < line@.len() ==> w <= line@.len() - i,
            i >= line@.len() ==> w == 0,
            skip_ws(line@, i as int) == skip_ws(line@, 0),
        decreases line@.len() - i,
    {
        i += w;
        w = ws_len_at(line, i);
    }
    i
}

/// A line that, after leading whitespace, starts with `//`, `/*` or `* `, or is a lone `*`.
pub open spec fn comment_line(line: Seq<u8>) -> bool {
    let t = trim_start(line);
    ||| (t.len() >= 2 && t[0] == SLASH && (t[1] == SLASH || t[1] == STAR))
    ||| (t.len() >= 2 && t[0] == STAR && t[1] == SPACE)
    ||| (t.len() == 1 && t[0] == STAR)
}

/// Whether the line starts with a comment marker once leading whitespace is
/// trimmed. Comments that start later on the line are not detected.
pub fn starts_with_comment(line: &[u8]) -> (r: bool)
    ensures
        r == comment_line(line@),
{
    let i = trim_start_offset(line);
    proof {
        lemma_skip_ws(line@, 0);
    }
    let rest = line.len() - i;
    (rest >= 2 && line[i] == SLASH && (line[i + 1] == SLASH || line[i + 1] == STAR)) || (rest >= 2
        && line[i] == STAR && line[i + 1] == SPACE) || (rest == 1 && line[i] == STAR)
}

/// The end of the line that starts at `p` and whose newline (or the text's end) is at `e`:
/// a carriage return just before the newline is not part of the line.
pub open spec fn line_content_end(b: Seq<u8>, p: int, e: int) -> int {
    if p < e < b.len() && b[e - 1] == CARRIAGE_RETURN {
        e - 1
    } else {
        e
    }
}

/// The lines from offset `p` on that are not comment lines, each as
/// (1-based line number, start, end), numbering the line at `p` as `n`. Lines
/// split as `str::lines` splits them: at each newline, without a carriage
/// return before it, and with no empty line after a final newline.
pub open spec fn code_lines_from(b: Seq<u8>, p: int, n: int) -> Seq<(int, int, int)>
    decreases b.len() - p,
{
    if p < 0 || p >= b.len() {
        Seq::empty()
    } else {
        let e = line_end(b, p);
        let end = line_content_end(b, p, e);
        let rest = if p <= e < b.len() {
            code_lines_from(b, e + 1, n + 1)
        } else {
            Seq::empty()
        };
        if comment_line(b.subrange(p, end)) {
            rest
        } else {
            seq![(n, p, end)] + rest
        }
    }
}

/// The non-comment lines of `b`, numbered from 1.
pub open spec fn code_lines(b: Seq<u8>) -> Seq<(int, int, int)> {
    code_lines_from(b, 0, 1)
}

/// A line of text: its 1-based number and its byte span.
pub struct TextLine {
    pub number: usize,
    pub start: usize,
    pub end: usize,
}

impl View for TextLine {
    type V = (int, int, int);

    open spec fn view(&self) -> (int, int, int) {
        (self.number as int, self.start as int, self.end as int)
    }
}

pub open spec fn lines_view(v: Seq<TextLine>) -> Seq<(int, int, int)> {
    v.map_values(|t: TextLine| t@)
}

/// The lines of `content` that do not start with a comment marker, with their
/// 1-based numbers, in order.
pub fn non_comment_lines(content: &[u8]) -> (r: Vec<TextLine>)
    ensures
        lines_view(r@) == code_lines(content@),
        forall|i: int|
            0 <= i < r@.len() ==> #[trigger] r@[i].start <= r@[i].end <= content@.len(),
{
    let len = content.len();
    let mut out: Vec<TextLine> = Vec::new();
    let mut p: usize = 0;
    let mut k: usize = 0;
    while p < len
        invariant
            len == content@.len(),
            k <= p <= len,
            lines_view(out@) + code_lines_from(content@, p as int, k + 1) == code_lines(
                content@,
            ),
            forall|i: int|
                0 <= i < out@.len() ==> #[trigger] out@[i].start <= out@[i].end <= content@.len(),
        decreases len - p,
    {
        let mut e = p;
        while e < len && content[e] != NEWLINE
            invariant
                p <= e <= len,
                len == content@.len(),
                line_end(content@, e as int) == line_end(content@, p as int),
            decreases len - e,
        {
            e += 1;
        }
        let end = if p < e && e < len && content[e - 1] == CARRIAGE_RETURN {
            e - 1
        } else {
            e
        };
        let n = k + 1;
        let ghost before = out@;
        if !starts_with_comment(&content[p..end]) {
            out.push(TextLine { number: n, start: p, end });
            assert forall|i: int| 0 <= i < out@.len() implies #[trigger] out@[i].start <= out@[i].end
                <= content@.len() by {
                if i < before.len() {
                    assert(out@[i] == before[i]);
                }
            }
            assert(lines_view(out@) =~= lines_view(before).push((n as int, p as int, end as int)));
        }
        assert(lines_view(out@) + code_lines_from(content@, e + 1, n + 1) == code_lines(content@))
            by {
            assert(lines_view(before).push((n as int, p as int, end as int)) + code_lines_from(
                content@,
                e + 1,
                n + 1,
            ) =~= lines_view(before) + (seq![(n as int, p as int, end as int)] + code_lines_from(
                content@,
                e + 1,
                n + 1,
            )));
        }
        if e >= len {
            p = len;
            assert(code_lines_from(content@, p as int, k + 1) =~= Seq::empty());
            assert(code_lines_from(content@, e + 1, n + 1) =~= Seq::empty());
        } else {
            p = e + 1;
            k = k + 1;
        }
    }
    assert(lines_view(out@) =~= lines_view(out@) + code_lines_from(content@, p as int, k + 1));
    out
}

} // verus!
