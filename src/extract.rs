//! Context-aware extraction built on the scanner: balanced delimiters, comment
//! detection at a position, and the code-only bytes of a fragment.
use vstd::prelude::*;
use crate::scanner::{
    byte_at, initial_state, lemma_step, step, top_level_code, ScanState, StringScanner, LBRACE, NEWLINE,
    RBRACE, SLASH,
};

verus! {

pub const LPAREN: u8 = 0x28;
pub const RPAREN: u8 = 0x29;

/// Where the search for the closer of a delimiter ends, scanning from `s` with
/// `depth` closers still owed. Only bytes in code outside any interpolation
/// change the depth; braces of `${...}` are counted by the scanner itself.
/// `Some(e)`: the closer stands at `e`; `None`: the text ends first.
pub open spec fn balance_end(b: Seq<u8>, s: ScanState, depth: int, open: u8, close: u8) -> Option<
    int,
>
    decreases b.len() - s.pos,
{
    if depth == 0 {
        Some(s.pos - 1)
    } else if s.pos < 0 || s.pos >= b.len() {
        None
    } else {
        let code = top_level_code(s);
        let c = b[s.pos];
        let d = if code && c == open {
            depth + 1
        } else if code && c == close {
            depth - 1
        } else {
            depth
        };
        if step(b, s).pos > s.pos {
            balance_end(b, step(b, s), d, open, close)
        } else {
            None
        }
    }
}

/// A delimiter read inside a string, a template body, a comment or an
/// interpolation leaves the depth as it was: the search goes on from the next
/// state owing the same number of closers.
pub proof fn lemma_literal_delimiters_ignored(b: Seq<u8>, s: ScanState, depth: int, open: u8, close: u8)
    requires
        depth != 0,
        0 <= s.pos < b.len(),
        !top_level_code(s),
        step(b, s).pos > s.pos,
    ensures
        balance_end(b, s, depth, open, close) == balance_end(b, step(b, s), depth, open, close),
{
}

/// The content between an opener just before `start` and its matching closer.
pub open spec fn balanced_content(b: Seq<u8>, start: int, open: u8, close: u8) -> Option<Seq<u8>> {
    match balance_end(b, initial_state(start), 1, open, close) {
        Some(e) => Some(b.subrange(start, e)),
        None => None,
    }
}

/// Finds the closer matching an opener that stands just before `start` and
/// returns the bytes between them. Delimiters inside strings, template bodies,
/// comments and interpolations do not count. `None` when the text ends first.
pub fn extract_balanced(content: &[u8], start: usize, open: u8, close: u8) -> (r: Option<&[u8]>)
    ensures
        match r {
            Some(inner) => balanced_content(content@, start as int, open, close) == Some(inner@),
            None => balanced_content(content@, start as int, open, close) is None,
        },
{
    let len = content.len();
    let mut scanner = StringScanner::new(content, start);
    let mut extra: usize = 0;
    let mut closed = false;
    while scanner.pos < len && !closed
        invariant
            len == content@.len(),
            scanner.wf(),
            scanner.text() == content@,
            start <= scanner.pos,
            extra <= scanner.pos - start,
            closed ==> start < scanner.pos <= len,
            balance_end(content@, scanner.state(), if closed { 0 } else { extra + 1 }, open, close)
                == balance_end(content@, initial_state(start as int), 1, open, close),
        decreases len - scanner.pos,
    {
        let code = !scanner.in_non_code_context() && scanner.template_interp_depth.len() == 0;
        let byte = scanner.current();
        proof {
            lemma_step(content@, scanner.state());
        }
        scanner.advance();
        if code && byte == Some(open) {
            extra += 1;
        } else if code && byte == Some(close) {
            if extra == 0 {
                closed = true;
            } else {
                extra -= 1;
            }
        }
    }
    if closed {
        let end = scanner.pos - 1;
        Some(&content[start..end])
    } else {
        None
    }
}

/// The argument text of a call whose `(` stands just before `start`.
pub fn extract_paren_content(content: &[u8], start: usize) -> (r: Option<&[u8]>)
    ensures
        match r {
            Some(inner) => balanced_content(content@, start as int, LPAREN, RPAREN) == Some(
                inner@,
            ),
            None => balanced_content(content@, start as int, LPAREN, RPAREN) is None,
        },
{
    extract_balanced(content, start, LPAREN, RPAREN)
}

/// The body of a block whose `{` stands just before `start`.
pub fn extract_brace_content(content: &[u8], start: usize) -> (r: Option<&[u8]>)
    ensures
        match r {
            Some(inner) => balanced_content(content@, start as int, LBRACE, RBRACE) == Some(
                inner@,
            ),
            None => balanced_content(content@, start as int, LBRACE, RBRACE) is None,
        },
{
    extract_balanced(content, start, LBRACE, RBRACE)
}

/// The scan state reached from `s` on the way to `limit`: the first state at
/// or past `limit`, or the last one if the text ends before.
pub open spec fn reach(b: Seq<u8>, s: ScanState, limit: int) -> ScanState
    decreases b.len() - s.pos,
{
    if s.pos < 0 || s.pos >= limit || s.pos >= b.len() || step(b, s).pos <= s.pos {
        s
    } else {
        reach(b, step(b, s), limit)
    }
}

/// Offset `pos` lies in a comment: scanning the text from its start, the
/// state reached at `pos` is inside a line or block comment.
pub open spec fn in_comment(b: Seq<u8>, pos: int) -> bool {
    let s = reach(b, initial_state(0), pos);
    s.line || s.block
}

/// Reaching a farther limit can go on from where a nearer one was reached.
pub proof fn lemma_reach_further(b: Seq<u8>, s: ScanState, near: int, far: int)
    requires
        near <= far,
    ensures
        reach(b, s, far) == reach(b, reach(b, s, near), far),
    decreases b.len() - s.pos,
{
    if !(s.pos < 0 || s.pos >= near || s.pos >= b.len() || step(b, s).pos <= s.pos) {
        lemma_reach_further(b, step(b, s), near, far);
    }
}

/// Moves the scanner on to the state it reaches at `limit`.
pub fn advance_to(scanner: &mut StringScanner, limit: usize)
    requires
        old(scanner).wf(),
    ensures
        final(scanner).wf(),
        final(scanner).text() == old(scanner).text(),
        final(scanner).state() == reach(old(scanner).text(), old(scanner).state(), limit as int),
{
    let len = scanner.bytes.len();
    while scanner.pos < limit && scanner.pos < len
        invariant
            len == scanner.text().len(),
            scanner.wf(),
            scanner.text() == old(scanner).text(),
            reach(scanner.text(), scanner.state(), limit as int) == reach(
                old(scanner).text(),
                old(scanner).state(),
                limit as int,
            ),
        decreases len - scanner.pos,
    {
        proof {
            lemma_step(scanner.text(), scanner.state());
        }
        scanner.advance();
    }
}

/// Whether offset `pos` lies in a line or block comment, the text being
/// scanned from its start; a block comment opened on an earlier line counts.
pub fn is_in_comment(content: &[u8], pos: usize) -> (r: bool)
    ensures
        r == in_comment(content@, pos as int),
{
    let mut scanner = StringScanner::new(content, 0);
    advance_to(&mut scanner, pos);
    scanner.in_line_comment || scanner.in_block_comment
}

/// The first newline at or after `p`, or the end of the text.
pub open spec fn line_end(b: Seq<u8>, p: int) -> int
    decreases b.len() - p,
{
    if p < 0 || p >= b.len() {
        b.len() as int
    } else if b[p] == NEWLINE {
        p
    } else {
        line_end(b, p + 1)
    }
}

proof fn lemma_line_end(b: Seq<u8>, p: int)
    requires
        0 <= p <= b.len(),
    ensures
        p <= line_end(b, p) <= b.len(),
        line_end(b, p) < b.len() ==> b[line_end(b, p)] == NEWLINE,
    decreases b.len() - p,
{
    if p < b.len() && b[p] != NEWLINE {
        lemma_line_end(b, p + 1);
    }
}

/// The bytes kept when scanning on from `s`: code, including the code of
/// interpolations, without string and template bodies or comments.
pub open spec fn code_from(b: Seq<u8>, s: ScanState) -> Seq<u8>
    decreases b.len() - s.pos,
{
    if s.pos < 0 || s.pos >= b.len() {
        Seq::empty()
    } else {
        let c = b[s.pos];
        let in_interp = s.interp.len() > 0 && !s.single && !s.double;
        let skip = (s.single || s.double || s.template || s.block) && !in_interp;
        if !skip && !in_interp && c == SLASH && byte_at(b, s.pos + 1) == Some(SLASH) {
            if s.pos < line_end(b, s.pos) <= b.len() {
                code_from(b, ScanState { pos: line_end(b, s.pos), ..s })
            } else {
                Seq::empty()
            }
        } else if step(b, s).pos > s.pos {
            if skip {
                code_from(b, step(b, s))
            } else {
                seq![c] + code_from(b, step(b, s))
            }
        } else {
            Seq::empty()
        }
    }
}

/// The code of a fragment: what remains after string and template bodies and
/// comments are taken out. Interpolations `${...}` count as code.
pub open spec fn code_portions(b: Seq<u8>) -> Seq<u8> {
    code_from(b, initial_state(0))
}

/// Keeps the code bytes of `content`, in order, and drops those inside string
/// literals, template bodies and comments; interpolations count as code.
pub fn extract_code_portions(content: &[u8]) -> (r: Vec<u8>)
    ensures
        r@ == code_portions(content@),
{
    let len = content.len();
    let mut scanner = StringScanner::new(content, 0);
    let mut code: Vec<u8> = Vec::new();
    while scanner.pos < len
        invariant
            len == content@.len(),
            scanner.wf(),
            scanner.text() == content@,
            code@ + code_from(content@, scanner.state()) == code_portions(content@),
        decreases len - scanner.pos,
    {
        let byte = scanner.bytes[scanner.pos];
        let in_interp = scanner.template_interp_depth.len() > 0 && !scanner.in_single_quote
            && !scanner.in_double_quote;
        let skip = (scanner.in_single_quote || scanner.in_double_quote || scanner.in_template
            || scanner.in_block_comment) && !in_interp;
        if !skip && !in_interp && byte == SLASH && scanner.peek() == Some(SLASH) {
            proof {
                lemma_line_end(content@, scanner.pos as int);
            }
            let ghost old_state = scanner.state();
            while scanner.pos < len && scanner.bytes[scanner.pos] != NEWLINE
                invariant
                    len == content@.len(),
                    scanner.text() == content@,
                    old_state.pos <= scanner.pos <= len,
                    line_end(content@, scanner.pos as int) == line_end(content@, old_state.pos),
                    scanner.state() == (ScanState { pos: scanner.pos as int, ..old_state }),
                decreases len - scanner.pos,
            {
                scanner.pos += 1;
            }
            proof {
                assert(scanner.wf());
            }
        } else {
            proof {
                lemma_step(content@, scanner.state());
            }
            let ghost before = code@;
            scanner.advance();
            if !skip {
                code.push(byte);
                assert(before + (seq![byte] + code_from(content@, scanner.state())) =~= code@
                    + code_from(content@, scanner.state()));
            }
        }
    }
    assert(code@ =~= code@ + code_from(content@, scanner.state()));
    code
}

} // verus!
