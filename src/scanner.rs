//! Byte-level scanner that tracks string, template, interpolation and comment context.
//!
//! A `/` followed by `/` or `*` always opens a comment: regex literals and division
//! are not told apart.
use vstd::prelude::*;

verus! {

pub const NEWLINE: u8 = 0x0a;
pub const QUOTE: u8 = 0x27;
pub const DQUOTE: u8 = 0x22;
pub const BACKTICK: u8 = 0x60;
pub const BACKSLASH: u8 = 0x5c;
pub const LBRACE: u8 = 0x7b;
pub const RBRACE: u8 = 0x7d;
pub const DOLLAR: u8 = 0x24;
pub const SLASH: u8 = 0x2f;
pub const STAR: u8 = 0x2a;

/// The abstract state of a scan: position and context flags.
pub struct ScanState {
    pub pos: int,
    pub single: bool,
    pub double: bool,
    pub template: bool,
    pub block: bool,
    pub line: bool,
    pub interp: Seq<usize>,
}

pub open spec fn byte_at(b: Seq<u8>, i: int) -> Option<u8> {
    if 0 <= i < b.len() {
        Some(b[i])
    } else {
        None
    }
}

/// The state in which a scan starts at `start`.
pub open spec fn initial_state(start: int) -> ScanState {
    ScanState {
        pos: start,
        single: false,
        double: false,
        template: false,
        block: false,
        line: false,
        interp: Seq::empty(),
    }
}

/// Inside a string, a template body or a comment. Code inside `${...}` is
/// live code, so an open interpolation alone is not non-code.
pub open spec fn non_code(s: ScanState) -> bool {
    s.single || s.double || s.template || s.block || s.line
}

/// In code outside any interpolation: where the enclosing text's own
/// delimiters and comment markers count.
pub open spec fn top_level_code(s: ScanState) -> bool {
    !non_code(s) && s.interp.len() == 0
}

/// One step inside `${ ... }` code.
pub open spec fn step_interp(b: Seq<u8>, s: ScanState) -> ScanState
    recommends
        0 <= s.pos < b.len(),
        s.interp.len() > 0,
{
    let c = b[s.pos];
    let moved = ScanState { pos: s.pos + 1, ..s };
    let last = s.interp.len() - 1;
    let top = s.interp[last];
    if (s.single || s.double) && c == BACKSLASH && s.pos + 1 < b.len() {
        ScanState { pos: s.pos + 2, ..s }
    } else if s.single {
        ScanState { single: c != QUOTE, ..moved }
    } else if s.double {
        ScanState { double: c != DQUOTE, ..moved }
    } else if c == LBRACE {
        ScanState { interp: s.interp.update(last, (top + 1) as usize), ..moved }
    } else if c == RBRACE {
        if top == 1 {
            ScanState { interp: s.interp.drop_last(), template: true, ..moved }
        } else {
            ScanState { interp: s.interp.update(last, (top - 1) as usize), ..moved }
        }
    } else if c == QUOTE {
        ScanState { single: true, ..moved }
    } else if c == DQUOTE {
        ScanState { double: true, ..moved }
    } else if c == BACKTICK {
        ScanState { template: true, ..moved }
    } else {
        moved
    }
}

/// One step inside a quoted string or a template body.
pub open spec fn step_literal(b: Seq<u8>, s: ScanState) -> ScanState
    recommends
        0 <= s.pos < b.len(),
{
    let c = b[s.pos];
    let moved = ScanState { pos: s.pos + 1, ..s };
    if c == BACKSLASH {
        ScanState { pos: if s.pos + 1 < b.len() { s.pos + 2 } else { s.pos + 1 }, ..s }
    } else if s.single && c == QUOTE {
        ScanState { single: false, ..moved }
    } else if s.double && c == DQUOTE {
        ScanState { double: false, ..moved }
    } else if s.template && c == BACKTICK {
        ScanState { template: false, ..moved }
    } else if s.template && c == DOLLAR && byte_at(b, s.pos + 1) == Some(LBRACE) {
        ScanState { pos: s.pos + 2, template: false, interp: s.interp.push(1), ..s }
    } else {
        moved
    }
}

/// One step in plain code.
pub open spec fn step_code(b: Seq<u8>, s: ScanState) -> ScanState
    recommends
        0 <= s.pos < b.len(),
{
    let c = b[s.pos];
    let next = byte_at(b, s.pos + 1);
    let moved = ScanState { pos: s.pos + 1, ..s };
    if c == QUOTE {
        ScanState { single: true, ..moved }
    } else if c == DQUOTE {
        ScanState { double: true, ..moved }
    } else if c == BACKTICK {
        ScanState { template: true, ..moved }
    } else if c == SLASH && next == Some(SLASH) {
        ScanState { pos: s.pos + 2, line: true, ..s }
    } else if c == SLASH && next == Some(STAR) {
        ScanState { pos: s.pos + 2, block: true, ..s }
    } else {
        moved
    }
}

/// The scanner's transition: what one call of `advance` does to the state.
pub open spec fn step(b: Seq<u8>, s: ScanState) -> ScanState {
    if s.pos < 0 || s.pos >= b.len() {
        s
    } else if s.line {
        ScanState { pos: s.pos + 1, line: b[s.pos] != NEWLINE, ..s }
    } else if s.block {
        if b[s.pos] == STAR && byte_at(b, s.pos + 1) == Some(SLASH) {
            ScanState { pos: s.pos + 2, block: false, ..s }
        } else {
            ScanState { pos: s.pos + 1, ..s }
        }
    } else if s.interp.len() > 0 {
        step_interp(b, s)
    } else if s.single || s.double || s.template {
        step_literal(b, s)
    } else {
        step_code(b, s)
    }
}

/// Interpolation counters are positive and bounded by the position.
pub open spec fn state_wf(s: ScanState) -> bool {
    &&& s.pos >= 0
    &&& forall|i: int| 0 <= i < s.interp.len() ==> 1 <= #[trigger] s.interp[i] <= s.pos
}

/// A step moves forward, by one or two bytes, while bytes remain, and keeps the state well formed.
pub proof fn lemma_step(b: Seq<u8>, s: ScanState)
    requires
        state_wf(s),
        b.len() <= usize::MAX,
    ensures
        state_wf(step(b, s)),
        s.pos < b.len() ==> s.pos < step(b, s).pos <= s.pos + 2,
        s.pos < b.len() ==> step(b, s).pos <= b.len(),
        s.pos >= b.len() ==> step(b, s) == s,
{
    let t = step(b, s);
    if 0 <= s.pos < b.len() && !s.line && !s.block && s.interp.len() > 0 {
        assert forall|i: int| 0 <= i < t.interp.len() implies 1 <= #[trigger] t.interp[i] <= t.pos by {
            assert(1 <= s.interp[i] <= s.pos);
        }
    }
}

/// An interpolation ends only at a `}` in its own code (outside any string
/// opened within it) that brings its counter from one to zero; the stack of
/// interpolations grows or shrinks by at most one per step.
pub proof fn lemma_interpolation_closes_only_at_brace(b: Seq<u8>, s: ScanState)
    requires
        state_wf(s),
    ensures
        step(b, s).interp.len() <= s.interp.len() + 1,
        step(b, s).interp.len() + 1 >= s.interp.len(),
        step(b, s).interp.len() < s.interp.len() ==> {
            &&& 0 <= s.pos < b.len()
            &&& b[s.pos] == RBRACE
            &&& s.interp.last() == 1
            &&& !s.single && !s.double && !s.line && !s.block
            &&& step(b, s).interp == s.interp.drop_last()
            &&& step(b, s).template
        },
        step(b, s).interp.len() > s.interp.len() ==> step(b, s).interp == s.interp.push(1),
{
}

pub struct StringScanner<'a> {
    pub bytes: &'a [u8],
    pub pos: usize,
    pub in_single_quote: bool,
    pub in_double_quote: bool,
    pub in_template: bool,
    pub in_block_comment: bool,
    pub in_line_comment: bool,
    pub template_interp_depth: Vec<usize>,
}

impl<'a> StringScanner<'a> {
    /// The text being scanned.
    pub open spec fn text(&self) -> Seq<u8> {
        self.bytes@
    }

    pub open spec fn state(&self) -> ScanState {
        ScanState {
            pos: self.pos as int,
            single: self.in_single_quote,
            double: self.in_double_quote,
            template: self.in_template,
            block: self.in_block_comment,
            line: self.in_line_comment,
            interp: self.template_interp_depth@,
        }
    }

    pub open spec fn wf(&self) -> bool {
        state_wf(self.state())
    }

    pub fn new(bytes: &'a [u8], start: usize) -> (r: Self)
        ensures
            r.text() == bytes@,
            r.state() == initial_state(start as int),
            r.wf(),
    {
        let r = StringScanner {
            bytes,
            pos: start,
            in_single_quote: false,
            in_double_quote: false,
            in_template: false,
            in_block_comment: false,
            in_line_comment: false,
            template_interp_depth: Vec::new(),
        };
        assert(r.state().interp =~= Seq::<usize>::empty());
        r
    }

    /// True inside a string, a template body or a comment; false in code,
    /// including the code of an interpolation.
    pub fn in_non_code_context(&self) -> (r: bool)
        ensures
            r == non_code(self.state()),
    {
        self.in_single_quote || self.in_double_quote || self.in_template || self.in_block_comment
            || self.in_line_comment
    }

    pub fn current(&self) -> (r: Option<u8>)
        ensures
            r == byte_at(self.text(), self.pos as int),
    {
        if self.pos < self.bytes.len() {
            Some(self.bytes[self.pos])
        } else {
            None
        }
    }

    pub fn peek(&self) -> (r: Option<u8>)
        ensures
            r == byte_at(self.text(), self.pos + 1),
    {
        if self.pos < self.bytes.len() && self.bytes.len() - self.pos > 1 {
            Some(self.bytes[self.pos + 1])
        } else {
            None
        }
    }

    /// Moves past one byte, or two for an escape, `${`, `//`, `/*` or `*/`.
    /// Returns false, and changes nothing, at the end of the text.
    pub fn advance(&mut self) -> (moved: bool)
        requires
            old(self).wf(),
        ensures
            final(self).wf(),
            final(self).text() == old(self).text(),
            final(self).state() == step(old(self).text(), old(self).state()),
            moved == (old(self).pos < old(self).text().len()),
    {
        let len = self.bytes.len();
        proof {
            lemma_step(self.text(), self.state());
        }
        if self.pos >= len {
            return false;
        }
        let byte = self.bytes[self.pos];
        let next = self.peek();

        if self.in_line_comment {
            if byte == NEWLINE {
                self.in_line_comment = false;
            }
            self.pos += 1;
            return true;
        }
        if self.in_block_comment {
            if byte == STAR && next == Some(SLASH) {
                self.in_block_comment = false;
                self.pos += 2;
            } else {
                self.pos += 1;
            }
            return true;
        }
        if self.template_interp_depth.len() > 0 {
            if (self.in_single_quote || self.in_double_quote) && byte == BACKSLASH
                && self.bytes.len() - self.pos > 1 {
                self.pos += 2;
                return true;
            }
            if self.in_single_quote {
                if byte == QUOTE {
                    self.in_single_quote = false;
                }
                self.pos += 1;
                return true;
            }
            if self.in_double_quote {
                if byte == DQUOTE {
                    self.in_double_quote = false;
                }
                self.pos += 1;
                return true;
            }
            let last = self.template_interp_depth.len() - 1;
            let top = self.template_interp_depth[last];
            assert(1 <= self.state().interp[last as int] <= self.pos);
            if byte == LBRACE {
                self.template_interp_depth.set(last, top + 1);
            } else if byte == RBRACE {
                if top == 1 {
                    self.template_interp_depth.pop();
                    self.in_template = true;
                } else {
                    self.template_interp_depth.set(last, top - 1);
                }
            } else if byte == QUOTE {
                self.in_single_quote = true;
            } else if byte == DQUOTE {
                self.in_double_quote = true;
            } else if byte == BACKTICK {
                self.in_template = true;
            }
            self.pos += 1;
            return true;
        }
        if self.in_single_quote || self.in_double_quote || self.in_template {
            if byte == BACKSLASH {
                self.pos += if self.bytes.len() - self.pos > 1 {
                    2
                } else {
                    1
                };
                return true;
            }
            if self.in_single_quote && byte == QUOTE {
                self.in_single_quote = false;
            } else if self.in_double_quote && byte == DQUOTE {
                self.in_double_quote = false;
            } else if self.in_template && byte == BACKTICK {
                self.in_template = false;
            } else if self.in_template && byte == DOLLAR && next == Some(LBRACE) {
                self.in_template = false;
                self.template_interp_depth.push(1);
                self.pos += 2;
                return true;
            }
            self.pos += 1;
            return true;
        }
        if byte == QUOTE {
            self.in_single_quote = true;
        } else if byte == DQUOTE {
            self.in_double_quote = true;
        } else if byte == BACKTICK {
            self.in_template = true;
        } else if byte == SLASH && next == Some(SLASH) {
            self.in_line_comment = true;
            self.pos += 2;
            return true;
        } else if byte == SLASH && next == Some(STAR) {
            self.in_block_comment = true;
            self.pos += 2;
            return true;
        }
        self.pos += 1;
        true
    }
}

} // verus!
