//! What an editing tool call asks to write, and which findings block it.
use vstd::prelude::*;
use vstd::string::StringExecFns;
use crate::rules::Severity;
use crate::text::{chars_of, str_eq};

verus! {

/// One edit of a multi-edit call.
pub struct EditItem {
    pub new_string: Option<String>,
}

/// The arguments of an editing tool call.
pub struct ToolInputData {
    pub file_path: Option<String>,
    pub content: Option<String>,
    pub new_string: Option<String>,
    pub edits: Option<Vec<EditItem>>,
}

/// An editing tool call: the tool's name and its arguments.
pub struct ToolInput {
    pub tool_name: String,
    pub tool_input: ToolInputData,
}

pub open spec fn ends_with(s: Seq<char>, suffix: Seq<char>) -> bool {
    s.len() >= suffix.len() && s.skip(s.len() - suffix.len()) == suffix
}

fn ends_with_str(cs: &Vec<char>, suffix: &str) -> (r: bool)
    ensures
        r == ends_with(cs@, suffix@),
{
    let sfx = chars_of(suffix);
    if sfx.len() > cs.len() {
        return false;
    }
    let n = cs.len();
    let off = n - sfx.len();
    let mut i: usize = 0;
    while i < sfx.len()
        invariant
            n == cs@.len(),
            sfx@ == suffix@,
            off + sfx@.len() == cs@.len(),
            i <= sfx@.len(),
            forall|j: int| 0 <= j < i ==> cs@[off + j] == sfx@[j],
        decreases sfx@.len() - i,
    {
        if cs[off + i] != sfx[i] {
            assert(cs@.skip(off as int)[i as int] != sfx@[i as int]);
            return false;
        }
        i += 1;
    }
    assert(cs@.skip(off as int) =~= sfx@);
    true
}

/// A JavaScript or TypeScript file: `.ts`, `.tsx`, `.js` or `.jsx`.
pub open spec fn js_ts_path(path: Seq<char>) -> bool {
    ends_with(path, ".ts"@) || ends_with(path, ".tsx"@) || ends_with(path, ".js"@) || ends_with(
        path,
        ".jsx"@,
    )
}

/// Whether `path` names a JavaScript or TypeScript file.
pub fn is_js_ts_file(path: &str) -> (r: bool)
    ensures
        r == js_ts_path(path@),
{
    let cs = chars_of(path);
    ends_with_str(&cs, ".ts") || ends_with_str(&cs, ".tsx") || ends_with_str(&cs, ".js")
        || ends_with_str(&cs, ".jsx")
}

/// The new strings that the edits carry, in order.
pub open spec fn present_texts(es: Seq<EditItem>) -> Seq<Seq<char>>
    decreases es.len(),
{
    if es.len() == 0 {
        Seq::empty()
    } else {
        match es.last().new_string {
            Some(s) => present_texts(es.drop_last()).push(s@),
            None => present_texts(es.drop_last()),
        }
    }
}

/// `ts` joined with newlines between them.
pub open spec fn join_lines(ts: Seq<Seq<char>>) -> Seq<char>
    decreases ts.len(),
{
    if ts.len() == 0 {
        Seq::empty()
    } else if ts.len() == 1 {
        ts[0]
    } else {
        join_lines(ts.drop_last()) + "\n"@ + ts.last()
    }
}

/// The text a call writes: the content for `Write`, the new string for
/// `Edit`, the edits' new strings joined by newlines for `MultiEdit`.
pub open spec fn written_text(input: ToolInput) -> Option<Seq<char>> {
    let d = input.tool_input;
    if input.tool_name@ == "Write"@ {
        match d.content {
            Some(c) => Some(c@),
            None => None,
        }
    } else if input.tool_name@ == "Edit"@ {
        match d.new_string {
            Some(c) => Some(c@),
            None => None,
        }
    } else if input.tool_name@ == "MultiEdit"@ {
        match d.edits {
            Some(es) => Some(join_lines(present_texts(es@))),
            None => None,
        }
    } else {
        None
    }
}

/// The path and the text of a call, when the tool is known and both are non-empty.
pub open spec fn file_and_content(input: ToolInput) -> Option<(Seq<char>, Seq<char>)> {
    match (input.tool_input.file_path, written_text(input)) {
        (Some(p), Some(c)) => if p@.len() == 0 || c.len() == 0 {
            None
        } else {
            Some((p@, c))
        },
        _ => None,
    }
}

fn join_edits(es: &Vec<EditItem>) -> (r: String)
    ensures
        r@ == join_lines(present_texts(es@)),
{
    let mut out = String::new();
    let mut count: usize = 0;
    let mut i: usize = 0;
    while i < es.len()
        invariant
            i <= es@.len(),
            count == present_texts(es@.take(i as int)).len(),
            count <= i,
            out@ == join_lines(present_texts(es@.take(i as int))),
        decreases es@.len() - i,
    {
        assert(es@.take(i + 1).drop_last() =~= es@.take(i as int));
        if let Some(s) = &es[i].new_string {
            let ghost ts = present_texts(es@.take(i as int));
            if count > 0 {
                out.append("\n");
            }
            out.append(s.as_str());
            assert(ts.push(s@).drop_last() =~= ts);
            if count == 0 {
                assert(out@ =~= s@);
            }
            count += 1;
        }
        i += 1;
    }
    assert(es@.take(i as int) =~= es@);
    out
}

/// The file path and the text that an editing call writes; `None` for other
/// tools, a missing field, or an empty path or text.
pub fn get_file_and_content(input: &ToolInput) -> (r: Option<(String, String)>)
    ensures
        match r {
            Some((p, c)) => file_and_content(*input) == Some((p@, c@)),
            None => file_and_content(*input) is None,
        },
{
    let file_path = match &input.tool_input.file_path {
        Some(p) => p.clone(),
        None => return None,
    };
    let d = &input.tool_input;
    let name = input.tool_name.as_str();
    let content = if str_eq(name, "Write") {
        match &d.content {
            Some(c) => c.clone(),
            None => return None,
        }
    } else if str_eq(name, "Edit") {
        match &d.new_string {
            Some(c) => c.clone(),
            None => return None,
        }
    } else if str_eq(name, "MultiEdit") {
        match &d.edits {
            Some(es) => join_edits(es),
            None => return None,
        }
    } else {
        return None;
    };
    if file_path.as_str().is_empty() || content.as_str().is_empty() {
        return None;
    }
    Some((file_path, content))
}

/// Whether a finding of severity `s` blocks, given the blocking severities.
pub fn is_blocking(s: Severity, block_on: &Vec<Severity>) -> (r: bool)
    ensures
        r == block_on@.contains(s),
{
    let mut i: usize = 0;
    while i < block_on.len()
        invariant
            i <= block_on@.len(),
            forall|j: int| 0 <= j < i ==> block_on@[j] != s,
        decreases block_on@.len() - i,
    {
        if block_on[i] == s {
            return true;
        }
        i += 1;
    }
    false
}

} // verus!
