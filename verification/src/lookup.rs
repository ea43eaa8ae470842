//! Finding a tool that is installed on the system: which command to ask for,
//! and what its answer says.

use vstd::prelude::*;
use vstd::string::StringExecFns;
use crate::catalog::{binaries_of, Tool, ToolTable};
use crate::errors::{EngineError, ErrorKind, Failure};
use crate::rollback::unknown_tool;
use crate::text::{chars_of, concat2, ends_with, has_suffix, text_of, views};

verus! {

/// Whether `c` is white space.
pub open spec fn is_space(c: char) -> bool {
    ||| '\u{9}' <= c <= '\u{d}'
    ||| c == ' '
    ||| c == '\u{85}'
    ||| c == '\u{a0}'
    ||| c == '\u{1680}'
    ||| '\u{2000}' <= c <= '\u{200a}'
    ||| c == '\u{2028}'
    ||| c == '\u{2029}'
    ||| c == '\u{202f}'
    ||| c == '\u{205f}'
    ||| c == '\u{3000}'
}

/// The index of the first character of `s` from `from` on that is no white
/// space; the length of `s` if there is none.
pub open spec fn first_mark(s: Seq<char>, from: int) -> int
    decreases s.len() - from,
{
    if 0 <= from < s.len() && is_space(s[from]) {
        first_mark(s, from + 1)
    } else if from < s.len() {
        from
    } else {
        s.len() as int
    }
}

/// The index after the last character of `s` before `to` that is no white
/// space; 0 if there is none.
pub open spec fn last_mark(s: Seq<char>, to: int) -> int
    decreases to,
{
    if 0 < to <= s.len() && is_space(s[to - 1]) {
        last_mark(s, to - 1)
    } else if to > 0 {
        to
    } else {
        0
    }
}

/// `s` without the white space at its beginning and at its end.
pub open spec fn trimmed(s: Seq<char>) -> Seq<char> {
    let start = first_mark(s, 0);
    let end = last_mark(s, s.len() as int);
    if start < end {
        s.subrange(start, end)
    } else {
        Seq::empty()
    }
}

/// The length of the first line of `s`: the index of its first line feed at
/// or after `from`, or its length.
pub open spec fn line_end(s: Seq<char>, from: int) -> int
    decreases s.len() - from,
{
    if 0 <= from < s.len() && s[from] != '\n' {
        line_end(s, from + 1)
    } else if from < s.len() {
        from
    } else {
        s.len() as int
    }
}

/// What the answer `output` of the system says: its first line without the
/// white space around it, if that is not empty.
pub open spec fn first_path(output: Seq<char>) -> Option<Seq<char>> {
    let line = trimmed(output.take(line_end(output, 0)));
    if line.len() > 0 {
        Some(line)
    } else {
        None
    }
}

/// The ending of an executable file on Windows.
pub open spec fn exe_suffix() -> Seq<char> {
    seq!['.', 'e', 'x', 'e']
}

/// `name` without any `.exe` at its end.
pub open spec fn without_exe(name: Seq<char>) -> Seq<char>
    decreases name.len(),
{
    if has_suffix(name, exe_suffix()) {
        without_exe(name.take(name.len() - 4))
    } else {
        name
    }
}

/// The name of the command to look for: the main binary of `tool`, without
/// its `.exe` where the system knows no such ending.
pub open spec fn command_for(tools: Seq<Tool>, tool: Seq<char>, windows: bool) -> Result<
    Seq<char>,
    Failure,
> {
    match binaries_of(tools, tool) {
        Some(names) => if names.len() == 0 {
            Err(unknown_tool(tool))
        } else if windows {
            Ok(names[0])
        } else {
            Ok(without_exe(names[0]))
        },
        None => Err(unknown_tool(tool)),
    }
}

/// Whether `c` is white space.
pub fn is_whitespace(c: char) -> (r: bool)
    ensures
        r == is_space(c),
{
    ('\u{9}' <= c && c <= '\u{d}') || c == ' ' || c == '\u{85}' || c == '\u{a0}' || c
        == '\u{1680}' || ('\u{2000}' <= c && c <= '\u{200a}') || c == '\u{2028}' || c
        == '\u{2029}' || c == '\u{202f}' || c == '\u{205f}' || c == '\u{3000}'
}

/// What the answer `output` of the system says: its first line without the
/// white space around it, if that is not empty.
pub fn first_path_line(output: &str) -> (r: Option<String>)
    ensures
        r is Some == first_path(output@) is Some,
        r matches Some(path) ==> first_path(output@) == Some(path@),
{
    let chars = chars_of(output);
    let mut end: usize = 0;
    while end < chars.len() && chars[end] != '\n'
        invariant
            end <= chars.len(),
            line_end(chars@, end as int) == line_end(chars@, 0),
        decreases chars.len() - end,
    {
        end += 1;
    }
    let ghost line = chars@.take(end as int);
    let mut start: usize = 0;
    while start < end && is_whitespace(chars[start])
        invariant
            start <= end <= chars.len(),
            line == chars@.take(end as int),
            first_mark(line, start as int) == first_mark(line, 0),
        decreases end - start,
    {
        start += 1;
    }
    let mut stop: usize = end;
    while stop > 0 && is_whitespace(chars[stop - 1])
        invariant
            stop <= end <= chars.len(),
            line == chars@.take(end as int),
            last_mark(line, stop as int) == last_mark(line, line.len() as int),
        decreases stop,
    {
        stop -= 1;
    }
    if start < stop {
        let path = text_of(&chars, start, stop);
        assert(path@ =~= line.subrange(start as int, stop as int));
        Some(path)
    } else {
        None
    }
}

/// `name` without any `.exe` at its end.
pub fn strip_exe(name: &str) -> (r: String)
    ensures
        r@ == without_exe(name@),
{
    proof {
        reveal_strlit(".exe");
        assert(".exe"@ =~= exe_suffix());
    }
    let chars = chars_of(name);
    let suffix = chars_of(".exe");
    let mut kept: Vec<char> = chars;
    while ends_with(&kept, &suffix)
        invariant
            suffix@ == exe_suffix(),
            without_exe(kept@) == without_exe(name@),
        decreases kept.len(),
    {
        let ghost before = kept@;
        let len = kept.len() - 4;
        kept.truncate(len);
        assert(kept@ =~= before.take(before.len() - 4));
    }
    let r = text_of(&kept, 0, kept.len());
    assert(kept@.subrange(0, kept.len() as int) =~= kept@);
    r
}

/// The name of the command to look for when the tool `tool` is sought on the
/// system.
pub fn resolve_system_tool_path(table: &ToolTable, tool: &str, windows: bool) -> (r: Result<
    String,
    EngineError,
>)
    ensures
        match r {
            Ok(name) => command_for(table@, tool@, windows) == Ok::<Seq<char>, Failure>(name@),
            Err(e) => command_for(table@, tool@, windows) == Err::<Seq<char>, Failure>(e@),
        },
{
    match table.binaries(tool) {
        Some(names) => {
            if names.len() == 0 {
                Err(EngineError::new(ErrorKind::UnknownTool, concat2("Unknown tool: ", tool)))
            } else {
                assert(views(names@)[0] == names@[0]@);
                if windows {
                    Ok(names[0].clone())
                } else {
                    Ok(strip_exe(names[0].as_str()))
                }
            }
        },
        None => Err(EngineError::new(ErrorKind::UnknownTool, concat2("Unknown tool: ", tool))),
    }
}

} // verus!
