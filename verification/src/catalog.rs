//! The table of tools: which binaries each tool owns.
//!
//! The table is handed to the protocols that need it, so that a host or a
//! test may work with another one than the standard table.

use vstd::prelude::*;
use vstd::string::StringExecFns;
use crate::text::{eq_ignore_ascii_case, same_ignoring_case, same_text, views};

verus! {

/// A tool and the binaries it owns, the main executable first.
#[derive(Debug)]
pub struct ToolEntry {
    pub id: String,
    pub binaries: Vec<String>,
}

/// A tool as a value of the model.
pub ghost struct Tool {
    pub id: Seq<char>,
    pub binaries: Seq<Seq<char>>,
}

impl View for ToolEntry {
    type V = Tool;

    open spec fn view(&self) -> Tool {
        Tool { id: self.id@, binaries: views(self.binaries@) }
    }
}

/// The tools known to an engine; every one owns at least one binary.
pub struct ToolTable {
    entries: Vec<ToolEntry>,
}

impl View for ToolTable {
    type V = Seq<Tool>;

    closed spec fn view(&self) -> Seq<Tool> {
        Seq::new(self.entries@.len(), |i: int| self.entries@[i]@)
    }
}

/// Whether every tool of the table owns at least one binary.
pub open spec fn well_formed(tools: Seq<Tool>) -> bool {
    forall|i: int| 0 <= i < tools.len() ==> (#[trigger] tools[i]).binaries.len() > 0
}

/// Whether `name` is one of the binaries of `tool`, whatever the case of its
/// ASCII letters.
pub open spec fn owns(tool: Tool, name: Seq<char>) -> bool {
    among(tool.binaries, name)
}

/// Whether `name` is one of `binaries`, whatever the case of its ASCII letters.
pub open spec fn among(binaries: Seq<Seq<char>>, name: Seq<char>) -> bool {
    exists|j: int| 0 <= j < binaries.len() && same_ignoring_case(name, #[trigger] binaries[j])
}

/// The identifier of the first tool of the table that owns the binary `name`.
pub open spec fn owner_of(tools: Seq<Tool>, name: Seq<char>) -> Option<Seq<char>>
    decreases tools.len(),
{
    if tools.len() == 0 {
        None
    } else if owns(tools[0], name) {
        Some(tools[0].id)
    } else {
        owner_of(tools.drop_first(), name)
    }
}

/// The binaries of the first tool of the table whose identifier is `id`.
pub open spec fn binaries_of(tools: Seq<Tool>, id: Seq<char>) -> Option<Seq<Seq<char>>>
    decreases tools.len(),
{
    if tools.len() == 0 {
        None
    } else if tools[0].id == id {
        Some(tools[0].binaries)
    } else {
        binaries_of(tools.drop_first(), id)
    }
}

/// The standard table.
pub open spec fn standard_tools() -> Seq<Tool> {
    seq![
        Tool { id: "yt-dlp"@, binaries: seq!["yt-dlp.exe"@] },
        Tool { id: "ffmpeg"@, binaries: seq!["ffmpeg.exe"@, "ffprobe.exe"@] },
        Tool { id: "aria2"@, binaries: seq!["aria2c.exe"@] },
        Tool { id: "deno"@, binaries: seq!["deno.exe"@] },
    ]
}

/// Every tool of a well-formed table owns at least one binary.
pub proof fn law_known_tools_own_binaries(tools: Seq<Tool>, id: Seq<char>)
    requires
        well_formed(tools),
    ensures
        binaries_of(tools, id) matches Some(binaries) ==> binaries.len() > 0,
    decreases tools.len(),
{
    if tools.len() > 0 && tools[0].id != id {
        let rest = tools.drop_first();
        assert forall|i: int| 0 <= i < rest.len() implies (#[trigger] rest[i]).binaries.len() > 0 by {
            assert(rest[i] == tools[i + 1]);
        }
        law_known_tools_own_binaries(rest, id);
    }
}

fn entry(id: &str, binaries: Vec<String>) -> (e: ToolEntry)
    ensures
        e@ == (Tool { id: id@, binaries: views(binaries@) }),
{
    ToolEntry { id: String::from_str(id), binaries }
}

fn names1(a: &str) -> (v: Vec<String>)
    ensures
        views(v@) == seq![a@],
{
    let mut v: Vec<String> = Vec::new();
    v.push(String::from_str(a));
    assert(views(v@) =~= seq![a@]);
    v
}

fn names2(a: &str, b: &str) -> (v: Vec<String>)
    ensures
        views(v@) == seq![a@, b@],
{
    let mut v: Vec<String> = Vec::new();
    v.push(String::from_str(a));
    v.push(String::from_str(b));
    assert(views(v@) =~= seq![a@, b@]);
    v
}

/// Whether `name` is one of `binaries`, whatever the case of its ASCII letters.
pub fn is_among(binaries: &Vec<String>, name: &str) -> (r: bool)
    ensures
        r == among(views(binaries@), name@),
{
    let ghost all = views(binaries@);
    let mut j: usize = 0;
    while j < binaries.len()
        invariant
            j <= binaries.len(),
            all == views(binaries@),
            forall|k: int| 0 <= k < j ==> !same_ignoring_case(name@, #[trigger] all[k]),
        decreases binaries.len() - j,
    {
        if eq_ignore_ascii_case(name, binaries[j].as_str()) {
            assert(same_ignoring_case(name@, all[j as int]));
            return true;
        }
        j += 1;
    }
    false
}

impl ToolTable {
    /// The table made of `entries`, unless one of them owns no binary.
    pub fn new(entries: Vec<ToolEntry>) -> (table: Option<ToolTable>)
        ensures
            table is Some <==> well_formed(Seq::new(entries@.len(), |i: int| entries@[i]@)),
            table matches Some(t) ==> t@ == Seq::new(entries@.len(), |i: int| entries@[i]@),
    {
        let ghost tools = Seq::new(entries@.len(), |i: int| entries@[i]@);
        let mut i: usize = 0;
        while i < entries.len()
            invariant
                i <= entries.len(),
                tools == Seq::new(entries@.len(), |i: int| entries@[i]@),
                forall|k: int| 0 <= k < i ==> (#[trigger] tools[k]).binaries.len() > 0,
            decreases entries.len() - i,
        {
            if entries[i].binaries.len() == 0 {
                assert(tools[i as int].binaries.len() == 0);
                return None;
            }
            i += 1;
        }
        Some(ToolTable { entries })
    }

    /// The standard table: `yt-dlp`, `ffmpeg` with its probe utility, `aria2`
    /// and `deno`.
    pub fn standard() -> (table: ToolTable)
        ensures
            table@ == standard_tools(),
            well_formed(table@),
    {
        let mut entries: Vec<ToolEntry> = Vec::new();
        entries.push(entry("yt-dlp", names1("yt-dlp.exe")));
        entries.push(entry("ffmpeg", names2("ffmpeg.exe", "ffprobe.exe")));
        entries.push(entry("aria2", names1("aria2c.exe")));
        entries.push(entry("deno", names1("deno.exe")));
        let table = ToolTable { entries };
        assert(table@ =~= standard_tools());
        table
    }

    /// The number of tools.
    pub fn len(&self) -> (n: usize)
        ensures
            n == self@.len(),
    {
        self.entries.len()
    }

    /// The identifier of the tool that owns the binary `name`; the comparison
    /// ignores the case of ASCII letters.
    pub fn tool_for_binary(&self, name: &str) -> (id: Option<String>)
        ensures
            id is Some == owner_of(self@, name@) is Some,
            id matches Some(found) ==> owner_of(self@, name@) == Some(found@),
    {
        let mut i: usize = 0;
        assert(self@.skip(0) =~= self@);
        while i < self.entries.len()
            invariant
                i <= self.entries.len(),
                owner_of(self@, name@) == owner_of(self@.skip(i as int), name@),
            decreases self.entries.len() - i,
        {
            let ghost rest = self@.skip(i as int);
            assert(rest[0] == self@[i as int]);
            assert(rest.drop_first() =~= self@.skip(i + 1));
            if is_among(&self.entries[i].binaries, name) {
                return Some(self.entries[i].id.clone());
            }
            i += 1;
        }
        None
    }

    /// The binaries of the tool `id`, the main executable first.
    pub fn binaries(&self, id: &str) -> (names: Option<Vec<String>>)
        ensures
            names is Some == binaries_of(self@, id@) is Some,
            names matches Some(found) ==> binaries_of(self@, id@) == Some(views(found@)),
    {
        let mut i: usize = 0;
        assert(self@.skip(0) =~= self@);
        while i < self.entries.len()
            invariant
                i <= self.entries.len(),
                binaries_of(self@, id@) == binaries_of(self@.skip(i as int), id@),
            decreases self.entries.len() - i,
        {
            let ghost rest = self@.skip(i as int);
            assert(rest[0] == self@[i as int]);
            assert(rest.drop_first() =~= self@.skip(i + 1));
            if same_text(self.entries[i].id.as_str(), id) {
                let found = clone_names(&self.entries[i].binaries);
                return Some(found);
            }
            i += 1;
        }
        None
    }
}

/// A copy of `names`.
pub fn clone_names(names: &Vec<String>) -> (copy: Vec<String>)
    ensures
        views(copy@) == views(names@),
        copy.len() == names.len(),
{
    let mut copy: Vec<String> = Vec::new();
    let mut i: usize = 0;
    while i < names.len()
        invariant
            i <= names.len(),
            copy.len() == i,
            forall|k: int| 0 <= k < i ==> copy@[k]@ == names@[k]@,
        decreases names.len() - i,
    {
        copy.push(names[i].clone());
        i += 1;
    }
    assert(views(copy@) =~= views(names@));
    copy
}

/// The identifier of the tool of the standard table that owns the binary
/// `bin_name`; the comparison ignores the case of ASCII letters.
pub fn tool_id_for_binary(bin_name: &str) -> (id: Option<&'static str>)
    ensures
        id is Some == owner_of(standard_tools(), bin_name@) is Some,
        id matches Some(found) ==> owner_of(standard_tools(), bin_name@) == Some(found@),
{
    let ghost tools = standard_tools();
    proof {
        reveal_with_fuel(owner_of, 5);
        assert(tools.drop_first().drop_first().drop_first().drop_first().len() == 0);
    }
    if eq_ignore_ascii_case(bin_name, "yt-dlp.exe") {
        assert(same_ignoring_case(bin_name@, tools[0].binaries[0]));
        Some("yt-dlp")
    } else if eq_ignore_ascii_case(bin_name, "ffmpeg.exe") {
        assert(same_ignoring_case(bin_name@, tools[1].binaries[0]));
        Some("ffmpeg")
    } else if eq_ignore_ascii_case(bin_name, "ffprobe.exe") {
        assert(same_ignoring_case(bin_name@, tools[1].binaries[1]));
        Some("ffmpeg")
    } else if eq_ignore_ascii_case(bin_name, "aria2c.exe") {
        assert(same_ignoring_case(bin_name@, tools[2].binaries[0]));
        Some("aria2")
    } else if eq_ignore_ascii_case(bin_name, "deno.exe") {
        assert(same_ignoring_case(bin_name@, tools[3].binaries[0]));
        Some("deno")
    } else {
        None
    }
}

} // verus!
