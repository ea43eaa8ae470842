//! File-name conventions of an install directory.
//!
//! A live binary `<dir>/<name>` has three companions: its backup
//! `<dir>/<name>.old`, its staging file `<dir>/<name>.new` and, while a
//! rollback is under way, `<dir>/<name>.rollback-tmp`. Paths are plain text;
//! both `/` and `\` separate components. Separators and `.` components at the
//! end of a path do not count: `bin/tool/` and `bin/tool/.` name `bin/tool`.

use vstd::prelude::*;
use crate::text::{chars_of, concat2, text_of};

verus! {

/// Whether `c` separates the components of a path.
pub open spec fn is_separator(c: char) -> bool {
    c == '/' || c == '\\'
}

/// The index at which the last component of `path` begins: just after its
/// last separator, or 0 when it has none.
pub open spec fn name_start(path: Seq<char>) -> int
    decreases path.len(),
{
    if path.len() == 0 {
        0
    } else if is_separator(path.last()) {
        path.len() as int
    } else {
        name_start(path.drop_last())
    }
}

/// What follows the last separator of `path`.
pub open spec fn last_part(path: Seq<char>) -> Seq<char> {
    path.subrange(name_start(path), path.len() as int)
}

/// The length of the first `n` characters of `path` without the separators
/// and `.` components at their end.
pub open spec fn real_end(path: Seq<char>, n: int) -> int
    decreases n,
{
    if n <= 0 {
        0
    } else if is_separator(path[n - 1]) {
        real_end(path, n - 1)
    } else if path[n - 1] == '.' && n >= 2 && is_separator(path[n - 2]) {
        real_end(path, n - 1)
    } else {
        n
    }
}

/// `path` without the separators and `.` components at its end.
pub open spec fn trimmed_path(path: Seq<char>) -> Seq<char> {
    path.take(real_end(path, path.len() as int))
}

/// The file name of `path`: its last component, where separators and `.`
/// components at its end do not count.
pub open spec fn file_name(path: Seq<char>) -> Seq<char> {
    last_part(trimmed_path(path))
}

/// Whether `name` can be the name of a file: it is neither empty nor one of
/// the directory links `.` and `..`.
pub open spec fn is_real_name(name: Seq<char>) -> bool {
    name.len() > 0 && name != seq!['.'] && name != seq!['.', '.']
}

/// Whether `name` is the name of a file and nothing more: it holds no
/// separator.
pub open spec fn is_plain_name(name: Seq<char>) -> bool {
    is_real_name(name) && forall|i: int| 0 <= i < name.len() ==> !is_separator(#[trigger] name[i])
}

/// A plain name inside a directory is a path that names a file and has
/// nothing to trim.
pub proof fn lemma_plain_inside(dir: Seq<char>, name: Seq<char>, sep: char)
    requires
        is_plain_name(name),
    ensures
        trimmed_path(inside(dir, name, sep)) == inside(dir, name, sep),
        names_a_file(inside(dir, name, sep)),
{
    let front = if dir.len() == 0 || is_separator(dir.last()) {
        dir
    } else {
        dir.push(sep)
    };
    assert(inside(dir, name, sep) == front + name);
    lemma_ends_with_name(front, name);
}

/// Whether `path` names a file: it has a file name, which is not a directory
/// link.
pub open spec fn names_a_file(path: Seq<char>) -> bool {
    is_real_name(file_name(path))
}

/// The companion of `path` with the suffix `suffix`: in the same directory,
/// the file name followed by the suffix.
pub open spec fn companion_of(path: Seq<char>, suffix: Seq<char>) -> Seq<char> {
    trimmed_path(path) + suffix
}

/// The suffix of a staging file.
pub open spec fn staging_suffix() -> Seq<char> {
    seq!['.', 'n', 'e', 'w']
}

/// The suffix of a backup file.
pub open spec fn backup_suffix() -> Seq<char> {
    seq!['.', 'o', 'l', 'd']
}

/// The suffix of the file that holds the live binary while a rollback swaps
/// the backup in.
pub open spec fn rollback_suffix() -> Seq<char> {
    seq!['.', 'r', 'o', 'l', 'l', 'b', 'a', 'c', 'k', '-', 't', 'm', 'p']
}

/// The message for a path that names no file.
pub open spec fn invalid_target(path: Seq<char>) -> Seq<char> {
    "Invalid target path: "@ + path
}

/// `name` inside `dir`: the two joined by `sep`, unless `dir` is empty or
/// already ends with a separator.
pub open spec fn inside(dir: Seq<char>, name: Seq<char>, sep: char) -> Seq<char> {
    if dir.len() == 0 || is_separator(dir.last()) {
        dir + name
    } else {
        dir.push(sep) + name
    }
}

/// The directory part of `path`: what precedes its file name, without the
/// separator between the two, unless the directory is a root (`/`, `C:\`).
pub open spec fn directory_of(path: Seq<char>) -> Seq<char> {
    let path = trimmed_path(path);
    let start = name_start(path);
    if start == 0 {
        Seq::empty()
    } else if start == 1 || path[start - 2] == ':' || is_separator(path[start - 2]) {
        path.take(start)
    } else {
        path.take(start - 1)
    }
}

/// The start of the last component never lies outside the path.
pub proof fn lemma_name_start_bounds(path: Seq<char>)
    ensures
        0 <= name_start(path) <= path.len(),
        name_start(path) > 0 ==> is_separator(path[name_start(path) - 1]),
        forall|i: int| name_start(path) <= i < path.len() ==> !is_separator(#[trigger] path[i]),
    decreases path.len(),
{
    if path.len() > 0 && !is_separator(path.last()) {
        let front = path.drop_last();
        lemma_name_start_bounds(front);
        assert forall|i: int| name_start(path) <= i < path.len() implies !is_separator(
            #[trigger] path[i],
        ) by {
            if i < front.len() {
                assert(path[i] == front[i]);
            }
        }
    }
}

/// Where the trimming of a path ends, a component ends: no separator and no
/// `.` component stands there.
pub proof fn lemma_real_end(path: Seq<char>, n: int)
    requires
        n <= path.len(),
    ensures
        0 <= real_end(path, n),
        n >= 0 ==> real_end(path, n) <= n,
        real_end(path, n) > 0 ==> !is_separator(path[real_end(path, n) - 1]),
        real_end(path, n) > 1 && path[real_end(path, n) - 1] == '.' ==> !is_separator(
            path[real_end(path, n) - 2],
        ),
    decreases n,
{
    if n > 0 {
        if is_separator(path[n - 1]) {
            lemma_real_end(path, n - 1);
        } else if path[n - 1] == '.' && n >= 2 && is_separator(path[n - 2]) {
            lemma_real_end(path, n - 1);
        }
    }
}

/// The last part of a path holds no separator.
pub proof fn lemma_last_part(path: Seq<char>)
    ensures
        forall|i: int| 0 <= i < last_part(path).len() ==> !is_separator(#[trigger] last_part(path)[i]),
        path.len() > 0 && !is_separator(path.last()) ==> last_part(path).len() > 0,
{
    lemma_name_start_bounds(path);
    assert forall|i: int| 0 <= i < last_part(path).len() implies !is_separator(
        #[trigger] last_part(path)[i],
    ) by {
        assert(last_part(path)[i] == path[name_start(path) + i]);
    }
}

/// A path that ends with a file name has nothing to trim and names a file,
/// whatever stands in front of the name; where that is nothing, or ends with
/// a separator, the name is the file name of the path.
pub proof fn lemma_ends_with_name(front: Seq<char>, name: Seq<char>)
    requires
        is_real_name(name),
        forall|i: int| 0 <= i < name.len() ==> !is_separator(#[trigger] name[i]),
    ensures
        trimmed_path(front + name) == front + name,
        names_a_file(front + name),
        front.len() == 0 || is_separator(front.last()) ==> file_name(front + name) == name,
{
    let path = front + name;
    let n = path.len() as int;
    assert(path[n - 1] == name[name.len() - 1]);
    assert(!is_separator(path[n - 1]));
    if path[n - 1] == '.' {
        if name.len() == 1 {
            assert(name =~= seq!['.']);
        } else {
            assert(path[n - 2] == name[name.len() - 2]);
        }
    }
    assert(real_end(path, n) == n);
    assert(path.take(n) =~= path);
    lemma_name_start_bounds(front);
    lemma_last_part(front);
    let head = front.take(name_start(front));
    let tail = last_part(front);
    let long = tail + name;
    assert(front =~= head + tail);
    assert(path =~= head + long);
    assert forall|i: int| 0 <= i < long.len() implies !is_separator(#[trigger] long[i]) by {
        if i < tail.len() {
            assert(long[i] == tail[i]);
        } else {
            assert(long[i] == name[i - tail.len()]);
        }
    }
    assert(head.len() == 0 || is_separator(head.last())) by {
        if head.len() > 0 {
            assert(head.last() == front[name_start(front) - 1]);
        }
    }
    lemma_name_start_append(head, long);
    assert(last_part(path) =~= long);
    assert(is_real_name(long)) by {
        if tail.len() == 0 {
            assert(long =~= name);
        } else if long =~= seq!['.', '.'] {
            assert(name.len() == 1 && name[0] == long[1]);
            assert(name =~= seq!['.']);
        } else if long =~= seq!['.'] {
            assert(long.len() == 1);
        }
    }
    if front.len() == 0 || is_separator(front.last()) {
        assert(tail.len() == 0);
        assert(long =~= name);
    }
}

/// Text without separators behind a path that is empty or ends with a
/// separator begins the last component there.
proof fn lemma_name_start_append(front: Seq<char>, name: Seq<char>)
    requires
        forall|i: int| 0 <= i < name.len() ==> !is_separator(#[trigger] name[i]),
        front.len() == 0 || is_separator(front.last()),
    ensures
        name_start(front + name) == front.len(),
    decreases name.len(),
{
    if name.len() == 0 {
        assert(front + name =~= front);
    } else {
        lemma_name_start_append(front, name.drop_last());
        assert((front + name).drop_last() =~= front + name.drop_last());
        assert((front + name).last() == name.last());
    }
}

/// A companion lies in the directory of its path and bears the path's file
/// name followed by the suffix.
pub proof fn law_companion_keeps_the_directory(path: Seq<char>, suffix: Seq<char>)
    requires
        names_a_file(path),
        suffix.len() > 0,
        forall|i: int| 0 <= i < suffix.len() ==> !is_separator(#[trigger] suffix[i]),
    ensures
        file_name(companion_of(path, suffix)) == file_name(path) + suffix,
        name_start(companion_of(path, suffix)) == name_start(trimmed_path(path)),
        names_a_file(companion_of(path, suffix)),
{
    let base = trimmed_path(path);
    let start = name_start(base);
    lemma_real_end(path, path.len() as int);
    lemma_name_start_bounds(base);
    lemma_last_part(base);
    let front = base.take(start);
    let name = last_part(base);
    assert(base =~= front + name);
    let long = name + suffix;
    assert(base + suffix =~= front + long);
    assert forall|i: int| 0 <= i < long.len() implies !is_separator(#[trigger] long[i]) by {
        if i < name.len() {
            assert(long[i] == name[i]);
        } else {
            assert(long[i] == suffix[i - name.len()]);
        }
    }
    assert(front.len() == 0 || is_separator(front.last())) by {
        if front.len() > 0 {
            assert(front.last() == base[start - 1]);
        }
    }
    assert(is_real_name(long)) by {
        assert(long.len() >= 2);
        if long =~= seq!['.', '.'] {
            assert(name.len() == 1 && name[0] == long[0]);
            assert(name =~= seq!['.']);
        }
    }
    lemma_ends_with_name(front, long);
    lemma_name_start_append(front, long);
}

fn is_sep(c: char) -> (r: bool)
    ensures
        r == is_separator(c),
{
    c == '/' || c == '\\'
}

/// Finds where the last component of `chars` begins.
fn find_name_start(chars: &Vec<char>) -> (start: usize)
    ensures
        start == name_start(chars@),
        start <= chars.len(),
{
    let mut start: usize = 0;
    let mut i: usize = 0;
    while i < chars.len()
        invariant
            i <= chars.len(),
            start <= i,
            start == name_start(chars@.take(i as int)),
        decreases chars.len() - i,
    {
        proof {
            let next = chars@.take(i + 1);
            assert(next.drop_last() =~= chars@.take(i as int));
            assert(next.last() == chars@[i as int]);
        }
        if is_sep(chars[i]) {
            start = i + 1;
        }
        i += 1;
    }
    assert(chars@.take(chars.len() as int) =~= chars@);
    start
}

/// Finds where the last real component of `chars` ends.
fn find_real_end(chars: &Vec<char>) -> (end: usize)
    ensures
        end == real_end(chars@, chars.len() as int),
        end <= chars.len(),
{
    let mut n: usize = chars.len();
    while n > 0 && (is_sep(chars[n - 1]) || (chars[n - 1] == '.' && n >= 2 && is_sep(chars[n - 2])))
        invariant
            n <= chars.len(),
            real_end(chars@, n as int) == real_end(chars@, chars.len() as int),
        decreases n,
    {
        n -= 1;
    }
    proof {
        lemma_real_end(chars@, chars.len() as int);
    }
    n
}

/// The characters of `path` without the separators and `.` components at its
/// end.
fn trimmed_chars(path: &str) -> (kept: Vec<char>)
    ensures
        kept@ == trimmed_path(path@),
{
    let mut kept = chars_of(path);
    let end = find_real_end(&kept);
    kept.truncate(end);
    kept
}

/// Whether the characters from `start` on form a file name.
fn tail_names_a_file(chars: &Vec<char>, start: usize) -> (r: bool)
    requires
        start == name_start(chars@),
        start <= chars.len(),
    ensures
        r == is_real_name(last_part(chars@)),
{
    let len: usize = chars.len() - start;
    let ghost name = last_part(chars@);
    assert(name.len() == len);
    if len == 0 {
        false
    } else if len == 1 {
        assert(name[0] == chars@[start as int]);
        if chars[start] == '.' {
            assert(name =~= seq!['.']);
            false
        } else {
            assert(seq!['.'][0] == '.');
            true
        }
    } else if len == 2 {
        assert(name[0] == chars@[start as int]);
        assert(name[1] == chars@[start + 1]);
        if chars[start] == '.' && chars[start + 1] == '.' {
            assert(name =~= seq!['.', '.']);
            false
        } else {
            assert(seq!['.', '.'][0] == '.');
            assert(seq!['.', '.'][1] == '.');
            true
        }
    } else {
        true
    }
}

/// Whether `path` names a file.
pub fn is_file_path(path: &str) -> (r: bool)
    ensures
        r == names_a_file(path@),
{
    let chars = trimmed_chars(path);
    let start = find_name_start(&chars);
    tail_names_a_file(&chars, start)
}

/// `path` without the separators and `.` components at its end.
pub fn trim_path(path: &str) -> (r: String)
    ensures
        r@ == trimmed_path(path@),
{
    let chars = trimmed_chars(path);
    let r = text_of(&chars, 0, chars.len());
    assert(chars@.subrange(0, chars.len() as int) =~= chars@);
    r
}

/// `path` with `suffix` appended to its file name, or the message that `path`
/// names no file.
fn companion(path: &str, suffix: &str) -> (r: Result<String, String>)
    ensures
        names_a_file(path@) ==> r is Ok && r->Ok_0@ == companion_of(path@, suffix@),
        !names_a_file(path@) ==> r is Err && r->Err_0@ == invalid_target(path@),
{
    if is_file_path(path) {
        let base = trim_path(path);
        Ok(concat2(base.as_str(), suffix))
    } else {
        Err(concat2("Invalid target path: ", path))
    }
}

/// The staging file of `path`: the same directory, the file name followed by
/// `.new`. A path without a file name is refused.
pub fn temp_path_for(path: &str) -> (r: Result<String, String>)
    ensures
        names_a_file(path@) ==> r is Ok && r->Ok_0@ == companion_of(path@, staging_suffix()),
        !names_a_file(path@) ==> r is Err && r->Err_0@ == invalid_target(path@),
{
    proof {
        reveal_strlit(".new");
        assert(".new"@ =~= staging_suffix());
    }
    companion(path, ".new")
}

/// The backup file of `path`: the same directory, the file name followed by
/// `.old`. A path that names no file is refused.
pub fn backup_path_for(path: &str) -> (r: Result<String, String>)
    ensures
        names_a_file(path@) ==> r is Ok && r->Ok_0@ == companion_of(path@, backup_suffix()),
        !names_a_file(path@) ==> r is Err && r->Err_0@ == invalid_target(path@),
{
    proof {
        reveal_strlit(".old");
        assert(".old"@ =~= backup_suffix());
    }
    companion(path, ".old")
}

/// The file that holds the live binary of `path` aside while a rollback swaps
/// its backup in: the file name followed by `.rollback-tmp`. A path that
/// names no file is refused.
pub fn rollback_path_for(path: &str) -> (r: Result<String, String>)
    ensures
        names_a_file(path@) ==> r is Ok && r->Ok_0@ == companion_of(path@, rollback_suffix()),
        !names_a_file(path@) ==> r is Err && r->Err_0@ == invalid_target(path@),
{
    proof {
        reveal_strlit(".rollback-tmp");
        assert(".rollback-tmp"@ =~= rollback_suffix());
    }
    companion(path, ".rollback-tmp")
}

/// The file name of `path`.
pub fn file_name_of(path: &str) -> (name: String)
    ensures
        name@ == file_name(path@),
{
    let chars = trimmed_chars(path);
    let start = find_name_start(&chars);
    text_of(&chars, start, chars.len())
}

/// The path of `name` inside `dir`.
pub fn join_path(dir: &str, name: &str, sep: char) -> (path: String)
    ensures
        path@ == inside(dir@, name@, sep),
{
    let chars = chars_of(dir);
    let mut whole = chars;
    if whole.len() > 0 && !is_sep(whole[whole.len() - 1]) {
        whole.push(sep);
    }
    let mut path = text_of(&whole, 0, whole.len());
    assert(whole@.subrange(0, whole.len() as int) =~= whole@);
    vstd::string::StringExecFns::append(&mut path, name);
    path
}

/// The directory that holds `path`.
pub fn parent_dir(path: &str) -> (dir: String)
    ensures
        dir@ == directory_of(path@),
{
    let chars = trimmed_chars(path);
    let start = find_name_start(&chars);
    if start == 0 {
        let dir = String::new();
        assert(dir@ =~= directory_of(path@));
        dir
    } else if start == 1 || chars[start - 2] == ':' || is_sep(chars[start - 2]) {
        text_of(&chars, 0, start)
    } else {
        text_of(&chars, 0, start - 1)
    }
}

/// The three companions of a path differ from the path and from each other.
pub proof fn lemma_companions_differ(path: Seq<char>)
    ensures
        path + staging_suffix() != path,
        path + backup_suffix() != path,
        path + rollback_suffix() != path,
        path + staging_suffix() != path + backup_suffix(),
        path + staging_suffix() != path + rollback_suffix(),
        path + backup_suffix() != path + rollback_suffix(),
{
    let n = path.len() as int;
    assert((path + staging_suffix()).len() == n + 4);
    assert((path + backup_suffix()).len() == n + 4);
    assert((path + rollback_suffix()).len() == n + 13);
    assert((path + staging_suffix())[n + 1] == 'n');
    assert((path + backup_suffix())[n + 1] == 'o');
}

} // verus!
