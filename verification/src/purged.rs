//! What a purge leaves behind: where nothing failed, no backup of any tool
//! is left in the directories that were purged, and a listing of them finds
//! none.

use vstd::prelude::*;
use crate::backups::{
    backup_owner, backups_among, empty_report, list_at, list_next, with_owners, ListState, Report,
};
use crate::catalog::Tool;
use crate::files::{held_in, performs, Exchange, Files, Reply, Request};
use crate::paths::{inside, is_plain_name, is_separator};
use crate::protocol::{outcome_of, run_of, Turn};
use crate::purge::{purge_at, purge_in, purge_next, PurgeState};
use crate::restore::nothing_failed;

verus! {

/// The step function of a purge.
pub open spec fn purge_steps() -> spec_fn(PurgeState, Reply) -> Turn<PurgeState, Report> {
    |s: PurgeState, reply: Reply| purge_next(s, reply)
}

/// The step function of a listing.
pub open spec fn list_steps() -> spec_fn(ListState, Reply) -> Turn<ListState, Seq<Seq<char>>> {
    |s: ListState, reply: Reply| list_next(s, reply)
}

/// Whether every file that `files` hold in the directory `dir` is named
/// with the separator `sep`.
pub open spec fn named_with(files: Files, dir: Seq<char>, sep: char) -> bool {
    forall|name: Seq<char>, other: char|
        is_separator(other) && #[trigger] files.dom().contains(inside(dir, name, other)) ==> inside(
            dir,
            name,
            other,
        ) == inside(dir, name, sep)
}

/// Whether every file of the directories `dirs` is named with the separator
/// `sep`.
pub open spec fn all_named_with(files: Files, dirs: Seq<Seq<char>>, sep: char) -> bool {
    forall|d: int| 0 <= d < dirs.len() ==> named_with(files, #[trigger] dirs[d], sep)
}

/// Whether the directory `dir` holds no backup of a binary of any tool.
pub open spec fn clear_of_backups(tools: Seq<Tool>, files: Files, dir: Seq<char>, sep: char) -> bool {
    forall|name: Seq<char>|
        is_plain_name(name) && backup_owner(tools, name) is Some ==> !#[trigger] files.dom().contains(
            inside(dir, name, sep),
        )
}

/// Whether the first `upto` of the directories `dirs` hold no backup.
pub open spec fn all_clear(tools: Seq<Tool>, files: Files, dirs: Seq<Seq<char>>, sep: char, upto: int) -> bool {
    forall|d: int| 0 <= d < upto && d < dirs.len() ==> clear_of_backups(tools, files, #[trigger] dirs[d], sep)
}

/// Whether `name` is one of `pending` at or after the index `pos`.
pub open spec fn awaits(pending: Seq<Seq<char>>, pos: int, name: Seq<char>) -> bool {
    exists|k: int| pos <= k < pending.len() && 0 <= k && #[trigger] pending[k] == name
}

/// Whether every backup that the directory `dir` holds is one of `pending`
/// at or after the index `pos`.
pub open spec fn all_await(
    tools: Seq<Tool>,
    files: Files,
    dir: Seq<char>,
    sep: char,
    pending: Seq<Seq<char>>,
    pos: int,
) -> bool {
    forall|name: Seq<char>|
        is_plain_name(name) && backup_owner(tools, name) is Some && #[trigger] files.dom().contains(
            inside(dir, name, sep),
        ) ==> awaits(pending, pos, name)
}

/// Whether a purge in state `s`, on a host whose files are `files`, has
/// cleared the directories before the one it stands at, and has every backup
/// of that one before it.
pub open spec fn on_course(s: PurgeState, request: Request, files: Files) -> bool {
    &&& is_separator(s.sep)
    &&& 0 <= s.next < s.dirs.len()
    &&& all_named_with(files, s.dirs, s.sep)
    &&& all_clear(s.tools, files, s.dirs, s.sep, s.next)
    &&& if s.listing {
        request == (Request::List { dir: s.dirs[s.next] })
    } else {
        &&& 0 <= s.pos < s.pending.len()
        &&& request == (Request::Remove { path: inside(s.dirs[s.next], s.pending[s.pos], s.sep) })
        &&& all_await(s.tools, files, s.dirs[s.next], s.sep, s.pending, s.pos)
    }
}

/// Whether the turn `turn` of a purge leaves it on course.
pub open spec fn stays_on_course(
    tools: Seq<Tool>,
    dirs: Seq<Seq<char>>,
    sep: char,
    turn: Turn<PurgeState, Report>,
    files: Files,
) -> bool {
    match turn {
        Turn::Ask(s, request) => s.tools == tools && s.dirs == dirs && s.sep == sep && on_course(
            s,
            request,
            files,
        ),
        Turn::Finished(_) => all_named_with(files, dirs, sep) && all_clear(
            tools,
            files,
            dirs,
            sep,
            dirs.len() as int,
        ),
    }
}

/// A backup among the entries of a directory is among the backups found.
proof fn lemma_backups_among(tools: Seq<Tool>, entries: Seq<Seq<char>>, name: Seq<char>)
    requires
        entries.contains(name),
        backup_owner(tools, name) is Some,
    ensures
        awaits(backups_among(tools, entries), 0, name),
    decreases entries.len(),
{
    let all = backups_among(tools, entries);
    if entries.last() == name {
        assert(all.last() == name);
        assert(all[all.len() - 1] == name);
    } else {
        let front = entries.drop_last();
        let i = choose|i: int| 0 <= i < entries.len() && entries[i] == name;
        assert(front[i] == name);
        lemma_backups_among(tools, front, name);
        let before = backups_among(tools, front);
        let k = choose|k: int| 0 <= k < before.len() && 0 <= k && #[trigger] before[k] == name;
        assert(all[k] == name);
    }
}

/// Entries of which none is a backup add no tool to those known.
proof fn lemma_no_owners(tools: Seq<Tool>, known: Seq<Seq<char>>, entries: Seq<Seq<char>>)
    requires
        forall|i: int| 0 <= i < entries.len() ==> backup_owner(tools, #[trigger] entries[i]) is None,
    ensures
        with_owners(tools, known, entries) == known,
    decreases entries.len(),
{
    if entries.len() > 0 {
        let front = entries.drop_last();
        assert forall|i: int| 0 <= i < front.len() implies backup_owner(
            tools,
            #[trigger] front[i],
        ) is None by {
            assert(front[i] == entries[i]);
        }
        lemma_no_owners(tools, known, front);
        assert(entries.last() == entries[entries.len() - 1]);
    }
}

/// Turning to the directory `next` leaves a purge on course.
proof fn lemma_at_on_course(
    tools: Seq<Tool>,
    dirs: Seq<Seq<char>>,
    sep: char,
    next: int,
    report: Report,
    files: Files,
)
    requires
        is_separator(sep),
        0 <= next,
        all_named_with(files, dirs, sep),
        all_clear(tools, files, dirs, sep, next),
    ensures
        stays_on_course(tools, dirs, sep, purge_at(tools, dirs, sep, next, report), files),
{
}

/// Going on within a directory leaves a purge on course.
proof fn lemma_in_on_course(
    s: PurgeState,
    pending: Seq<Seq<char>>,
    pos: int,
    report: Report,
    files: Files,
)
    requires
        is_separator(s.sep),
        0 <= s.next < s.dirs.len(),
        0 <= pos,
        all_named_with(files, s.dirs, s.sep),
        all_clear(s.tools, files, s.dirs, s.sep, s.next),
        all_await(s.tools, files, s.dirs[s.next], s.sep, pending, pos),
    ensures
        stays_on_course(s.tools, s.dirs, s.sep, purge_in(s, pending, pos, report), files),
{
    if pos >= pending.len() {
        assert(clear_of_backups(s.tools, files, s.dirs[s.next], s.sep)) by {
            assert forall|name: Seq<char>|
                is_plain_name(name) && backup_owner(s.tools, name) is Some implies !#[trigger] files.dom().contains(
                inside(s.dirs[s.next], name, s.sep),
            ) by {
                if files.dom().contains(inside(s.dirs[s.next], name, s.sep)) {
                    assert(awaits(pending, pos, name));
                }
            }
        }
        assert(all_clear(s.tools, files, s.dirs, s.sep, s.next + 1));
        lemma_at_on_course(s.tools, s.dirs, s.sep, s.next + 1, report, files);
    }
}

/// A step that does not fail leaves a purge on course.
proof fn lemma_step_on_course(
    s: PurgeState,
    request: Request,
    files: Files,
    reply: Reply,
    after: Files,
)
    requires
        on_course(s, request, files),
        performs(files, request, reply, after),
        !(reply is Failed),
    ensures
        stays_on_course(s.tools, s.dirs, s.sep, purge_next(s, reply), after),
{
    let dir = s.dirs[s.next];
    if s.listing {
        let entries = reply->Names_0;
        let pending = backups_among(s.tools, entries);
        assert(all_await(s.tools, files, dir, s.sep, pending, 0)) by {
            assert forall|name: Seq<char>|
                is_plain_name(name) && backup_owner(s.tools, name) is Some
                    && #[trigger] files.dom().contains(inside(dir, name, s.sep)) implies awaits(
                pending,
                0,
                name,
            ) by {
                assert(held_in(files, dir, name));
                assert(entries.contains(name));
                lemma_backups_among(s.tools, entries, name);
            }
        }
        lemma_in_on_course(s, pending, 0, s.report, after);
    } else {
        let gone = s.pending[s.pos];
        let path = inside(dir, gone, s.sep);
        assert(after == files.remove(path));
        assert(all_named_with(after, s.dirs, s.sep)) by {
            assert forall|d: int| 0 <= d < s.dirs.len() implies named_with(
                after,
                #[trigger] s.dirs[d],
                s.sep,
            ) by {
                assert(named_with(files, s.dirs[d], s.sep));
            }
        }
        assert(all_clear(s.tools, after, s.dirs, s.sep, s.next)) by {
            assert forall|d: int| 0 <= d < s.next && d < s.dirs.len() implies clear_of_backups(
                s.tools,
                after,
                #[trigger] s.dirs[d],
                s.sep,
            ) by {
                assert(clear_of_backups(s.tools, files, s.dirs[d], s.sep));
            }
        }
        assert(all_await(s.tools, after, dir, s.sep, s.pending, s.pos + 1)) by {
            assert forall|name: Seq<char>|
                is_plain_name(name) && backup_owner(s.tools, name) is Some
                    && #[trigger] after.dom().contains(inside(dir, name, s.sep)) implies awaits(
                s.pending,
                s.pos + 1,
                name,
            ) by {
                assert(files.dom().contains(inside(dir, name, s.sep)));
                assert(awaits(s.pending, s.pos, name));
                let k = choose|k: int|
                    s.pos <= k < s.pending.len() && 0 <= k && #[trigger] s.pending[k] == name;
                if k == s.pos {
                    assert(inside(dir, name, s.sep) == path);
                }
            }
        }
        lemma_in_on_course(
            s,
            s.pending,
            s.pos + 1,
            crate::backups::reported(s.report, s.pending[s.pos], reply),
            after,
        );
    }
}

/// A purge that runs to its end from a state on course, without a failure,
/// leaves no backup in its directories.
proof fn lemma_purge_run(s: PurgeState, request: Request, files: Files, rest: Seq<Exchange>)
    requires
        on_course(s, request, files),
        nothing_failed(rest),
        run_of(purge_steps(), s, request, files, rest) is Some,
    ensures
        ({
            let after = run_of(purge_steps(), s, request, files, rest)->Some_0.files;
            all_named_with(after, s.dirs, s.sep) && all_clear(
                s.tools,
                after,
                s.dirs,
                s.sep,
                s.dirs.len() as int,
            )
        }),
    decreases rest.len(),
{
    let reply = rest[0].reply;
    assert(purge_steps()(s, reply) == purge_next(s, reply));
    lemma_step_on_course(s, request, files, reply, rest[0].files);
    match purge_next(s, reply) {
        Turn::Ask(then, asked) => {
            let tail = rest.drop_first();
            assert forall|i: int| 0 <= i < tail.len() implies !((#[trigger] tail[i]).reply is Failed) by {
                assert(tail[i] == rest[i + 1]);
            }
            lemma_purge_run(then, asked, rest[0].files, tail);
        },
        Turn::Finished(result) => {},
    }
}

/// A listing of directories that hold no backup finds no tool.
proof fn lemma_list_run(s: ListState, sep: char, files: Files, rest: Seq<Exchange>)
    requires
        is_separator(sep),
        0 <= s.next < s.dirs.len(),
        s.known.len() == 0,
        all_named_with(files, s.dirs, sep),
        all_clear(s.tools, files, s.dirs, sep, s.dirs.len() as int),
        run_of(list_steps(), s, Request::List { dir: s.dirs[s.next] }, files, rest) is Some,
    ensures
        ({
            let o = run_of(list_steps(), s, Request::List { dir: s.dirs[s.next] }, files, rest)->Some_0;
            o.files == files && o.result == Ok::<Seq<Seq<char>>, crate::errors::Failure>(Seq::empty())
        }),
    decreases rest.len(),
{
    let reply = rest[0].reply;
    let dir = s.dirs[s.next];
    assert(list_steps()(s, reply) == list_next(s, reply));
    assert(rest[0].files == files);
    assert(named_with(files, dir, sep));
    assert(clear_of_backups(s.tools, files, dir, sep));
    if reply is Names {
        let entries = reply->Names_0;
        assert forall|i: int| 0 <= i < entries.len() implies backup_owner(
            s.tools,
            #[trigger] entries[i],
        ) is None by {
            let name = entries[i];
            assert(entries.contains(name));
            assert(is_plain_name(name) && held_in(files, dir, name));
            if files.dom().contains(inside(dir, name, '/')) {
                assert(inside(dir, name, '/') == inside(dir, name, sep));
            } else {
                assert(inside(dir, name, '\\') == inside(dir, name, sep));
            }
            assert(files.dom().contains(inside(dir, name, sep)));
        }
        lemma_no_owners(s.tools, s.known, entries);
    }
    assert(s.known =~= Seq::<Seq<char>>::empty());
    match list_next(s, reply) {
        Turn::Ask(then, asked) => {
            lemma_list_run(then, sep, files, rest.drop_first());
        },
        Turn::Finished(result) => {},
    }
}

/// After a purge in which nothing failed, no backup of a binary of any tool
/// is left in the directories that were purged, and a listing of the same
/// directories finds no tool with a backup. The files of the directories are
/// taken to be named with the separator that the purge joins paths with.
pub proof fn law_purge_leaves_no_backup(
    tools: Seq<Tool>,
    dirs: Seq<Seq<char>>,
    sep: char,
    files: Files,
    purging: Seq<Exchange>,
    listing: Seq<Exchange>,
)
    requires
        is_separator(sep),
        all_named_with(files, dirs, sep),
        nothing_failed(purging),
        outcome_of(purge_steps(), purge_at(tools, dirs, sep, 0, empty_report()), files, purging) is Some,
        outcome_of(
            list_steps(),
            list_at(tools, dirs, 0, Seq::empty()),
            outcome_of(
                purge_steps(),
                purge_at(tools, dirs, sep, 0, empty_report()),
                files,
                purging,
            )->Some_0.files,
            listing,
        ) is Some,
    ensures
        ({
            let purged = outcome_of(
                purge_steps(),
                purge_at(tools, dirs, sep, 0, empty_report()),
                files,
                purging,
            )->Some_0;
            let listed = outcome_of(
                list_steps(),
                list_at(tools, dirs, 0, Seq::empty()),
                purged.files,
                listing,
            )->Some_0;
            &&& all_clear(tools, purged.files, dirs, sep, dirs.len() as int)
            &&& listed.result == Ok::<Seq<Seq<char>>, crate::errors::Failure>(Seq::empty())
            &&& listed.files == purged.files
        }),
{
    let first = purge_at(tools, dirs, sep, 0, empty_report());
    if dirs.len() > 0 {
        lemma_purge_run(first->Ask_0, first->Ask_1, files, purging);
        let purged = outcome_of(purge_steps(), first, files, purging)->Some_0;
        let begin = list_at(tools, dirs, 0, Seq::empty());
        lemma_list_run(begin->Ask_0, sep, purged.files, listing);
    }
}

} // verus!
