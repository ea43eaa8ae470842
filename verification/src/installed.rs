//! What an extraction that ended well has left on the disk.
//!
//! Where the wanted members of an archive bear file names that differ, and
//! none is the name of another followed by `.old` or `.new`, every member
//! that an extraction reports is at its place in the install directory and
//! holds what the archive holds for it.

use vstd::prelude::*;
use crate::extract::{
    extract_begin, extract_next, extract_scan, extract_steps, member_dest, taken, wanted,
    wanted_at, ExtractState, Job, Stage,
};
use crate::files::{performs, Exchange, Files, Reply, Request};
use crate::install::{install_next, pending, InstallPhase, InstallState};
use crate::paths::{
    backup_suffix, inside, is_separator, lemma_companions_differ, lemma_ends_with_name,
    lemma_last_part, names_a_file, staging_suffix, trimmed_path,
};
use crate::protocol::{outcome_of, run_of, Turn};

verus! {

/// Whether the wanted members of the archive bear file names that do not get
/// into each other's way: no two bear the same name, and none bears the name
/// of another followed by the suffix of a backup or of a staging file.
pub open spec fn tidy(job: Job) -> bool {
    forall|i: int, j: int, n: Seq<char>, m: Seq<char>|
        #![trigger wanted_at(job, i, n), wanted_at(job, j, m)]
        i != j && wanted_at(job, i, n) && wanted_at(job, j, m) ==> n != m && n != m
            + backup_suffix() && n != m + staging_suffix()
}

/// Whether the member `index` of the archive, wanted under the name `name`,
/// is at its place and holds what the archive holds for it.
pub open spec fn held(job: Job, files: Files, index: int, name: Seq<char>) -> bool {
    &&& wanted_at(job, index, name)
    &&& files.dom().contains(member_dest(job, name))
    &&& files[member_dest(job, name)] == job.entries[index].data->Ok_0
}

/// Whether `name` is the name of a wanted member before the member `before`
/// that is at its place.
pub open spec fn kept(job: Job, files: Files, name: Seq<char>, before: int) -> bool {
    exists|index: int| 0 <= index < before && held(job, files, index, name)
}

/// Whether every one of the names `found` is kept.
pub open spec fn all_kept(job: Job, files: Files, found: Seq<Seq<char>>, before: int) -> bool {
    forall|k: int| 0 <= k < found.len() ==> kept(job, files, #[trigger] found[k], before)
}

/// Whether an extraction in state `s` that waits on `request`, on a host
/// whose files are `files`, has every member it installed at its place, and
/// is about to put the member it stands at in its place.
pub open spec fn settled(s: ExtractState, request: Request, files: Files) -> bool {
    let job = s.job;
    &&& all_kept(job, files, s.found, s.next)
    &&& match s.stage {
        Stage::Opening { refused } => request is Notify,
        Stage::Announcing => s.found.len() == 0 && request is Notify,
        Stage::Naming { name, content } => wanted_at(job, s.next, name) && content
            == job.entries[s.next].data->Ok_0 && request is Notify,
        Stage::Writing { name } => wanted_at(job, s.next, name) && request == (Request::Write {
            path: member_dest(job, name) + staging_suffix(),
            content: job.entries[s.next].data->Ok_0,
        }),
        Stage::Installing { name, install } => {
            let dest = member_dest(job, name);
            &&& wanted_at(job, s.next, name)
            &&& request == pending(install)
            &&& install.dest == dest
            &&& install.staging == dest + staging_suffix()
            &&& install.backup == dest + backup_suffix()
            &&& (install.phase is Recover || (files.dom().contains(
                install.staging,
            ) && files[install.staging] == job.entries[s.next].data->Ok_0))
        },
    }
}

/// Whether the turn `turn` of an extraction of `job`, on a host whose files
/// are `files`, leaves it settled.
pub open spec fn stays_settled(
    job: Job,
    turn: Turn<ExtractState, Seq<Seq<char>>>,
    files: Files,
    all: int,
) -> bool {
    match turn {
        Turn::Ask(s, request) => s.job == job && settled(s, request, files),
        Turn::Finished(Ok(found)) => all_kept(job, files, found, all),
        Turn::Finished(Err(_)) => true,
    }
}

/// Whether the files `after` are the files `files` but for the live file
/// `dest`, its backup and its staging file.
pub open spec fn same_elsewhere(files: Files, after: Files, dest: Seq<char>) -> bool {
    forall|p: Seq<char>|
        p != dest && p != dest + backup_suffix() && p != dest + staging_suffix() ==> (
        #[trigger] after.dom().contains(p) <==> files.dom().contains(p)) && after[p] == files[p]
}

/// A file name is at one place only in a directory.
pub proof fn lemma_places_differ(dir: Seq<char>, a: Seq<char>, b: Seq<char>, sep: char)
    requires
        a != b,
    ensures
        inside(dir, a, sep) != inside(dir, b, sep),
{
    let front = if dir.len() == 0 || crate::paths::is_separator(dir.last()) {
        dir
    } else {
        dir.push(sep)
    };
    assert(inside(dir, a, sep) == front + a);
    assert(inside(dir, b, sep) == front + b);
    if front + a == front + b {
        assert((front + a).skip(front.len() as int) =~= a);
        assert((front + b).skip(front.len() as int) =~= b);
    }
}

/// The companion of a place is the place of the name with the suffix.
pub proof fn lemma_companion_place(dir: Seq<char>, name: Seq<char>, suffix: Seq<char>, sep: char)
    ensures
        inside(dir, name, sep) + suffix == inside(dir, name + suffix, sep),
{
    assert(inside(dir, name, sep) + suffix =~= inside(dir, name + suffix, sep));
}

/// The place of a wanted member is none of the files that the installation
/// of another wanted member touches.
pub proof fn lemma_out_of_the_way(job: Job, i: int, n: Seq<char>, j: int, m: Seq<char>)
    requires
        tidy(job),
        i != j,
        wanted_at(job, i, n),
        wanted_at(job, j, m),
    ensures
        member_dest(job, n) != member_dest(job, m),
        member_dest(job, n) != member_dest(job, m) + backup_suffix(),
        member_dest(job, n) != member_dest(job, m) + staging_suffix(),
{
    lemma_places_differ(job.dest_dir, n, m, job.sep);
    lemma_places_differ(job.dest_dir, n, m + backup_suffix(), job.sep);
    lemma_places_differ(job.dest_dir, n, m + staging_suffix(), job.sep);
    lemma_companion_place(job.dest_dir, m, backup_suffix(), job.sep);
    lemma_companion_place(job.dest_dir, m, staging_suffix(), job.sep);
}

/// What is kept stays kept when only the files of the member `at` change.
pub proof fn lemma_kept_apart(
    job: Job,
    files: Files,
    after: Files,
    found: Seq<Seq<char>>,
    at: int,
    name: Seq<char>,
)
    requires
        tidy(job),
        wanted_at(job, at, name),
        all_kept(job, files, found, at),
        same_elsewhere(files, after, member_dest(job, name)),
    ensures
        all_kept(job, after, found, at),
{
    assert forall|k: int| 0 <= k < found.len() implies kept(job, after, #[trigger] found[k], at) by {
        assert(kept(job, files, found[k], at));
        let index = choose|index: int| 0 <= index < at && held(job, files, index, found[k]);
        lemma_out_of_the_way(job, index, found[k], at, name);
        assert(after.dom().contains(member_dest(job, found[k])) <==> files.dom().contains(
            member_dest(job, found[k]),
        ));
        assert(held(job, after, index, found[k]));
    }
}

/// What is kept before a member is kept before a later one.
pub proof fn lemma_kept_later(
    job: Job,
    files: Files,
    found: Seq<Seq<char>>,
    before: int,
    later: int,
)
    requires
        all_kept(job, files, found, before),
        before <= later,
    ensures
        all_kept(job, files, found, later),
{
    assert forall|k: int| 0 <= k < found.len() implies kept(job, files, #[trigger] found[k], later) by {
        assert(kept(job, files, found[k], before));
        let index = choose|index: int| 0 <= index < before && held(job, files, index, found[k]);
        assert(held(job, files, index, found[k]));
    }
}

/// Going on at a member leaves an extraction settled.
pub proof fn lemma_scan_settled(job: Job, next: int, found: Seq<Seq<char>>, files: Files)
    requires
        0 <= next,
        all_kept(job, files, found, next),
    ensures
        stays_settled(
            job,
            extract_scan(job, next, found),
            files,
            if next < job.entries.len() {
                job.entries.len() as int
            } else {
                next
            },
        ),
    decreases job.entries.len() - next,
{
    if next < job.entries.len() {
        if job.entries[next].name is Ok {
            if !wanted(job.targets, job.entries[next].name->Ok_0) {
                lemma_kept_later(job, files, found, next, next + 1);
                lemma_scan_settled(job, next + 1, found, files);
                if next + 1 >= job.entries.len() {
                    assert(next + 1 == job.entries.len());
                }
            }
        }
    }
}

/// The member that was just put in its place is kept, with those before it.
pub proof fn lemma_member_kept(
    job: Job,
    files: Files,
    found: Seq<Seq<char>>,
    at: int,
    name: Seq<char>,
)
    requires
        all_kept(job, files, found, at),
        held(job, files, at, name),
    ensures
        all_kept(job, files, found.push(name), at + 1),
{
    lemma_kept_later(job, files, found, at, at + 1);
    let more = found.push(name);
    assert forall|k: int| 0 <= k < more.len() implies kept(job, files, #[trigger] more[k], at + 1) by {
        if k < found.len() {
            assert(more[k] == found[k]);
            assert(kept(job, files, found[k], at + 1));
        } else {
            assert(held(job, files, at, more[k]));
        }
    }
}

/// A step of an installation changes none but the live file, its backup and
/// its staging file.
pub proof fn lemma_install_step_frame(
    install: InstallState,
    files: Files,
    reply: Reply,
    after: Files,
)
    requires
        performs(files, pending(install), reply, after),
        install.backup == install.dest + backup_suffix(),
        install.staging == install.dest + staging_suffix(),
    ensures
        same_elsewhere(files, after, install.dest),
{
    match install.phase {
        InstallPhase::AskBackup => {},
        InstallPhase::AskLive { .. } => {},
        InstallPhase::DropBackup => {},
        InstallPhase::MoveAside => {},
        InstallPhase::Activate { .. } => {},
        InstallPhase::Recover => {},
    }
}

/// The place of a wanted member is a path that names a file and has nothing
/// to trim.
pub proof fn lemma_member_place(job: Job, index: int, name: Seq<char>)
    requires
        wanted_at(job, index, name),
    ensures
        trimmed_path(member_dest(job, name)) == member_dest(job, name),
        names_a_file(member_dest(job, name)),
{
    let path = job.entries[index].name->Ok_0->Some_0;
    lemma_last_part(trimmed_path(path));
    let front = if job.dest_dir.len() == 0 || is_separator(job.dest_dir.last()) {
        job.dest_dir
    } else {
        job.dest_dir.push(job.sep)
    };
    assert(member_dest(job, name) == front + name);
    lemma_ends_with_name(front, name);
}

/// Every step leaves a settled extraction settled.
pub proof fn lemma_step_settled(
    s: ExtractState,
    request: Request,
    files: Files,
    reply: Reply,
    after: Files,
)
    requires
        tidy(s.job),
        0 <= s.next,
        settled(s, request, files),
        performs(files, request, reply, after),
    ensures
        stays_settled(s.job, extract_next(s, reply), after, s.job.entries.len() as int),
        extract_next(s, reply) matches Turn::Ask(then, _) ==> 0 <= then.next,
{
    let job = s.job;
    match s.stage {
        Stage::Opening { refused } => {
            assert(all_kept(job, after, Seq::<Seq<char>>::empty(), 0));
        },
        Stage::Announcing => {
            assert(all_kept(job, after, s.found, 0));
            lemma_scan_settled(job, 0, s.found, after);
            lemma_scan_bounds(job, 0, s.found);
        },
        Stage::Naming { name, content } => {},
        Stage::Writing { name } => {
            let dest = member_dest(job, name);
            lemma_member_place(job, s.next, name);
            lemma_companions_differ(dest);
            assert(same_elsewhere(files, after, dest)) by {
                assert(files.remove(dest + staging_suffix()) =~= after.remove(
                    dest + staging_suffix(),
                ));
                assert forall|p: Seq<char>|
                    p != dest && p != dest + backup_suffix() && p != dest
                        + staging_suffix() implies (#[trigger] after.dom().contains(p)
                    <==> files.dom().contains(p)) && after[p] == files[p] by {
                    assert(files.remove(dest + staging_suffix()).dom().contains(p)
                        == files.dom().contains(p));
                    assert(after.remove(dest + staging_suffix()).dom().contains(p)
                        == after.dom().contains(p));
                    assert(files.remove(dest + staging_suffix())[p] == files[p]);
                    assert(after.remove(dest + staging_suffix())[p] == after[p]);
                }
            }
            lemma_kept_apart(job, files, after, s.found, s.next, name);
            if reply is Done {
                assert(after[dest + staging_suffix()] == job.entries[s.next].data->Ok_0);
            }
        },
        Stage::Installing { name, install } => {
            let dest = member_dest(job, name);
            lemma_companions_differ(dest);
            lemma_install_step_frame(install, files, reply, after);
            lemma_kept_apart(job, files, after, s.found, s.next, name);
            match install_next(install, reply) {
                Turn::Ask(then, asked) => {
                    assert(asked == pending(then));
                },
                Turn::Finished(Ok(_)) => {
                    assert(install.phase is Activate);
                    assert(held(job, after, s.next, name));
                    lemma_member_kept(job, after, s.found, s.next, name);
                    lemma_scan_settled(job, s.next + 1, s.found.push(name), after);
                    lemma_scan_bounds(job, s.next + 1, s.found.push(name));
                },
                Turn::Finished(Err(_)) => {},
            }
        },
    }
}

/// Going on at a member leads to a member at or after it.
pub proof fn lemma_scan_bounds(job: Job, next: int, found: Seq<Seq<char>>)
    requires
        0 <= next,
    ensures
        extract_scan(job, next, found) matches Turn::Ask(then, _) ==> next <= then.next,
    decreases job.entries.len() - next,
{
    if next < job.entries.len() {
        if job.entries[next].name is Ok {
            if !wanted(job.targets, job.entries[next].name->Ok_0) {
                lemma_scan_bounds(job, next + 1, found);
            }
        }
    }
}

/// An extraction that ends well from a settled state has every member it
/// reports at its place.
pub proof fn lemma_run_settled(
    s: ExtractState,
    request: Request,
    files: Files,
    rest: Seq<Exchange>,
)
    requires
        tidy(s.job),
        0 <= s.next,
        settled(s, request, files),
        run_of(extract_steps(), s, request, files, rest) is Some,
    ensures
        ({
            let o = run_of(extract_steps(), s, request, files, rest)->Some_0;
            o.result matches Ok(found) ==> all_kept(
                s.job,
                o.files,
                found,
                s.job.entries.len() as int,
            )
        }),
    decreases rest.len(),
{
    let reply = rest[0].reply;
    let after = rest[0].files;
    assert(extract_steps()(s, reply) == extract_next(s, reply));
    lemma_step_settled(s, request, files, reply, after);
    match extract_next(s, reply) {
        Turn::Ask(then, asked) => {
            lemma_run_settled(then, asked, after, rest.drop_first());
        },
        Turn::Finished(result) => {},
    }
}

/// Where the wanted members of an archive do not get into each other's way,
/// an extraction that ends well leaves every member it reports at its place
/// in the install directory, holding what the archive holds for it, which is
/// not nothing.
pub proof fn law_extracted_members_are_installed(job: Job, files: Files, run: Seq<Exchange>)
    requires
        tidy(job),
        outcome_of(extract_steps(), extract_begin(job), files, run) is Some,
    ensures
        ({
            let o = outcome_of(extract_steps(), extract_begin(job), files, run)->Some_0;
            o.result matches Ok(found) ==> all_kept(job, o.files, found, job.entries.len() as int)
        }),
{
    let first = extract_begin(job);
    let s = first->Ask_0;
    assert(all_kept(job, files, s.found, 0));
    lemma_run_settled(s, first->Ask_1, files, run);
}

/// A member that is kept is at its place and does not hold nothing.
pub proof fn law_kept_members_hold_something(
    job: Job,
    files: Files,
    name: Seq<char>,
    before: int,
)
    requires
        kept(job, files, name, before),
    ensures
        files.dom().contains(member_dest(job, name)),
        files[member_dest(job, name)].len() > 0,
        taken(job, name),
{
    let index = choose|index: int| 0 <= index < before && held(job, files, index, name);
    assert(wanted_at(job, index, name));
}

} // verus!
