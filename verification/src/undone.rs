//! What the rollback of a tool leaves behind where one of its binaries has
//! a backup: that backup is live again, and nothing else has changed.

use vstd::prelude::*;
use crate::catalog::{binaries_of, Tool};
use crate::errors::Failure;
use crate::files::{performs, Exchange, Files, Reply};
use crate::install::{install_outcome, law_install_outcomes, law_install_success};
use crate::paths::{
    backup_suffix, inside, is_plain_name, lemma_companions_differ, lemma_plain_inside,
    rollback_suffix,
};
use crate::protocol::{Outcome, Turn};
use crate::restore::{
    lemma_restored_end, nothing_failed, restore_may_end, restore_next, restore_pending,
    restore_start, unharmed, RestoreState,
};
use crate::rollback::{
    lemma_rollback_idle, places, restored_entry, rollback_at, rollback_end, rollback_from,
    rollback_next, rollback_outcome, rollback_run, Place, RollbackState,
};

verus! {

/// The path of the live file of a place.
pub open spec fn live_of(place: Place, sep: char) -> Seq<char> {
    inside(place.dir, place.name, sep)
}

/// Whether the place `at` is the only one with a backup: at no other place
/// do the files hold a backup, and the backup of no other place is the live
/// file of the place `at` or the file that its restoring moves aside.
pub open spec fn only_backup(places: Seq<Place>, sep: char, files: Files, at: int) -> bool {
    forall|k: int|
        0 <= k < places.len() && k != at ==> {
            let backup = inside((#[trigger] places[k]).dir, places[k].name, sep) + backup_suffix();
            &&& !files.dom().contains(backup)
            &&& backup != live_of(places[at], sep)
            &&& backup != live_of(places[at], sep) + rollback_suffix()
        }
}

/// Whether no place after the place `at` has a backup, and none can get one
/// from the restoring of the place `at`.
pub open spec fn later_clear(places: Seq<Place>, sep: char, files: Files, at: int) -> bool {
    forall|k: int|
        at < k < places.len() ==> {
            let backup = inside((#[trigger] places[k]).dir, places[k].name, sep) + backup_suffix();
            &&& !files.dom().contains(backup)
            &&& backup != live_of(places[at], sep)
            &&& backup != live_of(places[at], sep) + rollback_suffix()
        }
}

/// Whether the rollback in state `s` restores the place it stands at.
pub open spec fn at_its_place(s: RollbackState) -> bool {
    &&& 0 <= s.next < s.places.len()
    &&& s.item.live == live_of(s.places[s.next], s.sep)
    &&& s.item.backup == s.item.live + backup_suffix()
    &&& s.item.aside == s.item.live + rollback_suffix()
}

/// Whether a rollback that ends with `o` has ended as the restoring of the
/// place it stands at may end, with nothing done at the places behind it.
pub open spec fn ends_like_restore(
    s: RollbackState,
    files: Files,
    faultless: bool,
    o: Outcome<Seq<Seq<char>>>,
) -> bool {
    let entry = restored_entry(s.places[s.next]);
    ||| restore_may_end(
        s.item,
        files,
        faultless,
        Outcome { result: Ok::<bool, Failure>(true), files: o.files },
    ) && o.result == rollback_end(s.tool, s.restored.push(entry))
    ||| restore_may_end(
        s.item,
        files,
        faultless,
        Outcome { result: Ok::<bool, Failure>(false), files: o.files },
    ) && o.result == rollback_end(s.tool, s.restored)
    ||| o.result is Err && restore_may_end(
        s.item,
        files,
        faultless,
        Outcome { result: Err::<bool, Failure>(o.result->Err_0), files: o.files },
    )
}

/// A step of the restoring adds no file but the live one and the one aside.
proof fn lemma_restore_step_adds(s: RestoreState, files: Files, reply: Reply, after: Files)
    requires
        performs(files, restore_pending(s), reply, after),
    ensures
        forall|p: Seq<char>| #[trigger]
            after.dom().contains(p) ==> files.dom().contains(p) || p == s.live || p == s.aside,
{
}

/// The places without a backup before the place `at` are passed one by
/// one, and nothing changes.
proof fn lemma_rollback_skips(
    tool: Seq<char>,
    places: Seq<Place>,
    sep: char,
    next: int,
    at: int,
    restored: Seq<Seq<char>>,
    files: Files,
    rest: Seq<Exchange>,
)
    requires
        0 <= next <= at < places.len(),
        only_backup(places, sep, files, at),
        rollback_from(rollback_at(tool, places, sep, next, restored), files, rest) is Some,
    ensures
        at - next <= rest.len(),
        rollback_from(rollback_at(tool, places, sep, next, restored), files, rest) == rollback_from(
            rollback_at(tool, places, sep, at, restored),
            files,
            rest.skip(at - next),
        ),
    decreases at - next,
{
    if next < at {
        let _ = places[next];
        let first = rollback_at(tool, places, sep, next, restored);
        let s = first->Ask_0;
        assert(rest[0].files == files);
        assert(rollback_next(s, rest[0].reply) == rollback_at(tool, places, sep, next + 1, restored));
        let tail = rest.drop_first();
        lemma_rollback_skips(tool, places, sep, next + 1, at, restored, files, tail);
        assert(tail.skip(at - next - 1) =~= rest.skip(at - next));
    } else {
        assert(rest.skip(0) =~= rest);
    }
}

/// A rollback that stands at a place behind which no place has a backup
/// ends as the restoring of that place ends.
proof fn lemma_rollback_one(s: RollbackState, files: Files, rest: Seq<Exchange>)
    requires
        at_its_place(s),
        later_clear(s.places, s.sep, files, s.next),
        rollback_run(s, restore_pending(s.item), files, rest) is Some,
    ensures
        ends_like_restore(
            s,
            files,
            nothing_failed(rest) && unharmed(s.item),
            rollback_run(s, restore_pending(s.item), files, rest)->Some_0,
        ),
    decreases rest.len(),
{
    let reply = rest[0].reply;
    let files1 = rest[0].files;
    let tail = rest.drop_first();
    assert(nothing_failed(rest) ==> !(rest[0].reply is Failed));
    if nothing_failed(rest) {
        assert forall|i: int| 0 <= i < tail.len() implies !((#[trigger] tail[i]).reply is Failed) by {
            assert(tail[i] == rest[i + 1]);
        }
    }
    lemma_restore_step_adds(s.item, files, reply, files1);
    assert(later_clear(s.places, s.sep, files1, s.next)) by {
        assert forall|k: int| s.next < k < s.places.len() implies {
            let backup = inside((#[trigger] s.places[k]).dir, s.places[k].name, s.sep)
                + backup_suffix();
            &&& !files1.dom().contains(backup)
            &&& backup != live_of(s.places[s.next], s.sep)
            &&& backup != live_of(s.places[s.next], s.sep) + rollback_suffix()
        } by {
            let backup = inside(s.places[k].dir, s.places[k].name, s.sep) + backup_suffix();
            if files1.dom().contains(backup) {
                assert(files.dom().contains(backup) || backup == s.item.live || backup
                    == s.item.aside);
            }
        }
    }
    match restore_next(s.item, reply) {
        Turn::Ask(item, asked) => {
            assert(asked == restore_pending(item));
            assert(item.name == s.item.name && item.live == s.item.live && item.backup
                == s.item.backup && item.aside == s.item.aside);
            let then = RollbackState { item, ..s };
            assert(rollback_next(s, reply) == Turn::<RollbackState, Seq<Seq<char>>>::Ask(
                then,
                asked,
            ));
            lemma_rollback_one(then, files1, tail);
        },
        Turn::Finished(Ok(done)) => {
            let restored = if done {
                s.restored.push(restored_entry(s.places[s.next]))
            } else {
                s.restored
            };
            let onward = rollback_at(s.tool, s.places, s.sep, s.next + 1, restored);
            assert(rollback_next(s, reply) == onward);
            assert(rollback_run(s, restore_pending(s.item), files, rest) == rollback_from(
                onward,
                files1,
                tail,
            ));
            assert(crate::rollback::no_backup_from(s.places, s.sep, files1, s.next + 1));
            lemma_rollback_idle(s.tool, s.places, s.sep, s.next + 1, restored, files1, tail);
        },
        Turn::Finished(Err(failure)) => {},
    }
}

/// Where one binary of a tool has a backup and no other has, a rollback of
/// the tool that ends well has restored that binary and nothing else: it
/// reports the one place, the backup's content is live there, the backup is
/// gone, and every file but the live one, the backup and the one moved
/// aside is as it was. If nothing failed on the way, no file lies aside.
pub proof fn law_rollback_restores_the_backup(
    tools: Seq<Tool>,
    tool: Seq<char>,
    dirs: Seq<Seq<char>>,
    sep: char,
    at: int,
    files: Files,
    run: Seq<Exchange>,
)
    requires
        binaries_of(tools, tool) is Some,
        0 <= at < places(dirs, binaries_of(tools, tool)->Some_0).len(),
        files.dom().contains(
            live_of(places(dirs, binaries_of(tools, tool)->Some_0)[at], sep) + backup_suffix(),
        ),
        only_backup(places(dirs, binaries_of(tools, tool)->Some_0), sep, files, at),
        rollback_outcome(tools, tool, dirs, sep, files, run) is Some,
        rollback_outcome(tools, tool, dirs, sep, files, run)->Some_0.result is Ok,
    ensures
        ({
            let place = places(dirs, binaries_of(tools, tool)->Some_0)[at];
            let live = live_of(place, sep);
            let backup = live + backup_suffix();
            let aside = live + rollback_suffix();
            let o = rollback_outcome(tools, tool, dirs, sep, files, run)->Some_0;
            &&& o.result == Ok::<Seq<Seq<char>>, Failure>(seq![restored_entry(place)])
            &&& o.files.dom().contains(live) && o.files[live] == files[backup]
            &&& !o.files.dom().contains(backup)
            &&& nothing_failed(run) ==> o.files == files.remove(backup).remove(aside).insert(
                live,
                files[backup],
            )
            &&& forall|p: Seq<char>|
                #![trigger o.files.dom().contains(p)]
                p != live && p != backup && p != aside ==> (o.files.dom().contains(p)
                    <==> files.dom().contains(p)) && o.files[p] == files[p]
        }),
{
    let all = places(dirs, binaries_of(tools, tool)->Some_0);
    let place = all[at];
    let none = Seq::<Seq<char>>::empty();
    lemma_rollback_skips(tool, all, sep, 0, at, none, files, run);
    let rest = run.skip(at);
    let first = rollback_at(tool, all, sep, at, none);
    let s = first->Ask_0;
    assert(later_clear(all, sep, files, at));
    lemma_rollback_one(s, files, rest);
    let o = rollback_outcome(tools, tool, dirs, sep, files, run)->Some_0;
    let faultless = nothing_failed(rest);
    if nothing_failed(run) {
        assert forall|i: int| 0 <= i < rest.len() implies !((#[trigger] rest[i]).reply is Failed) by {
            assert(rest[i] == run[i + at]);
        }
    }
    assert(unharmed(s.item));
    assert(s.item == restore_start(place.dir, place.name, sep));
    assert(none.push(restored_entry(place)) =~= seq![restored_entry(place)]);
    lemma_restored_end(
        place.dir,
        place.name,
        sep,
        files,
        faultless,
        Outcome { result: Ok::<bool, Failure>(true), files: o.files },
    );
}

/// Installing a new version over a live binary of a tool and then rolling
/// the tool back brings back what was live before the installation, where
/// no other binary of the tool has a backup. Neither the staging file nor
/// the backup is left; if nothing failed while rolling back, no file lies
/// aside either, and every other file is as it was.
pub proof fn law_rollback_tool_undoes_install(
    tools: Seq<Tool>,
    tool: Seq<char>,
    dirs: Seq<Seq<char>>,
    sep: char,
    at: int,
    staging: Seq<char>,
    files: Files,
    installing: Seq<Exchange>,
    rolling: Seq<Exchange>,
)
    requires
        binaries_of(tools, tool) is Some,
        0 <= at < places(dirs, binaries_of(tools, tool)->Some_0).len(),
        is_plain_name(places(dirs, binaries_of(tools, tool)->Some_0)[at].name),
        ({
            let all = places(dirs, binaries_of(tools, tool)->Some_0);
            let live = live_of(all[at], sep);
            let installed = install_outcome(live, staging, files, installing);
            &&& staging != live
            &&& staging != live + backup_suffix()
            &&& staging != live + rollback_suffix()
            &&& files.dom().contains(live)
            &&& installed is Some
            &&& installed->Some_0.result is Ok
            &&& only_backup(all, sep, installed->Some_0.files, at)
            &&& rollback_outcome(tools, tool, dirs, sep, installed->Some_0.files, rolling) is Some
            &&& rollback_outcome(
                tools,
                tool,
                dirs,
                sep,
                installed->Some_0.files,
                rolling,
            )->Some_0.result is Ok
        }),
    ensures
        ({
            let place = places(dirs, binaries_of(tools, tool)->Some_0)[at];
            let live = live_of(place, sep);
            let installed = install_outcome(live, staging, files, installing)->Some_0.files;
            let end = rollback_outcome(tools, tool, dirs, sep, installed, rolling)->Some_0;
            &&& end.result == Ok::<Seq<Seq<char>>, Failure>(seq![restored_entry(place)])
            &&& end.files.dom().contains(live) && end.files[live] == files[live]
            &&& !end.files.dom().contains(staging)
            &&& !end.files.dom().contains(live + backup_suffix())
            &&& nothing_failed(rolling) ==> end.files == files.remove(staging).remove(
                live + backup_suffix(),
            ).remove(live + rollback_suffix())
        }),
{
    let place = places(dirs, binaries_of(tools, tool)->Some_0)[at];
    let live = live_of(place, sep);
    let backup = live + backup_suffix();
    let aside = live + rollback_suffix();
    lemma_companions_differ(live);
    lemma_plain_inside(place.dir, place.name, sep);
    law_install_success(live, staging, files, installing);
    law_install_outcomes(live, staging, files, installing);
    let installed = install_outcome(live, staging, files, installing)->Some_0.files;
    law_rollback_restores_the_backup(tools, tool, dirs, sep, at, installed, rolling);
    let end = rollback_outcome(tools, tool, dirs, sep, installed, rolling)->Some_0;
    assert(end.files.dom().contains(staging) <==> installed.dom().contains(staging));
    if nothing_failed(rolling) {
        assert(end.files =~= files.remove(staging).remove(backup).remove(aside));
    }
}

} // verus!
