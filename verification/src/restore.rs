//! Putting the backup of one binary back into place.
//!
//! The live file, if there is one, is moved aside to `<live>.rollback-tmp`;
//! the backup is moved into the live position; the file that was moved aside
//! is deleted. Should the second move fail, the first is undone.

use vstd::prelude::*;
use vstd::string::StringExecFns;
use crate::errors::{EngineError, ErrorKind, Failure};
use crate::files::{failure_of, found, performs, Exchange, Files, HostReply, HostRequest, Reply, Request};
use crate::paths::{backup_suffix, inside, join_path, rollback_suffix};
use crate::protocol::{failed_with, Outcome, Step, Turn};
use crate::text::concat2;

verus! {

/// Where the restoring of one binary stands.
#[derive(Clone, Copy, Debug, PartialEq, Eq, Structural)]
pub enum RestorePhase {
    /// Asked whether a backup exists.
    AskBackup,
    /// Asked whether a live file exists.
    AskLive,
    /// Asked to move the live file aside.
    MoveAside,
    /// Asked to move the backup into place.
    Swap,
    /// The backup is live; asked whether a file lies aside.
    AskLeftover,
    /// Asked to delete the file that lies aside.
    DropLeftover,
    /// The swap failed; asked whether a file lies aside.
    AskUndo,
    /// Asked to move the file that lies aside back into place.
    Undo,
}

/// The restoring of one binary, under way.
pub struct Restore {
    name: String,
    live: String,
    backup: String,
    aside: String,
    phase: RestorePhase,
    cause: String,
}

/// The restoring of one binary as a value of the model.
pub ghost struct RestoreState {
    /// The file name of the binary.
    pub name: Seq<char>,
    /// The path of the live file.
    pub live: Seq<char>,
    /// The path of the backup.
    pub backup: Seq<char>,
    /// The path that holds the live file while the backup is swapped in.
    pub aside: Seq<char>,
    pub phase: RestorePhase,
    /// Why the swap failed, once it has.
    pub cause: Seq<char>,
}

impl View for Restore {
    type V = RestoreState;

    closed spec fn view(&self) -> RestoreState {
        RestoreState {
            name: self.name@,
            live: self.live@,
            backup: self.backup@,
            aside: self.aside@,
            phase: self.phase,
            cause: self.cause@,
        }
    }
}

impl View for Step<Restore, bool> {
    type V = Turn<RestoreState, bool>;

    open spec fn view(&self) -> Turn<RestoreState, bool> {
        match self {
            Step::Ask(m, request) => Turn::Ask(m@, request@),
            Step::Finished(Ok(restored)) => Turn::Finished(Ok(*restored)),
            Step::Finished(Err(e)) => Turn::Finished(Err(e@)),
        }
    }
}

/// The text for a live file that could not be moved aside.
pub open spec fn move_aside_failed_text(name: Seq<char>, why: Seq<char>) -> Seq<char> {
    "Failed to move current "@ + name + " aside: "@ + why
}

/// The text for a backup that could not be moved into place.
pub open spec fn restore_failed_text(name: Seq<char>, why: Seq<char>) -> Seq<char> {
    "Failed to restore backup for "@ + name + ": "@ + why
}

/// The failure of a swap.
pub open spec fn restore_failed(s: RestoreState) -> Failure {
    Failure { kind: ErrorKind::RestoreFailed, message: restore_failed_text(s.name, s.cause) }
}

/// How the restoring of the binary `name` in the directory `dir` begins.
pub open spec fn restore_start(dir: Seq<char>, name: Seq<char>, sep: char) -> RestoreState {
    let live = inside(dir, name, sep);
    RestoreState {
        name,
        live,
        backup: live + backup_suffix(),
        aside: live + rollback_suffix(),
        phase: RestorePhase::AskBackup,
        cause: Seq::empty(),
    }
}

/// How the restoring goes on from the state `s` when the host answers
/// `reply`. It ends with `true` when the backup was put into place, with
/// `false` when there was none.
pub open spec fn restore_next(s: RestoreState, reply: Reply) -> Turn<RestoreState, bool> {
    let swap = Turn::Ask(
        RestoreState { phase: RestorePhase::Swap, ..s },
        Request::Rename { from: s.backup, to: s.live },
    );
    match s.phase {
        RestorePhase::AskBackup => if found(reply) {
            Turn::Ask(
                RestoreState { phase: RestorePhase::AskLive, ..s },
                Request::Exists { path: s.live },
            )
        } else {
            Turn::Finished(Ok(false))
        },
        RestorePhase::AskLive => if found(reply) {
            Turn::Ask(
                RestoreState { phase: RestorePhase::MoveAside, ..s },
                Request::Rename { from: s.live, to: s.aside },
            )
        } else {
            swap
        },
        RestorePhase::MoveAside => match failure_of(reply) {
            None => swap,
            Some(why) => Turn::Finished(
                Err(
                    Failure {
                        kind: ErrorKind::MoveAsideFailed,
                        message: move_aside_failed_text(s.name, why),
                    },
                ),
            ),
        },
        RestorePhase::Swap => match failure_of(reply) {
            None => Turn::Ask(
                RestoreState { phase: RestorePhase::AskLeftover, ..s },
                Request::Exists { path: s.aside },
            ),
            Some(why) => Turn::Ask(
                RestoreState { phase: RestorePhase::AskUndo, cause: why, ..s },
                Request::Exists { path: s.aside },
            ),
        },
        RestorePhase::AskLeftover => if found(reply) {
            Turn::Ask(
                RestoreState { phase: RestorePhase::DropLeftover, ..s },
                Request::Remove { path: s.aside },
            )
        } else {
            Turn::Finished(Ok(true))
        },
        RestorePhase::DropLeftover => Turn::Finished(Ok(true)),
        RestorePhase::AskUndo => if found(reply) {
            Turn::Ask(
                RestoreState { phase: RestorePhase::Undo, ..s },
                Request::Rename { from: s.aside, to: s.live },
            )
        } else {
            Turn::Finished(Err(restore_failed(s)))
        },
        RestorePhase::Undo => Turn::Finished(Err(restore_failed(s))),
    }
}

/// The request that the restoring in state `s` waits on.
pub open spec fn restore_pending(s: RestoreState) -> Request {
    match s.phase {
        RestorePhase::AskBackup => Request::Exists { path: s.backup },
        RestorePhase::AskLive => Request::Exists { path: s.live },
        RestorePhase::MoveAside => Request::Rename { from: s.live, to: s.aside },
        RestorePhase::Swap => Request::Rename { from: s.backup, to: s.live },
        RestorePhase::AskLeftover => Request::Exists { path: s.aside },
        RestorePhase::DropLeftover => Request::Remove { path: s.aside },
        RestorePhase::AskUndo => Request::Exists { path: s.aside },
        RestorePhase::Undo => Request::Rename { from: s.aside, to: s.live },
    }
}

/// The outcome of the restoring that is in state `s`, waits for the answer to
/// `request` on a host whose files are `files`, and is driven to its end by
/// the exchanges `rest`. `None` if the exchanges are not what a host may
/// answer, or end too early or too late.
pub open spec fn restore_run(s: RestoreState, request: Request, files: Files, rest: Seq<Exchange>)
    -> Option<Outcome<bool>>
    decreases rest.len(),
{
    if rest.len() == 0 || !performs(files, request, rest[0].reply, rest[0].files) {
        None
    } else {
        match restore_next(s, rest[0].reply) {
            Turn::Ask(next, asked) => restore_run(next, asked, rest[0].files, rest.drop_first()),
            Turn::Finished(result) => if rest.len() == 1 {
                Some(Outcome { result, files: rest[0].files })
            } else {
                None
            },
        }
    }
}

/// The outcome of restoring the binary `name` in `dir` on a host whose files
/// are `files`, driven by the exchanges `run`.
pub open spec fn restore_outcome(
    dir: Seq<char>,
    name: Seq<char>,
    sep: char,
    files: Files,
    run: Seq<Exchange>,
) -> Option<Outcome<bool>> {
    restore_run(
        restore_start(dir, name, sep),
        restore_pending(restore_start(dir, name, sep)),
        files,
        run,
    )
}

/// Whether no exchange of `run` reports a failure.
pub open spec fn nothing_failed(run: Seq<Exchange>) -> bool {
    forall|i: int| 0 <= i < run.len() ==> !((#[trigger] run[i]).reply is Failed)
}

/// How the restoring may end once the backup is live.
pub open spec fn restored_end(s: RestoreState, files: Files, faultless: bool, o: Outcome<bool>)
    -> bool {
    &&& o.result == Ok::<bool, Failure>(true)
    &&& if files.dom().contains(s.aside) {
        o.files == files.remove(s.aside) || (!faultless && o.files == files)
    } else {
        o.files == files
    }
}

/// How the restoring may end once the swap has failed.
pub open spec fn undone_end(s: RestoreState, files: Files, o: Outcome<bool>) -> bool {
    &&& failed_with(o, ErrorKind::RestoreFailed)
    &&& if files.dom().contains(s.aside) {
        o.files == files.remove(s.aside).insert(s.live, files[s.aside]) || o.files == files
    } else {
        o.files == files
    }
}

/// How the restoring may end from the point where it moves the backup into
/// place.
pub open spec fn swap_end(s: RestoreState, files: Files, faultless: bool, o: Outcome<bool>)
    -> bool {
    ||| files.dom().contains(s.backup) && restored_end(
        s,
        files.remove(s.backup).insert(s.live, files[s.backup]),
        faultless,
        o,
    )
    ||| !faultless && undone_end(s, files, o)
}

/// How the restoring may end from the point where it moves the live file
/// aside.
pub open spec fn move_aside_end(s: RestoreState, files: Files, faultless: bool, o: Outcome<bool>)
    -> bool {
    ||| files.dom().contains(s.live) && swap_end(
        s,
        files.remove(s.live).insert(s.aside, files[s.live]),
        faultless,
        o,
    )
    ||| !faultless && failed_with(o, ErrorKind::MoveAsideFailed) && o.files == files
}

/// How the restoring may end from the point where a backup is known to exist.
pub open spec fn live_end(s: RestoreState, files: Files, faultless: bool, o: Outcome<bool>)
    -> bool {
    if files.dom().contains(s.live) {
        move_aside_end(s, files, faultless, o)
    } else {
        swap_end(s, files, faultless, o)
    }
}

/// How the restoring may end from the state `s` on a host whose files are
/// `files`; `faultless` if no operation fails on the way.
pub open spec fn restore_may_end(s: RestoreState, files: Files, faultless: bool, o: Outcome<bool>)
    -> bool {
    match s.phase {
        RestorePhase::AskBackup => if files.dom().contains(s.backup) {
            live_end(s, files, faultless, o)
        } else {
            o.result == Ok::<bool, Failure>(false) && o.files == files
        },
        RestorePhase::AskLive => live_end(s, files, faultless, o),
        RestorePhase::MoveAside => move_aside_end(s, files, faultless, o),
        RestorePhase::Swap => swap_end(s, files, faultless, o),
        RestorePhase::AskLeftover => restored_end(s, files, faultless, o),
        RestorePhase::DropLeftover => restored_end(s, files, faultless, o),
        RestorePhase::AskUndo => undone_end(s, files, o),
        RestorePhase::Undo => undone_end(s, files, o),
    }
}

/// Whether the restoring in state `s` has not met a failure yet.
pub open spec fn unharmed(s: RestoreState) -> bool {
    !(s.phase is AskUndo) && !(s.phase is Undo)
}

/// Every run of the restoring ends as [`restore_may_end`] says.
pub proof fn lemma_restore_run(s: RestoreState, files: Files, rest: Seq<Exchange>)
    requires
        restore_run(s, restore_pending(s), files, rest) is Some,
    ensures
        restore_may_end(
            s,
            files,
            nothing_failed(rest) && unharmed(s),
            restore_run(s, restore_pending(s), files, rest)->Some_0,
        ),
    decreases rest.len(),
{
    let reply = rest[0].reply;
    let files1 = rest[0].files;
    assert(nothing_failed(rest) ==> !(rest[0].reply is Failed));
    match restore_next(s, reply) {
        Turn::Ask(next, asked) => {
            assert(asked == restore_pending(next));
            assert(next.name == s.name && next.live == s.live && next.backup == s.backup
                && next.aside == s.aside);
            let tail = rest.drop_first();
            if nothing_failed(rest) {
                assert forall|i: int| 0 <= i < tail.len() implies !((#[trigger] tail[i]).reply is Failed) by {
                    assert(tail[i] == rest[i + 1]);
                }
            }
            lemma_restore_run(next, files1, tail);
        },
        Turn::Finished(result) => {},
    }
}

/// What an end of the restoring with the backup in place says of the files:
/// the backup's content is live and the backup is gone. If nothing failed on
/// the way, no file lies aside either.
pub proof fn lemma_restored_end(
    dir: Seq<char>,
    name: Seq<char>,
    sep: char,
    files: Files,
    faultless: bool,
    o: Outcome<bool>,
)
    requires
        restore_may_end(restore_start(dir, name, sep), files, faultless, o),
        o.result == Ok::<bool, Failure>(true),
    ensures
        ({
            let live = inside(dir, name, sep);
            let backup = live + backup_suffix();
            let aside = live + rollback_suffix();
            let after = o.files;
            &&& files.dom().contains(backup)
            &&& after.dom().contains(live) && after[live] == files[backup]
            &&& !after.dom().contains(backup)
            &&& faultless ==> after == files.remove(backup).remove(aside).insert(
                live,
                files[backup],
            )
            &&& forall|p: Seq<char>|
                #![trigger after.dom().contains(p)]
                p != live && p != backup && p != aside ==> (after.dom().contains(p)
                    <==> files.dom().contains(p)) && after[p] == files[p]
        }),
{
    let live = inside(dir, name, sep);
    let backup = live + backup_suffix();
    let aside = live + rollback_suffix();
    crate::paths::lemma_companions_differ(live);
    let moved = files.remove(live).insert(aside, files[live]);
    if faultless {
        assert(moved.remove(backup).insert(live, moved[backup]).remove(aside) =~= files.remove(
            backup,
        ).remove(aside).insert(live, files[backup]));
        assert(files.remove(backup).insert(live, files[backup]).remove(aside) =~= files.remove(
            backup,
        ).remove(aside).insert(live, files[backup]));
        if !files.dom().contains(aside) {
            assert(files.remove(backup).insert(live, files[backup]) =~= files.remove(
                backup,
            ).remove(aside).insert(live, files[backup]));
        }
        assert(o.files =~= files.remove(backup).remove(aside).insert(live, files[backup]));
    }
}

/// What the restoring of a binary leaves behind when its backup is put into
/// place: the backup's content is live and the backup is gone. If nothing
/// failed on the way, no file lies aside either; what was live before is
/// deleted.
pub proof fn law_restore_success(
    dir: Seq<char>,
    name: Seq<char>,
    sep: char,
    files: Files,
    run: Seq<Exchange>,
)
    requires
        restore_outcome(dir, name, sep, files, run) is Some,
        restore_outcome(dir, name, sep, files, run)->Some_0.result == Ok::<bool, Failure>(true),
    ensures
        ({
            let live = inside(dir, name, sep);
            let backup = live + backup_suffix();
            let aside = live + rollback_suffix();
            let after = restore_outcome(dir, name, sep, files, run)->Some_0.files;
            &&& files.dom().contains(backup)
            &&& after.dom().contains(live) && after[live] == files[backup]
            &&& !after.dom().contains(backup)
            &&& nothing_failed(run) ==> after == files.remove(backup).remove(aside).insert(
                live,
                files[backup],
            )
            &&& forall|p: Seq<char>|
                #![trigger after.dom().contains(p)]
                p != live && p != backup && p != aside ==> (after.dom().contains(p)
                    <==> files.dom().contains(p)) && after[p] == files[p]
        }),
{
    let s = restore_start(dir, name, sep);
    lemma_restore_run(s, files, run);
    lemma_restored_end(
        dir,
        name,
        sep,
        files,
        nothing_failed(run),
        restore_outcome(dir, name, sep, files, run)->Some_0,
    );
}

/// Nothing changes where the binary has no backup.
pub proof fn law_restore_without_backup(
    dir: Seq<char>,
    name: Seq<char>,
    sep: char,
    files: Files,
    run: Seq<Exchange>,
)
    requires
        restore_outcome(dir, name, sep, files, run) is Some,
        !files.dom().contains(inside(dir, name, sep) + backup_suffix()),
    ensures
        restore_outcome(dir, name, sep, files, run)->Some_0.result == Ok::<bool, Failure>(false),
        restore_outcome(dir, name, sep, files, run)->Some_0.files == files,
{
    lemma_restore_run(restore_start(dir, name, sep), files, run);
}

impl Restore {
    /// The file name of the binary.
    pub fn name(&self) -> (p: &String)
        ensures
            p@ == self@.name,
    {
        &self.name
    }

    /// The path of the live file.
    pub fn live(&self) -> (p: &String)
        ensures
            p@ == self@.live,
    {
        &self.live
    }

    fn failed(&self) -> (e: EngineError)
        ensures
            e@ == restore_failed(self@),
    {
        let mut text = String::from_str("Failed to restore backup for ");
        text.append(self.name.as_str());
        text.append(": ");
        text.append(self.cause.as_str());
        EngineError::new(ErrorKind::RestoreFailed, text)
    }

    fn ask_swap(self) -> (next: Step<Restore, bool>)
        ensures
            next@ == Turn::<RestoreState, bool>::Ask(
                RestoreState { phase: RestorePhase::Swap, ..self@ },
                Request::Rename { from: self@.backup, to: self@.live },
            ),
    {
        let request = HostRequest::Rename { from: self.backup.clone(), to: self.live.clone() };
        Step::Ask(Restore { phase: RestorePhase::Swap, ..self }, request)
    }

    /// Begins the restoring of the binary `name` in the directory `dir`:
    /// the state to go on with and the first request.
    pub fn begin(dir: &str, name: &str, sep: char) -> (first: (Restore, HostRequest))
        ensures
            first.0@ == restore_start(dir@, name@, sep),
            first.1@ == restore_pending(restore_start(dir@, name@, sep)),
    {
        let live = join_path(dir, name, sep);
        proof {
            reveal_strlit(".old");
            reveal_strlit(".rollback-tmp");
            assert(".old"@ =~= backup_suffix());
            assert(".rollback-tmp"@ =~= rollback_suffix());
        }
        let backup = concat2(live.as_str(), ".old");
        let aside = concat2(live.as_str(), ".rollback-tmp");
        let request = HostRequest::Exists { path: backup.clone() };
        (
            Restore {
                name: String::from_str(name),
                live,
                backup,
                aside,
                phase: RestorePhase::AskBackup,
                cause: String::new(),
            },
            request,
        )
    }

    /// Takes the host's answer to the request that the restoring waits on,
    /// and says what follows.
    pub fn step(self, reply: HostReply) -> (next: Step<Restore, bool>)
        ensures
            next@ == restore_next(self@, reply@),
    {
        match self.phase {
            RestorePhase::AskBackup => {
                if reply.is_found() {
                    let request = HostRequest::Exists { path: self.live.clone() };
                    Step::Ask(Restore { phase: RestorePhase::AskLive, ..self }, request)
                } else {
                    Step::Finished(Ok(false))
                }
            },
            RestorePhase::AskLive => {
                if reply.is_found() {
                    let request = HostRequest::Rename {
                        from: self.live.clone(),
                        to: self.aside.clone(),
                    };
                    Step::Ask(Restore { phase: RestorePhase::MoveAside, ..self }, request)
                } else {
                    self.ask_swap()
                }
            },
            RestorePhase::MoveAside => match reply.failure() {
                None => self.ask_swap(),
                Some(why) => {
                    let mut text = String::from_str("Failed to move current ");
                    text.append(self.name.as_str());
                    text.append(" aside: ");
                    text.append(why.as_str());
                    Step::Finished(Err(EngineError::new(ErrorKind::MoveAsideFailed, text)))
                },
            },
            RestorePhase::Swap => {
                let request = HostRequest::Exists { path: self.aside.clone() };
                match reply.failure() {
                    None => Step::Ask(Restore { phase: RestorePhase::AskLeftover, ..self }, request),
                    Some(why) => Step::Ask(
                        Restore { phase: RestorePhase::AskUndo, cause: why, ..self },
                        request,
                    ),
                }
            },
            RestorePhase::AskLeftover => {
                if reply.is_found() {
                    let request = HostRequest::Remove { path: self.aside.clone() };
                    Step::Ask(Restore { phase: RestorePhase::DropLeftover, ..self }, request)
                } else {
                    Step::Finished(Ok(true))
                }
            },
            RestorePhase::DropLeftover => Step::Finished(Ok(true)),
            RestorePhase::AskUndo => {
                if reply.is_found() {
                    let request = HostRequest::Rename {
                        from: self.aside.clone(),
                        to: self.live.clone(),
                    };
                    Step::Ask(Restore { phase: RestorePhase::Undo, ..self }, request)
                } else {
                    Step::Finished(Err(self.failed()))
                }
            },
            RestorePhase::Undo => Step::Finished(Err(self.failed())),
        }
    }
}

} // verus!
