//! Replacing a live file by a staged one while the previous version is kept as
//! a backup.
//!
//! The protocol moves the live file to `<dest>.old`, then moves the staging
//! file into place. Should the second move fail, the live file is moved back
//! from the backup, if it was moved there; a backup that lay there before is
//! never made live. Only the version that was live just before is ever
//! recoverable: an older backup is dropped to make room.

use vstd::prelude::*;
use vstd::string::StringExecFns;
use crate::errors::{EngineError, ErrorKind, Failure};
use crate::files::{failure_of, found, performs, Exchange, Files, HostReply, HostRequest, Reply, Request};
use crate::paths::{
    backup_path_for, backup_suffix, invalid_target, names_a_file, trim_path, trimmed_path,
};
use crate::protocol::{failed_with, Outcome, Step, Turn};

verus! {

/// Where an installation stands: the question or operation it waits on.
#[derive(Clone, Copy, Debug, PartialEq, Eq, Structural)]
pub enum InstallPhase {
    /// Asked whether a backup exists.
    AskBackup,
    /// Asked whether a live file exists.
    AskLive { backup_exists: bool },
    /// Asked to delete the old backup.
    DropBackup,
    /// Asked to move the live file to the backup.
    MoveAside,
    /// Asked to move the staging file into place; `moved` says whether the
    /// live file was moved to the backup before.
    Activate { moved: bool },
    /// Activation failed; asked to move the live file back from the backup.
    Recover,
}

/// An installation under way.
pub struct Install {
    dest: String,
    staging: String,
    backup: String,
    phase: InstallPhase,
    cause: String,
}

/// An installation as a value of the model.
pub ghost struct InstallState {
    /// The path of the live file.
    pub dest: Seq<char>,
    /// The path of the staging file.
    pub staging: Seq<char>,
    /// The path of the backup.
    pub backup: Seq<char>,
    pub phase: InstallPhase,
    /// Why activation failed, once it has.
    pub cause: Seq<char>,
}

impl View for Install {
    type V = InstallState;

    closed spec fn view(&self) -> InstallState {
        InstallState {
            dest: self.dest@,
            staging: self.staging@,
            backup: self.backup@,
            phase: self.phase,
            cause: self.cause@,
        }
    }
}

impl View for Step<Install, ()> {
    type V = Turn<InstallState, ()>;

    open spec fn view(&self) -> Turn<InstallState, ()> {
        match self {
            Step::Ask(m, request) => Turn::Ask(m@, request@),
            Step::Finished(Ok(_)) => Turn::Finished(Ok(())),
            Step::Finished(Err(e)) => Turn::Finished(Err(e@)),
        }
    }
}

/// The text for a live file that could not be moved to its backup.
pub open spec fn backup_failed_text(s: InstallState, why: Seq<char>) -> Seq<char> {
    "Failed to backup existing file "@ + s.dest + " -> "@ + s.backup + ": "@ + why
}

/// The text for a staging file that could not be moved into place.
pub open spec fn activation_failed_text(s: InstallState) -> Seq<char> {
    "Failed to activate new file "@ + s.staging + " -> "@ + s.dest + ": "@ + s.cause
}

/// The text for a failed activation after which the previous file could not
/// be put back either.
pub open spec fn unrecovered_text(s: InstallState, why: Seq<char>) -> Seq<char> {
    activation_failed_text(s) + "; the previous file could not be put back, it is kept at "@
        + s.backup + ": "@ + why
}

/// How an installation of the staging file `staging` at `dest` begins: with
/// the question whether a backup exists, or with the refusal of a `dest` that
/// names no file. Separators and `.` components at the end of `dest` are left
/// out.
pub open spec fn install_start(dest: Seq<char>, staging: Seq<char>) -> Turn<InstallState, ()> {
    if names_a_file(dest) {
        let backup = trimmed_path(dest) + backup_suffix();
        Turn::Ask(
            InstallState {
                dest: trimmed_path(dest),
                staging,
                backup,
                phase: InstallPhase::AskBackup,
                cause: Seq::empty(),
            },
            Request::Exists { path: backup },
        )
    } else {
        Turn::Finished(Err(Failure { kind: ErrorKind::InvalidPath, message: invalid_target(dest) }))
    }
}

/// The request to move the staging file into place; `moved` says whether the
/// live file was moved to the backup before.
pub open spec fn activation(s: InstallState, moved: bool) -> Turn<InstallState, ()> {
    Turn::Ask(
        InstallState { phase: InstallPhase::Activate { moved }, ..s },
        Request::Rename { from: s.staging, to: s.dest },
    )
}

/// The end of an installation whose activation failed and which left the
/// files in order.
pub open spec fn activation_failed(s: InstallState) -> Turn<InstallState, ()> {
    Turn::Finished(
        Err(Failure { kind: ErrorKind::ActivationFailed, message: activation_failed_text(s) }),
    )
}

/// How an installation in state `s` goes on when its host answers `reply`.
pub open spec fn install_next(s: InstallState, reply: Reply) -> Turn<InstallState, ()> {
    let move_aside = Turn::Ask(
        InstallState { phase: InstallPhase::MoveAside, ..s },
        Request::Rename { from: s.dest, to: s.backup },
    );
    match s.phase {
        InstallPhase::AskBackup => Turn::Ask(
            InstallState { phase: InstallPhase::AskLive { backup_exists: found(reply) }, ..s },
            Request::Exists { path: s.dest },
        ),
        InstallPhase::AskLive { backup_exists } => if !found(reply) {
            activation(s, false)
        } else if backup_exists {
            Turn::Ask(
                InstallState { phase: InstallPhase::DropBackup, ..s },
                Request::Remove { path: s.backup },
            )
        } else {
            move_aside
        },
        InstallPhase::DropBackup => move_aside,
        InstallPhase::MoveAside => match failure_of(reply) {
            None => activation(s, true),
            Some(why) => Turn::Finished(
                Err(Failure { kind: ErrorKind::BackupFailed, message: backup_failed_text(s, why) }),
            ),
        },
        InstallPhase::Activate { moved } => match failure_of(reply) {
            None => Turn::Finished(Ok(())),
            Some(why) => if moved {
                Turn::Ask(
                    InstallState { phase: InstallPhase::Recover, cause: why, ..s },
                    Request::Rename { from: s.backup, to: s.dest },
                )
            } else {
                activation_failed(InstallState { cause: why, ..s })
            },
        },
        InstallPhase::Recover => match failure_of(reply) {
            None => activation_failed(s),
            Some(why) => Turn::Finished(
                Err(
                    Failure {
                        kind: ErrorKind::ActivationUnrecovered,
                        message: unrecovered_text(s, why),
                    },
                ),
            ),
        },
    }
}

/// The outcome of an installation that is in state `s`, waits for the answer
/// to `request` on a host whose files are `files`, and is driven to its end by
/// the exchanges `rest`. `None` if the
/// exchanges are not what a host may answer, or end too early or too late.
pub open spec fn install_run(s: InstallState, request: Request, files: Files, rest: Seq<Exchange>)
    -> Option<Outcome<()>>
    decreases rest.len(),
{
    if rest.len() == 0 || !performs(files, request, rest[0].reply, rest[0].files) {
        None
    } else {
        match install_next(s, rest[0].reply) {
            Turn::Ask(next, asked) => install_run(next, asked, rest[0].files, rest.drop_first()),
            Turn::Finished(result) => if rest.len() == 1 {
                Some(Outcome { result, files: rest[0].files })
            } else {
                None
            },
        }
    }
}

/// The outcome of installing `staging` at `dest` on a host whose files are
/// `files`, driven by the exchanges `run`.
pub open spec fn install_outcome(dest: Seq<char>, staging: Seq<char>, files: Files, run: Seq<Exchange>)
    -> Option<Outcome<()>> {
    match install_start(dest, staging) {
        Turn::Ask(s, request) => install_run(s, request, files, run),
        Turn::Finished(result) => if run.len() == 0 {
            Some(Outcome { result, files })
        } else {
            None
        },
    }
}

/// The files after a successful installation: what was live is the backup,
/// what was staged is live, and the staging file is gone.
pub open spec fn after_install(before: Files, dest: Seq<char>, staging: Seq<char>) -> Files {
    let backup = dest + backup_suffix();
    let aside = if before.dom().contains(dest) {
        before.remove(dest).insert(backup, before[dest])
    } else {
        before
    };
    aside.remove(staging).insert(dest, before[staging])
}

/// The request that an installation in state `s` waits on.
pub open spec fn pending(s: InstallState) -> Request {
    match s.phase {
        InstallPhase::AskBackup => Request::Exists { path: s.backup },
        InstallPhase::AskLive { .. } => Request::Exists { path: s.dest },
        InstallPhase::DropBackup => Request::Remove { path: s.backup },
        InstallPhase::MoveAside => Request::Rename { from: s.dest, to: s.backup },
        InstallPhase::Activate { .. } => Request::Rename { from: s.staging, to: s.dest },
        InstallPhase::Recover => Request::Rename { from: s.backup, to: s.dest },
    }
}

/// How an installation that waits to move the backup back may end.
pub open spec fn may_end_recover(s: InstallState, files: Files, o: Outcome<()>) -> bool {
    ||| files.dom().contains(s.backup) && failed_with(o, ErrorKind::ActivationFailed) && o.files
        == files.remove(s.backup).insert(s.dest, files[s.backup])
    ||| failed_with(o, ErrorKind::ActivationUnrecovered) && o.files == files
}

/// How an installation whose activation has failed may end: where the live
/// file was moved aside, as the way back ends; else with the files as they
/// are.
pub open spec fn may_end_failed(s: InstallState, files: Files, moved: bool, o: Outcome<()>) -> bool {
    if moved {
        may_end_recover(s, files, o)
    } else {
        failed_with(o, ErrorKind::ActivationFailed) && o.files == files
    }
}

/// How an installation that waits to move the staging file into place may end.
pub open spec fn may_end_activate(s: InstallState, files: Files, moved: bool, o: Outcome<()>) -> bool {
    ||| files.dom().contains(s.staging) && o.result is Ok && o.files == files.remove(
        s.staging,
    ).insert(s.dest, files[s.staging])
    ||| may_end_failed(s, files, moved, o)
}

/// How an installation that waits to move the live file aside may end.
pub open spec fn may_end_move_aside(s: InstallState, files: Files, o: Outcome<()>) -> bool {
    ||| files.dom().contains(s.dest) && may_end_activate(
        s,
        files.remove(s.dest).insert(s.backup, files[s.dest]),
        true,
        o,
    )
    ||| failed_with(o, ErrorKind::BackupFailed) && o.files == files
}

/// How an installation may end from the state `s` on a host whose files are
/// `files`.
pub open spec fn may_end(s: InstallState, files: Files, o: Outcome<()>) -> bool {
    match s.phase {
        InstallPhase::AskBackup => if !files.dom().contains(s.dest) {
            may_end_activate(s, files, false, o)
        } else if files.dom().contains(s.backup) {
            may_end_move_aside(s, files.remove(s.backup), o) || may_end_move_aside(s, files, o)
        } else {
            may_end_move_aside(s, files, o)
        },
        InstallPhase::AskLive { backup_exists } => if !files.dom().contains(s.dest) {
            may_end_activate(s, files, false, o)
        } else if backup_exists {
            (files.dom().contains(s.backup) && may_end_move_aside(s, files.remove(s.backup), o))
                || may_end_move_aside(s, files, o)
        } else {
            may_end_move_aside(s, files, o)
        },
        InstallPhase::DropBackup => (files.dom().contains(s.backup) && may_end_move_aside(
            s,
            files.remove(s.backup),
            o,
        )) || may_end_move_aside(s, files, o),
        InstallPhase::MoveAside => may_end_move_aside(s, files, o),
        InstallPhase::Activate { moved } => may_end_activate(s, files, moved, o),
        InstallPhase::Recover => may_end_recover(s, files, o),
    }
}

/// Every run of an installation ends as [`may_end`] says.
pub proof fn lemma_install_run(s: InstallState, files: Files, rest: Seq<Exchange>)
    requires
        install_run(s, pending(s), files, rest) is Some,
    ensures
        may_end(s, files, install_run(s, pending(s), files, rest)->Some_0),
    decreases rest.len(),
{
    let reply = rest[0].reply;
    let files1 = rest[0].files;
    match install_next(s, reply) {
        Turn::Ask(next, asked) => {
            assert(asked == pending(next));
            assert(next.dest == s.dest && next.staging == s.staging && next.backup == s.backup);
            lemma_install_run(next, files1, rest.drop_first());
        },
        Turn::Finished(result) => {},
    }
}

/// What an installation leaves behind, for each way it can end.
///
/// * Success: the files are those of [`after_install`].
/// * The live file could not be moved aside: it is untouched; at most the old
///   backup is gone.
/// * Activation failed and there was a live file: it is live again; a
///   backup from before the call is gone.
/// * Activation failed and there was no live file: nothing changed.
/// * Activation failed and the way back failed too: the previous live file is
///   the backup and nothing is live.
///
/// Here `dest` stands without the separators and `.` components at its end.
pub proof fn law_install_outcomes(
    dest: Seq<char>,
    staging: Seq<char>,
    files: Files,
    run: Seq<Exchange>,
)
    requires
        staging != trimmed_path(dest),
        staging != trimmed_path(dest) + backup_suffix(),
        install_outcome(dest, staging, files, run) is Some,
    ensures
        ({
            let live = trimmed_path(dest);
            let backup = live + backup_suffix();
            let after = install_outcome(dest, staging, files, run)->Some_0.files;
            match install_outcome(dest, staging, files, run)->Some_0.result {
                Ok(_) => files.dom().contains(staging) && after == after_install(
                    files,
                    live,
                    staging,
                ),
                Err(failure) => match failure.kind {
                    ErrorKind::InvalidPath => after == files,
                    ErrorKind::BackupFailed => files.dom().contains(live) && (after == files
                        || after == files.remove(backup)),
                    ErrorKind::ActivationFailed => if files.dom().contains(live) {
                        after == files.remove(backup)
                    } else {
                        after == files
                    },
                    ErrorKind::ActivationUnrecovered => files.dom().contains(live) && after
                        == files.remove(live).insert(backup, files[live]),
                    _ => false,
                },
            }
        }),
{
    let live = trimmed_path(dest);
    crate::paths::lemma_companions_differ(live);
    let backup = live + backup_suffix();
    let o = install_outcome(dest, staging, files, run)->Some_0;
    if names_a_file(dest) {
        let s = install_start(dest, staging)->Ask_0;
        lemma_install_run(s, files, run);
        if files.dom().contains(live) {
            let aside = files.remove(live).insert(backup, files[live]);
            let dropped = files.remove(backup);
            let dropped_aside = dropped.remove(live).insert(backup, dropped[live]);
            assert(dropped_aside =~= aside);
            assert(aside.remove(backup).insert(live, aside[backup]) =~= files.remove(backup));
        }
        if o.result is Ok {
            assert(o.files =~= after_install(files, live, staging));
        } else if failed_with(o, ErrorKind::BackupFailed) {
        } else if failed_with(o, ErrorKind::ActivationFailed) {
            if files.dom().contains(live) {
                assert(o.files =~= files.remove(backup));
            }
        } else {
            assert(failed_with(o, ErrorKind::ActivationUnrecovered));
        }
    }
}

/// After a successful installation exactly one live file exists, with the
/// staged content; the backup holds what was live before, if anything was;
/// the staging file is gone; no other file has changed.
pub proof fn law_install_success(
    dest: Seq<char>,
    staging: Seq<char>,
    files: Files,
    run: Seq<Exchange>,
)
    requires
        staging != trimmed_path(dest),
        staging != trimmed_path(dest) + backup_suffix(),
        install_outcome(dest, staging, files, run) is Some,
        install_outcome(dest, staging, files, run)->Some_0.result is Ok,
    ensures
        ({
            let live = trimmed_path(dest);
            let backup = live + backup_suffix();
            let after = install_outcome(dest, staging, files, run)->Some_0.files;
            &&& files.dom().contains(staging)
            &&& after.dom().contains(live) && after[live] == files[staging]
            &&& !after.dom().contains(staging)
            &&& files.dom().contains(live) ==> after.dom().contains(backup) && after[backup]
                == files[live]
            &&& forall|p: Seq<char>|
                p != live && p != staging && p != backup ==> (after.dom().contains(p)
                    <==> files.dom().contains(p)) && after[p] == files[p]
        }),
{
    law_install_outcomes(dest, staging, files, run);
    crate::paths::lemma_companions_differ(trimmed_path(dest));
}

/// An installation that fails leaves every file as it was, unless the way
/// back failed too. The one exception is a backup that lay beside the live
/// file before the call: it may be gone, since room was made for a new one.
/// A backup without a live file is never touched.
pub proof fn law_install_failure_restores(
    dest: Seq<char>,
    staging: Seq<char>,
    files: Files,
    run: Seq<Exchange>,
)
    requires
        staging != trimmed_path(dest),
        staging != trimmed_path(dest) + backup_suffix(),
        install_outcome(dest, staging, files, run) is Some,
        install_outcome(dest, staging, files, run)->Some_0.result matches Err(failure) && failure.kind
            != ErrorKind::ActivationUnrecovered,
    ensures
        ({
            let live = trimmed_path(dest);
            let backup = live + backup_suffix();
            let after = install_outcome(dest, staging, files, run)->Some_0.files;
            &&& after == files || after == files.remove(backup)
            &&& !(files.dom().contains(live) && files.dom().contains(backup)) ==> after == files
        }),
{
    law_install_outcomes(dest, staging, files, run);
    let backup = trimmed_path(dest) + backup_suffix();
    if !files.dom().contains(backup) {
        assert(files.remove(backup) =~= files);
    }
}

impl Install {
    /// The path of the live file.
    pub fn dest(&self) -> (p: &String)
        ensures
            p@ == self@.dest,
    {
        &self.dest
    }

    /// The path of the staging file.
    pub fn staging(&self) -> (p: &String)
        ensures
            p@ == self@.staging,
    {
        &self.staging
    }

    /// The path of the backup.
    pub fn backup(&self) -> (p: &String)
        ensures
            p@ == self@.backup,
    {
        &self.backup
    }

    fn activation_failed(&self) -> (e: EngineError)
        ensures
            e@ == (Failure {
                kind: ErrorKind::ActivationFailed,
                message: activation_failed_text(self@),
            }),
    {
        EngineError::new(ErrorKind::ActivationFailed, self.activation_text())
    }

    fn activation_text(&self) -> (text: String)
        ensures
            text@ == activation_failed_text(self@),
    {
        let mut text = String::from_str("Failed to activate new file ");
        text.append(self.staging.as_str());
        text.append(" -> ");
        text.append(self.dest.as_str());
        text.append(": ");
        text.append(self.cause.as_str());
        text
    }

    fn ask_move_aside(self) -> (next: Step<Install, ()>)
        ensures
            next@ == Turn::<InstallState, ()>::Ask(
                InstallState { phase: InstallPhase::MoveAside, ..self@ },
                Request::Rename { from: self@.dest, to: self@.backup },
            ),
    {
        let request = HostRequest::Rename { from: self.dest.clone(), to: self.backup.clone() };
        Step::Ask(Install { phase: InstallPhase::MoveAside, ..self }, request)
    }

    fn ask_activate(self, moved: bool) -> (next: Step<Install, ()>)
        ensures
            next@ == activation(self@, moved),
    {
        let request = HostRequest::Rename { from: self.staging.clone(), to: self.dest.clone() };
        Step::Ask(Install { phase: InstallPhase::Activate { moved }, ..self }, request)
    }

    /// Takes the host's answer to the request that this installation waits
    /// on, and says what follows.
    pub fn step(self, reply: HostReply) -> (next: Step<Install, ()>)
        ensures
            next@ == install_next(self@, reply@),
    {
        match self.phase {
            InstallPhase::AskBackup => {
                let request = HostRequest::Exists { path: self.dest.clone() };
                let backup_exists = reply.is_found();
                Step::Ask(Install { phase: InstallPhase::AskLive { backup_exists }, ..self }, request)
            },
            InstallPhase::AskLive { backup_exists } => {
                if !reply.is_found() {
                    self.ask_activate(false)
                } else if backup_exists {
                    let request = HostRequest::Remove { path: self.backup.clone() };
                    Step::Ask(Install { phase: InstallPhase::DropBackup, ..self }, request)
                } else {
                    self.ask_move_aside()
                }
            },
            InstallPhase::DropBackup => self.ask_move_aside(),
            InstallPhase::MoveAside => match reply.failure() {
                None => self.ask_activate(true),
                Some(why) => {
                    let mut text = String::from_str("Failed to backup existing file ");
                    text.append(self.dest.as_str());
                    text.append(" -> ");
                    text.append(self.backup.as_str());
                    text.append(": ");
                    text.append(why.as_str());
                    Step::Finished(Err(EngineError::new(ErrorKind::BackupFailed, text)))
                },
            },
            InstallPhase::Activate { moved } => match reply.failure() {
                None => Step::Finished(Ok(())),
                Some(why) => {
                    let failed = Install { phase: InstallPhase::Recover, cause: why, ..self };
                    if moved {
                        let request = HostRequest::Rename {
                            from: failed.backup.clone(),
                            to: failed.dest.clone(),
                        };
                        Step::Ask(failed, request)
                    } else {
                        Step::Finished(Err(failed.activation_failed()))
                    }
                },
            },
            InstallPhase::Recover => match reply.failure() {
                None => Step::Finished(Err(self.activation_failed())),
                Some(why) => {
                    let mut text = self.activation_text();
                    text.append("; the previous file could not be put back, it is kept at ");
                    text.append(self.backup.as_str());
                    text.append(": ");
                    text.append(why.as_str());
                    Step::Finished(Err(EngineError::new(ErrorKind::ActivationUnrecovered, text)))
                },
            },
        }
    }
}

/// Begins the installation of the staging file `incoming` at `dest`, keeping
/// what is live at `dest` as the backup `<dest>.old`.
///
/// The host performs each request that is handed out and passes the reply to
/// [`Install::step`], until a step is `Finished`.
pub fn safe_replace_with_backup(dest: &str, incoming: &str) -> (first: Step<Install, ()>)
    ensures
        first@ == install_start(dest@, incoming@),
{
    match backup_path_for(dest) {
        Ok(backup) => {
            let request = HostRequest::Exists { path: backup.clone() };
            Step::Ask(
                Install {
                    dest: trim_path(dest),
                    staging: String::from_str(incoming),
                    backup,
                    phase: InstallPhase::AskBackup,
                    cause: String::new(),
                },
                request,
            )
        },
        Err(message) => Step::Finished(Err(EngineError::new(ErrorKind::InvalidPath, message))),
    }
}

} // verus!
