//! Updating a tool: its download is fetched and installed; if it is an
//! archive, the wanted members are taken out of it and installed, and the
//! archive is deleted.
//!
//! The steps follow each other without a second try: only the download
//! itself is attempted more than once. An archive that cannot be deleted at
//! the end is no failure; the report of the update carries a warning.

use vstd::prelude::*;
use vstd::string::StringExecFns;
use crate::archive::ArchiveMember;
use crate::download::{download_file, download_next, download_start, Download, DownloadState};
use crate::errors::{EngineError, ErrorKind, Failure};
use crate::extract::{
    extract_7z_start, extract_from_7z, extract_from_zip, extract_next, extract_zip_start,
    ExtractState, Extraction,
};
use crate::files::{failure_of, unexpected_reply, HostReply, HostRequest, Reply, Request};
use crate::install::{install_next, install_start, safe_replace_with_backup, Install, InstallState};
use crate::paths::{inside, join_path, staging_suffix};
use crate::plan::{ArchiveKind, Plan, UpdatePlan};
use crate::progress::{emit_progress, Percentage, Progress};
use crate::protocol::{Step, Turn};
use crate::release::{
    aria2_download_address, aria2_release_api, aria2_release_request, aria2_url_or_fallback,
    github_accept,
};
use crate::text::{concat2, join, joined, views};

verus! {

/// What an update did.
#[derive(Debug)]
pub struct UpdateReport {
    /// The file names of the members that were taken out of the archive.
    pub extracted: Vec<String>,
    /// Why the archive could not be deleted, if it could not.
    pub warning: Option<String>,
}

/// A report as a value of the model.
pub ghost struct Updated {
    pub extracted: Seq<Seq<char>>,
    pub warning: Option<Seq<char>>,
}

impl View for UpdateReport {
    type V = Updated;

    open spec fn view(&self) -> Updated {
        Updated {
            extracted: views(self.extracted@),
            warning: match self.warning {
                Some(text) => Some(text@),
                None => None,
            },
        }
    }
}

/// What an update is doing.
pub enum UpdateStage {
    /// Asked the release service for the address.
    Looking,
    /// The download is under way.
    Downloading(Download),
    /// The download is being installed.
    Promoting(Install),
    /// Asked to announce the extraction.
    Announcing,
    /// Asked for what the archive holds.
    Reading,
    /// The extraction is under way.
    Extracting(Extraction),
    /// Asked to report what was extracted.
    Reporting { found: Vec<String> },
    /// Asked to delete the archive.
    Removing { found: Vec<String> },
}

/// A stage as a value of the model.
pub ghost enum UpdatePoint {
    Looking,
    Downloading(DownloadState),
    Promoting(InstallState),
    Announcing,
    Reading,
    Extracting(ExtractState),
    Reporting { found: Seq<Seq<char>> },
    Removing { found: Seq<Seq<char>> },
}

impl View for UpdateStage {
    type V = UpdatePoint;

    open spec fn view(&self) -> UpdatePoint {
        match self {
            UpdateStage::Looking => UpdatePoint::Looking,
            UpdateStage::Downloading(download) => UpdatePoint::Downloading(download@),
            UpdateStage::Promoting(install) => UpdatePoint::Promoting(install@),
            UpdateStage::Announcing => UpdatePoint::Announcing,
            UpdateStage::Reading => UpdatePoint::Reading,
            UpdateStage::Extracting(extraction) => UpdatePoint::Extracting(extraction@),
            UpdateStage::Reporting { found } => UpdatePoint::Reporting { found: views(found@) },
            UpdateStage::Removing { found } => UpdatePoint::Removing { found: views(found@) },
        }
    }
}

/// An update under way.
pub struct Update {
    plan: UpdatePlan,
    dir: String,
    sep: char,
    stage: UpdateStage,
}

/// An update as a value of the model.
pub ghost struct UpdateState {
    pub plan: Plan,
    /// The install directory.
    pub dir: Seq<char>,
    /// The separator that joins a directory and a file name.
    pub sep: char,
    pub stage: UpdatePoint,
}

impl View for Update {
    type V = UpdateState;

    closed spec fn view(&self) -> UpdateState {
        UpdateState { plan: self.plan@, dir: self.dir@, sep: self.sep, stage: self.stage@ }
    }
}

impl View for Step<Update, UpdateReport> {
    type V = Turn<UpdateState, Updated>;

    open spec fn view(&self) -> Turn<UpdateState, Updated> {
        match self {
            Step::Ask(m, request) => Turn::Ask(m@, request@),
            Step::Finished(Ok(report)) => Turn::Finished(Ok(report@)),
            Step::Finished(Err(e)) => Turn::Finished(Err(e@)),
        }
    }
}

/// What an update works on; it stays the same from its beginning to its end.
pub ghost struct Task {
    pub plan: Plan,
    pub dir: Seq<char>,
    pub sep: char,
}

/// The path under which the download of an update is kept.
pub open spec fn download_path(task: Task) -> Seq<char> {
    inside(task.dir, task.plan.file, task.sep)
}

/// An update of `task` at the stage `stage`.
pub open spec fn at_stage(task: Task, stage: UpdatePoint) -> UpdateState {
    UpdateState { plan: task.plan, dir: task.dir, sep: task.sep, stage }
}

/// The task of an update.
pub open spec fn task_of(s: UpdateState) -> Task {
    Task { plan: s.plan, dir: s.dir, sep: s.sep }
}

/// The text for an archive that cannot be read from the disk.
pub open spec fn unopened_text(why: Seq<char>) -> Seq<char> {
    "Failed to open archive: "@ + why
}

/// The status text that reports what was extracted.
pub open spec fn extracted_text(found: Seq<Seq<char>>) -> Seq<char> {
    "Extracted: "@ + joined(found, ", "@)
}

/// The warning for an archive that cannot be deleted.
pub open spec fn cleanup_warning(path: Seq<char>, why: Seq<char>) -> Seq<char> {
    "failed to clean up "@ + path + ": "@ + why
}

/// How an update goes on once its download is installed: it is done, or the
/// extraction is announced.
pub open spec fn update_installed(task: Task) -> Turn<UpdateState, Updated> {
    if task.plan.archive is None {
        Turn::Finished(Ok(Updated { extracted: Seq::empty(), warning: None }))
    } else {
        Turn::Ask(
            at_stage(task, UpdatePoint::Announcing),
            Request::Notify {
                event: Progress {
                    tool: task.plan.tool,
                    percentage: Percentage::Fixed(99),
                    status: task.plan.announce,
                },
            },
        )
    }
}

/// How an update goes on with the turn `turn` of the installation of its
/// download.
pub open spec fn update_promoting(task: Task, turn: Turn<InstallState, ()>) -> Turn<
    UpdateState,
    Updated,
> {
    match turn {
        Turn::Ask(install, asked) => Turn::Ask(
            at_stage(task, UpdatePoint::Promoting(install)),
            asked,
        ),
        Turn::Finished(Err(failure)) => Turn::Finished(Err(failure)),
        Turn::Finished(Ok(_)) => update_installed(task),
    }
}

/// How an update goes on with the turn `turn` of its download.
pub open spec fn update_downloading(task: Task, turn: Turn<DownloadState, ()>) -> Turn<
    UpdateState,
    Updated,
> {
    match turn {
        Turn::Ask(download, asked) => Turn::Ask(
            at_stage(task, UpdatePoint::Downloading(download)),
            asked,
        ),
        Turn::Finished(Err(failure)) => Turn::Finished(Err(failure)),
        Turn::Finished(Ok(_)) => update_promoting(
            task,
            install_start(download_path(task), download_path(task) + staging_suffix()),
        ),
    }
}

/// How an update goes on with the turn `turn` of its extraction.
pub open spec fn update_extracting(task: Task, turn: Turn<ExtractState, Seq<Seq<char>>>) -> Turn<
    UpdateState,
    Updated,
> {
    match turn {
        Turn::Ask(extraction, asked) => Turn::Ask(
            at_stage(task, UpdatePoint::Extracting(extraction)),
            asked,
        ),
        Turn::Finished(Err(failure)) => Turn::Finished(Err(failure)),
        Turn::Finished(Ok(found)) => Turn::Ask(
            at_stage(task, UpdatePoint::Reporting { found }),
            Request::Notify {
                event: Progress {
                    tool: task.plan.tool,
                    percentage: Percentage::Fixed(100),
                    status: extracted_text(found),
                },
            },
        ),
    }
}

/// How an update begins: with the download, or, where the plan gives no
/// address, with the question to the release service.
pub open spec fn update_start(task: Task) -> Turn<UpdateState, Updated> {
    match task.plan.address {
        None => Turn::Ask(
            at_stage(task, UpdatePoint::Looking),
            Request::Get { url: aria2_release_api(), accept: github_accept() },
        ),
        Some(address) => update_downloading(
            task,
            download_start(task.plan.tool, address, download_path(task)),
        ),
    }
}

/// What the host's answer to the request to unpack an archive holds: the
/// members, or why there are none.
pub open spec fn unpacked_by(reply: Reply) -> Result<Seq<ArchiveMember>, Seq<char>> {
    match reply {
        Reply::Members(members) => Ok(members),
        Reply::Failed(why) => Err(why),
        _ => Err(unexpected_reply()),
    }
}

/// How an update in state `s` goes on when its host answers `reply`.
pub open spec fn update_next(s: UpdateState, reply: Reply) -> Turn<UpdateState, Updated> {
    let task = task_of(s);
    match s.stage {
        UpdatePoint::Looking => update_downloading(
            task,
            download_start(task.plan.tool, aria2_download_address(reply), download_path(task)),
        ),
        UpdatePoint::Downloading(download) => update_downloading(
            task,
            download_next(download, reply),
        ),
        UpdatePoint::Promoting(install) => update_promoting(task, install_next(install, reply)),
        UpdatePoint::Announcing => Turn::Ask(
            at_stage(task, UpdatePoint::Reading),
            if task.plan.archive == Some(ArchiveKind::SevenZ) {
                Request::Unpack { path: download_path(task) }
            } else {
                Request::Read { path: download_path(task) }
            },
        ),
        UpdatePoint::Reading => if task.plan.archive == Some(ArchiveKind::SevenZ) {
            update_extracting(
                task,
                extract_7z_start(
                    task.plan.tool,
                    unpacked_by(reply),
                    task.dir,
                    task.plan.targets,
                    task.sep,
                ),
            )
        } else {
            match reply {
                Reply::Bytes(bytes) => update_extracting(
                    task,
                    extract_zip_start(
                        task.plan.tool,
                        bytes,
                        task.dir,
                        task.plan.targets,
                        task.sep,
                    ),
                ),
                Reply::Failed(why) => Turn::Finished(
                    Err(Failure { kind: ErrorKind::UnreadableArchive, message: unopened_text(why) }),
                ),
                _ => Turn::Finished(
                    Err(
                        Failure {
                            kind: ErrorKind::UnreadableArchive,
                            message: unopened_text(unexpected_reply()),
                        },
                    ),
                ),
            }
        },
        UpdatePoint::Extracting(extraction) => update_extracting(
            task,
            extract_next(extraction, reply),
        ),
        UpdatePoint::Reporting { found } => Turn::Ask(
            at_stage(task, UpdatePoint::Removing { found }),
            Request::Remove { path: download_path(task) },
        ),
        UpdatePoint::Removing { found } => Turn::Finished(
            Ok(
                Updated {
                    extracted: found,
                    warning: match failure_of(reply) {
                        None => None,
                        Some(why) => Some(cleanup_warning(download_path(task), why)),
                    },
                },
            ),
        ),
    }
}

/// A copy of `names`.
fn copy_names(names: &Vec<String>) -> (copy: Vec<String>)
    ensures
        views(copy@) == views(names@),
{
    crate::catalog::clone_names(names)
}

impl Update {
    /// The task of this update.
    pub closed spec fn task(&self) -> Task {
        Task { plan: self.plan@, dir: self.dir@, sep: self.sep }
    }

    fn path(plan: &UpdatePlan, dir: &String, sep: char) -> (path: String)
        ensures
            path@ == download_path(Task { plan: plan@, dir: dir@, sep }),
    {
        join_path(dir.as_str(), plan.file.as_str(), sep)
    }

    fn installed(plan: UpdatePlan, dir: String, sep: char) -> (step: Step<Update, UpdateReport>)
        ensures
            step@ == update_installed(Task { plan: plan@, dir: dir@, sep }),
    {
        match plan.archive {
            None => {
                let extracted: Vec<String> = Vec::new();
                assert(views(extracted@) =~= Seq::<Seq<char>>::empty());
                Step::Finished(Ok(UpdateReport { extracted, warning: None }))
            },
            Some(_) => {
                let event = emit_progress(plan.tool.as_str(), 99, plan.announce.as_str());
                Step::Ask(
                    Update { plan, dir, sep, stage: UpdateStage::Announcing },
                    HostRequest::Notify { event },
                )
            },
        }
    }

    fn promoting(plan: UpdatePlan, dir: String, sep: char, turn: Step<Install, ()>) -> (step: Step<
        Update,
        UpdateReport,
    >)
        ensures
            step@ == update_promoting(Task { plan: plan@, dir: dir@, sep }, turn@),
    {
        match turn {
            Step::Ask(install, asked) => Step::Ask(
                Update { plan, dir, sep, stage: UpdateStage::Promoting(install) },
                asked,
            ),
            Step::Finished(Err(e)) => Step::Finished(Err(e)),
            Step::Finished(Ok(_)) => Update::installed(plan, dir, sep),
        }
    }

    fn downloading(plan: UpdatePlan, dir: String, sep: char, turn: Step<Download, ()>) -> (step:
        Step<Update, UpdateReport>)
        ensures
            step@ == update_downloading(Task { plan: plan@, dir: dir@, sep }, turn@),
    {
        match turn {
            Step::Ask(download, asked) => Step::Ask(
                Update { plan, dir, sep, stage: UpdateStage::Downloading(download) },
                asked,
            ),
            Step::Finished(Err(e)) => Step::Finished(Err(e)),
            Step::Finished(Ok(_)) => {
                proof {
                    reveal_strlit(".new");
                    assert(".new"@ =~= staging_suffix());
                }
                let path = Update::path(&plan, &dir, sep);
                let staging = concat2(path.as_str(), ".new");
                let first = safe_replace_with_backup(path.as_str(), staging.as_str());
                Update::promoting(plan, dir, sep, first)
            },
        }
    }

    fn extracting(plan: UpdatePlan, dir: String, sep: char, turn: Step<Extraction, Vec<String>>)
        -> (step: Step<Update, UpdateReport>)
        ensures
            step@ == update_extracting(Task { plan: plan@, dir: dir@, sep }, turn@),
    {
        match turn {
            Step::Ask(extraction, asked) => Step::Ask(
                Update { plan, dir, sep, stage: UpdateStage::Extracting(extraction) },
                asked,
            ),
            Step::Finished(Err(e)) => Step::Finished(Err(e)),
            Step::Finished(Ok(found)) => {
                let list = join(&found, ", ");
                let status = concat2("Extracted: ", list.as_str());
                let event = emit_progress(plan.tool.as_str(), 100, status.as_str());
                Step::Ask(
                    Update { plan, dir, sep, stage: UpdateStage::Reporting { found } },
                    HostRequest::Notify { event },
                )
            },
        }
    }

    /// Begins the update that `plan` describes, in the directory `dir`.
    pub fn begin(plan: UpdatePlan, dir: String, sep: char) -> (first: Step<Update, UpdateReport>)
        ensures
            first@ == update_start(Task { plan: plan@, dir: dir@, sep }),
    {
        match &plan.address {
            None => {
                let request = aria2_release_request();
                Step::Ask(Update { plan, dir, sep, stage: UpdateStage::Looking }, request)
            },
            Some(address) => {
                let path = Update::path(&plan, &dir, sep);
                let first = download_file(plan.tool.as_str(), address.as_str(), path.as_str());
                Update::downloading(plan, dir, sep, first)
            },
        }
    }

    /// Whether the archive of `plan` is a 7z archive.
    fn is_7z(plan: &UpdatePlan) -> (r: bool)
        ensures
            r == (plan@.archive == Some(ArchiveKind::SevenZ)),
    {
        match plan.archive {
            Some(ArchiveKind::SevenZ) => true,
            _ => false,
        }
    }

    /// Takes the host's answer to the request that this update waits on, and
    /// says what follows.
    pub fn step(self, reply: HostReply) -> (next: Step<Update, UpdateReport>)
        ensures
            next@ == update_next(self@, reply@),
    {
        let Update { plan, dir, sep, stage } = self;
        match stage {
            UpdateStage::Looking => {
                let address = aria2_url_or_fallback(reply);
                let path = Update::path(&plan, &dir, sep);
                let first = download_file(plan.tool.as_str(), address.as_str(), path.as_str());
                Update::downloading(plan, dir, sep, first)
            },
            UpdateStage::Downloading(download) => {
                let turn = download.step(reply);
                Update::downloading(plan, dir, sep, turn)
            },
            UpdateStage::Promoting(install) => {
                let turn = install.step(reply);
                Update::promoting(plan, dir, sep, turn)
            },
            UpdateStage::Announcing => {
                let path = Update::path(&plan, &dir, sep);
                let request = if Update::is_7z(&plan) {
                    HostRequest::Unpack { path }
                } else {
                    HostRequest::Read { path }
                };
                Step::Ask(Update { plan, dir, sep, stage: UpdateStage::Reading }, request)
            },
            UpdateStage::Reading => {
                if Update::is_7z(&plan) {
                    let unpacked = match reply {
                        HostReply::Members(members) => Ok(members),
                        HostReply::Failed(why) => Err(why),
                        _ => Err(String::from_str("unexpected reply from the host")),
                    };
                    let targets = copy_names(&plan.targets);
                    let turn = extract_from_7z(
                        plan.tool.as_str(),
                        unpacked,
                        dir.as_str(),
                        targets,
                        sep,
                    );
                    Update::extracting(plan, dir, sep, turn)
                } else {
                    match reply {
                        HostReply::Bytes(bytes) => {
                            let targets = copy_names(&plan.targets);
                            let turn = extract_from_zip(
                                plan.tool.as_str(),
                                bytes,
                                dir.as_str(),
                                targets,
                                sep,
                            );
                            Update::extracting(plan, dir, sep, turn)
                        },
                        HostReply::Failed(why) => {
                            let text = concat2("Failed to open archive: ", why.as_str());
                            Step::Finished(
                                Err(EngineError::new(ErrorKind::UnreadableArchive, text)),
                            )
                        },
                        _ => {
                            let text = concat2(
                                "Failed to open archive: ",
                                "unexpected reply from the host",
                            );
                            Step::Finished(
                                Err(EngineError::new(ErrorKind::UnreadableArchive, text)),
                            )
                        },
                    }
                }
            },
            UpdateStage::Extracting(extraction) => {
                let turn = extraction.step(reply);
                Update::extracting(plan, dir, sep, turn)
            },
            UpdateStage::Reporting { found } => {
                let request = HostRequest::Remove { path: Update::path(&plan, &dir, sep) };
                Step::Ask(
                    Update { plan, dir, sep, stage: UpdateStage::Removing { found } },
                    request,
                )
            },
            UpdateStage::Removing { found } => {
                let warning = match reply.failure() {
                    None => None,
                    Some(why) => {
                        let mut text = String::from_str("failed to clean up ");
                        text.append(Update::path(&plan, &dir, sep).as_str());
                        text.append(": ");
                        text.append(why.as_str());
                        Some(text)
                    },
                };
                Step::Finished(Ok(UpdateReport { extracted: found, warning }))
            },
        }
    }
}

} // verus!
