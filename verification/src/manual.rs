//! Installing a binary that the user hands in as a file.
//!
//! The file must bear the name of the tool's main binary. It is copied to the
//! staging file of that binary in the application's directory and installed
//! from there. A second binary of the tool that lies beside the file is
//! copied over too, if it is there; whether that copy succeeds does not
//! matter.

use vstd::prelude::*;
use vstd::string::StringExecFns;
use crate::catalog::{binaries_of, Tool, ToolTable};
use crate::errors::{EngineError, ErrorKind, Failure};
use crate::files::{failure_of, found, unexpected_reply, HostReply, HostRequest, Reply, Request};
use crate::install::{install_next, install_start, safe_replace_with_backup, Install, InstallState};
use crate::paths::{
    directory_of, file_name, file_name_of, inside, invalid_target, is_file_path, join_path,
    names_a_file, parent_dir, staging_suffix,
};
use crate::protocol::{Step, Turn};
use crate::text::{
    chars_of, concat2, eq_ignore_ascii_case, same_ignoring_case, text_of, views,
};

verus! {

/// What the installing of a file is doing.
pub enum ManualStage {
    /// Asked whether the application's directory exists.
    ProbeDir,
    /// Asked to create the application's directory.
    MakeDir,
    /// Asked whether the file exists.
    ProbeSource,
    /// The file does not exist; asked whether a directory bears its name.
    ProbeSourceDir,
    /// Asked whether a staging file exists.
    ProbeStaging,
    /// Asked to delete the old staging file.
    ClearStaging,
    /// Asked to copy the file to the staging file.
    Copying,
    /// Asked for the size of the staging file.
    Measuring,
    /// Asked to delete the empty staging file.
    Discarding,
    /// The staging file is being installed.
    Installing(Install),
    /// Asked whether the second binary lies beside the file.
    ProbeSidecar,
    /// Asked to copy the second binary.
    CopySidecar,
}

/// A stage as a value of the model.
pub ghost enum ManualPoint {
    ProbeDir,
    MakeDir,
    ProbeSource,
    ProbeSourceDir,
    ProbeStaging,
    ClearStaging,
    Copying,
    Measuring,
    Discarding,
    Installing(InstallState),
    ProbeSidecar,
    CopySidecar,
}

impl View for ManualStage {
    type V = ManualPoint;

    open spec fn view(&self) -> ManualPoint {
        match self {
            ManualStage::ProbeDir => ManualPoint::ProbeDir,
            ManualStage::MakeDir => ManualPoint::MakeDir,
            ManualStage::ProbeSource => ManualPoint::ProbeSource,
            ManualStage::ProbeSourceDir => ManualPoint::ProbeSourceDir,
            ManualStage::ProbeStaging => ManualPoint::ProbeStaging,
            ManualStage::ClearStaging => ManualPoint::ClearStaging,
            ManualStage::Copying => ManualPoint::Copying,
            ManualStage::Measuring => ManualPoint::Measuring,
            ManualStage::Discarding => ManualPoint::Discarding,
            ManualStage::Installing(install) => ManualPoint::Installing(install@),
            ManualStage::ProbeSidecar => ManualPoint::ProbeSidecar,
            ManualStage::CopySidecar => ManualPoint::CopySidecar,
        }
    }
}

/// The installing of a file, under way.
pub struct ManualInstall {
    bin_dir: String,
    source: String,
    refused: Option<EngineError>,
    dest: String,
    sidecar_from: Option<String>,
    sidecar_to: String,
    stage: ManualStage,
}

/// What the installing of a file works on; it stays the same from its
/// beginning to its end.
pub ghost struct ManualJob {
    /// The application's directory of binaries.
    pub bin_dir: Seq<char>,
    /// The path of the file that was handed in.
    pub source: Seq<char>,
    /// The failure to end with once the file is known to exist, if it cannot
    /// be taken.
    pub refused: Option<Failure>,
    /// The path at which the binary is installed.
    pub dest: Seq<char>,
    /// The path at which a second binary may lie beside the file.
    pub sidecar_from: Option<Seq<char>>,
    /// The path to which the second binary is copied.
    pub sidecar_to: Seq<char>,
}

/// The installing of a file as a value of the model.
pub ghost struct ManualState {
    pub job: ManualJob,
    pub stage: ManualPoint,
}

impl View for ManualInstall {
    type V = ManualState;

    closed spec fn view(&self) -> ManualState {
        ManualState {
            job: ManualJob {
                bin_dir: self.bin_dir@,
                source: self.source@,
                refused: match self.refused {
                    Some(e) => Some(e@),
                    None => None,
                },
                dest: self.dest@,
                sidecar_from: match self.sidecar_from {
                    Some(path) => Some(path@),
                    None => None,
                },
                sidecar_to: self.sidecar_to@,
            },
            stage: self.stage@,
        }
    }
}

impl View for Step<ManualInstall, String> {
    type V = Turn<ManualState, Seq<char>>;

    open spec fn view(&self) -> Turn<ManualState, Seq<char>> {
        match self {
            Step::Ask(m, request) => Turn::Ask(m@, request@),
            Step::Finished(Ok(path)) => Turn::Finished(Ok(path@)),
            Step::Finished(Err(e)) => Turn::Finished(Err(e@)),
        }
    }
}

/// `path` with every `/` turned into `\`, where `\` is the separator of the
/// platform; else `path` as it is.
pub open spec fn normalized(path: Seq<char>, sep: char) -> Seq<char> {
    if sep == '\\' {
        Seq::new(path.len(), |i: int| if path[i] == '/' {
            '\\'
        } else {
            path[i]
        })
    } else {
        path
    }
}

/// The text for a file that bears another name than the tool's main binary.
pub open spec fn wrong_name_text(expected: Seq<char>, name: Seq<char>) -> Seq<char> {
    "Expected '"@ + expected + "' but got '"@ + name + "'. Please select the correct binary."@
}

/// The failure of a job that nothing can be said against yet.
pub open spec fn refusal(tools: Seq<Tool>, tool: Seq<char>, source: Seq<char>, dest: Seq<char>)
    -> Option<Failure> {
    match binaries_of(tools, tool) {
        None => Some(Failure { kind: ErrorKind::UnknownTool, message: "Unsupported tool id"@ }),
        Some(names) => if names.len() == 0 {
            Some(Failure { kind: ErrorKind::UnknownTool, message: "Unsupported tool id"@ })
        } else if !same_ignoring_case(file_name(source), names[0]) {
            Some(
                Failure {
                    kind: ErrorKind::UnusableSource,
                    message: wrong_name_text(names[0], file_name(source)),
                },
            )
        } else if !names_a_file(dest) {
            Some(Failure { kind: ErrorKind::InvalidPath, message: invalid_target(dest) })
        } else {
            None
        },
    }
}

/// The job of installing the file `source` as the main binary of `tool` in
/// the directory `bin_dir`.
pub open spec fn manual_job(
    tools: Seq<Tool>,
    tool: Seq<char>,
    source: Seq<char>,
    bin_dir: Seq<char>,
    sep: char,
) -> ManualJob {
    let file = normalized(source, sep);
    let names = match binaries_of(tools, tool) {
        Some(names) => names,
        None => Seq::empty(),
    };
    let dest = if names.len() > 0 {
        inside(bin_dir, names[0], sep)
    } else {
        Seq::empty()
    };
    ManualJob {
        bin_dir,
        source: file,
        refused: refusal(tools, tool, file, dest),
        dest,
        sidecar_from: if names.len() > 1 {
            Some(inside(directory_of(file), names[1], sep))
        } else {
            None
        },
        sidecar_to: if names.len() > 1 {
            inside(bin_dir, names[1], sep)
        } else {
            Seq::empty()
        },
    }
}

/// The staging file of the job.
pub open spec fn manual_staging(job: ManualJob) -> Seq<char> {
    job.dest + staging_suffix()
}

/// The failure with the kind `kind` and the text `message`.
pub open spec fn failing(kind: ErrorKind, message: Seq<char>) -> Turn<ManualState, Seq<char>> {
    Turn::Finished(Err(Failure { kind, message }))
}

/// How the installing of a file begins.
pub open spec fn manual_start(job: ManualJob) -> Turn<ManualState, Seq<char>> {
    Turn::Ask(
        ManualState { job, stage: ManualPoint::ProbeDir },
        Request::DirExists { path: job.bin_dir },
    )
}

/// How the installing goes on once the binary is installed.
pub open spec fn manual_installed(job: ManualJob) -> Turn<ManualState, Seq<char>> {
    match job.sidecar_from {
        Some(from) => Turn::Ask(
            ManualState { job, stage: ManualPoint::ProbeSidecar },
            Request::Exists { path: from },
        ),
        None => Turn::Finished(Ok(job.dest)),
    }
}

/// How the installing goes on with the turn `turn` of the installation of
/// the staging file.
pub open spec fn manual_installing(job: ManualJob, turn: Turn<InstallState, ()>) -> Turn<
    ManualState,
    Seq<char>,
> {
    match turn {
        Turn::Ask(install, asked) => Turn::Ask(
            ManualState { job, stage: ManualPoint::Installing(install) },
            asked,
        ),
        Turn::Finished(Err(failure)) => Turn::Finished(Err(failure)),
        Turn::Finished(Ok(_)) => manual_installed(job),
    }
}

/// How the installing in state `s` goes on when its host answers `reply`.
pub open spec fn manual_next(s: ManualState, reply: Reply) -> Turn<ManualState, Seq<char>> {
    let job = s.job;
    let probe_source = Turn::Ask(
        ManualState { job, stage: ManualPoint::ProbeSource },
        Request::Exists { path: job.source },
    );
    let copy = Turn::Ask(
        ManualState { job, stage: ManualPoint::Copying },
        Request::Copy { from: job.source, to: manual_staging(job) },
    );
    match s.stage {
        ManualPoint::ProbeDir => if found(reply) {
            probe_source
        } else {
            Turn::Ask(
                ManualState { job, stage: ManualPoint::MakeDir },
                Request::CreateDir { path: job.bin_dir },
            )
        },
        ManualPoint::MakeDir => match failure_of(reply) {
            None => probe_source,
            Some(why) => failing(ErrorKind::MissingDirectory, why),
        },
        ManualPoint::ProbeSource => if !found(reply) {
            Turn::Ask(
                ManualState { job, stage: ManualPoint::ProbeSourceDir },
                Request::DirExists { path: job.source },
            )
        } else {
            match job.refused {
                Some(failure) => Turn::Finished(Err(failure)),
                None => Turn::Ask(
                    ManualState { job, stage: ManualPoint::ProbeStaging },
                    Request::Exists { path: manual_staging(job) },
                ),
            }
        },
        ManualPoint::ProbeSourceDir => if found(reply) {
            failing(ErrorKind::UnusableSource, "Source path is not a file"@)
        } else {
            failing(ErrorKind::UnusableSource, "Source path does not exist"@)
        },
        ManualPoint::ProbeStaging => if found(reply) {
            Turn::Ask(
                ManualState { job, stage: ManualPoint::ClearStaging },
                Request::Remove { path: manual_staging(job) },
            )
        } else {
            copy
        },
        ManualPoint::ClearStaging => copy,
        ManualPoint::Copying => match failure_of(reply) {
            None => Turn::Ask(
                ManualState { job, stage: ManualPoint::Measuring },
                Request::Size { path: manual_staging(job) },
            ),
            Some(why) => failing(ErrorKind::StagingFailed, "Failed to copy file: "@ + why),
        },
        ManualPoint::Measuring => match reply {
            Reply::Size(n) => if n == 0 {
                Turn::Ask(
                    ManualState { job, stage: ManualPoint::Discarding },
                    Request::Remove { path: manual_staging(job) },
                )
            } else {
                manual_installing(job, install_start(job.dest, manual_staging(job)))
            },
            Reply::Failed(why) => failing(
                ErrorKind::StagingFailed,
                "Failed to read copied file: "@ + why,
            ),
            _ => failing(
                ErrorKind::StagingFailed,
                "Failed to read copied file: "@ + unexpected_reply(),
            ),
        },
        ManualPoint::Discarding => failing(ErrorKind::EmptyFile, "Copied file is empty"@),
        ManualPoint::Installing(install) => manual_installing(job, install_next(install, reply)),
        ManualPoint::ProbeSidecar => if found(reply) && job.sidecar_from is Some {
            Turn::Ask(
                ManualState { job, stage: ManualPoint::CopySidecar },
                Request::Copy { from: job.sidecar_from->Some_0, to: job.sidecar_to },
            )
        } else {
            Turn::Finished(Ok(job.dest))
        },
        ManualPoint::CopySidecar => Turn::Finished(Ok(job.dest)),
    }
}

/// `path` with every `/` turned into `\`, where `\` is the separator of the
/// platform.
pub fn normalize(path: &str, sep: char) -> (r: String)
    ensures
        r@ == normalized(path@, sep),
{
    if sep == '\\' {
        let chars = chars_of(path);
        let mut turned: Vec<char> = Vec::new();
        let mut i: usize = 0;
        while i < chars.len()
            invariant
                i <= chars.len(),
                turned@ == normalized(chars@, sep).take(i as int),
                sep == '\\',
            decreases chars.len() - i,
        {
            let c = chars[i];
            turned.push(if c == '/' {
                '\\'
            } else {
                c
            });
            assert(turned@ =~= normalized(chars@, sep).take(i + 1));
            i += 1;
        }
        assert(normalized(chars@, sep).take(chars.len() as int) =~= normalized(chars@, sep));
        let r = text_of(&turned, 0, turned.len());
        assert(turned@.subrange(0, turned.len() as int) =~= turned@);
        r
    } else {
        String::from_str(path)
    }
}

impl ManualInstall {
    fn staging(&self) -> (path: String)
        ensures
            path@ == manual_staging(self@.job),
    {
        proof {
            reveal_strlit(".new");
            assert(".new"@ =~= staging_suffix());
        }
        concat2(self.dest.as_str(), ".new")
    }

    fn fail(kind: ErrorKind, message: String) -> (step: Step<ManualInstall, String>)
        ensures
            step@ == failing(kind, message@),
    {
        Step::Finished(Err(EngineError::new(kind, message)))
    }

    fn ask(self, stage: ManualStage, request: HostRequest) -> (step: Step<ManualInstall, String>)
        ensures
            step@ == Turn::<ManualState, Seq<char>>::Ask(
                ManualState { job: self@.job, stage: stage@ },
                request@,
            ),
    {
        Step::Ask(ManualInstall { stage, ..self }, request)
    }

    fn probe_source(self) -> (step: Step<ManualInstall, String>)
        ensures
            step@ == Turn::<ManualState, Seq<char>>::Ask(
                ManualState { job: self@.job, stage: ManualPoint::ProbeSource },
                Request::Exists { path: self@.job.source },
            ),
    {
        let request = HostRequest::Exists { path: self.source.clone() };
        self.ask(ManualStage::ProbeSource, request)
    }

    fn copy(self) -> (step: Step<ManualInstall, String>)
        ensures
            step@ == Turn::<ManualState, Seq<char>>::Ask(
                ManualState { job: self@.job, stage: ManualPoint::Copying },
                Request::Copy { from: self@.job.source, to: manual_staging(self@.job) },
            ),
    {
        let request = HostRequest::Copy { from: self.source.clone(), to: self.staging() };
        self.ask(ManualStage::Copying, request)
    }

    fn installed(self) -> (step: Step<ManualInstall, String>)
        ensures
            step@ == manual_installed(self@.job),
    {
        match &self.sidecar_from {
            Some(from) => {
                let request = HostRequest::Exists { path: from.clone() };
                self.ask(ManualStage::ProbeSidecar, request)
            },
            None => Step::Finished(Ok(self.dest)),
        }
    }

    fn installing(self, turn: Step<Install, ()>) -> (step: Step<ManualInstall, String>)
        ensures
            step@ == manual_installing(self@.job, turn@),
    {
        match turn {
            Step::Ask(install, asked) => self.ask(ManualStage::Installing(install), asked),
            Step::Finished(Err(e)) => Step::Finished(Err(e)),
            Step::Finished(Ok(_)) => self.installed(),
        }
    }

    /// Takes the host's answer to the request that this installing waits on,
    /// and says what follows.
    pub fn step(self, reply: HostReply) -> (next: Step<ManualInstall, String>)
        ensures
            next@ == manual_next(self@, reply@),
    {
        let ManualInstall { bin_dir, source, refused, dest, sidecar_from, sidecar_to, stage } = self;
        match stage {
            ManualStage::ProbeDir => {
                let rest = ManualInstall {
                    bin_dir,
                    source,
                    refused,
                    dest,
                    sidecar_from,
                    sidecar_to,
                    stage: ManualStage::ProbeDir,
                };
                if reply.is_found() {
                    rest.probe_source()
                } else {
                    let request = HostRequest::CreateDir { path: rest.bin_dir.clone() };
                    rest.ask(ManualStage::MakeDir, request)
                }
            },
            ManualStage::MakeDir => {
                let rest = ManualInstall {
                    bin_dir,
                    source,
                    refused,
                    dest,
                    sidecar_from,
                    sidecar_to,
                    stage: ManualStage::MakeDir,
                };
                match reply.failure() {
                    None => rest.probe_source(),
                    Some(why) => ManualInstall::fail(ErrorKind::MissingDirectory, why),
                }
            },
            ManualStage::ProbeSource => {
                if !reply.is_found() {
                    let request = HostRequest::DirExists { path: source.clone() };
                    let rest = ManualInstall {
                        bin_dir,
                        source,
                        refused,
                        dest,
                        sidecar_from,
                        sidecar_to,
                        stage: ManualStage::ProbeSource,
                    };
                    rest.ask(ManualStage::ProbeSourceDir, request)
                } else {
                    match refused {
                        Some(e) => Step::Finished(Err(e)),
                        None => {
                            let rest = ManualInstall {
                                bin_dir,
                                source,
                                refused: None,
                                dest,
                                sidecar_from,
                                sidecar_to,
                                stage: ManualStage::ProbeSource,
                            };
                            let request = HostRequest::Exists { path: rest.staging() };
                            rest.ask(ManualStage::ProbeStaging, request)
                        },
                    }
                }
            },
            ManualStage::ProbeSourceDir => {
                if reply.is_found() {
                    ManualInstall::fail(
                        ErrorKind::UnusableSource,
                        String::from_str("Source path is not a file"),
                    )
                } else {
                    ManualInstall::fail(
                        ErrorKind::UnusableSource,
                        String::from_str("Source path does not exist"),
                    )
                }
            },
            ManualStage::ProbeStaging => {
                let rest = ManualInstall {
                    bin_dir,
                    source,
                    refused,
                    dest,
                    sidecar_from,
                    sidecar_to,
                    stage: ManualStage::ProbeStaging,
                };
                if reply.is_found() {
                    let request = HostRequest::Remove { path: rest.staging() };
                    rest.ask(ManualStage::ClearStaging, request)
                } else {
                    rest.copy()
                }
            },
            ManualStage::ClearStaging => {
                let rest = ManualInstall {
                    bin_dir,
                    source,
                    refused,
                    dest,
                    sidecar_from,
                    sidecar_to,
                    stage: ManualStage::ClearStaging,
                };
                rest.copy()
            },
            ManualStage::Copying => {
                let rest = ManualInstall {
                    bin_dir,
                    source,
                    refused,
                    dest,
                    sidecar_from,
                    sidecar_to,
                    stage: ManualStage::Copying,
                };
                match reply.failure() {
                    None => {
                        let request = HostRequest::Size { path: rest.staging() };
                        rest.ask(ManualStage::Measuring, request)
                    },
                    Some(why) => ManualInstall::fail(
                        ErrorKind::StagingFailed,
                        concat2("Failed to copy file: ", why.as_str()),
                    ),
                }
            },
            ManualStage::Measuring => {
                let rest = ManualInstall {
                    bin_dir,
                    source,
                    refused,
                    dest,
                    sidecar_from,
                    sidecar_to,
                    stage: ManualStage::Measuring,
                };
                match reply {
                    HostReply::Size(n) => {
                        if n == 0 {
                            let request = HostRequest::Remove { path: rest.staging() };
                            rest.ask(ManualStage::Discarding, request)
                        } else {
                            let staging = rest.staging();
                            let first = safe_replace_with_backup(
                                rest.dest.as_str(),
                                staging.as_str(),
                            );
                            rest.installing(first)
                        }
                    },
                    HostReply::Failed(why) => ManualInstall::fail(
                        ErrorKind::StagingFailed,
                        concat2("Failed to read copied file: ", why.as_str()),
                    ),
                    _ => ManualInstall::fail(
                        ErrorKind::StagingFailed,
                        concat2("Failed to read copied file: ", "unexpected reply from the host"),
                    ),
                }
            },
            ManualStage::Discarding => ManualInstall::fail(
                ErrorKind::EmptyFile,
                String::from_str("Copied file is empty"),
            ),
            ManualStage::Installing(install) => {
                let rest = ManualInstall {
                    bin_dir,
                    source,
                    refused,
                    dest,
                    sidecar_from,
                    sidecar_to,
                    // replaced by what the installation asks next
                    stage: ManualStage::ProbeDir,
                };
                let turn = install.step(reply);
                rest.installing(turn)
            },
            ManualStage::ProbeSidecar => {
                if reply.is_found() {
                    match &sidecar_from {
                        Some(from) => {
                            let request = HostRequest::Copy {
                                from: from.clone(),
                                to: sidecar_to.clone(),
                            };
                            let rest = ManualInstall {
                                bin_dir,
                                source,
                                refused,
                                dest,
                                sidecar_from,
                                sidecar_to,
                                stage: ManualStage::ProbeSidecar,
                            };
                            rest.ask(ManualStage::CopySidecar, request)
                        },
                        None => Step::Finished(Ok(dest)),
                    }
                } else {
                    Step::Finished(Ok(dest))
                }
            },
            ManualStage::CopySidecar => Step::Finished(Ok(dest)),
        }
    }
}

/// What can be said against the job before anything is asked of the host.
fn refuse(names: &Option<Vec<String>>, source: &str, dest: &str) -> (r: Option<EngineError>)
    ensures
        match names {
            None => r matches Some(e) && e@ == (Failure {
                kind: ErrorKind::UnknownTool,
                message: "Unsupported tool id"@,
            }),
            Some(list) => if list.len() == 0 {
                r matches Some(e) && e@ == (Failure {
                    kind: ErrorKind::UnknownTool,
                    message: "Unsupported tool id"@,
                })
            } else if !same_ignoring_case(file_name(source@), list@[0]@) {
                r matches Some(e) && e@ == (Failure {
                    kind: ErrorKind::UnusableSource,
                    message: wrong_name_text(list@[0]@, file_name(source@)),
                })
            } else if !names_a_file(dest@) {
                r matches Some(e) && e@ == (Failure {
                    kind: ErrorKind::InvalidPath,
                    message: invalid_target(dest@),
                })
            } else {
                r is None
            },
        },
{
    match names {
        None => Some(
            EngineError::new(ErrorKind::UnknownTool, String::from_str("Unsupported tool id")),
        ),
        Some(list) => {
            if list.len() == 0 {
                Some(
                    EngineError::new(
                        ErrorKind::UnknownTool,
                        String::from_str("Unsupported tool id"),
                    ),
                )
            } else {
                let name = file_name_of(source);
                if !eq_ignore_ascii_case(name.as_str(), list[0].as_str()) {
                    let mut text = String::from_str("Expected '");
                    text.append(list[0].as_str());
                    text.append("' but got '");
                    text.append(name.as_str());
                    text.append("'. Please select the correct binary.");
                    Some(EngineError::new(ErrorKind::UnusableSource, text))
                } else if !is_file_path(dest) {
                    Some(
                        EngineError::new(
                            ErrorKind::InvalidPath,
                            concat2("Invalid target path: ", dest),
                        ),
                    )
                } else {
                    None
                }
            }
        },
    }
}

/// Begins the installing of the file `source` as the main binary of `tool`
/// in the application's directory `bin_dir`, which is created if it does not
/// exist. It ends with the path at which the binary is installed.
pub fn stage_manual_tool(table: &ToolTable, tool: &str, source: &str, bin_dir: &str, sep: char)
    -> (first: Step<ManualInstall, String>)
    ensures
        first@ == manual_start(manual_job(table@, tool@, source@, bin_dir@, sep)),
{
    let file = normalize(source, sep);
    let names = table.binaries(tool);
    let ghost listed = match binaries_of(table@, tool@) {
        Some(names) => names,
        None => Seq::<Seq<char>>::empty(),
    };
    let count: usize = match &names {
        Some(list) => list.len(),
        None => 0,
    };
    assert(count == listed.len()) by {
        if names is Some {
            assert(views(names->Some_0@).len() == names->Some_0@.len());
        }
    }
    let dest = match &names {
        Some(list) => if list.len() > 0 {
            assert(views(list@)[0] == list@[0]@);
            join_path(bin_dir, list[0].as_str(), sep)
        } else {
            String::new()
        },
        None => String::new(),
    };
    assert(dest@ =~= manual_job(table@, tool@, source@, bin_dir@, sep).dest);
    let refused = refuse(&names, file.as_str(), dest.as_str());
    proof {
        if names is Some && names->Some_0.len() > 0 {
            assert(views(names->Some_0@)[0] == names->Some_0@[0]@);
        }
    }
    let sidecar_from = match &names {
        Some(list) => if list.len() > 1 {
            assert(views(list@)[1] == list@[1]@);
            let beside = parent_dir(file.as_str());
            Some(join_path(beside.as_str(), list[1].as_str(), sep))
        } else {
            None
        },
        None => None,
    };
    let sidecar_to = match &names {
        Some(list) => if list.len() > 1 {
            assert(views(list@)[1] == list@[1]@);
            join_path(bin_dir, list[1].as_str(), sep)
        } else {
            String::new()
        },
        None => String::new(),
    };
    assert(sidecar_to@ =~= manual_job(table@, tool@, source@, bin_dir@, sep).sidecar_to);
    let request = HostRequest::DirExists { path: String::from_str(bin_dir) };
    Step::Ask(
        ManualInstall {
            bin_dir: String::from_str(bin_dir),
            source: file,
            refused,
            dest,
            sidecar_from,
            sidecar_to,
            stage: ManualStage::ProbeDir,
        },
        request,
    )
}

} // verus!
