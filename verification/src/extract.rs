//! Taking the wanted members out of an archive and installing each of them.
//!
//! The members of the archive are visited in order. A member whose file
//! name, without its directories, is one of the targets (whatever the case of
//! its ASCII letters) is written to the staging file of `<dest_dir>/<name>`
//! and installed from there; the others are passed over. A member that holds
//! nothing makes the extraction fail before anything of it is written. When
//! all members were visited, the extraction fails unless as many members were
//! installed as there are targets, and every target is among them.

use vstd::prelude::*;
use vstd::string::StringExecFns;
use crate::archive::{
    unpacked_all, zip_data, zip_entries, zip_len, zip_name, zip_open, zip_parse, ArchiveMember,
    Entry,
};
use crate::catalog::{among, is_among};
use crate::errors::{EngineError, ErrorKind, Failure};
use crate::files::{failure_of, Exchange, Files, HostReply, HostRequest, Reply, Request};
use crate::install::{install_next, install_start, safe_replace_with_backup, Install, InstallState};
use crate::paths::{
    file_name, file_name_of, inside, is_file_path, join_path, names_a_file, staging_suffix,
};
use crate::progress::{emit_progress, Percentage, Progress};
use crate::protocol::{outcome_of, run_of, Step, Turn};
use crate::text::{append_numeral, concat2, debug_list, list_debug, numeral, views};

verus! {

/// Where the members of an archive come from.
enum Source {
    /// An open zip archive, read member by member.
    Zip(zip::ZipArchive<std::io::Cursor<Vec<u8>>>),
    /// Members that were unpacked already, from a 7z archive.
    Unpacked(Vec<ArchiveMember>),
    /// No members: the archive could not be read.
    Nothing,
}

impl Source {
    /// The members of this source.
    spec fn entries(self) -> Seq<Entry> {
        match self {
            Source::Zip(archive) => zip_entries(archive),
            Source::Unpacked(members) => unpacked_all(members@),
            Source::Nothing => Seq::empty(),
        }
    }

    /// Whether the members come from a 7z archive.
    spec fn seven(self) -> bool {
        self is Unpacked
    }

    /// Whether the members come from a 7z archive.
    fn is_seven(&self) -> (r: bool)
        ensures
            r == self.seven(),
    {
        match self {
            Source::Unpacked(_) => true,
            _ => false,
        }
    }

    /// The number of members.
    fn len(&self) -> (n: usize)
        ensures
            n == self.entries().len(),
    {
        match self {
            Source::Zip(archive) => zip_len(archive),
            Source::Unpacked(members) => members.len(),
            Source::Nothing => 0,
        }
    }

    /// The name of the member `index`, or why it cannot be opened.
    fn name(&mut self, index: usize) -> (r: Result<Option<String>, String>)
        requires
            index < old(self).entries().len(),
        ensures
            final(self).entries() == old(self).entries(),
            final(self).seven() == old(self).seven(),
            match r {
                Ok(Some(name)) => old(self).entries()[index as int].name == Ok::<
                    Option<Seq<char>>,
                    Seq<char>,
                >(Some(name@)),
                Ok(None) => old(self).entries()[index as int].name == Ok::<
                    Option<Seq<char>>,
                    Seq<char>,
                >(None),
                Err(why) => old(self).entries()[index as int].name == Err::<
                    Option<Seq<char>>,
                    Seq<char>,
                >(why@),
            },
    {
        match self {
            Source::Zip(archive) => zip_name(archive, index),
            Source::Unpacked(members) => Ok(Some(members[index].name.clone())),
            Source::Nothing => Ok(None),
        }
    }

    /// What the member `index` holds, or why it cannot be read.
    fn data(&mut self, index: usize) -> (r: Result<Vec<u8>, String>)
        requires
            index < old(self).entries().len(),
        ensures
            final(self).entries() == old(self).entries(),
            final(self).seven() == old(self).seven(),
            match r {
                Ok(data) => old(self).entries()[index as int].data == Ok::<Seq<u8>, Seq<char>>(
                    data@,
                ),
                Err(why) => old(self).entries()[index as int].data == Err::<Seq<u8>, Seq<char>>(
                    why@,
                ),
            },
    {
        match self {
            Source::Zip(archive) => zip_data(archive, index),
            Source::Unpacked(members) => Ok(copy_bytes(&members[index].data)),
            Source::Nothing => Ok(Vec::new()),
        }
    }
}

/// A copy of `bytes`.
pub fn copy_bytes(bytes: &Vec<u8>) -> (copy: Vec<u8>)
    ensures
        copy@ == bytes@,
{
    let mut copy: Vec<u8> = Vec::new();
    let mut i: usize = 0;
    while i < bytes.len()
        invariant
            i <= bytes.len(),
            copy@ == bytes@.take(i as int),
        decreases bytes.len() - i,
    {
        copy.push(bytes[i]);
        assert(copy@ =~= bytes@.take(i + 1));
        i += 1;
    }
    assert(bytes@.take(bytes.len() as int) =~= bytes@);
    copy
}

/// What an extraction is doing with the member it stands at.
pub enum ExtractStage {
    /// Asked to announce the opening of the archive; `refused` says why the
    /// archive cannot be read, if it cannot.
    Opening { refused: Option<EngineError> },
    /// Asked to announce the scan; no member was looked at yet.
    Announcing,
    /// Asked to announce the member `name`, which holds `content`.
    Naming { name: String, content: Vec<u8> },
    /// Asked to write the staging file of the member `name`.
    Writing { name: String },
    /// The member `name` is being installed.
    Installing { name: String, install: Install },
}

/// A stage as a value of the model.
pub ghost enum Stage {
    Opening { refused: Option<Failure> },
    Announcing,
    Naming { name: Seq<char>, content: Seq<u8> },
    Writing { name: Seq<char> },
    Installing { name: Seq<char>, install: InstallState },
}

impl View for ExtractStage {
    type V = Stage;

    open spec fn view(&self) -> Stage {
        match self {
            ExtractStage::Opening { refused } => Stage::Opening {
                refused: match refused {
                    Some(e) => Some(e@),
                    None => None,
                },
            },
            ExtractStage::Announcing => Stage::Announcing,
            ExtractStage::Naming { name, content } => Stage::Naming {
                name: name@,
                content: content@,
            },
            ExtractStage::Writing { name } => Stage::Writing { name: name@ },
            ExtractStage::Installing { name, install } => Stage::Installing {
                name: name@,
                install: install@,
            },
        }
    }
}

/// An extraction under way.
pub struct Extraction {
    tool: String,
    source: Source,
    targets: Vec<String>,
    dest_dir: String,
    sep: char,
    next: usize,
    found: Vec<String>,
    stage: ExtractStage,
}

/// What an extraction works on; it stays the same from its beginning to its
/// end.
pub ghost struct Job {
    /// The tool that the notifications name.
    pub tool: Seq<char>,
    /// The members of the archive.
    pub entries: Seq<Entry>,
    /// The file names that are wanted.
    pub targets: Seq<Seq<char>>,
    /// The directory to install into.
    pub dest_dir: Seq<char>,
    /// The separator that joins a directory and a file name.
    pub sep: char,
    /// Whether the archive is a 7z archive.
    pub seven: bool,
}

/// An extraction as a value of the model.
pub ghost struct ExtractState {
    pub job: Job,
    /// The index of the member that the extraction stands at.
    pub next: int,
    /// The names of the members installed so far.
    pub found: Seq<Seq<char>>,
    pub stage: Stage,
}

impl View for Extraction {
    type V = ExtractState;

    closed spec fn view(&self) -> ExtractState {
        ExtractState {
            job: Job {
                tool: self.tool@,
                entries: self.source.entries(),
                targets: views(self.targets@),
                dest_dir: self.dest_dir@,
                sep: self.sep,
                seven: self.source.seven(),
            },
            next: self.next as int,
            found: views(self.found@),
            stage: self.stage@,
        }
    }
}

impl View for Step<Extraction, Vec<String>> {
    type V = Turn<ExtractState, Seq<Seq<char>>>;

    open spec fn view(&self) -> Turn<ExtractState, Seq<Seq<char>>> {
        match self {
            Step::Ask(m, request) => Turn::Ask(m@, request@),
            Step::Finished(Ok(found)) => Turn::Finished(Ok(views(found@))),
            Step::Finished(Err(e)) => Turn::Finished(Err(e@)),
        }
    }
}

/// The notification of an extraction.
pub open spec fn extract_event(tool: Seq<char>, status: Seq<char>) -> Progress {
    Progress { tool, percentage: Percentage::Fixed(99), status }
}

/// The status text that announces the scan of `count` members.
pub open spec fn scanning_text(count: nat) -> Seq<char> {
    "Scanning "@ + numeral(count) + " files..."@
}

/// The status text that announces the member `name`.
pub open spec fn extracting_text(name: Seq<char>) -> Seq<char> {
    "Extracting "@ + name + "..."@
}

/// The text for a member that cannot be read.
pub open spec fn unreadable_text(name: Seq<char>, why: Seq<char>) -> Seq<char> {
    "Failed to extract file "@ + name + ": "@ + why
}

/// The text for a member that holds nothing.
pub open spec fn empty_member_text(name: Seq<char>) -> Seq<char> {
    "Extracted file "@ + name + " is empty"@
}

/// The text for a staging file that cannot be written.
pub open spec fn unwritable_text(name: Seq<char>, why: Seq<char>) -> Seq<char> {
    "Failed to create output file "@ + name + ": "@ + why
}

/// The text for an archive that lacks members: what was found and what was
/// expected, each list as it is shown for inspection.
pub open spec fn missing_text(found: Seq<Seq<char>>, targets: Seq<Seq<char>>, seven: bool) -> Seq<
    char,
> {
    (if seven {
        "Missing files from 7z. Found "@
    } else {
        "Missing files. Found "@
    }) + debug_list(found) + ", expected "@ + debug_list(targets)
}

/// Whether each of `targets` is one of the names `found`, whatever the case
/// of its ASCII letters.
pub open spec fn covers(found: Seq<Seq<char>>, targets: Seq<Seq<char>>) -> bool {
    forall|j: int| 0 <= j < targets.len() ==> among(found, #[trigger] targets[j])
}

/// How an extraction ends once every member was visited: with the names of
/// the members installed, if they are as many as the targets and every
/// target is among them.
pub open spec fn extract_end(found: Seq<Seq<char>>, targets: Seq<Seq<char>>, seven: bool) -> Result<
    Seq<Seq<char>>,
    Failure,
> {
    if found.len() == targets.len() && covers(found, targets) {
        Ok(found)
    } else {
        Err(
            Failure { kind: ErrorKind::MissingMembers, message: missing_text(found, targets, seven) },
        )
    }
}

/// Whether a member that goes by the name `full` is wanted: its file name is
/// one of the targets.
pub open spec fn wanted(targets: Seq<Seq<char>>, full: Option<Seq<char>>) -> bool {
    full matches Some(path) && names_a_file(path) && among(targets, file_name(path))
}

/// How an extraction goes on at the member `next`: members that are not
/// wanted are passed over; the first wanted one is announced, unless it
/// cannot be read or holds nothing; the extraction ends if no member is left.
pub open spec fn extract_scan(job: Job, next: int, found: Seq<Seq<char>>) -> Turn<
    ExtractState,
    Seq<Seq<char>>,
>
    decreases job.entries.len() - next,
{
    if 0 <= next < job.entries.len() {
        match job.entries[next].name {
            Err(why) => Turn::Finished(
                Err(Failure { kind: ErrorKind::UnreadableArchive, message: why }),
            ),
            Ok(full) => {
                let name = file_name(full->Some_0);
                if !wanted(job.targets, full) {
                    extract_scan(job, next + 1, found)
                } else {
                    match job.entries[next].data {
                        Err(why) => Turn::Finished(
                            Err(
                                Failure {
                                    kind: ErrorKind::UnreadableArchive,
                                    message: unreadable_text(name, why),
                                },
                            ),
                        ),
                        Ok(content) => if content.len() == 0 {
                            Turn::Finished(
                                Err(
                                    Failure {
                                        kind: ErrorKind::EmptyFile,
                                        message: empty_member_text(name),
                                    },
                                ),
                            )
                        } else {
                            Turn::Ask(
                                ExtractState {
                                    job,
                                    next,
                                    found,
                                    stage: Stage::Naming { name, content },
                                },
                                Request::Notify {
                                    event: extract_event(job.tool, extracting_text(name)),
                                },
                            )
                        },
                    }
                }
            },
        }
    } else {
        Turn::Finished(extract_end(found, job.targets, job.seven))
    }
}

/// How the extraction from the members `entries` begins: with the
/// announcement of the scan.
pub open spec fn extract_begin(job: Job) -> Turn<ExtractState, Seq<Seq<char>>> {
    Turn::Ask(
        ExtractState { job, next: 0, found: Seq::empty(), stage: Stage::Announcing },
        Request::Notify { event: extract_event(job.tool, scanning_text(job.entries.len())) },
    )
}

/// The failure of an archive that cannot be read.
pub open spec fn unreadable_archive(prefix: Seq<char>, why: Seq<char>) -> Failure {
    Failure { kind: ErrorKind::UnreadableArchive, message: prefix + why }
}

/// How the extraction from an archive begins: with the announcement that the
/// archive is opened. `opened` holds the members of the archive, or why it
/// cannot be read.
pub open spec fn extract_open(
    tool: Seq<char>,
    status: Seq<char>,
    seven: bool,
    opened: Result<Seq<Entry>, Failure>,
    dest_dir: Seq<char>,
    targets: Seq<Seq<char>>,
    sep: char,
) -> Turn<ExtractState, Seq<Seq<char>>> {
    Turn::Ask(
        ExtractState {
            job: Job {
                tool,
                entries: match opened {
                    Ok(entries) => entries,
                    Err(_) => Seq::empty(),
                },
                targets,
                dest_dir,
                sep,
                seven,
            },
            next: 0,
            found: Seq::empty(),
            stage: Stage::Opening {
                refused: match opened {
                    Ok(_) => None,
                    Err(failure) => Some(failure),
                },
            },
        },
        Request::Notify { event: extract_event(tool, status) },
    )
}

/// What opening the zip archive `bytes` gives.
pub open spec fn zip_opened(bytes: Seq<u8>) -> Result<Seq<Entry>, Failure> {
    match zip_parse(bytes) {
        Err(why) => Err(unreadable_archive("Failed to read zip archive: "@, why)),
        Ok(entries) => Ok(entries),
    }
}

/// What the unpacking of a 7z archive gave: the members `unpacked`, or the
/// failure that says why there are none.
pub open spec fn sevenz_opened(unpacked: Result<Seq<ArchiveMember>, Seq<char>>) -> Result<
    Seq<Entry>,
    Failure,
> {
    match unpacked {
        Err(why) => Err(unreadable_archive("7z extraction failed: "@, why)),
        Ok(members) => Ok(unpacked_all(members)),
    }
}

/// How the extraction from the zip archive `bytes` begins.
pub open spec fn extract_zip_start(
    tool: Seq<char>,
    bytes: Seq<u8>,
    dest_dir: Seq<char>,
    targets: Seq<Seq<char>>,
    sep: char,
) -> Turn<ExtractState, Seq<Seq<char>>> {
    extract_open(tool, "Opening archive..."@, false, zip_opened(bytes), dest_dir, targets, sep)
}

/// How the extraction from a 7z archive begins, once it was unpacked.
pub open spec fn extract_7z_start(
    tool: Seq<char>,
    unpacked: Result<Seq<ArchiveMember>, Seq<char>>,
    dest_dir: Seq<char>,
    targets: Seq<Seq<char>>,
    sep: char,
) -> Turn<ExtractState, Seq<Seq<char>>> {
    extract_open(
        tool,
        "Opening 7z archive..."@,
        true,
        sevenz_opened(unpacked),
        dest_dir,
        targets,
        sep,
    )
}

/// The path at which the member `name` is installed.
pub open spec fn member_dest(job: Job, name: Seq<char>) -> Seq<char> {
    inside(job.dest_dir, name, job.sep)
}

/// How an extraction in state `s` goes on when its host answers `reply`.
pub open spec fn extract_next(s: ExtractState, reply: Reply) -> Turn<ExtractState, Seq<Seq<char>>> {
    match s.stage {
        Stage::Opening { refused } => match refused {
            Some(failure) => Turn::Finished(Err(failure)),
            None => extract_begin(s.job),
        },
        Stage::Announcing => extract_scan(s.job, 0, s.found),
        Stage::Naming { name, content } => Turn::Ask(
            ExtractState { stage: Stage::Writing { name }, ..s },
            Request::Write { path: member_dest(s.job, name) + staging_suffix(), content },
        ),
        Stage::Writing { name } => match failure_of(reply) {
            Some(why) => Turn::Finished(
                Err(Failure { kind: ErrorKind::StagingFailed, message: unwritable_text(name, why) }),
            ),
            None => match install_start(
                member_dest(s.job, name),
                member_dest(s.job, name) + staging_suffix(),
            ) {
                Turn::Ask(install, asked) => Turn::Ask(
                    ExtractState { stage: Stage::Installing { name, install }, ..s },
                    asked,
                ),
                Turn::Finished(Err(failure)) => Turn::Finished(Err(failure)),
                Turn::Finished(Ok(_)) => extract_scan(s.job, s.next + 1, s.found.push(name)),
            },
        },
        Stage::Installing { name, install } => match install_next(install, reply) {
            Turn::Ask(then, asked) => Turn::Ask(
                ExtractState { stage: Stage::Installing { name, install: then }, ..s },
                asked,
            ),
            Turn::Finished(Err(failure)) => Turn::Finished(Err(failure)),
            Turn::Finished(Ok(_)) => extract_scan(s.job, s.next + 1, s.found.push(name)),
        },
    }
}

/// The step function of an extraction.
pub open spec fn extract_steps() -> spec_fn(ExtractState, Reply) -> Turn<
    ExtractState,
    Seq<Seq<char>>,
> {
    |s: ExtractState, reply: Reply| extract_next(s, reply)
}

/// Whether the member `index` of the archive is wanted under the file name
/// `name` and holds something.
pub open spec fn wanted_at(job: Job, index: int, name: Seq<char>) -> bool {
    &&& 0 <= index < job.entries.len()
    &&& job.entries[index].name is Ok
    &&& wanted(job.targets, job.entries[index].name->Ok_0)
    &&& file_name(job.entries[index].name->Ok_0->Some_0) == name
    &&& job.entries[index].data is Ok
    &&& job.entries[index].data->Ok_0.len() > 0
}

/// Whether each of the names `found` is the file name of a member of the
/// archive that is wanted and holds something.
pub open spec fn all_taken(job: Job, found: Seq<Seq<char>>) -> bool {
    forall|k: int| 0 <= k < found.len() ==> taken(job, #[trigger] found[k])
}

/// Whether `name` is the file name of a member of the archive that is wanted
/// and holds something.
pub open spec fn taken(job: Job, name: Seq<char>) -> bool {
    exists|index: int| wanted_at(job, index, name)
}

/// Whether an extraction in state `s` has installed wanted members only, and
/// stands at one.
pub open spec fn on_track(s: ExtractState) -> bool {
    &&& all_taken(s.job, s.found)
    &&& match s.stage {
        Stage::Opening { refused } => true,
        Stage::Announcing => true,
        Stage::Naming { name, content } => wanted_at(s.job, s.next, name),
        Stage::Writing { name } => wanted_at(s.job, s.next, name),
        Stage::Installing { name, install } => wanted_at(s.job, s.next, name),
    }
}

/// Whether the turn `turn` of an extraction of `job` keeps it on track: a
/// state is on track, a list of names that ends it has as many names as
/// there are targets, each taken from the archive.
pub open spec fn keeps_track(job: Job, turn: Turn<ExtractState, Seq<Seq<char>>>) -> bool {
    match turn {
        Turn::Ask(s, _) => s.job == job && on_track(s),
        Turn::Finished(Ok(found)) => found.len() == job.targets.len() && covers(
            found,
            job.targets,
        ) && all_taken(job, found),
        Turn::Finished(Err(_)) => true,
    }
}

/// Going on at a member keeps an extraction on track.
pub proof fn lemma_scan_keeps_track(job: Job, next: int, found: Seq<Seq<char>>)
    requires
        all_taken(job, found),
        0 <= next,
    ensures
        keeps_track(job, extract_scan(job, next, found)),
    decreases job.entries.len() - next,
{
    if next < job.entries.len() {
        if job.entries[next].name is Ok {
            if !wanted(job.targets, job.entries[next].name->Ok_0) {
                lemma_scan_keeps_track(job, next + 1, found);
            }
        }
    }
}

/// One more installed member keeps an extraction on track.
proof fn lemma_push_keeps_track(job: Job, next: int, found: Seq<Seq<char>>, name: Seq<char>)
    requires
        all_taken(job, found),
        wanted_at(job, next, name),
    ensures
        all_taken(job, found.push(name)),
{
    let more = found.push(name);
    assert forall|k: int| 0 <= k < more.len() implies taken(job, #[trigger] more[k]) by {
        if k < found.len() {
            assert(more[k] == found[k]);
        } else {
            assert(wanted_at(job, next, more[k]));
        }
    }
}

/// Every step keeps an extraction on track.
pub proof fn lemma_step_keeps_track(s: ExtractState, reply: Reply)
    requires
        on_track(s),
    ensures
        keeps_track(s.job, extract_next(s, reply)),
{
    match s.stage {
        Stage::Opening { refused } => {},
        Stage::Announcing => {
            lemma_scan_keeps_track(s.job, 0, s.found);
        },
        Stage::Naming { name, content } => {},
        Stage::Writing { name } => {
            lemma_push_keeps_track(s.job, s.next, s.found, name);
            lemma_scan_keeps_track(s.job, s.next + 1, s.found.push(name));
        },
        Stage::Installing { name, install } => {
            lemma_push_keeps_track(s.job, s.next, s.found, name);
            lemma_scan_keeps_track(s.job, s.next + 1, s.found.push(name));
        },
    }
}

/// An extraction that ends well from a state on track has installed as many
/// members as there are targets, each of them wanted and holding something.
pub proof fn lemma_extract_run(s: ExtractState, request: Request, files: Files, rest: Seq<Exchange>)
    requires
        on_track(s),
        run_of(extract_steps(), s, request, files, rest) is Some,
    ensures
        run_of(extract_steps(), s, request, files, rest)->Some_0.result matches Ok(found)
            ==> found.len() == s.job.targets.len() && covers(found, s.job.targets) && all_taken(
            s.job,
            found,
        ),
    decreases rest.len(),
{
    let reply = rest[0].reply;
    assert(extract_steps()(s, reply) == extract_next(s, reply));
    lemma_step_keeps_track(s, reply);
    match extract_next(s, reply) {
        Turn::Ask(then, asked) => {
            lemma_extract_run(then, asked, rest[0].files, rest.drop_first());
        },
        Turn::Finished(result) => {},
    }
}

/// An extraction never ends well with a part of what was wanted: the names
/// it returns are as many as the targets, every target is among them, and
/// each is the file name of a member of the archive that is wanted and holds
/// something. This holds of any members, whichever archive they come from.
pub proof fn law_extraction_is_complete(job: Job, files: Files, run: Seq<Exchange>)
    requires
        outcome_of(extract_steps(), extract_begin(job), files, run) is Some,
    ensures
        outcome_of(extract_steps(), extract_begin(job), files, run)->Some_0.result matches Ok(
            found,
        ) ==> found.len() == job.targets.len() && covers(found, job.targets) && all_taken(
            job,
            found,
        ),
{
    let first = extract_begin(job);
    lemma_extract_run(first->Ask_0, first->Ask_1, files, run);
}

/// A member that holds nothing is never written: an extraction that stands
/// at a wanted member without content ends there with a failure.
pub proof fn law_empty_member_is_refused(job: Job, next: int, found: Seq<Seq<char>>)
    requires
        0 <= next < job.entries.len(),
        job.entries[next].name is Ok,
        wanted(job.targets, job.entries[next].name->Ok_0),
        job.entries[next].data == Ok::<Seq<u8>, Seq<char>>(Seq::empty()),
    ensures
        extract_scan(job, next, found) == Turn::<ExtractState, Seq<Seq<char>>>::Finished(
            Err(
                Failure {
                    kind: ErrorKind::EmptyFile,
                    message: empty_member_text(
                        file_name(job.entries[next].name->Ok_0->Some_0),
                    ),
                },
            ),
        ),
{
}

impl Extraction {
    #[verifier::type_invariant]
    spec fn inv(self) -> bool {
        !(self.stage is Announcing || self.stage is Opening) ==> self.next
            < self.source.entries().len()
    }

    /// Whether each of `targets` is one of the names `found`.
    fn covers_all(found: &Vec<String>, targets: &Vec<String>) -> (r: bool)
        ensures
            r == covers(views(found@), views(targets@)),
    {
        let ghost wanted = views(targets@);
        let mut j: usize = 0;
        while j < targets.len()
            invariant
                j <= targets.len(),
                wanted == views(targets@),
                forall|k: int| 0 <= k < j ==> among(views(found@), #[trigger] wanted[k]),
            decreases targets.len() - j,
        {
            assert(wanted[j as int] == targets@[j as int]@);
            if !is_among(found, targets[j].as_str()) {
                return false;
            }
            j += 1;
        }
        true
    }

    /// Begins with the announcement that the archive is opened.
    fn open(
        tool: &str,
        status: &str,
        seven: bool,
        opened: Result<Source, EngineError>,
        dest_dir: &str,
        targets: Vec<String>,
        sep: char,
    ) -> (first: Step<Extraction, Vec<String>>)
        requires
            opened matches Ok(source) ==> source.seven() == seven,
        ensures
            first@ == extract_open(
                tool@,
                status@,
                seven,
                match opened {
                    Ok(source) => Ok(source.entries()),
                    Err(e) => Err(e@),
                },
                dest_dir@,
                views(targets@),
                sep,
            ),
    {
        let event = emit_progress(tool, 99, status);
        let found: Vec<String> = Vec::new();
        assert(views(found@) =~= Seq::<Seq<char>>::empty());
        let (source, refused) = match opened {
            Ok(source) => (source, None),
            Err(e) => {
                if seven {
                    let none: Vec<ArchiveMember> = Vec::new();
                    assert(unpacked_all(none@) =~= Seq::<Entry>::empty());
                    (Source::Unpacked(none), Some(e))
                } else {
                    (Source::Nothing, Some(e))
                }
            },
        };
        Step::Ask(
            Extraction {
                tool: String::from_str(tool),
                source,
                targets,
                dest_dir: String::from_str(dest_dir),
                sep,
                next: 0,
                found,
                stage: ExtractStage::Opening { refused },
            },
            HostRequest::Notify { event },
        )
    }

    /// Goes on at the member `next`.
    #[verifier::loop_isolation(false)]
    fn scan(
        tool: String,
        source: Source,
        targets: Vec<String>,
        dest_dir: String,
        sep: char,
        next: usize,
        found: Vec<String>,
    ) -> (step: Step<Extraction, Vec<String>>)
        ensures
            step@ == extract_scan(
                Job {
                    tool: tool@,
                    entries: source.entries(),
                    targets: views(targets@),
                    dest_dir: dest_dir@,
                    sep,
                    seven: source.seven(),
                },
                next as int,
                views(found@),
            ),
    {
        let ghost job = Job {
            tool: tool@,
            entries: source.entries(),
            targets: views(targets@),
            dest_dir: dest_dir@,
            sep,
            seven: source.seven(),
        };
        let ghost goal = extract_scan(job, next as int, views(found@));
        let mut members = source;
        let mut at = next;
        let count = members.len();
        while at < count
            invariant
                count == job.entries.len(),
                members.entries() == job.entries,
                members.seven() == job.seven,
                extract_scan(job, at as int, views(found@)) == goal,
            decreases count - at,
        {
            match members.name(at) {
                Err(why) => {
                    return Step::Finished(
                        Err(EngineError::new(ErrorKind::UnreadableArchive, why)),
                    );
                },
                Ok(None) => {},
                Ok(Some(full)) => {
                    let name = file_name_of(full.as_str());
                    if is_file_path(full.as_str()) && is_among(&targets, name.as_str()) {
                        match members.data(at) {
                            Err(why) => {
                                let mut text = String::from_str("Failed to extract file ");
                                text.append(name.as_str());
                                text.append(": ");
                                text.append(why.as_str());
                                return Step::Finished(
                                    Err(EngineError::new(ErrorKind::UnreadableArchive, text)),
                                );
                            },
                            Ok(content) => {
                                if content.len() == 0 {
                                    let mut text = String::from_str("Extracted file ");
                                    text.append(name.as_str());
                                    text.append(" is empty");
                                    return Step::Finished(
                                        Err(EngineError::new(ErrorKind::EmptyFile, text)),
                                    );
                                }
                                let mut status = String::from_str("Extracting ");
                                status.append(name.as_str());
                                status.append("...");
                                let event = emit_progress(tool.as_str(), 99, status.as_str());
                                return Step::Ask(
                                    Extraction {
                                        tool,
                                        source: members,
                                        targets,
                                        dest_dir,
                                        sep,
                                        next: at,
                                        found,
                                        stage: ExtractStage::Naming { name, content },
                                    },
                                    HostRequest::Notify { event },
                                );
                            },
                        }
                    }
                },
            }
            at += 1;
        }
        if found.len() == targets.len() && Extraction::covers_all(&found, &targets) {
            Step::Finished(Ok(found))
        } else {
            let mut text = if members.is_seven() {
                String::from_str("Missing files from 7z. Found ")
            } else {
                String::from_str("Missing files. Found ")
            };
            text.append(list_debug(&found).as_str());
            text.append(", expected ");
            text.append(list_debug(&targets).as_str());
            Step::Finished(Err(EngineError::new(ErrorKind::MissingMembers, text)))
        }
    }

    /// Announces the scan of the members of `source`.
    fn begin(tool: &str, source: Source, dest_dir: &str, targets: Vec<String>, sep: char) -> (first:
        Step<Extraction, Vec<String>>)
        ensures
            first@ == extract_begin(
                Job {
                    tool: tool@,
                    entries: source.entries(),
                    targets: views(targets@),
                    dest_dir: dest_dir@,
                    sep,
                    seven: source.seven(),
                },
            ),
    {
        let mut status = String::from_str("Scanning ");
        append_numeral(&mut status, source.len() as u64);
        status.append(" files...");
        let event = emit_progress(tool, 99, status.as_str());
        let found: Vec<String> = Vec::new();
        assert(views(found@) =~= Seq::<Seq<char>>::empty());
        Step::Ask(
            Extraction {
                tool: String::from_str(tool),
                source,
                targets,
                dest_dir: String::from_str(dest_dir),
                sep,
                next: 0,
                found,
                stage: ExtractStage::Announcing,
            },
            HostRequest::Notify { event },
        )
    }

    /// Records that the member `name` was installed, and goes on after it.
    fn installed(
        tool: String,
        source: Source,
        targets: Vec<String>,
        dest_dir: String,
        sep: char,
        next: usize,
        found: Vec<String>,
        name: String,
    ) -> (step: Step<Extraction, Vec<String>>)
        requires
            next < source.entries().len(),
        ensures
            step@ == extract_scan(
                Job {
                    tool: tool@,
                    entries: source.entries(),
                    targets: views(targets@),
                    dest_dir: dest_dir@,
                    sep,
                    seven: source.seven(),
                },
                next + 1,
                views(found@).push(name@),
            ),
    {
        let ghost before = views(found@);
        let mut found = found;
        found.push(name);
        assert(views(found@) =~= before.push(name@));
        let count = source.len();
        assert(next < count);
        Extraction::scan(tool, source, targets, dest_dir, sep, next + 1, found)
    }

    /// Takes the host's answer to the request that this extraction waits on,
    /// and says what follows.
    pub fn step(self, reply: HostReply) -> (next: Step<Extraction, Vec<String>>)
        ensures
            next@ == extract_next(self@, reply@),
    {
        proof {
            use_type_invariant(&self);
        }
        let Extraction { tool, source, targets, dest_dir, sep, next, found, stage } = self;
        match stage {
            ExtractStage::Opening { refused } => match refused {
                Some(e) => Step::Finished(Err(e)),
                None => Extraction::begin(tool.as_str(), source, dest_dir.as_str(), targets, sep),
            },
            ExtractStage::Announcing => Extraction::scan(
                tool,
                source,
                targets,
                dest_dir,
                sep,
                0,
                found,
            ),
            ExtractStage::Naming { name, content } => {
                proof {
                    reveal_strlit(".new");
                    assert(".new"@ =~= staging_suffix());
                }
                let mut path = join_path(dest_dir.as_str(), name.as_str(), sep);
                path.append(".new");
                Step::Ask(
                    Extraction {
                        tool,
                        source,
                        targets,
                        dest_dir,
                        sep,
                        next,
                        found,
                        stage: ExtractStage::Writing { name },
                    },
                    HostRequest::Write { path, content },
                )
            },
            ExtractStage::Writing { name } => match reply.failure() {
                Some(why) => {
                    let mut text = String::from_str("Failed to create output file ");
                    text.append(name.as_str());
                    text.append(": ");
                    text.append(why.as_str());
                    Step::Finished(Err(EngineError::new(ErrorKind::StagingFailed, text)))
                },
                None => {
                    proof {
                        reveal_strlit(".new");
                        assert(".new"@ =~= staging_suffix());
                    }
                    let dest = join_path(dest_dir.as_str(), name.as_str(), sep);
                    let staging = concat2(dest.as_str(), ".new");
                    match safe_replace_with_backup(dest.as_str(), staging.as_str()) {
                        Step::Ask(install, asked) => Step::Ask(
                            Extraction {
                                tool,
                                source,
                                targets,
                                dest_dir,
                                sep,
                                next,
                                found,
                                stage: ExtractStage::Installing { name, install },
                            },
                            asked,
                        ),
                        Step::Finished(Err(e)) => Step::Finished(Err(e)),
                        Step::Finished(Ok(_)) => Extraction::installed(
                            tool,
                            source,
                            targets,
                            dest_dir,
                            sep,
                            next,
                            found,
                            name,
                        ),
                    }
                },
            },
            ExtractStage::Installing { name, install } => match install.step(reply) {
                Step::Ask(install, asked) => Step::Ask(
                    Extraction {
                        tool,
                        source,
                        targets,
                        dest_dir,
                        sep,
                        next,
                        found,
                        stage: ExtractStage::Installing { name, install },
                    },
                    asked,
                ),
                Step::Finished(Err(e)) => Step::Finished(Err(e)),
                Step::Finished(Ok(_)) => Extraction::installed(
                    tool,
                    source,
                    targets,
                    dest_dir,
                    sep,
                    next,
                    found,
                    name,
                ),
            },
        }
    }
}

/// Begins the extraction of the members `targets` from the zip archive that
/// `archive` holds, into the directory `dest_dir`. It ends with the file
/// names of the members that were installed.
pub fn extract_from_zip(
    tool_name: &str,
    archive: Vec<u8>,
    dest_dir: &str,
    targets: Vec<String>,
    sep: char,
) -> (first: Step<Extraction, Vec<String>>)
    ensures
        first@ == extract_zip_start(tool_name@, archive@, dest_dir@, views(targets@), sep),
{
    let opened = match zip_open(archive) {
        Err(why) => {
            let text = concat2("Failed to read zip archive: ", why.as_str());
            Err(EngineError::new(ErrorKind::UnreadableArchive, text))
        },
        Ok(opened) => Ok(Source::Zip(opened)),
    };
    Extraction::open(tool_name, "Opening archive...", false, opened, dest_dir, targets, sep)
}

/// Begins the extraction of the members `targets` of a 7z archive into the
/// directory `dest_dir`. The host has unpacked the archive: `unpacked` holds
/// its members in the order of the archive, or why it could not be unpacked.
/// The extraction ends with the file names of the members that were
/// installed.
pub fn extract_from_7z(
    tool_name: &str,
    unpacked: Result<Vec<ArchiveMember>, String>,
    dest_dir: &str,
    targets: Vec<String>,
    sep: char,
) -> (first: Step<Extraction, Vec<String>>)
    ensures
        first@ == extract_7z_start(
            tool_name@,
            match unpacked {
                Ok(members) => Ok(members@),
                Err(why) => Err(why@),
            },
            dest_dir@,
            views(targets@),
            sep,
        ),
{
    let opened = match unpacked {
        Err(why) => {
            let text = concat2("7z extraction failed: ", why.as_str());
            Err(EngineError::new(ErrorKind::UnreadableArchive, text))
        },
        Ok(members) => Ok(Source::Unpacked(members)),
    };
    Extraction::open(tool_name, "Opening 7z archive...", true, opened, dest_dir, targets, sep)
}

} // verus!
