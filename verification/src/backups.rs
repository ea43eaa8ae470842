//! The registry of backups: which tools have one, and how backups are purged.

use vstd::prelude::*;
use vstd::string::StringExecFns;
use crate::catalog::{binaries_of, owner_of, Tool, ToolTable};
use crate::errors::{EngineError, ErrorKind};
use crate::files::{failure_of, found, HostReply, HostRequest, Reply, Request};
use crate::paths::{backup_suffix, inside, join_path};
use crate::protocol::{Step, Turn};
use crate::rollback::{places, places_of, restored_entry, slots_for, unknown_tool, Place, Slot};
use crate::text::{chars_of, concat2, ends_with, has_suffix, join, joined, text_of, views};

verus! {

/// The binary that the directory entry `entry` is the backup of: the entry
/// without its backup suffix, if it ends with one.
pub open spec fn backed_up_name(entry: Seq<char>) -> Option<Seq<char>> {
    if has_suffix(entry, backup_suffix()) {
        Some(entry.take(entry.len() - backup_suffix().len()))
    } else {
        None
    }
}

/// The tool whose backup the directory entry `entry` is.
pub open spec fn backup_owner(tools: Seq<Tool>, entry: Seq<char>) -> Option<Seq<char>> {
    match backed_up_name(entry) {
        Some(name) => owner_of(tools, name),
        None => None,
    }
}

/// `known` followed by the tools that have a backup among the directory
/// entries `entries` and were not known yet, in the order of the entries.
pub open spec fn with_owners(tools: Seq<Tool>, known: Seq<Seq<char>>, entries: Seq<Seq<char>>)
    -> Seq<Seq<char>>
    decreases entries.len(),
{
    if entries.len() == 0 {
        known
    } else {
        let before = with_owners(tools, known, entries.drop_last());
        match backup_owner(tools, entries.last()) {
            Some(id) => if before.contains(id) {
                before
            } else {
                before.push(id)
            },
            None => before,
        }
    }
}

/// The directory entries among `entries` that are the backup of a binary of
/// some tool, in their order.
pub open spec fn backups_among(tools: Seq<Tool>, entries: Seq<Seq<char>>) -> Seq<Seq<char>>
    decreases entries.len(),
{
    if entries.len() == 0 {
        Seq::empty()
    } else {
        let before = backups_among(tools, entries.drop_last());
        if backup_owner(tools, entries.last()) is Some {
            before.push(entries.last())
        } else {
            before
        }
    }
}

/// The tool whose backup the directory entry `entry` is.
pub fn owner_of_backup(table: &ToolTable, entry: &str) -> (id: Option<String>)
    ensures
        id is Some == backup_owner(table@, entry@) is Some,
        id matches Some(found) ==> backup_owner(table@, entry@) == Some(found@),
{
    let chars = chars_of(entry);
    let suffix = chars_of(".old");
    proof {
        reveal_strlit(".old");
        assert(".old"@ =~= backup_suffix());
    }
    if ends_with(&chars, &suffix) {
        let name = text_of(&chars, 0, chars.len() - suffix.len());
        assert(name@ =~= entry@.take(entry@.len() - backup_suffix().len()));
        table.tool_for_binary(name.as_str())
    } else {
        None
    }
}

/// Whether `id` is one of `known`.
fn is_known(known: &Vec<String>, id: &String) -> (r: bool)
    ensures
        r == views(known@).contains(id@),
{
    let mut i: usize = 0;
    while i < known.len()
        invariant
            i <= known.len(),
            forall|k: int| 0 <= k < i ==> views(known@)[k] != id@,
        decreases known.len() - i,
    {
        if known[i] == *id {
            assert(views(known@)[i as int] == id@);
            return true;
        }
        i += 1;
    }
    false
}

/// Adds to `known` the tools that have a backup among `entries`.
fn note_owners(table: &ToolTable, known: &mut Vec<String>, entries: &Vec<String>)
    ensures
        views(final(known)@) == with_owners(table@, views(old(known)@), views(entries@)),
{
    let ghost start = views(known@);
    let mut i: usize = 0;
    assert(views(entries@).take(0) =~= Seq::<Seq<char>>::empty());
    while i < entries.len()
        invariant
            i <= entries.len(),
            views(known@) == with_owners(table@, start, views(entries@).take(i as int)),
        decreases entries.len() - i,
    {
        let ghost grown = views(entries@).take(i + 1);
        let ghost before = views(known@);
        proof {
            assert(grown.drop_last() =~= views(entries@).take(i as int));
            assert(grown.last() == entries@[i as int]@);
        }
        match owner_of_backup(table, entries[i].as_str()) {
            Some(id) => {
                if !is_known(known, &id) {
                    known.push(id);
                    assert(views(known@) =~= before.push(id@));
                }
            },
            None => {},
        }
        i += 1;
    }
    assert(views(entries@).take(entries.len() as int) =~= views(entries@));
}

/// The entries among `entries` that are the backup of a binary of some tool.
pub fn backups_in(table: &ToolTable, entries: &Vec<String>) -> (backups: Vec<String>)
    ensures
        views(backups@) == backups_among(table@, views(entries@)),
{
    let mut backups: Vec<String> = Vec::new();
    let mut i: usize = 0;
    assert(views(entries@).take(0) =~= Seq::<Seq<char>>::empty());
    assert(views(backups@) =~= Seq::<Seq<char>>::empty());
    while i < entries.len()
        invariant
            i <= entries.len(),
            views(backups@) == backups_among(table@, views(entries@).take(i as int)),
        decreases entries.len() - i,
    {
        let ghost grown = views(entries@).take(i + 1);
        let ghost before = views(backups@);
        proof {
            assert(grown.drop_last() =~= views(entries@).take(i as int));
            assert(grown.last() == entries@[i as int]@);
        }
        if owner_of_backup(table, entries[i].as_str()).is_some() {
            backups.push(entries[i].clone());
            assert(views(backups@) =~= before.push(entries@[i as int]@));
        }
        i += 1;
    }
    assert(views(entries@).take(entries.len() as int) =~= views(entries@));
    backups
}

/// The listing of the tools that have a backup, under way.
pub struct ListBackups<'a> {
    table: &'a ToolTable,
    dirs: Vec<String>,
    next: usize,
    known: Vec<String>,
}

/// A listing as a value of the model.
pub ghost struct ListState {
    pub tools: Seq<Tool>,
    /// The directories to look into.
    pub dirs: Seq<Seq<char>>,
    /// The index of the directory whose entries were asked for.
    pub next: int,
    /// The tools found so far.
    pub known: Seq<Seq<char>>,
}

impl<'a> View for ListBackups<'a> {
    type V = ListState;

    closed spec fn view(&self) -> ListState {
        ListState {
            tools: self.table@,
            dirs: views(self.dirs@),
            next: self.next as int,
            known: views(self.known@),
        }
    }
}

impl<'a> View for Step<ListBackups<'a>, Vec<String>> {
    type V = Turn<ListState, Seq<Seq<char>>>;

    open spec fn view(&self) -> Turn<ListState, Seq<Seq<char>>> {
        match self {
            Step::Ask(m, request) => Turn::Ask(m@, request@),
            Step::Finished(Ok(known)) => Turn::Finished(Ok(views(known@))),
            Step::Finished(Err(e)) => Turn::Finished(Err(e@)),
        }
    }
}

/// How a listing goes on at the directory `next`: it asks for its entries,
/// or ends with the tools found if no directory is left.
pub open spec fn list_at(tools: Seq<Tool>, dirs: Seq<Seq<char>>, next: int, known: Seq<Seq<char>>)
    -> Turn<ListState, Seq<Seq<char>>> {
    if 0 <= next < dirs.len() {
        Turn::Ask(ListState { tools, dirs, next, known }, Request::List { dir: dirs[next] })
    } else {
        Turn::Finished(Ok(known))
    }
}

/// How a listing in state `s` goes on when its host answers `reply`. A
/// directory that cannot be read is passed over.
pub open spec fn list_next(s: ListState, reply: Reply) -> Turn<ListState, Seq<Seq<char>>> {
    list_at(
        s.tools,
        s.dirs,
        s.next + 1,
        match reply {
            Reply::Names(entries) => with_owners(s.tools, s.known, entries),
            _ => s.known,
        },
    )
}

impl<'a> ListBackups<'a> {
    #[verifier::type_invariant]
    spec fn inv(self) -> bool {
        self.next < self.dirs.len()
    }

    fn at(table: &'a ToolTable, dirs: Vec<String>, next: usize, known: Vec<String>) -> (step: Step<
        ListBackups<'a>,
        Vec<String>,
    >)
        ensures
            step@ == list_at(table@, views(dirs@), next as int, views(known@)),
    {
        if next < dirs.len() {
            let request = HostRequest::List { dir: dirs[next].clone() };
            Step::Ask(ListBackups { table, dirs, next, known }, request)
        } else {
            Step::Finished(Ok(known))
        }
    }

    /// Takes the host's answer to the request that this listing waits on,
    /// and says what follows.
    pub fn step(self, reply: HostReply) -> (next: Step<ListBackups<'a>, Vec<String>>)
        ensures
            next@ == list_next(self@, reply@),
    {
        proof {
            use_type_invariant(&self);
        }
        let ListBackups { table, dirs, next, known } = self;
        let mut known = known;
        match reply {
            HostReply::Names(entries) => {
                note_owners(table, &mut known, &entries);
            },
            _ => {},
        }
        ListBackups::at(table, dirs, next + 1, known)
    }
}

/// Begins the listing of the tools that have at least one backup in one of
/// `dirs`. Each tool is listed once, in the order in which its first backup
/// is met.
pub fn list_tool_backups<'a>(table: &'a ToolTable, dirs: Vec<String>) -> (first: Step<
    ListBackups<'a>,
    Vec<String>,
>)
    ensures
        first@ == list_at(table@, views(dirs@), 0, Seq::empty()),
{
    let known: Vec<String> = Vec::new();
    assert(views(known@) =~= Seq::<Seq<char>>::empty());
    ListBackups::at(table, dirs, 0, known)
}

/// What a purge did: the backups it deleted and those it could not delete.
#[derive(Debug)]
pub struct CleanupReport {
    /// What was deleted.
    pub removed: Vec<String>,
    /// What could not be deleted, each with the reason.
    pub failures: Vec<String>,
}

/// A report as a value of the model.
pub ghost struct Report {
    pub removed: Seq<Seq<char>>,
    pub failures: Seq<Seq<char>>,
}

impl View for CleanupReport {
    type V = Report;

    open spec fn view(&self) -> Report {
        Report { removed: views(self.removed@), failures: views(self.failures@) }
    }
}

/// The report of a purge that has done nothing yet.
pub open spec fn empty_report() -> Report {
    Report { removed: Seq::empty(), failures: Seq::empty() }
}

/// The report `report` after the deletion of `what` was answered by `reply`.
pub open spec fn reported(report: Report, what: Seq<char>, reply: Reply) -> Report {
    match failure_of(reply) {
        None => Report { removed: report.removed.push(what), ..report },
        Some(why) => Report { failures: report.failures.push(what + ": "@ + why), ..report },
    }
}

impl CleanupReport {
    /// The report of a purge that has done nothing yet.
    pub fn empty() -> (report: CleanupReport)
        ensures
            report@ == empty_report(),
    {
        let report = CleanupReport { removed: Vec::new(), failures: Vec::new() };
        assert(views(report.removed@) =~= Seq::<Seq<char>>::empty());
        assert(views(report.failures@) =~= Seq::<Seq<char>>::empty());
        report
    }

    /// This report after the deletion of `what` was answered by `reply`.
    pub fn record(self, what: String, reply: HostReply) -> (report: CleanupReport)
        ensures
            report@ == reported(self@, what@, reply@),
    {
        let CleanupReport { removed, failures } = self;
        let mut removed = removed;
        let mut failures = failures;
        let ghost r0 = views(removed@);
        let ghost f0 = views(failures@);
        match reply.failure() {
            None => {
                removed.push(what);
                assert(views(removed@) =~= r0.push(what@));
            },
            Some(why) => {
                let mut line = what;
                line.append(": ");
                line.append(why.as_str());
                failures.push(line);
                assert(views(failures@) =~= f0.push(what@ + ": "@ + why@));
            },
        }
        CleanupReport { removed, failures }
    }

    /// The number of backups that were deleted.
    pub fn count(&self) -> (n: usize)
        ensures
            n == self@.removed.len(),
    {
        self.removed.len()
    }
}

/// Where the purge of one tool's backups stands.
#[derive(Clone, Copy, Debug, PartialEq, Eq, Structural)]
pub enum CleanupPhase {
    /// Asked whether the backup exists.
    AskBackup,
    /// Asked to delete the backup.
    Remove,
}

/// The purge of one tool's backups, under way.
pub struct Cleanup {
    slots: Vec<Slot>,
    sep: char,
    next: usize,
    phase: CleanupPhase,
    report: CleanupReport,
}

/// The purge of one tool's backups as a value of the model.
pub ghost struct CleanupState {
    /// Every place where a binary of the tool may lie.
    pub places: Seq<Place>,
    pub sep: char,
    /// The index of the place that is looked at.
    pub next: int,
    pub phase: CleanupPhase,
    pub report: Report,
}

impl View for Cleanup {
    type V = CleanupState;

    closed spec fn view(&self) -> CleanupState {
        CleanupState {
            places: places_of(self.slots@),
            sep: self.sep,
            next: self.next as int,
            phase: self.phase,
            report: self.report@,
        }
    }
}

impl View for Step<Cleanup, CleanupReport> {
    type V = Turn<CleanupState, Report>;

    open spec fn view(&self) -> Turn<CleanupState, Report> {
        match self {
            Step::Ask(m, request) => Turn::Ask(m@, request@),
            Step::Finished(Ok(report)) => Turn::Finished(Ok(report@)),
            Step::Finished(Err(e)) => Turn::Finished(Err(e@)),
        }
    }
}

/// The path of the backup of the binary at `place`.
pub open spec fn backup_at(place: Place, sep: char) -> Seq<char> {
    inside(place.dir, place.name, sep) + backup_suffix()
}

/// How a purge goes on at the place `next`: it asks whether a backup lies
/// there, or ends with its report if no place is left.
pub open spec fn cleanup_at(places: Seq<Place>, sep: char, next: int, report: Report) -> Turn<
    CleanupState,
    Report,
> {
    if 0 <= next < places.len() {
        Turn::Ask(
            CleanupState { places, sep, next, phase: CleanupPhase::AskBackup, report },
            Request::Exists { path: backup_at(places[next], sep) },
        )
    } else {
        Turn::Finished(Ok(report))
    }
}

/// How the purge of the backups of `tool` in the directories `dirs` begins.
pub open spec fn cleanup_start(tools: Seq<Tool>, tool: Seq<char>, dirs: Seq<Seq<char>>, sep: char)
    -> Turn<CleanupState, Report> {
    match binaries_of(tools, tool) {
        None => Turn::Finished(Err(unknown_tool(tool))),
        Some(names) => cleanup_at(places(dirs, names), sep, 0, empty_report()),
    }
}

/// How a purge in state `s` goes on when its host answers `reply`. A backup
/// that cannot be deleted is reported and passed over.
pub open spec fn cleanup_next(s: CleanupState, reply: Reply) -> Turn<CleanupState, Report> {
    match s.phase {
        CleanupPhase::AskBackup => if found(reply) {
            Turn::Ask(
                CleanupState { phase: CleanupPhase::Remove, ..s },
                Request::Remove { path: backup_at(s.places[s.next], s.sep) },
            )
        } else {
            cleanup_at(s.places, s.sep, s.next + 1, s.report)
        },
        CleanupPhase::Remove => cleanup_at(
            s.places,
            s.sep,
            s.next + 1,
            reported(s.report, restored_entry(s.places[s.next]), reply),
        ),
    }
}

/// The path of the backup of the binary at `slot`.
fn backup_path(slot: &Slot, sep: char) -> (path: String)
    ensures
        path@ == backup_at(slot@, sep),
{
    proof {
        reveal_strlit(".old");
        assert(".old"@ =~= backup_suffix());
    }
    let mut path = join_path(slot.dir.as_str(), slot.name.as_str(), sep);
    path.append(".old");
    path
}

impl Cleanup {
    #[verifier::type_invariant]
    spec fn inv(self) -> bool {
        self.next < self.slots.len()
    }

    fn at(slots: Vec<Slot>, sep: char, next: usize, report: CleanupReport) -> (step: Step<
        Cleanup,
        CleanupReport,
    >)
        ensures
            step@ == cleanup_at(places_of(slots@), sep, next as int, report@),
    {
        if next < slots.len() {
            let request = HostRequest::Exists { path: backup_path(&slots[next], sep) };
            Step::Ask(Cleanup { slots, sep, next, phase: CleanupPhase::AskBackup, report }, request)
        } else {
            Step::Finished(Ok(report))
        }
    }

    /// Takes the host's answer to the request that this purge waits on, and
    /// says what follows.
    pub fn step(self, reply: HostReply) -> (next: Step<Cleanup, CleanupReport>)
        ensures
            next@ == cleanup_next(self@, reply@),
    {
        proof {
            use_type_invariant(&self);
        }
        let Cleanup { slots, sep, next, phase, report } = self;
        match phase {
            CleanupPhase::AskBackup => {
                if reply.is_found() {
                    let request = HostRequest::Remove { path: backup_path(&slots[next], sep) };
                    Step::Ask(
                        Cleanup { slots, sep, next, phase: CleanupPhase::Remove, report },
                        request,
                    )
                } else {
                    Cleanup::at(slots, sep, next + 1, report)
                }
            },
            CleanupPhase::Remove => {
                let mut entry = slots[next].name.clone();
                entry.append(" (");
                entry.append(slots[next].dir.as_str());
                entry.append(")");
                let report = report.record(entry, reply);
                Cleanup::at(slots, sep, next + 1, report)
            },
        }
    }
}

/// Begins the purge of the backups of `tool`: in each of `dirs`, the backup
/// of each of its binaries is deleted if it exists. The purge goes on past a
/// backup that cannot be deleted and reports it.
pub fn cleanup_tool_backup(table: &ToolTable, tool: &str, dirs: &Vec<String>, sep: char) -> (first:
    Step<Cleanup, CleanupReport>)
    ensures
        first@ == cleanup_start(table@, tool@, views(dirs@), sep),
{
    match table.binaries(tool) {
        None => {
            let text = concat2("Unknown tool: ", tool);
            Step::Finished(Err(EngineError::new(ErrorKind::UnknownTool, text)))
        },
        Some(names) => {
            let slots = slots_for(dirs, &names);
            Cleanup::at(slots, sep, 0, CleanupReport::empty())
        },
    }
}

/// The line that reports what a purge of one tool deleted.
pub open spec fn cleaned_text(removed: Seq<Seq<char>>) -> Seq<char> {
    "Cleaned: "@ + joined(removed, ", "@)
}

/// The line that reports what a purge of one tool deleted.
pub fn cleaned_message(report: &CleanupReport) -> (text: String)
    ensures
        text@ == cleaned_text(report@.removed),
{
    let list = join(&report.removed, ", ");
    concat2("Cleaned: ", list.as_str())
}

} // verus!
