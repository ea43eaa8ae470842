//! Rolling a tool back: the backup of each of its binaries, in each install
//! directory, is put back into place.

use vstd::prelude::*;
use vstd::string::StringExecFns;
use crate::catalog::{binaries_of, Tool, ToolTable};
use crate::errors::{EngineError, ErrorKind, Failure};
use crate::files::{performs, Exchange, Files, HostReply, Reply, Request};
use crate::install::install_outcome;
use crate::paths::{backup_suffix, inside, is_plain_name, rollback_suffix};
use crate::protocol::{failed_with, Outcome, Step, Turn};
use crate::restore::{
    law_restore_success, nothing_failed, restore_next, restore_outcome, restore_pending,
    restore_start, Restore, RestoreState,
};
use crate::text::{concat2, join, joined, views};

verus! {

/// The place of a binary: its file name and the install directory.
#[derive(Debug)]
pub struct Slot {
    pub dir: String,
    pub name: String,
}

/// A place as a value of the model.
pub ghost struct Place {
    pub dir: Seq<char>,
    pub name: Seq<char>,
}

impl View for Slot {
    type V = Place;

    open spec fn view(&self) -> Place {
        Place { dir: self.dir@, name: self.name@ }
    }
}

/// The places of `slots`, in order.
pub open spec fn places_of(slots: Seq<Slot>) -> Seq<Place> {
    Seq::new(slots.len(), |i: int| slots[i]@)
}

/// The places of the binaries `names` in one directory.
pub open spec fn places_in(dir: Seq<char>, names: Seq<Seq<char>>) -> Seq<Place> {
    Seq::new(names.len(), |j: int| Place { dir, name: names[j] })
}

/// The places of the binaries `names` in the directories `dirs`: directory
/// by directory, the binaries in their order within each.
pub open spec fn places(dirs: Seq<Seq<char>>, names: Seq<Seq<char>>) -> Seq<Place>
    decreases dirs.len(),
{
    if dirs.len() == 0 {
        Seq::empty()
    } else {
        places(dirs.drop_last(), names) + places_in(dirs.last(), names)
    }
}

/// The places of the binaries `names` in the directories `dirs`.
pub fn slots_for(dirs: &Vec<String>, names: &Vec<String>) -> (slots: Vec<Slot>)
    ensures
        places_of(slots@) == places(views(dirs@), views(names@)),
{
    let mut slots: Vec<Slot> = Vec::new();
    let mut i: usize = 0;
    assert(views(dirs@).take(0) =~= Seq::<Seq<char>>::empty());
    assert(places_of(slots@) =~= Seq::<Place>::empty());
    while i < dirs.len()
        invariant
            i <= dirs.len(),
            places_of(slots@) == places(views(dirs@).take(i as int), views(names@)),
        decreases dirs.len() - i,
    {
        let ghost before = places_of(slots@);
        let ghost done = views(dirs@).take(i as int);
        let ghost grown = views(dirs@).take(i + 1);
        proof {
            assert(grown.drop_last() =~= done);
            assert(grown.last() == dirs@[i as int]@);
        }
        let mut j: usize = 0;
        assert(places_of(slots@) =~= before + places_in(
            dirs@[i as int]@,
            views(names@).take(0),
        ));
        while j < names.len()
            invariant
                i < dirs.len(),
                j <= names.len(),
                places_of(slots@) == before + places_in(dirs@[i as int]@, views(names@).take(
                    j as int,
                )),
            decreases names.len() - j,
        {
            let ghost filled = places_of(slots@);
            let slot = Slot { dir: dirs[i].clone(), name: names[j].clone() };
            slots.push(slot);
            proof {
                let dir = dirs@[i as int]@;
                let place = Place { dir, name: names@[j as int]@ };
                assert(places_of(slots@) =~= filled.push(place));
                assert(places_in(dir, views(names@).take(j + 1)) =~= places_in(
                    dir,
                    views(names@).take(j as int),
                ).push(place));
                assert(places_of(slots@) =~= before + places_in(dir, views(names@).take(j + 1)));
            }
            j += 1;
        }
        assert(views(names@).take(names.len() as int) =~= views(names@));
        i += 1;
    }
    assert(views(dirs@).take(dirs.len() as int) =~= views(dirs@));
    slots
}

/// A rollback under way.
pub struct Rollback {
    tool: String,
    slots: Vec<Slot>,
    sep: char,
    next: usize,
    item: Restore,
    restored: Vec<String>,
}

/// A rollback as a value of the model.
pub ghost struct RollbackState {
    /// The tool that is rolled back.
    pub tool: Seq<char>,
    /// Every place where a binary of the tool may lie.
    pub places: Seq<Place>,
    /// The separator that joins a directory and a file name.
    pub sep: char,
    /// The index of the place that is being restored.
    pub next: int,
    /// The restoring of that place.
    pub item: RestoreState,
    /// What was restored so far.
    pub restored: Seq<Seq<char>>,
}

impl View for Rollback {
    type V = RollbackState;

    closed spec fn view(&self) -> RollbackState {
        RollbackState {
            tool: self.tool@,
            places: places_of(self.slots@),
            sep: self.sep,
            next: self.next as int,
            item: self.item@,
            restored: views(self.restored@),
        }
    }
}

impl View for Step<Rollback, Vec<String>> {
    type V = Turn<RollbackState, Seq<Seq<char>>>;

    open spec fn view(&self) -> Turn<RollbackState, Seq<Seq<char>>> {
        match self {
            Step::Ask(m, request) => Turn::Ask(m@, request@),
            Step::Finished(Ok(restored)) => Turn::Finished(Ok(views(restored@))),
            Step::Finished(Err(e)) => Turn::Finished(Err(e@)),
        }
    }
}

/// How a restored binary is listed: its name, then its directory in brackets.
pub open spec fn restored_entry(place: Place) -> Seq<char> {
    place.name + " ("@ + place.dir + ")"@
}

/// The failure of a rollback that names an unknown tool.
pub open spec fn unknown_tool(tool: Seq<char>) -> Failure {
    Failure { kind: ErrorKind::UnknownTool, message: "Unknown tool: "@ + tool }
}

/// How a rollback ends once every place was visited: with the list of what
/// was restored, or with the failure that no backup was found.
pub open spec fn rollback_end(tool: Seq<char>, restored: Seq<Seq<char>>) -> Result<
    Seq<Seq<char>>,
    Failure,
> {
    if restored.len() == 0 {
        Err(Failure { kind: ErrorKind::NoBackupsFound, message: "No backups found for "@ + tool })
    } else {
        Ok(restored)
    }
}

/// How a rollback goes on at the place `next`: it begins to restore that
/// place, or ends if no place is left.
pub open spec fn rollback_at(
    tool: Seq<char>,
    places: Seq<Place>,
    sep: char,
    next: int,
    restored: Seq<Seq<char>>,
) -> Turn<RollbackState, Seq<Seq<char>>> {
    if 0 <= next < places.len() {
        let item = restore_start(places[next].dir, places[next].name, sep);
        Turn::Ask(RollbackState { tool, places, sep, next, item, restored }, restore_pending(item))
    } else {
        Turn::Finished(rollback_end(tool, restored))
    }
}

/// How the rollback of `tool` in the directories `dirs` begins.
pub open spec fn rollback_start(tools: Seq<Tool>, tool: Seq<char>, dirs: Seq<Seq<char>>, sep: char)
    -> Turn<RollbackState, Seq<Seq<char>>> {
    match binaries_of(tools, tool) {
        None => Turn::Finished(Err(unknown_tool(tool))),
        Some(names) => rollback_at(tool, places(dirs, names), sep, 0, Seq::empty()),
    }
}

/// How a rollback in state `s` goes on when its host answers `reply`.
pub open spec fn rollback_next(s: RollbackState, reply: Reply) -> Turn<
    RollbackState,
    Seq<Seq<char>>,
> {
    match restore_next(s.item, reply) {
        Turn::Ask(item, asked) => Turn::Ask(RollbackState { item, ..s }, asked),
        Turn::Finished(Err(failure)) => Turn::Finished(Err(failure)),
        Turn::Finished(Ok(restored)) => rollback_at(
            s.tool,
            s.places,
            s.sep,
            s.next + 1,
            if restored {
                s.restored.push(restored_entry(s.places[s.next]))
            } else {
                s.restored
            },
        ),
    }
}

/// The outcome of a rollback that is in state `s`, waits for the answer to
/// `request` on a host whose files are `files`, and is driven to its end by
/// the exchanges `rest`. `None` if the exchanges are not what a host may
/// answer, or end too early or too late.
pub open spec fn rollback_run(s: RollbackState, request: Request, files: Files, rest: Seq<Exchange>)
    -> Option<Outcome<Seq<Seq<char>>>>
    decreases rest.len(),
{
    if rest.len() == 0 || !performs(files, request, rest[0].reply, rest[0].files) {
        None
    } else {
        match rollback_next(s, rest[0].reply) {
            Turn::Ask(next, asked) => rollback_run(next, asked, rest[0].files, rest.drop_first()),
            Turn::Finished(result) => if rest.len() == 1 {
                Some(Outcome { result, files: rest[0].files })
            } else {
                None
            },
        }
    }
}

/// The outcome of a protocol whose first step is `first`, on a host whose
/// files are `files`, driven by the exchanges `run`.
pub open spec fn rollback_from(
    first: Turn<RollbackState, Seq<Seq<char>>>,
    files: Files,
    run: Seq<Exchange>,
) -> Option<Outcome<Seq<Seq<char>>>> {
    match first {
        Turn::Ask(s, request) => rollback_run(s, request, files, run),
        Turn::Finished(result) => if run.len() == 0 {
            Some(Outcome { result, files })
        } else {
            None
        },
    }
}

/// The outcome of rolling `tool` back in the directories `dirs`.
pub open spec fn rollback_outcome(
    tools: Seq<Tool>,
    tool: Seq<char>,
    dirs: Seq<Seq<char>>,
    sep: char,
    files: Files,
    run: Seq<Exchange>,
) -> Option<Outcome<Seq<Seq<char>>>> {
    rollback_from(rollback_start(tools, tool, dirs, sep), files, run)
}

/// Whether no place from `from` on has a backup.
pub open spec fn no_backup_from(places: Seq<Place>, sep: char, files: Files, from: int) -> bool {
    forall|k: int|
        from <= k < places.len() ==> !files.dom().contains(
            inside((#[trigger] places[k]).dir, places[k].name, sep) + backup_suffix(),
        )
}

/// A rollback that finds no backup from its place on changes nothing and
/// restores nothing more.
pub proof fn lemma_rollback_idle(
    tool: Seq<char>,
    places: Seq<Place>,
    sep: char,
    next: int,
    restored: Seq<Seq<char>>,
    files: Files,
    rest: Seq<Exchange>,
)
    requires
        0 <= next,
        no_backup_from(places, sep, files, next),
        rollback_from(rollback_at(tool, places, sep, next, restored), files, rest) is Some,
    ensures
        rollback_from(rollback_at(tool, places, sep, next, restored), files, rest)
            == Some(Outcome { result: rollback_end(tool, restored), files }),
    decreases rest.len(),
{
    if next < places.len() {
        let _ = places[next];
        let first = rollback_at(tool, places, sep, next, restored);
        let s = first->Ask_0;
        assert(rest[0].files == files);
        assert(rollback_next(s, rest[0].reply) == rollback_at(tool, places, sep, next + 1, restored));
        let tail = rest.drop_first();
        if next + 1 < places.len() {
            lemma_rollback_idle(tool, places, sep, next + 1, restored, files, tail);
        } else {
            assert(tail.len() == 0);
        }
    }
}

/// A rollback where no binary of the tool has a backup in any directory ends
/// with the failure that no backup was found, and changes no file.
pub proof fn law_rollback_without_backups(
    tools: Seq<Tool>,
    tool: Seq<char>,
    dirs: Seq<Seq<char>>,
    sep: char,
    files: Files,
    run: Seq<Exchange>,
)
    requires
        binaries_of(tools, tool) is Some,
        no_backup_from(places(dirs, binaries_of(tools, tool)->Some_0), sep, files, 0),
        rollback_outcome(tools, tool, dirs, sep, files, run) is Some,
    ensures
        failed_with(rollback_outcome(tools, tool, dirs, sep, files, run)->Some_0, ErrorKind::NoBackupsFound),
        rollback_outcome(tools, tool, dirs, sep, files, run)->Some_0.files == files,
{
    let names = binaries_of(tools, tool)->Some_0;
    lemma_rollback_idle(tool, places(dirs, names), sep, 0, Seq::empty(), files, run);
}

/// A rollback of an unknown tool fails at once and asks for nothing.
pub proof fn law_rollback_unknown_tool(
    tools: Seq<Tool>,
    tool: Seq<char>,
    dirs: Seq<Seq<char>>,
    sep: char,
)
    requires
        binaries_of(tools, tool) is None,
    ensures
        rollback_start(tools, tool, dirs, sep) == Turn::<RollbackState, Seq<Seq<char>>>::Finished(
            Err(unknown_tool(tool)),
        ),
{
}

/// Installing a new version over a live binary and then restoring the backup
/// brings back what was live before the installation. If nothing fails while
/// restoring, neither the staging file, nor the backup, nor the file that
/// was moved aside is left, and every other file is as it was.
pub proof fn law_rollback_undoes_install(
    dir: Seq<char>,
    name: Seq<char>,
    sep: char,
    staging: Seq<char>,
    files: Files,
    installing: Seq<Exchange>,
    restoring: Seq<Exchange>,
)
    requires
        is_plain_name(name),
        staging != inside(dir, name, sep),
        staging != inside(dir, name, sep) + backup_suffix(),
        staging != inside(dir, name, sep) + rollback_suffix(),
        files.dom().contains(inside(dir, name, sep)),
        install_outcome(inside(dir, name, sep), staging, files, installing) is Some,
        install_outcome(inside(dir, name, sep), staging, files, installing)->Some_0.result is Ok,
        restore_outcome(
            dir,
            name,
            sep,
            install_outcome(inside(dir, name, sep), staging, files, installing)->Some_0.files,
            restoring,
        ) is Some,
        restore_outcome(
            dir,
            name,
            sep,
            install_outcome(inside(dir, name, sep), staging, files, installing)->Some_0.files,
            restoring,
        )->Some_0.result is Ok,
    ensures
        ({
            let live = inside(dir, name, sep);
            let installed = install_outcome(live, staging, files, installing)->Some_0.files;
            let end = restore_outcome(dir, name, sep, installed, restoring)->Some_0;
            &&& end.result == Ok::<bool, Failure>(true)
            &&& end.files.dom().contains(live) && end.files[live] == files[live]
            &&& !end.files.dom().contains(staging)
            &&& !end.files.dom().contains(live + backup_suffix())
            &&& nothing_failed(restoring) ==> end.files == files.remove(staging).remove(
                live + backup_suffix(),
            ).remove(live + rollback_suffix())
        }),
{
    let live = inside(dir, name, sep);
    let backup = live + backup_suffix();
    let aside = live + rollback_suffix();
    crate::paths::lemma_companions_differ(live);
    crate::paths::lemma_plain_inside(dir, name, sep);
    crate::install::law_install_success(live, staging, files, installing);
    crate::install::law_install_outcomes(live, staging, files, installing);
    let installed = install_outcome(live, staging, files, installing)->Some_0.files;
    crate::restore::lemma_restore_run(restore_start(dir, name, sep), installed, restoring);
    let end = restore_outcome(dir, name, sep, installed, restoring)->Some_0;
    assert(end.result == Ok::<bool, Failure>(true));
    law_restore_success(dir, name, sep, installed, restoring);
    if nothing_failed(restoring) {
        assert(end.files =~= files.remove(staging).remove(backup).remove(aside));
    }
}

/// The line that reports what a rollback restored.
pub open spec fn rolled_back_text(restored: Seq<Seq<char>>) -> Seq<char> {
    "Rolled back: "@ + joined(restored, ", "@)
}

/// The line that reports what a rollback restored.
pub fn rolled_back_message(restored: &Vec<String>) -> (text: String)
    ensures
        text@ == rolled_back_text(views(restored@)),
{
    let list = join(restored, ", ");
    concat2("Rolled back: ", list.as_str())
}

impl Rollback {
    #[verifier::type_invariant]
    spec fn inv(self) -> bool {
        self.next < self.slots.len()
    }

    /// Goes on at the place `next`.
    fn at(tool: String, slots: Vec<Slot>, sep: char, next: usize, restored: Vec<String>) -> (step:
        Step<Rollback, Vec<String>>)
        ensures
            step@ == rollback_at(tool@, places_of(slots@), sep, next as int, views(restored@)),
    {
        if next < slots.len() {
            let (item, request) = Restore::begin(
                slots[next].dir.as_str(),
                slots[next].name.as_str(),
                sep,
            );
            Step::Ask(Rollback { tool, slots, sep, next, item, restored }, request)
        } else if restored.len() == 0 {
            let text = concat2("No backups found for ", tool.as_str());
            Step::Finished(Err(EngineError::new(ErrorKind::NoBackupsFound, text)))
        } else {
            Step::Finished(Ok(restored))
        }
    }

    /// Takes the host's answer to the request that this rollback waits on,
    /// and says what follows.
    pub fn step(self, reply: HostReply) -> (next: Step<Rollback, Vec<String>>)
        ensures
            next@ == rollback_next(self@, reply@),
    {
        proof {
            use_type_invariant(&self);
        }
        let Rollback { tool, slots, sep, next, item, restored } = self;
        match item.step(reply) {
            Step::Ask(item, request) => Step::Ask(
                Rollback { tool, slots, sep, next, item, restored },
                request,
            ),
            Step::Finished(Err(e)) => Step::Finished(Err(e)),
            Step::Finished(Ok(done)) => {
                let mut restored = restored;
                if done {
                    let ghost before = views(restored@);
                    let mut entry = slots[next].name.clone();
                    entry.append(" (");
                    entry.append(slots[next].dir.as_str());
                    entry.append(")");
                    restored.push(entry);
                    assert(views(restored@) =~= before.push(restored_entry(slots@[next as int]@)));
                }
                Rollback::at(tool, slots, sep, next + 1, restored)
            },
        }
    }
}

/// Begins the rollback of `tool`: in each of `dirs`, the backup of each of
/// its binaries is put back into place. It ends with the list of what was
/// restored, each entry the binary's name and its directory.
pub fn rollback_tool(table: &ToolTable, tool: &str, dirs: &Vec<String>, sep: char) -> (first: Step<
    Rollback,
    Vec<String>,
>)
    ensures
        first@ == rollback_start(table@, tool@, views(dirs@), sep),
{
    match table.binaries(tool) {
        None => {
            let text = concat2("Unknown tool: ", tool);
            Step::Finished(Err(EngineError::new(ErrorKind::UnknownTool, text)))
        },
        Some(names) => {
            let slots = slots_for(dirs, &names);
            let restored: Vec<String> = Vec::new();
            assert(views(restored@) =~= Seq::<Seq<char>>::empty());
            Rollback::at(String::from_str(tool), slots, sep, 0, restored)
        },
    }
}

} // verus!
