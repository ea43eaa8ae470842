//! Deleting every backup of every tool, and finding the directories in which
//! backups may lie.

use vstd::prelude::*;
use vstd::string::StringExecFns;
use crate::backups::{backups_among, backups_in, empty_report, reported, CleanupReport, Report};
use crate::catalog::{Tool, ToolTable};
use crate::files::{found, HostReply, HostRequest, Reply, Request};
use crate::paths::{directory_of, inside, join_path, parent_dir};
use crate::protocol::{Step, Turn};
use crate::text::{append_numeral, numeral, views};

verus! {

/// The purge of all backups, under way.
pub struct Purge<'a> {
    table: &'a ToolTable,
    dirs: Vec<String>,
    sep: char,
    next: usize,
    listing: bool,
    pending: Vec<String>,
    pos: usize,
    report: CleanupReport,
}

/// The purge of all backups as a value of the model.
pub ghost struct PurgeState {
    pub tools: Seq<Tool>,
    /// The directories to purge.
    pub dirs: Seq<Seq<char>>,
    pub sep: char,
    /// The index of the directory that is being purged.
    pub next: int,
    /// Whether the entries of that directory were asked for; otherwise one
    /// of its backups is being deleted.
    pub listing: bool,
    /// The backups found in that directory.
    pub pending: Seq<Seq<char>>,
    /// The index of the backup that is being deleted.
    pub pos: int,
    pub report: Report,
}

impl<'a> View for Purge<'a> {
    type V = PurgeState;

    closed spec fn view(&self) -> PurgeState {
        PurgeState {
            tools: self.table@,
            dirs: views(self.dirs@),
            sep: self.sep,
            next: self.next as int,
            listing: self.listing,
            pending: views(self.pending@),
            pos: self.pos as int,
            report: self.report@,
        }
    }
}

impl<'a> View for Step<Purge<'a>, CleanupReport> {
    type V = Turn<PurgeState, Report>;

    open spec fn view(&self) -> Turn<PurgeState, Report> {
        match self {
            Step::Ask(m, request) => Turn::Ask(m@, request@),
            Step::Finished(Ok(report)) => Turn::Finished(Ok(report@)),
            Step::Finished(Err(e)) => Turn::Finished(Err(e@)),
        }
    }
}

/// How a purge goes on at the directory `next`: it asks for its entries, or
/// ends with its report if no directory is left.
pub open spec fn purge_at(
    tools: Seq<Tool>,
    dirs: Seq<Seq<char>>,
    sep: char,
    next: int,
    report: Report,
) -> Turn<PurgeState, Report> {
    if 0 <= next < dirs.len() {
        Turn::Ask(
            PurgeState {
                tools,
                dirs,
                sep,
                next,
                listing: true,
                pending: Seq::empty(),
                pos: 0,
                report,
            },
            Request::List { dir: dirs[next] },
        )
    } else {
        Turn::Finished(Ok(report))
    }
}

/// How a purge goes on within the directory `s.next` at the backup `pos`: it
/// asks to delete it, or turns to the next directory if none is left.
pub open spec fn purge_in(s: PurgeState, pending: Seq<Seq<char>>, pos: int, report: Report) -> Turn<
    PurgeState,
    Report,
> {
    if 0 <= pos < pending.len() {
        Turn::Ask(
            PurgeState { listing: false, pending, pos, report, ..s },
            Request::Remove { path: inside(s.dirs[s.next], pending[pos], s.sep) },
        )
    } else {
        purge_at(s.tools, s.dirs, s.sep, s.next + 1, report)
    }
}

/// How a purge in state `s` goes on when its host answers `reply`. A
/// directory that cannot be read is passed over; a backup that cannot be
/// deleted is reported and passed over.
pub open spec fn purge_next(s: PurgeState, reply: Reply) -> Turn<PurgeState, Report> {
    if s.listing {
        match reply {
            Reply::Names(entries) => purge_in(s, backups_among(s.tools, entries), 0, s.report),
            _ => purge_at(s.tools, s.dirs, s.sep, s.next + 1, s.report),
        }
    } else {
        purge_in(s, s.pending, s.pos + 1, reported(s.report, s.pending[s.pos], reply))
    }
}

impl<'a> Purge<'a> {
    #[verifier::type_invariant]
    spec fn inv(self) -> bool {
        &&& self.next < self.dirs.len()
        &&& !self.listing ==> self.pos < self.pending.len()
    }

    fn at(table: &'a ToolTable, dirs: Vec<String>, sep: char, next: usize, report: CleanupReport)
        -> (step: Step<Purge<'a>, CleanupReport>)
        ensures
            step@ == purge_at(table@, views(dirs@), sep, next as int, report@),
    {
        if next < dirs.len() {
            let request = HostRequest::List { dir: dirs[next].clone() };
            let pending: Vec<String> = Vec::new();
            assert(views(pending@) =~= Seq::<Seq<char>>::empty());
            Step::Ask(
                Purge { table, dirs, sep, next, listing: true, pending, pos: 0, report },
                request,
            )
        } else {
            Step::Finished(Ok(report))
        }
    }

    fn within(
        table: &'a ToolTable,
        dirs: Vec<String>,
        sep: char,
        next: usize,
        pending: Vec<String>,
        pos: usize,
        report: CleanupReport,
        Ghost(s): Ghost<PurgeState>,
    ) -> (step: Step<Purge<'a>, CleanupReport>)
        requires
            next < dirs.len(),
            s.tools == table@,
            s.dirs == views(dirs@),
            s.sep == sep,
            s.next == next,
        ensures
            step@ == purge_in(s, views(pending@), pos as int, report@),
    {
        if pos < pending.len() {
            let path = join_path(dirs[next].as_str(), pending[pos].as_str(), sep);
            let request = HostRequest::Remove { path };
            Step::Ask(
                Purge { table, dirs, sep, next, listing: false, pending, pos, report },
                request,
            )
        } else {
            Purge::at(table, dirs, sep, next + 1, report)
        }
    }

    /// Takes the host's answer to the request that this purge waits on, and
    /// says what follows.
    pub fn step(self, reply: HostReply) -> (next: Step<Purge<'a>, CleanupReport>)
        ensures
            next@ == purge_next(self@, reply@),
    {
        proof {
            use_type_invariant(&self);
        }
        let ghost s = self@;
        let Purge { table, dirs, sep, next, listing, pending, pos, report } = self;
        if listing {
            match reply {
                HostReply::Names(entries) => {
                    let found = backups_in(table, &entries);
                    Purge::within(table, dirs, sep, next, found, 0, report, Ghost(s))
                },
                _ => Purge::at(table, dirs, sep, next + 1, report),
            }
        } else {
            let report = report.record(pending[pos].clone(), reply);
            Purge::within(table, dirs, sep, next, pending, pos + 1, report, Ghost(s))
        }
    }
}

/// Begins the purge of all backups: in each of `dirs`, every entry that is
/// the backup of a binary of some tool is deleted. The purge goes on past a
/// backup that cannot be deleted and reports it.
pub fn cleanup_all_backups<'a>(table: &'a ToolTable, dirs: Vec<String>, sep: char) -> (first: Step<
    Purge<'a>,
    CleanupReport,
>)
    ensures
        first@ == purge_at(table@, views(dirs@), sep, 0, empty_report()),
{
    Purge::at(table, dirs, sep, 0, CleanupReport::empty())
}

/// The line that reports how many backups a purge deleted.
pub open spec fn removed_text(count: nat) -> Seq<char> {
    "Removed "@ + numeral(count) + " backup file(s)"@
}

/// The line that reports how many backups a purge deleted.
pub fn removed_message(report: &CleanupReport) -> (text: String)
    ensures
        text@ == removed_text(report@.removed.len()),
{
    let mut text = String::from_str("Removed ");
    append_numeral(&mut text, report.count() as u64);
    text.append(" backup file(s)");
    text
}

/// The search for the directories in which backups may lie, under way.
pub struct CollectDirs {
    candidates: Vec<String>,
    next: usize,
    dirs: Vec<String>,
}

/// The search as a value of the model.
pub ghost struct CollectState {
    /// The directories to try, in order.
    pub candidates: Seq<Seq<char>>,
    /// The index of the candidate that was asked about.
    pub next: int,
    /// The directories taken so far.
    pub dirs: Seq<Seq<char>>,
}

impl View for CollectDirs {
    type V = CollectState;

    closed spec fn view(&self) -> CollectState {
        CollectState {
            candidates: views(self.candidates@),
            next: self.next as int,
            dirs: views(self.dirs@),
        }
    }
}

impl View for Step<CollectDirs, Vec<String>> {
    type V = Turn<CollectState, Seq<Seq<char>>>;

    open spec fn view(&self) -> Turn<CollectState, Seq<Seq<char>>> {
        match self {
            Step::Ask(m, request) => Turn::Ask(m@, request@),
            Step::Finished(Ok(dirs)) => Turn::Finished(Ok(views(dirs@))),
            Step::Finished(Err(e)) => Turn::Finished(Err(e@)),
        }
    }
}

/// The directories to try: the application's own directory of binaries, if
/// it is known, then the directory of each of `extra_paths`.
pub open spec fn candidate_dirs(own: Option<Seq<char>>, extra_paths: Seq<Seq<char>>) -> Seq<
    Seq<char>,
> {
    let parents = Seq::new(extra_paths.len(), |i: int| directory_of(extra_paths[i]));
    match own {
        Some(dir) => seq![dir] + parents,
        None => parents,
    }
}

/// How a search goes on at the candidate `next`: candidates that were taken
/// already are passed over; the host is asked whether the first other one
/// exists; the search ends with the directories taken if no candidate is left.
pub open spec fn collect_at(candidates: Seq<Seq<char>>, next: int, dirs: Seq<Seq<char>>) -> Turn<
    CollectState,
    Seq<Seq<char>>,
>
    decreases candidates.len() - next,
{
    if 0 <= next < candidates.len() {
        if dirs.contains(candidates[next]) {
            collect_at(candidates, next + 1, dirs)
        } else {
            Turn::Ask(
                CollectState { candidates, next, dirs },
                Request::DirExists { path: candidates[next] },
            )
        }
    } else {
        Turn::Finished(Ok(dirs))
    }
}

/// How a search in state `s` goes on when its host answers `reply`: a
/// directory that exists is taken.
pub open spec fn collect_next(s: CollectState, reply: Reply) -> Turn<CollectState, Seq<Seq<char>>> {
    collect_at(
        s.candidates,
        s.next + 1,
        if found(reply) {
            s.dirs.push(s.candidates[s.next])
        } else {
            s.dirs
        },
    )
}

/// Whether `dir` is one of `dirs`.
fn is_taken(dirs: &Vec<String>, dir: &String) -> (r: bool)
    ensures
        r == views(dirs@).contains(dir@),
{
    let mut i: usize = 0;
    while i < dirs.len()
        invariant
            i <= dirs.len(),
            forall|k: int| 0 <= k < i ==> views(dirs@)[k] != dir@,
        decreases dirs.len() - i,
    {
        if dirs[i] == *dir {
            assert(views(dirs@)[i as int] == dir@);
            return true;
        }
        i += 1;
    }
    false
}

impl CollectDirs {
    #[verifier::type_invariant]
    spec fn inv(self) -> bool {
        self.next < self.candidates.len()
    }

    fn at(candidates: Vec<String>, next: usize, dirs: Vec<String>) -> (step: Step<
        CollectDirs,
        Vec<String>,
    >)
        ensures
            step@ == collect_at(views(candidates@), next as int, views(dirs@)),
    {
        let ghost start = next;
        let mut next = next;
        while next < candidates.len() && is_taken(&dirs, &candidates[next])
            invariant
                collect_at(views(candidates@), next as int, views(dirs@)) == collect_at(
                    views(candidates@),
                    start as int,
                    views(dirs@),
                ),
            decreases candidates.len() - next,
        {
            next += 1;
        }
        if next < candidates.len() {
            let request = HostRequest::DirExists { path: candidates[next].clone() };
            Step::Ask(CollectDirs { candidates, next, dirs }, request)
        } else {
            Step::Finished(Ok(dirs))
        }
    }

    /// Takes the host's answer to the request that this search waits on, and
    /// says what follows.
    pub fn step(self, reply: HostReply) -> (next: Step<CollectDirs, Vec<String>>)
        ensures
            next@ == collect_next(self@, reply@),
    {
        proof {
            use_type_invariant(&self);
        }
        let CollectDirs { candidates, next, dirs } = self;
        let mut dirs = dirs;
        if reply.is_found() {
            let ghost before = views(dirs@);
            dirs.push(candidates[next].clone());
            assert(views(dirs@) =~= before.push(candidates@[next as int]@));
        }
        CollectDirs::at(candidates, next + 1, dirs)
    }
}

/// Begins the search for the directories in which backups may lie: the
/// application's own directory of binaries `own`, then the directory of each
/// of `extra_paths`; each is taken once, and only if it exists.
pub fn collect_backup_dirs(own: Option<String>, extra_paths: &Vec<String>) -> (first: Step<
    CollectDirs,
    Vec<String>,
>)
    ensures
        first@ == collect_at(
            candidate_dirs(
                match own {
                    Some(dir) => Some(dir@),
                    None => None,
                },
                views(extra_paths@),
            ),
            0,
            Seq::empty(),
        ),
{
    let mut candidates: Vec<String> = Vec::new();
    let ghost head: Seq<Seq<char>> = if own is Some {
        seq![own->Some_0@]
    } else {
        Seq::empty()
    };
    let ghost wanted = candidate_dirs(
        if own is Some {
            Some(own->Some_0@)
        } else {
            None
        },
        views(extra_paths@),
    );
    match own {
        Some(dir) => {
            candidates.push(dir);
        },
        None => {},
    }
    assert(views(candidates@) =~= head);
    let mut i: usize = 0;
    while i < extra_paths.len()
        invariant
            i <= extra_paths.len(),
            views(candidates@) == head + Seq::new(
                i as nat,
                |k: int| directory_of(extra_paths@[k]@),
            ),
        decreases extra_paths.len() - i,
    {
        let ghost before = views(candidates@);
        let parent = parent_dir(extra_paths[i].as_str());
        candidates.push(parent);
        assert(views(candidates@) =~= before.push(directory_of(extra_paths@[i as int]@)));
        assert(views(candidates@) =~= head + Seq::new(
            (i + 1) as nat,
            |k: int| directory_of(extra_paths@[k]@),
        ));
        i += 1;
    }
    let dirs: Vec<String> = Vec::new();
    assert(views(dirs@) =~= Seq::<Seq<char>>::empty());
    assert(views(candidates@) =~= wanted);
    CollectDirs::at(candidates, 0, dirs)
}

} // verus!
