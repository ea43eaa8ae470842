//! Updating one tool where it lies, or fetching a choice of tools into the
//! application's own directory: the directory is looked for first, then the
//! tools are updated one after the other. The first failure ends the
//! session.

use vstd::prelude::*;
use vstd::string::StringExecFns;
use crate::errors::{EngineError, ErrorKind, Failure};
use crate::files::{failure_of, found, HostReply, HostRequest, Reply, Request};
use crate::plan::{plan_for, update_plan, Plan, UpdatePlan};
use crate::protocol::{Step, Turn};
use crate::text::{concat2, concat3, same_text, views};
use crate::update::{
    update_next, update_start, Task, Update, UpdateReport, UpdateState, Updated,
};

verus! {

/// What a session is doing.
pub enum SessionStage {
    /// Asked whether the directory exists.
    Probing,
    /// Asked to create the directory.
    Creating,
    /// A tool is being updated.
    Running(Update),
}

/// A stage as a value of the model.
pub ghost enum SessionPoint {
    Probing,
    Creating,
    Running(UpdateState),
}

impl View for SessionStage {
    type V = SessionPoint;

    open spec fn view(&self) -> SessionPoint {
        match self {
            SessionStage::Probing => SessionPoint::Probing,
            SessionStage::Creating => SessionPoint::Creating,
            SessionStage::Running(update) => SessionPoint::Running(update@),
        }
    }
}

/// A session under way.
pub struct Session {
    dir: String,
    sep: char,
    create: bool,
    refused: Option<EngineError>,
    queue: Vec<UpdatePlan>,
    next: usize,
    reports: Vec<UpdateReport>,
    stage: SessionStage,
}

/// What a session works on; it stays the same from its beginning to its end.
pub ghost struct Agenda {
    /// The install directory.
    pub dir: Seq<char>,
    /// The separator that joins a directory and a file name.
    pub sep: char,
    /// Whether the directory is created if it does not exist.
    pub create: bool,
    /// The failure to end with once the directory is there, if the request
    /// cannot be met.
    pub refused: Option<Failure>,
    /// The plans of the tools to update, in order.
    pub queue: Seq<Plan>,
}

/// A session as a value of the model.
pub ghost struct SessionState {
    pub agenda: Agenda,
    /// The index of the plan that is being carried out.
    pub next: int,
    /// The reports of the updates that are done.
    pub reports: Seq<Updated>,
    pub stage: SessionPoint,
}

/// The plans of `queue` as values of the model.
pub open spec fn plans_of(queue: Seq<UpdatePlan>) -> Seq<Plan> {
    Seq::new(queue.len(), |i: int| queue[i]@)
}

/// The reports `reports` as values of the model.
pub open spec fn reports_of(reports: Seq<UpdateReport>) -> Seq<Updated> {
    Seq::new(reports.len(), |i: int| reports[i]@)
}

impl View for Session {
    type V = SessionState;

    closed spec fn view(&self) -> SessionState {
        SessionState {
            agenda: Agenda {
                dir: self.dir@,
                sep: self.sep,
                create: self.create,
                refused: match self.refused {
                    Some(e) => Some(e@),
                    None => None,
                },
                queue: plans_of(self.queue@),
            },
            next: self.next as int,
            reports: reports_of(self.reports@),
            stage: self.stage@,
        }
    }
}

impl View for Step<Session, Vec<UpdateReport>> {
    type V = Turn<SessionState, Seq<Updated>>;

    open spec fn view(&self) -> Turn<SessionState, Seq<Updated>> {
        match self {
            Step::Ask(m, request) => Turn::Ask(m@, request@),
            Step::Finished(Ok(reports)) => Turn::Finished(Ok(reports_of(reports@))),
            Step::Finished(Err(e)) => Turn::Finished(Err(e@)),
        }
    }
}

/// The text for a directory that does not exist.
pub open spec fn missing_directory_text(dir: Seq<char>) -> Seq<char> {
    "Directory does not exist: "@ + dir
}

/// How a session goes on at the plan `next`: plans whose update ends at once
/// are passed; the session ends with the reports if no plan is left.
pub open spec fn session_at(agenda: Agenda, next: int, reports: Seq<Updated>) -> Turn<
    SessionState,
    Seq<Updated>,
>
    decreases agenda.queue.len() - next,
{
    if 0 <= next < agenda.queue.len() {
        match update_start(Task { plan: agenda.queue[next], dir: agenda.dir, sep: agenda.sep }) {
            Turn::Ask(update, asked) => Turn::Ask(
                SessionState { agenda, next, reports, stage: SessionPoint::Running(update) },
                asked,
            ),
            Turn::Finished(Err(failure)) => Turn::Finished(Err(failure)),
            Turn::Finished(Ok(report)) => session_at(agenda, next + 1, reports.push(report)),
        }
    } else {
        Turn::Finished(Ok(reports))
    }
}

/// How a session goes on once the directory is there.
pub open spec fn session_ready(agenda: Agenda) -> Turn<SessionState, Seq<Updated>> {
    match agenda.refused {
        Some(failure) => Turn::Finished(Err(failure)),
        None => session_at(agenda, 0, Seq::empty()),
    }
}

/// How a session begins: with the question whether the directory exists.
pub open spec fn session_start(agenda: Agenda) -> Turn<SessionState, Seq<Updated>> {
    Turn::Ask(
        SessionState { agenda, next: 0, reports: Seq::empty(), stage: SessionPoint::Probing },
        Request::DirExists { path: agenda.dir },
    )
}

/// How a session in state `s` goes on when its host answers `reply`.
pub open spec fn session_next(s: SessionState, reply: Reply) -> Turn<SessionState, Seq<Updated>> {
    match s.stage {
        SessionPoint::Probing => if found(reply) {
            session_ready(s.agenda)
        } else if s.agenda.create {
            Turn::Ask(
                SessionState { stage: SessionPoint::Creating, ..s },
                Request::CreateDir { path: s.agenda.dir },
            )
        } else {
            Turn::Finished(
                Err(
                    Failure {
                        kind: ErrorKind::MissingDirectory,
                        message: missing_directory_text(s.agenda.dir),
                    },
                ),
            )
        },
        SessionPoint::Creating => match failure_of(reply) {
            None => session_ready(s.agenda),
            Some(why) => Turn::Finished(
                Err(Failure { kind: ErrorKind::MissingDirectory, message: why }),
            ),
        },
        SessionPoint::Running(update) => match update_next(update, reply) {
            Turn::Ask(then, asked) => Turn::Ask(
                SessionState { stage: SessionPoint::Running(then), ..s },
                asked,
            ),
            Turn::Finished(Err(failure)) => Turn::Finished(Err(failure)),
            Turn::Finished(Ok(report)) => session_at(s.agenda, s.next + 1, s.reports.push(report)),
        },
    }
}

/// A copy of `plan`.
pub fn copy_plan(plan: &UpdatePlan) -> (copy: UpdatePlan)
    ensures
        copy@ == plan@,
{
    UpdatePlan {
        tool: plan.tool.clone(),
        address: match &plan.address {
            Some(address) => Some(address.clone()),
            None => None,
        },
        file: plan.file.clone(),
        archive: plan.archive,
        targets: crate::catalog::clone_names(&plan.targets),
        announce: plan.announce.clone(),
    }
}

impl Session {
    #[verifier::type_invariant]
    spec fn inv(self) -> bool {
        self.stage is Running ==> self.next < self.queue.len()
    }

    /// The agenda of a session.
    closed spec fn agenda_of(
        dir: String,
        sep: char,
        create: bool,
        refused: Option<EngineError>,
        queue: Vec<UpdatePlan>,
    ) -> Agenda {
        Agenda {
            dir: dir@,
            sep,
            create,
            refused: match refused {
                Some(e) => Some(e@),
                None => None,
            },
            queue: plans_of(queue@),
        }
    }

    /// Goes on at the plan `next`.
    #[verifier::loop_isolation(false)]
    fn at(
        dir: String,
        sep: char,
        create: bool,
        refused: Option<EngineError>,
        queue: Vec<UpdatePlan>,
        next: usize,
        reports: Vec<UpdateReport>,
    ) -> (step: Step<Session, Vec<UpdateReport>>)
        ensures
            step@ == session_at(
                Session::agenda_of(dir, sep, create, refused, queue),
                next as int,
                reports_of(reports@),
            ),
    {
        let ghost agenda = Session::agenda_of(dir, sep, create, refused, queue);
        let ghost goal = session_at(agenda, next as int, reports_of(reports@));
        let mut at = next;
        let mut done = reports;
        while at < queue.len()
            invariant
                session_at(agenda, at as int, reports_of(done@)) == goal,
            decreases queue.len() - at,
        {
            let plan = copy_plan(&queue[at]);
            match Update::begin(plan, dir.clone(), sep) {
                Step::Ask(update, asked) => {
                    return Step::Ask(
                        Session {
                            dir,
                            sep,
                            create,
                            refused,
                            queue,
                            next: at,
                            reports: done,
                            stage: SessionStage::Running(update),
                        },
                        asked,
                    );
                },
                Step::Finished(Err(e)) => {
                    return Step::Finished(Err(e));
                },
                Step::Finished(Ok(report)) => {
                    let ghost before = reports_of(done@);
                    done.push(report);
                    assert(reports_of(done@) =~= before.push(report@));
                },
            }
            at += 1;
        }
        Step::Finished(Ok(done))
    }

    /// Goes on once the directory is there.
    fn ready(
        dir: String,
        sep: char,
        create: bool,
        refused: Option<EngineError>,
        queue: Vec<UpdatePlan>,
    ) -> (step: Step<Session, Vec<UpdateReport>>)
        ensures
            step@ == session_ready(Session::agenda_of(dir, sep, create, refused, queue)),
    {
        match refused {
            Some(e) => Step::Finished(Err(e)),
            None => {
                let reports: Vec<UpdateReport> = Vec::new();
                assert(reports_of(reports@) =~= Seq::<Updated>::empty());
                Session::at(dir, sep, create, None, queue, 0, reports)
            },
        }
    }

    /// Begins a session in the directory `dir`.
    fn begin(
        dir: String,
        sep: char,
        create: bool,
        refused: Option<EngineError>,
        queue: Vec<UpdatePlan>,
    ) -> (first: Step<Session, Vec<UpdateReport>>)
        ensures
            first@ == session_start(Session::agenda_of(dir, sep, create, refused, queue)),
    {
        let request = HostRequest::DirExists { path: dir.clone() };
        let reports: Vec<UpdateReport> = Vec::new();
        assert(reports_of(reports@) =~= Seq::<Updated>::empty());
        Step::Ask(
            Session {
                dir,
                sep,
                create,
                refused,
                queue,
                next: 0,
                reports,
                stage: SessionStage::Probing,
            },
            request,
        )
    }

    /// Takes the host's answer to the request that this session waits on,
    /// and says what follows.
    pub fn step(self, reply: HostReply) -> (next: Step<Session, Vec<UpdateReport>>)
        ensures
            next@ == session_next(self@, reply@),
    {
        proof {
            use_type_invariant(&self);
        }
        let Session { dir, sep, create, refused, queue, next, reports, stage } = self;
        match stage {
            SessionStage::Probing => {
                if reply.is_found() {
                    Session::ready(dir, sep, create, refused, queue)
                } else if create {
                    let request = HostRequest::CreateDir { path: dir.clone() };
                    Step::Ask(
                        Session {
                            dir,
                            sep,
                            create,
                            refused,
                            queue,
                            next,
                            reports,
                            stage: SessionStage::Creating,
                        },
                        request,
                    )
                } else {
                    let text = concat2("Directory does not exist: ", dir.as_str());
                    Step::Finished(Err(EngineError::new(ErrorKind::MissingDirectory, text)))
                }
            },
            SessionStage::Creating => match reply.failure() {
                None => Session::ready(dir, sep, create, refused, queue),
                Some(why) => Step::Finished(
                    Err(EngineError::new(ErrorKind::MissingDirectory, why)),
                ),
            },
            SessionStage::Running(update) => match update.step(reply) {
                Step::Ask(then, asked) => Step::Ask(
                    Session {
                        dir,
                        sep,
                        create,
                        refused,
                        queue,
                        next,
                        reports,
                        stage: SessionStage::Running(then),
                    },
                    asked,
                ),
                Step::Finished(Err(e)) => Step::Finished(Err(e)),
                Step::Finished(Ok(report)) => {
                    let ghost before = reports_of(reports@);
                    let mut reports = reports;
                    reports.push(report);
                    assert(reports_of(reports@) =~= before.push(report@));
                    Session::at(dir, sep, create, refused, queue, next + 1, reports)
                },
            },
        }
    }
}

/// The channel that is meant where none is named.
pub open spec fn channel_or_stable(channel: Option<Seq<char>>) -> Seq<char> {
    match channel {
        Some(name) => name,
        None => "stable"@,
    }
}

/// The agenda of the update of `tool` in the directory `dest_dir` where it
/// lies: the directory must exist, and the tool must be a known one.
pub open spec fn at_path_agenda(
    tool: Seq<char>,
    dest_dir: Seq<char>,
    variant: Option<Seq<char>>,
    channel: Option<Seq<char>>,
    sep: char,
) -> Agenda {
    let plan = plan_for(
        tool,
        channel_or_stable(channel) == "nightly"@,
        match variant {
            Some(name) => name,
            None => Seq::empty(),
        },
        true,
    );
    Agenda {
        dir: dest_dir,
        sep,
        create: false,
        refused: match plan {
            Some(_) => None,
            None => Some(crate::rollback::unknown_tool(tool)),
        },
        queue: match plan {
            Some(p) => seq![p],
            None => Seq::empty(),
        },
    }
}

/// Begins the update of `tool` in the directory `dest_dir` where it lies.
/// `variant` chooses the build, for a tool that has several; `channel` is
/// `stable`, which it is if none is named, or `nightly`.
pub fn update_tool_at_path(
    tool: &str,
    dest_dir: &str,
    variant: Option<&str>,
    channel: Option<&str>,
    sep: char,
) -> (first: Step<Session, Vec<UpdateReport>>)
    ensures
        first@ == session_start(
            at_path_agenda(
                tool@,
                dest_dir@,
                match variant {
                    Some(name) => Some(name@),
                    None => None,
                },
                match channel {
                    Some(name) => Some(name@),
                    None => None,
                },
                sep,
            ),
        ),
{
    let nightly = match channel {
        Some(name) => same_text(name, "nightly"),
        None => {
            proof {
                reveal_strlit("stable");
                reveal_strlit("nightly");
                assert("stable"@.len() != "nightly"@.len());
            }
            false
        },
    };
    let none = String::new();
    let wanted: &str = match variant {
        Some(name) => name,
        None => none.as_str(),
    };
    assert(none@ =~= Seq::<char>::empty());
    let mut queue: Vec<UpdatePlan> = Vec::new();
    let refused = match update_plan(tool, nightly, wanted, true) {
        Some(plan) => {
            queue.push(plan);
            assert(plans_of(queue@) =~= seq![plan@]);
            None
        },
        None => {
            assert(plans_of(queue@) =~= Seq::<Plan>::empty());
            Some(EngineError::new(ErrorKind::UnknownTool, concat2("Unknown tool: ", tool)))
        },
    };
    Session::begin(String::from_str(dest_dir), sep, false, refused, queue)
}

/// The line that reports the update of `tool` in `dest_dir`.
pub open spec fn updated_text(tool: Seq<char>, dest_dir: Seq<char>) -> Seq<char> {
    tool + " updated at "@ + dest_dir
}

/// The line that reports the update of `tool` in `dest_dir`.
pub fn updated_message(tool: &str, dest_dir: &str) -> (text: String)
    ensures
        text@ == updated_text(tool@, dest_dir@),
{
    concat3(tool, " updated at ", dest_dir)
}

/// The channel chosen for a tool.
#[derive(Debug)]
pub struct ChannelChoice {
    pub tool: String,
    pub channel: String,
}

/// A choice as a value of the model.
pub ghost struct Choice {
    pub tool: Seq<char>,
    pub channel: Seq<char>,
}

impl View for ChannelChoice {
    type V = Choice;

    open spec fn view(&self) -> Choice {
        Choice { tool: self.tool@, channel: self.channel@ }
    }
}

/// The choices `choices` as values of the model.
pub open spec fn choices_of(choices: Seq<ChannelChoice>) -> Seq<Choice> {
    Seq::new(choices.len(), |i: int| choices[i]@)
}

/// Whether the nightly channel is chosen for the tool `id`: the first choice
/// made for the tool names it.
pub open spec fn nightly_chosen(choices: Seq<Choice>, id: Seq<char>) -> bool
    decreases choices.len(),
{
    if choices.len() == 0 {
        false
    } else if choices[0].tool == id {
        choices[0].channel == "nightly"@
    } else {
        nightly_chosen(choices.drop_first(), id)
    }
}

/// The plan for the tool `id` if it is one of `tools`, else nothing.
pub open spec fn selected(tools: Seq<Seq<char>>, choices: Seq<Choice>, id: Seq<char>) -> Seq<Plan> {
    if tools.contains(id) {
        match plan_for(id, nightly_chosen(choices, id), Seq::empty(), false) {
            Some(plan) => seq![plan],
            None => Seq::empty(),
        }
    } else {
        Seq::empty()
    }
}

/// The plans for those of the known tools that are among `tools`, in the
/// order in which they are fetched; other names are passed over.
pub open spec fn bundle_queue(tools: Seq<Seq<char>>, choices: Seq<Choice>) -> Seq<Plan> {
    selected(tools, choices, "yt-dlp"@) + selected(tools, choices, "ffmpeg"@) + selected(
        tools,
        choices,
        "aria2"@,
    ) + selected(tools, choices, "deno"@)
}

/// The agenda of fetching `tools` into the directory `bin_dir`, which is
/// created if it does not exist.
pub open spec fn bundle_agenda(
    tools: Seq<Seq<char>>,
    choices: Seq<Choice>,
    bin_dir: Seq<char>,
    sep: char,
) -> Agenda {
    Agenda { dir: bin_dir, sep, create: true, refused: None, queue: bundle_queue(tools, choices) }
}

/// Whether `id` is one of `names`.
fn is_listed(names: &Vec<String>, id: &str) -> (r: bool)
    ensures
        r == views(names@).contains(id@),
{
    let mut i: usize = 0;
    while i < names.len()
        invariant
            i <= names.len(),
            forall|k: int| 0 <= k < i ==> views(names@)[k] != id@,
        decreases names.len() - i,
    {
        if same_text(names[i].as_str(), id) {
            assert(views(names@)[i as int] == id@);
            return true;
        }
        i += 1;
    }
    false
}

/// Whether the nightly channel is chosen for the tool `id`.
#[verifier::loop_isolation(false)]
fn is_nightly(choices: &Vec<ChannelChoice>, id: &str) -> (r: bool)
    ensures
        r == nightly_chosen(choices_of(choices@), id@),
{
    let ghost all = choices_of(choices@);
    let mut i: usize = 0;
    assert(all.skip(0) =~= all);
    while i < choices.len()
        invariant
            i <= choices.len(),
            nightly_chosen(all, id@) == nightly_chosen(all.skip(i as int), id@),
        decreases choices.len() - i,
    {
        let ghost rest = all.skip(i as int);
        assert(rest[0] == all[i as int]);
        assert(rest.drop_first() =~= all.skip(i + 1));
        if same_text(choices[i].tool.as_str(), id) {
            return same_text(choices[i].channel.as_str(), "nightly");
        }
        i += 1;
    }
    false
}

/// Adds to `queue` the plan for the tool `id` if it is one of `tools`.
fn select(queue: &mut Vec<UpdatePlan>, tools: &Vec<String>, choices: &Vec<ChannelChoice>, id: &str)
    ensures
        plans_of(final(queue)@) == plans_of(old(queue)@) + selected(
            views(tools@),
            choices_of(choices@),
            id@,
        ),
{
    let ghost before = plans_of(queue@);
    if is_listed(tools, id) {
        let none = String::new();
        assert(none@ =~= Seq::<char>::empty());
        match update_plan(id, is_nightly(choices, id), none.as_str(), false) {
            Some(plan) => {
                queue.push(plan);
                assert(plans_of(queue@) =~= before + seq![plan@]);
            },
            None => {
                assert(plans_of(queue@) =~= before + Seq::<Plan>::empty());
            },
        }
    } else {
        assert(plans_of(queue@) =~= before + Seq::<Plan>::empty());
    }
}

/// Begins the fetching of `tools` into the directory `bin_dir`: those of
/// yt-dlp, ffmpeg, aria2 and deno that are named, in this order, each from
/// the channel chosen for it. The directory is created if it does not exist.
pub fn download_tools(
    tools: &Vec<String>,
    channels: &Vec<ChannelChoice>,
    bin_dir: &str,
    sep: char,
) -> (first: Step<Session, Vec<UpdateReport>>)
    ensures
        first@ == session_start(
            bundle_agenda(views(tools@), choices_of(channels@), bin_dir@, sep),
        ),
{
    let mut queue: Vec<UpdatePlan> = Vec::new();
    assert(plans_of(queue@) =~= Seq::<Plan>::empty());
    select(&mut queue, tools, channels, "yt-dlp");
    select(&mut queue, tools, channels, "ffmpeg");
    select(&mut queue, tools, channels, "aria2");
    select(&mut queue, tools, channels, "deno");
    assert(plans_of(queue@) =~= bundle_queue(views(tools@), choices_of(channels@)));
    Session::begin(String::from_str(bin_dir), sep, true, None, queue)
}

/// The line that reports that the tools were fetched.
pub fn downloaded_message() -> (text: String)
    ensures
        text@ == "Selected tools downloaded successfully"@,
{
    String::from_str("Selected tools downloaded successfully")
}

} // verus!
