//! Fetching a URL into a staging file, with a bounded number of attempts.
//!
//! The body is written part by part to `<dest>.new`; the file at `dest` is
//! never touched. Every attempt begins with an empty staging file, so that
//! nothing of a failed attempt is left in what a later one writes. A staging
//! file that is empty once the body has ended is deleted and counts as a
//! failure.

use vstd::prelude::*;
use vstd::string::StringExecFns;
use crate::errors::{EngineError, ErrorKind, Failure};
use crate::files::{
    failure_of, found, same_but_at, unexpected_reply, Exchange, Files, HostReply, HostRequest,
    Reply, Request,
};
use crate::paths::{
    companion_of, invalid_target, names_a_file, staging_suffix, temp_path_for, trimmed_path,
};
use crate::progress::{
    count, counted, downloading, downloading_event, emit_progress, is_worth_reporting,
    worth_reporting, Percentage, Progress,
};
use crate::protocol::{outcome_of, run_of, Outcome, Step, Turn};
use crate::text::{append_numeral, numeral};

verus! {

/// How many times a download is attempted.
pub const MAX_DOWNLOAD_RETRIES: u8 = 3;

/// Where a download stands: the request it waits on.
#[derive(Clone, Copy, Debug, PartialEq, Eq, Structural)]
pub enum DownloadPhase {
    /// Asked for the response.
    Opening,
    /// Asked whether a staging file exists.
    Probing,
    /// Asked to delete the old staging file.
    Clearing,
    /// Asked for an empty staging file.
    Creating,
    /// Asked for the next part of the body.
    Pulling,
    /// Asked to write a part at the end of the staging file.
    Appending,
    /// Asked to pass a notification on.
    Reporting,
    /// The body has ended; asked for the size of the staging file.
    Measuring,
    /// Asked to delete the empty staging file.
    Discarding,
    /// The attempt has failed; asked to announce the next one.
    Retrying,
}

/// A download under way.
pub struct Download {
    tool: String,
    url: String,
    staging: String,
    attempt: u8,
    total: u64,
    received: u64,
    last: u64,
    pending: usize,
    phase: DownloadPhase,
    kind: ErrorKind,
    cause: String,
}

/// A download as a value of the model.
pub ghost struct DownloadState {
    /// The tool that the notifications name.
    pub tool: Seq<char>,
    pub url: Seq<char>,
    /// The path of the staging file.
    pub staging: Seq<char>,
    /// The number of the attempt under way, from 1.
    pub attempt: u8,
    /// The length of the body as the server told it, or 0.
    pub total: u64,
    /// How many bytes of the body were written in this attempt.
    pub received: u64,
    /// How many bytes were written when the download was last reported.
    pub last: u64,
    /// The length of the part that is being written.
    pub pending: nat,
    pub phase: DownloadPhase,
    /// The kind of failure of the attempt that has failed.
    pub kind: ErrorKind,
    /// Why the attempt has failed.
    pub cause: Seq<char>,
}

impl View for Download {
    type V = DownloadState;

    closed spec fn view(&self) -> DownloadState {
        DownloadState {
            tool: self.tool@,
            url: self.url@,
            staging: self.staging@,
            attempt: self.attempt,
            total: self.total,
            received: self.received,
            last: self.last,
            pending: self.pending as nat,
            phase: self.phase,
            kind: self.kind,
            cause: self.cause@,
        }
    }
}

impl View for Step<Download, ()> {
    type V = Turn<DownloadState, ()>;

    open spec fn view(&self) -> Turn<DownloadState, ()> {
        match self {
            Step::Ask(m, request) => Turn::Ask(m@, request@),
            Step::Finished(Ok(_)) => Turn::Finished(Ok(())),
            Step::Finished(Err(e)) => Turn::Finished(Err(e@)),
        }
    }
}

/// The status text that announces attempt `attempt`.
pub open spec fn retry_text(attempt: nat) -> Seq<char> {
    "Retrying download (attempt "@ + numeral(attempt) + "/"@ + numeral(
        MAX_DOWNLOAD_RETRIES as nat,
    ) + ")..."@
}

/// The text for a response whose status is not one of success.
pub open spec fn bad_status_text(code: u16) -> Seq<char> {
    "Download failed with status: "@ + numeral(code as nat)
}

/// The text for a download that left an empty file.
pub open spec fn empty_download_text() -> Seq<char> {
    "Downloaded file is empty"@
}

/// Whether `code` is a status of success.
pub open spec fn is_success(code: u16) -> bool {
    200 <= code < 300
}

/// How a download begins: with the request for the response, or with the
/// refusal of a `dest` that names no file.
pub open spec fn download_start(tool: Seq<char>, url: Seq<char>, dest: Seq<char>) -> Turn<
    DownloadState,
    (),
> {
    if names_a_file(dest) {
        Turn::Ask(
            DownloadState {
                tool,
                url,
                staging: companion_of(dest, staging_suffix()),
                attempt: 1,
                total: 0,
                received: 0,
                last: 0,
                pending: 0,
                phase: DownloadPhase::Opening,
                kind: ErrorKind::Network,
                cause: Seq::empty(),
            },
            Request::Open { url },
        )
    } else {
        Turn::Finished(Err(Failure { kind: ErrorKind::InvalidPath, message: invalid_target(dest) }))
    }
}

/// How a download goes on once an attempt has failed: the next attempt is
/// announced, or the download ends with the failure if no attempt is left.
pub open spec fn attempt_failed(s: DownloadState, kind: ErrorKind, cause: Seq<char>) -> Turn<
    DownloadState,
    (),
> {
    if s.attempt < MAX_DOWNLOAD_RETRIES {
        Turn::Ask(
            DownloadState { phase: DownloadPhase::Retrying, kind, cause, ..s },
            Request::Notify {
                event: Progress {
                    tool: s.tool,
                    percentage: Percentage::Fixed(0),
                    status: retry_text((s.attempt + 1) as nat),
                },
            },
        )
    } else {
        Turn::Finished(Err(Failure { kind, message: cause }))
    }
}

/// How a download in state `s` goes on when its host answers `reply`.
pub open spec fn download_next(s: DownloadState, reply: Reply) -> Turn<DownloadState, ()> {
    let create = Turn::Ask(
        DownloadState { phase: DownloadPhase::Creating, ..s },
        Request::Create { path: s.staging },
    );
    let pull = Turn::Ask(DownloadState { phase: DownloadPhase::Pulling, ..s }, Request::Pull);
    match s.phase {
        DownloadPhase::Opening => match reply {
            Reply::Status { code, length } => if is_success(code) {
                Turn::Ask(
                    DownloadState {
                        phase: DownloadPhase::Probing,
                        total: match length {
                            Some(n) => n,
                            None => 0,
                        },
                        received: 0,
                        last: 0,
                        ..s
                    },
                    Request::Exists { path: s.staging },
                )
            } else {
                attempt_failed(s, ErrorKind::Network, bad_status_text(code))
            },
            Reply::Failed(why) => attempt_failed(s, ErrorKind::Network, why),
            _ => attempt_failed(s, ErrorKind::Network, unexpected_reply()),
        },
        DownloadPhase::Probing => if found(reply) {
            Turn::Ask(
                DownloadState { phase: DownloadPhase::Clearing, ..s },
                Request::Remove { path: s.staging },
            )
        } else {
            create
        },
        DownloadPhase::Clearing => create,
        DownloadPhase::Creating => match failure_of(reply) {
            None => pull,
            Some(why) => attempt_failed(s, ErrorKind::StagingFailed, why),
        },
        DownloadPhase::Pulling => match reply {
            Reply::Chunk(bytes) => Turn::Ask(
                DownloadState { phase: DownloadPhase::Appending, pending: bytes.len(), ..s },
                Request::Append { path: s.staging, content: bytes },
            ),
            Reply::End => Turn::Ask(
                DownloadState { phase: DownloadPhase::Measuring, ..s },
                Request::Size { path: s.staging },
            ),
            Reply::Failed(why) => attempt_failed(s, ErrorKind::Network, why),
            _ => attempt_failed(s, ErrorKind::Network, unexpected_reply()),
        },
        DownloadPhase::Appending => match failure_of(reply) {
            None => {
                let received = counted(s.received, s.pending);
                if worth_reporting(s.total, s.last, received) {
                    Turn::Ask(
                        DownloadState {
                            phase: DownloadPhase::Reporting,
                            received,
                            last: received,
                            ..s
                        },
                        Request::Notify { event: downloading(s.tool, s.total, received) },
                    )
                } else {
                    Turn::Ask(
                        DownloadState { phase: DownloadPhase::Pulling, received, ..s },
                        Request::Pull,
                    )
                }
            },
            Some(why) => attempt_failed(s, ErrorKind::StagingFailed, why),
        },
        DownloadPhase::Reporting => pull,
        DownloadPhase::Measuring => match reply {
            Reply::Size(n) => if n == 0 {
                Turn::Ask(
                    DownloadState { phase: DownloadPhase::Discarding, ..s },
                    Request::Remove { path: s.staging },
                )
            } else {
                Turn::Finished(Ok(()))
            },
            Reply::Failed(why) => attempt_failed(s, ErrorKind::StagingFailed, why),
            _ => attempt_failed(s, ErrorKind::StagingFailed, unexpected_reply()),
        },
        DownloadPhase::Discarding => attempt_failed(
            s,
            ErrorKind::EmptyDownload,
            empty_download_text(),
        ),
        DownloadPhase::Retrying => Turn::Ask(
            DownloadState { phase: DownloadPhase::Opening, attempt: (s.attempt + 1) as u8, ..s },
            Request::Open { url: s.url },
        ),
    }
}

/// The step function of a download.
pub open spec fn download_steps() -> spec_fn(DownloadState, Reply) -> Turn<DownloadState, ()> {
    |s: DownloadState, reply: Reply| download_next(s, reply)
}

/// The outcome of downloading `url` for the file `dest` on a host whose files
/// are `files`, driven by the exchanges `run`.
pub open spec fn download_outcome(
    tool: Seq<char>,
    url: Seq<char>,
    dest: Seq<char>,
    files: Files,
    run: Seq<Exchange>,
) -> Option<Outcome<()>> {
    outcome_of(download_steps(), download_start(tool, url, dest), files, run)
}

/// What the host has handed over of the body since the response was last
/// opened, given that `acc` was handed over before the exchanges `rest`.
pub open spec fn body_since(acc: Seq<u8>, rest: Seq<Exchange>) -> Seq<u8>
    decreases rest.len(),
{
    if rest.len() == 0 {
        acc
    } else {
        body_since(
            match rest[0].reply {
                Reply::Status { .. } => Seq::empty(),
                Reply::Chunk(bytes) => acc + bytes,
                _ => acc,
            },
            rest.drop_first(),
        )
    }
}

/// The body of the last response of a run: the parts that the host handed
/// over after it last answered with a status.
pub open spec fn last_body(run: Seq<Exchange>) -> Seq<u8> {
    body_since(Seq::empty(), run)
}

/// Whether a download in state `s` may wait on `request` on a host whose
/// files are `files`, when `acc` is what was handed over of the body so far:
/// from the moment the staging file is created, it holds what was handed
/// over, but for the part that is being written.
pub open spec fn in_step(s: DownloadState, request: Request, files: Files, acc: Seq<u8>) -> bool {
    let staged = files.dom().contains(s.staging);
    match s.phase {
        DownloadPhase::Opening => request is Open,
        DownloadPhase::Probing => request == (Request::Exists { path: s.staging }) && acc.len()
            == 0,
        DownloadPhase::Clearing => request == (Request::Remove { path: s.staging }) && acc.len()
            == 0,
        DownloadPhase::Creating => request == (Request::Create { path: s.staging }) && acc.len()
            == 0,
        DownloadPhase::Pulling => request is Pull && staged && files[s.staging] == acc,
        DownloadPhase::Appending => staged && request == (Request::Append {
            path: s.staging,
            content: acc.skip(files[s.staging].len() as int),
        }) && files[s.staging] == acc.take(files[s.staging].len() as int) && files[s.staging].len()
            <= acc.len(),
        DownloadPhase::Reporting => request is Notify && staged && files[s.staging] == acc,
        DownloadPhase::Measuring => request == (Request::Size { path: s.staging }) && staged
            && files[s.staging] == acc,
        DownloadPhase::Discarding => request == (Request::Remove { path: s.staging }),
        DownloadPhase::Retrying => request is Notify,
    }
}

/// Every run of a download leaves all files but the staging file as they
/// were; one that ends well leaves in the staging file what the host handed
/// over since the response was last opened, and that is not nothing.
pub proof fn lemma_download_run(
    s: DownloadState,
    request: Request,
    files: Files,
    rest: Seq<Exchange>,
    acc: Seq<u8>,
)
    requires
        in_step(s, request, files, acc),
        run_of(download_steps(), s, request, files, rest) is Some,
    ensures
        ({
            let o = run_of(download_steps(), s, request, files, rest)->Some_0;
            &&& same_but_at(files, o.files, s.staging)
            &&& o.result is Ok ==> o.files.dom().contains(s.staging) && o.files[s.staging]
                == body_since(acc, rest) && o.files[s.staging].len() > 0
        }),
    decreases rest.len(),
{
    let reply = rest[0].reply;
    let files1 = rest[0].files;
    let tail = rest.drop_first();
    let acc1 = match reply {
        Reply::Status { .. } => Seq::<u8>::empty(),
        Reply::Chunk(bytes) => acc + bytes,
        _ => acc,
    };
    assert(files.remove(s.staging) =~= files1.remove(s.staging));
    assert(download_steps()(s, reply) == download_next(s, reply));
    assert(body_since(acc, rest) == body_since(acc1, tail));
    match download_next(s, reply) {
        Turn::Ask(next, asked) => {
            assert(next.staging == s.staging);
            if s.phase is Pulling && reply is Chunk {
                let bytes = reply->Chunk_0;
                assert(acc1.skip(acc.len() as int) =~= bytes);
                assert(acc1.take(acc.len() as int) =~= acc);
            }
            if s.phase is Appending && reply is Done {
                let have = files[s.staging];
                assert(have + acc.skip(have.len() as int) =~= acc);
            }
            if s.phase is Creating && reply is Done {
                assert(files1[s.staging] =~= acc);
            }
            assert(in_step(next, asked, files1, acc1));
            lemma_download_run(next, asked, files1, tail, acc1);
            let o = run_of(download_steps(), next, asked, files1, tail)->Some_0;
            assert(files.remove(s.staging) =~= o.files.remove(s.staging));
        },
        Turn::Finished(result) => {
            assert(tail.len() == 0);
            assert(body_since(acc1, tail) == acc1);
        },
    }
}

/// A download that ends well leaves in the staging file exactly the body of
/// its last attempt, which is not empty, whatever earlier attempts wrote; no
/// other file has changed.
pub proof fn law_download_holds_last_attempt(
    tool: Seq<char>,
    url: Seq<char>,
    dest: Seq<char>,
    files: Files,
    run: Seq<Exchange>,
)
    requires
        download_outcome(tool, url, dest, files, run) is Some,
        download_outcome(tool, url, dest, files, run)->Some_0.result is Ok,
    ensures
        ({
            let staging = companion_of(dest, staging_suffix());
            let after = download_outcome(tool, url, dest, files, run)->Some_0.files;
            &&& after.dom().contains(staging)
            &&& after[staging] == last_body(run)
            &&& after[staging].len() > 0
            &&& same_but_at(files, after, staging)
        }),
{
    let first = download_start(tool, url, dest);
    lemma_download_run(first->Ask_0, first->Ask_1, files, run, Seq::empty());
}

/// A download never changes a file but its staging file, however it ends: in
/// particular the file at `dest` is as it was.
pub proof fn law_download_touches_staging_only(
    tool: Seq<char>,
    url: Seq<char>,
    dest: Seq<char>,
    files: Files,
    run: Seq<Exchange>,
)
    requires
        download_outcome(tool, url, dest, files, run) is Some,
    ensures
        ({
            let after = download_outcome(tool, url, dest, files, run)->Some_0.files;
            &&& same_but_at(files, after, companion_of(dest, staging_suffix()))
            &&& after.dom().contains(dest) == files.dom().contains(dest)
            &&& after[dest] == files[dest]
        }),
{
    crate::paths::lemma_companions_differ(trimmed_path(dest));
    let staging = companion_of(dest, staging_suffix());
    let first = download_start(tool, url, dest);
    if names_a_file(dest) {
        lemma_download_run(first->Ask_0, first->Ask_1, files, run, Seq::empty());
    }
    let after = download_outcome(tool, url, dest, files, run)->Some_0.files;
    assert(files.remove(staging).dom().contains(dest) == files.dom().contains(dest));
    assert(after.remove(staging).dom().contains(dest) == after.dom().contains(dest));
    assert(files.remove(staging)[dest] == files[dest]);
    assert(after.remove(staging)[dest] == after[dest]);
}

impl Download {
    #[verifier::type_invariant]
    spec fn inv(self) -> bool {
        &&& 1 <= self.attempt <= MAX_DOWNLOAD_RETRIES
        &&& self.phase is Retrying ==> self.attempt < MAX_DOWNLOAD_RETRIES
    }

    /// The path of the staging file.
    pub fn staging(&self) -> (p: &String)
        ensures
            p@ == self@.staging,
    {
        &self.staging
    }

    /// The number of the attempt under way, from 1.
    pub fn attempt(&self) -> (n: u8)
        ensures
            n == self@.attempt,
    {
        self.attempt
    }

    fn failed(self, kind: ErrorKind, cause: String) -> (next: Step<Download, ()>)
        ensures
            next@ == attempt_failed(self@, kind, cause@),
    {
        proof {
            use_type_invariant(&self);
        }
        if self.attempt < MAX_DOWNLOAD_RETRIES {
            let mut status = String::from_str("Retrying download (attempt ");
            append_numeral(&mut status, (self.attempt + 1) as u64);
            status.append("/");
            append_numeral(&mut status, MAX_DOWNLOAD_RETRIES as u64);
            status.append(")...");
            let event = emit_progress(self.tool.as_str(), 0, status.as_str());
            Step::Ask(
                Download { phase: DownloadPhase::Retrying, kind, cause, ..self },
                HostRequest::Notify { event },
            )
        } else {
            Step::Finished(Err(EngineError::new(kind, cause)))
        }
    }

    fn ask_create(self) -> (next: Step<Download, ()>)
        ensures
            next@ == Turn::<DownloadState, ()>::Ask(
                DownloadState { phase: DownloadPhase::Creating, ..self@ },
                Request::Create { path: self@.staging },
            ),
    {
        proof {
            use_type_invariant(&self);
        }
        let request = HostRequest::Create { path: self.staging.clone() };
        Step::Ask(Download { phase: DownloadPhase::Creating, ..self }, request)
    }

    fn ask_pull(self) -> (next: Step<Download, ()>)
        ensures
            next@ == Turn::<DownloadState, ()>::Ask(
                DownloadState { phase: DownloadPhase::Pulling, ..self@ },
                Request::Pull,
            ),
    {
        proof {
            use_type_invariant(&self);
        }
        Step::Ask(Download { phase: DownloadPhase::Pulling, ..self }, HostRequest::Pull)
    }

    /// Takes the host's answer to the request that this download waits on,
    /// and says what follows.
    pub fn step(self, reply: HostReply) -> (next: Step<Download, ()>)
        ensures
            next@ == download_next(self@, reply@),
    {
        proof {
            use_type_invariant(&self);
        }
        match self.phase {
            DownloadPhase::Opening => match reply {
                HostReply::Status { code, length } => {
                    if 200 <= code && code < 300 {
                        let total: u64 = match length {
                            Some(n) => n,
                            None => 0,
                        };
                        let request = HostRequest::Exists { path: self.staging.clone() };
                        Step::Ask(
                            Download {
                                phase: DownloadPhase::Probing,
                                total,
                                received: 0,
                                last: 0,
                                ..self
                            },
                            request,
                        )
                    } else {
                        let mut text = String::from_str("Download failed with status: ");
                        append_numeral(&mut text, code as u64);
                        self.failed(ErrorKind::Network, text)
                    }
                },
                HostReply::Failed(why) => self.failed(ErrorKind::Network, why),
                _ => self.failed(
                    ErrorKind::Network,
                    String::from_str("unexpected reply from the host"),
                ),
            },
            DownloadPhase::Probing => {
                if reply.is_found() {
                    let request = HostRequest::Remove { path: self.staging.clone() };
                    Step::Ask(Download { phase: DownloadPhase::Clearing, ..self }, request)
                } else {
                    self.ask_create()
                }
            },
            DownloadPhase::Clearing => self.ask_create(),
            DownloadPhase::Creating => match reply.failure() {
                None => self.ask_pull(),
                Some(why) => self.failed(ErrorKind::StagingFailed, why),
            },
            DownloadPhase::Pulling => match reply {
                HostReply::Chunk(bytes) => {
                    let pending = bytes.len();
                    let request = HostRequest::Append {
                        path: self.staging.clone(),
                        content: bytes,
                    };
                    Step::Ask(Download { phase: DownloadPhase::Appending, pending, ..self }, request)
                },
                HostReply::End => {
                    let request = HostRequest::Size { path: self.staging.clone() };
                    Step::Ask(Download { phase: DownloadPhase::Measuring, ..self }, request)
                },
                HostReply::Failed(why) => self.failed(ErrorKind::Network, why),
                _ => self.failed(
                    ErrorKind::Network,
                    String::from_str("unexpected reply from the host"),
                ),
            },
            DownloadPhase::Appending => match reply.failure() {
                None => {
                    let received = count(self.received, self.pending);
                    if is_worth_reporting(self.total, self.last, received) {
                        let event = downloading_event(self.tool.as_str(), self.total, received);
                        Step::Ask(
                            Download {
                                phase: DownloadPhase::Reporting,
                                received,
                                last: received,
                                ..self
                            },
                            HostRequest::Notify { event },
                        )
                    } else {
                        Step::Ask(
                            Download { phase: DownloadPhase::Pulling, received, ..self },
                            HostRequest::Pull,
                        )
                    }
                },
                Some(why) => self.failed(ErrorKind::StagingFailed, why),
            },
            DownloadPhase::Reporting => self.ask_pull(),
            DownloadPhase::Measuring => match reply {
                HostReply::Size(n) => {
                    if n == 0 {
                        let request = HostRequest::Remove { path: self.staging.clone() };
                        Step::Ask(Download { phase: DownloadPhase::Discarding, ..self }, request)
                    } else {
                        Step::Finished(Ok(()))
                    }
                },
                HostReply::Failed(why) => self.failed(ErrorKind::StagingFailed, why),
                _ => self.failed(
                    ErrorKind::StagingFailed,
                    String::from_str("unexpected reply from the host"),
                ),
            },
            DownloadPhase::Discarding => self.failed(
                ErrorKind::EmptyDownload,
                String::from_str("Downloaded file is empty"),
            ),
            DownloadPhase::Retrying => {
                let request = HostRequest::Open { url: self.url.clone() };
                let attempt: u8 = self.attempt + 1;
                Step::Ask(Download { phase: DownloadPhase::Opening, attempt, ..self }, request)
            },
        }
    }
}

/// Begins the download of `url` into the staging file of `dest`; `tool_name`
/// is the tool that the notifications name. The file at `dest` is left as it
/// is: once the download has ended well, the staging file `<dest>.new` is
/// complete and not empty, and is for the caller to install.
pub fn download_file(tool_name: &str, url: &str, dest: &str) -> (first: Step<Download, ()>)
    ensures
        first@ == download_start(tool_name@, url@, dest@),
{
    match temp_path_for(dest) {
        Ok(staging) => {
            let request = HostRequest::Open { url: String::from_str(url) };
            Step::Ask(
                Download {
                    tool: String::from_str(tool_name),
                    url: String::from_str(url),
                    staging,
                    attempt: 1,
                    total: 0,
                    received: 0,
                    last: 0,
                    pending: 0,
                    phase: DownloadPhase::Opening,
                    kind: ErrorKind::Network,
                    cause: String::new(),
                },
                request,
            )
        },
        Err(message) => Step::Finished(Err(EngineError::new(ErrorKind::InvalidPath, message))),
    }
}

} // verus!
