//! The operations that the engine asks its host to perform, the answers it
//! takes back, and a model of what those operations do to the files of a
//! machine.
//!
//! The engine never touches the disk or the network. Each of its protocols
//! is a state machine: it hands out one [`HostRequest`] at a time, the host
//! performs it and hands back the [`HostReply`]. The model states what a
//! host that behaves like a file system may answer and how the files change;
//! the laws of the protocols are proved against it.

use vstd::prelude::*;
use vstd::string::StringExecFns;
use crate::archive::ArchiveMember;
use crate::paths::{inside, is_plain_name};
use crate::progress::{DownloadProgress, Progress};
use crate::text::views;

verus! {

/// One operation for the host to perform.
#[derive(Debug)]
pub enum HostRequest {
    /// Is there a file at `path`?
    Exists { path: String },
    /// Is there a directory at `path`?
    DirExists { path: String },
    /// How many bytes does the file at `path` hold?
    Size { path: String },
    /// Which files does the directory `dir` hold (names, not paths)?
    List { dir: String },
    /// Hand over what the file at `path` holds.
    Read { path: String },
    /// Unpack the 7z archive at `path` and hand over its members, in the
    /// order of the archive.
    Unpack { path: String },
    /// Delete the file at `path`.
    Remove { path: String },
    /// Move the file at `from` to `to`, replacing what is there.
    Rename { from: String, to: String },
    /// Copy the file at `from` to `to`, replacing what is there.
    Copy { from: String, to: String },
    /// Create or truncate the file at `path`, write `content` and flush; make
    /// it executable where the platform knows such a mode.
    Write { path: String, content: Vec<u8> },
    /// Create the file at `path`, or cut it down to nothing if it exists.
    Create { path: String },
    /// Write `content` at the end of the file at `path`.
    Append { path: String, content: Vec<u8> },
    /// Create the directory `path` and its missing parents.
    CreateDir { path: String },
    /// Request `url` and hand over the status of the response; its body is
    /// then read with `Pull`.
    Open { url: String },
    /// Hand over the next part of the body of the response that `Open` began.
    Pull,
    /// Request `url`, asking for the media types `accept`, and hand over the
    /// body of the response as text.
    Get { url: String, accept: String },
    /// Pass a notification on to the observer.
    Notify { event: DownloadProgress },
}

/// The host's answer to a request.
#[derive(Debug)]
pub enum HostReply {
    /// Answer to `Exists` and `DirExists`.
    Found(bool),
    /// Answer to `Size`.
    Size(u64),
    /// Answer to `List`.
    Names(Vec<String>),
    /// Answer to `Read`.
    Bytes(Vec<u8>),
    /// Answer to `Unpack`.
    Members(Vec<ArchiveMember>),
    /// Answer to `Open`: the status code of the response and the length of
    /// its body, where the server told it.
    Status { code: u16, length: Option<u64> },
    /// Answer to `Pull`: the next part of the body.
    Chunk(Vec<u8>),
    /// Answer to `Pull`: the body has ended.
    End,
    /// Answer to `Get`: the status code and the body of the response.
    Text { code: u16, body: String },
    /// The operation was carried out.
    Done,
    /// The operation failed; the text says why.
    Failed(String),
}

/// A request as a value of the model.
pub ghost enum Request {
    Exists { path: Seq<char> },
    DirExists { path: Seq<char> },
    Size { path: Seq<char> },
    List { dir: Seq<char> },
    Read { path: Seq<char> },
    Unpack { path: Seq<char> },
    Remove { path: Seq<char> },
    Rename { from: Seq<char>, to: Seq<char> },
    Copy { from: Seq<char>, to: Seq<char> },
    Write { path: Seq<char>, content: Seq<u8> },
    Create { path: Seq<char> },
    Append { path: Seq<char>, content: Seq<u8> },
    CreateDir { path: Seq<char> },
    Open { url: Seq<char> },
    Pull,
    Get { url: Seq<char>, accept: Seq<char> },
    Notify { event: Progress },
}

/// A reply as a value of the model.
pub ghost enum Reply {
    Found(bool),
    Size(u64),
    Names(Seq<Seq<char>>),
    Bytes(Seq<u8>),
    Members(Seq<ArchiveMember>),
    Status { code: u16, length: Option<u64> },
    Chunk(Seq<u8>),
    End,
    Text { code: u16, body: Seq<char> },
    Done,
    Failed(Seq<char>),
}

impl View for HostRequest {
    type V = Request;

    open spec fn view(&self) -> Request {
        match self {
            HostRequest::Exists { path } => Request::Exists { path: path@ },
            HostRequest::DirExists { path } => Request::DirExists { path: path@ },
            HostRequest::Size { path } => Request::Size { path: path@ },
            HostRequest::List { dir } => Request::List { dir: dir@ },
            HostRequest::Read { path } => Request::Read { path: path@ },
            HostRequest::Unpack { path } => Request::Unpack { path: path@ },
            HostRequest::Remove { path } => Request::Remove { path: path@ },
            HostRequest::Rename { from, to } => Request::Rename { from: from@, to: to@ },
            HostRequest::Copy { from, to } => Request::Copy { from: from@, to: to@ },
            HostRequest::Write { path, content } => Request::Write {
                path: path@,
                content: content@,
            },
            HostRequest::Create { path } => Request::Create { path: path@ },
            HostRequest::Append { path, content } => Request::Append {
                path: path@,
                content: content@,
            },
            HostRequest::CreateDir { path } => Request::CreateDir { path: path@ },
            HostRequest::Open { url } => Request::Open { url: url@ },
            HostRequest::Pull => Request::Pull,
            HostRequest::Get { url, accept } => Request::Get { url: url@, accept: accept@ },
            HostRequest::Notify { event } => Request::Notify { event: event@ },
        }
    }
}

impl View for HostReply {
    type V = Reply;

    open spec fn view(&self) -> Reply {
        match self {
            HostReply::Found(b) => Reply::Found(*b),
            HostReply::Size(n) => Reply::Size(*n),
            HostReply::Names(names) => Reply::Names(views(names@)),
            HostReply::Bytes(bytes) => Reply::Bytes(bytes@),
            HostReply::Members(members) => Reply::Members(members@),
            HostReply::Status { code, length } => Reply::Status { code: *code, length: *length },
            HostReply::Chunk(bytes) => Reply::Chunk(bytes@),
            HostReply::End => Reply::End,
            HostReply::Text { code, body } => Reply::Text { code: *code, body: body@ },
            HostReply::Done => Reply::Done,
            HostReply::Failed(why) => Reply::Failed(why@),
        }
    }
}

/// The files of a machine: what each path that names a file holds.
pub type Files = Map<Seq<char>, Seq<u8>>;

/// Whether two sets of files agree on every path but `path`.
pub open spec fn same_but_at(a: Files, b: Files, path: Seq<char>) -> bool {
    a.remove(path) == b.remove(path)
}

/// Whether the files hold one that bears the name `name` in the directory
/// `dir`, under either separator.
pub open spec fn held_in(files: Files, dir: Seq<char>, name: Seq<char>) -> bool {
    files.dom().contains(inside(dir, name, '/')) || files.dom().contains(inside(dir, name, '\\'))
}

/// Whether `names` are the names of the files that the directory `dir`
/// holds.
pub open spec fn lists(files: Files, dir: Seq<char>, names: Seq<Seq<char>>) -> bool {
    forall|name: Seq<char>| #[trigger]
        names.contains(name) <==> is_plain_name(name) && held_in(files, dir, name)
}

/// Whether the reply says that the operation was carried out or that it
/// failed.
pub open spec fn done_or_failed(reply: Reply) -> bool {
    reply is Done || reply is Failed
}

/// Whether a host whose files are `before` may answer `request` with `reply`
/// and be left with the files `after`.
///
/// An operation that fails leaves the files as they were, except that a
/// failed `Copy`, `Write` or `Append` may leave anything at its target. A
/// question changes nothing, nor does a request to the network or to the
/// observer. A directory is listed with the names of the files in it.
/// Whether a directory exists, what an archive unpacks to and what the
/// network says are not modelled.
pub open spec fn performs(before: Files, request: Request, reply: Reply, after: Files) -> bool {
    match request {
        Request::Exists { path } => reply == Reply::Found(before.dom().contains(path)) && after
            == before,
        Request::DirExists { path } => reply is Found && after == before,
        Request::Size { path } => after == before && match reply {
            Reply::Size(n) => before.dom().contains(path) && before[path].len() == n,
            Reply::Failed(_) => true,
            _ => false,
        },
        Request::List { dir } => after == before && match reply {
            Reply::Names(names) => lists(before, dir, names),
            Reply::Failed(_) => true,
            _ => false,
        },
        Request::Read { path } => after == before && match reply {
            Reply::Bytes(bytes) => before.dom().contains(path) && before[path] == bytes,
            Reply::Failed(_) => true,
            _ => false,
        },
        Request::Unpack { path } => after == before && (reply is Members || reply is Failed),
        Request::Remove { path } => match reply {
            Reply::Done => before.dom().contains(path) && after == before.remove(path),
            Reply::Failed(_) => after == before,
            _ => false,
        },
        Request::Rename { from, to } => match reply {
            Reply::Done => before.dom().contains(from) && after == before.remove(from).insert(
                to,
                before[from],
            ),
            Reply::Failed(_) => after == before,
            _ => false,
        },
        Request::Copy { from, to } => match reply {
            Reply::Done => before.dom().contains(from) && after == before.insert(to, before[from]),
            Reply::Failed(_) => same_but_at(before, after, to),
            _ => false,
        },
        Request::Write { path, content } => match reply {
            Reply::Done => after == before.insert(path, content),
            Reply::Failed(_) => same_but_at(before, after, path),
            _ => false,
        },
        Request::Create { path } => match reply {
            Reply::Done => after == before.insert(path, Seq::empty()),
            Reply::Failed(_) => after == before,
            _ => false,
        },
        Request::Append { path, content } => match reply {
            Reply::Done => before.dom().contains(path) && after == before.insert(
                path,
                before[path] + content,
            ),
            Reply::Failed(_) => same_but_at(before, after, path),
            _ => false,
        },
        Request::CreateDir { path } => after == before && done_or_failed(reply),
        Request::Open { url } => after == before && (reply is Status || reply is Failed),
        Request::Pull => after == before && (reply is Chunk || reply is End || reply is Failed),
        Request::Get { url, accept } => after == before && (reply is Text || reply is Failed),
        Request::Notify { event } => after == before && done_or_failed(reply),
    }
}

/// One exchange between a protocol and its host: the reply given and the
/// files the host was left with.
pub ghost struct Exchange {
    pub reply: Reply,
    pub files: Files,
}

/// Whether the host said that the file is there.
pub open spec fn found(reply: Reply) -> bool {
    reply == Reply::Found(true)
}

/// Why the operation failed, if the reply is not `Done`.
pub open spec fn failure_of(reply: Reply) -> Option<Seq<char>> {
    match reply {
        Reply::Done => None,
        Reply::Failed(why) => Some(why),
        _ => Some(unexpected_reply()),
    }
}

/// The text that stands for a reply of the wrong kind.
pub open spec fn unexpected_reply() -> Seq<char> {
    "unexpected reply from the host"@
}

impl HostReply {
    /// Whether the host said that the file is there.
    pub fn is_found(&self) -> (r: bool)
        ensures
            r == found(self@),
    {
        match self {
            HostReply::Found(b) => *b,
            _ => false,
        }
    }

    /// Why the operation failed, if this reply is not `Done`.
    pub fn failure(self) -> (r: Option<String>)
        ensures
            r is Some == failure_of(self@) is Some,
            r matches Some(why) ==> failure_of(self@) == Some(why@),
    {
        match self {
            HostReply::Done => None,
            HostReply::Failed(why) => Some(why),
            _ => Some(String::from_str("unexpected reply from the host")),
        }
    }
}

} // verus!
