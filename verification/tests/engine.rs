use std::collections::{BTreeMap, BTreeSet, VecDeque};
use std::io::{Read, Write};

use tool_updater::archive::ArchiveMember;
use tool_updater::backups::{
    cleaned_message, cleanup_tool_backup, list_tool_backups, Cleanup, ListBackups,
};
use tool_updater::catalog::ToolTable;
use tool_updater::download::{download_file, Download};
use tool_updater::errors::{EngineError, ErrorClass, ErrorKind};
use tool_updater::files::{HostReply, HostRequest};
use tool_updater::install::{safe_replace_with_backup, Install};
use tool_updater::manual::{stage_manual_tool, ManualInstall};
use tool_updater::progress::Percentage;
use tool_updater::protocol::Step;
use tool_updater::purge::{
    cleanup_all_backups, collect_backup_dirs, removed_message, CollectDirs, Purge,
};
use tool_updater::restore::Restore;
use tool_updater::rollback::{rollback_tool, rolled_back_message, Rollback};
use tool_updater::session::{
    download_tools, downloaded_message, update_tool_at_path, updated_message, ChannelChoice,
    Session,
};

/// Unpacks a 7z archive, as a host does.
fn unpack(bytes: Vec<u8>) -> Result<Vec<ArchiveMember>, String> {
    let len = bytes.len() as u64;
    let mut reader = sevenz_rust::SevenZReader::new(
        std::io::Cursor::new(bytes),
        len,
        sevenz_rust::Password::empty(),
    )
    .map_err(|e| e.to_string())?;
    let mut members = Vec::new();
    reader
        .for_each_entries(|entry, data| {
            let mut content = Vec::new();
            data.read_to_end(&mut content)?;
            members.push(ArchiveMember { name: entry.name().to_string(), data: content });
            Ok(true)
        })
        .map_err(|e| e.to_string())?;
    Ok(members)
}

/// One response of the scripted network.
struct Response {
    open_error: Option<String>,
    code: u16,
    length: Option<u64>,
    chunks: VecDeque<Vec<u8>>,
    break_after: Option<usize>,
}

fn response(code: u16, length: Option<u64>, chunks: Vec<Vec<u8>>) -> Response {
    Response { open_error: None, code, length, chunks: chunks.into(), break_after: None }
}

fn broken(code: u16, chunks: Vec<Vec<u8>>, after: usize) -> Response {
    Response { open_error: None, code, length: None, chunks: chunks.into(), break_after: Some(after) }
}

fn unreachable_server(why: &str) -> Response {
    Response {
        open_error: Some(why.to_string()),
        code: 0,
        length: None,
        chunks: VecDeque::new(),
        break_after: None,
    }
}

/// A host that keeps its files in memory.
struct Host {
    files: BTreeMap<String, Vec<u8>>,
    dirs: BTreeSet<String>,
    fail_once: Vec<String>,
    responses: VecDeque<Response>,
    current: Option<Response>,
    pulled: usize,
    api: Option<HostReply>,
    events: Vec<(String, Percentage, String)>,
    log: Vec<String>,
}

impl Host {
    fn new() -> Host {
        Host {
            files: BTreeMap::new(),
            dirs: BTreeSet::new(),
            fail_once: Vec::new(),
            responses: VecDeque::new(),
            current: None,
            pulled: 0,
            api: None,
            events: Vec::new(),
            log: Vec::new(),
        }
    }

    fn with(mut self, path: &str, content: &[u8]) -> Host {
        self.files.insert(path.to_string(), content.to_vec());
        self
    }

    fn with_dir(mut self, path: &str) -> Host {
        self.dirs.insert(path.to_string());
        self
    }

    fn failing(mut self, what: &str) -> Host {
        self.fail_once.push(what.to_string());
        self
    }

    fn fails(&mut self, what: String) -> bool {
        match self.fail_once.iter().position(|w| *w == what) {
            Some(at) => {
                self.fail_once.remove(at);
                true
            }
            None => false,
        }
    }

    fn get(&self, path: &str) -> Option<Vec<u8>> {
        self.files.get(path).cloned()
    }

    fn has(&self, path: &str) -> bool {
        self.files.contains_key(path)
    }

    fn perform(&mut self, request: HostRequest) -> HostReply {
        let refused = || HostReply::Failed("boom".to_string());
        match request {
            HostRequest::Exists { path } => {
                self.log.push(format!("exists {}", path));
                HostReply::Found(self.files.contains_key(&path))
            }
            HostRequest::DirExists { path } => HostReply::Found(self.dirs.contains(&path)),
            HostRequest::Size { path } => match self.files.get(&path) {
                Some(content) => HostReply::Size(content.len() as u64),
                None => HostReply::Failed("no such file".to_string()),
            },
            HostRequest::List { dir } => {
                if !self.dirs.contains(&dir) {
                    return HostReply::Failed("no such directory".to_string());
                }
                let prefix = format!("{}/", dir);
                HostReply::Names(
                    self.files
                        .keys()
                        .filter(|k| k.starts_with(&prefix) && !k[prefix.len()..].contains('/'))
                        .map(|k| k[prefix.len()..].to_string())
                        .collect(),
                )
            }
            HostRequest::Read { path } => match self.files.get(&path) {
                Some(content) => HostReply::Bytes(content.clone()),
                None => HostReply::Failed("no such file".to_string()),
            },
            HostRequest::Unpack { path } => match self.files.get(&path) {
                Some(content) => match unpack(content.clone()) {
                    Ok(members) => HostReply::Members(members),
                    Err(why) => HostReply::Failed(why),
                },
                None => HostReply::Failed("no such file".to_string()),
            },
            HostRequest::Remove { path } => {
                self.log.push(format!("remove {}", path));
                if self.fails(format!("remove {}", path)) {
                    return refused();
                }
                match self.files.remove(&path) {
                    Some(_) => HostReply::Done,
                    None => HostReply::Failed("no such file".to_string()),
                }
            }
            HostRequest::Rename { from, to } => {
                self.log.push(format!("rename {} {}", from, to));
                if self.fails(format!("rename {} {}", from, to)) {
                    return refused();
                }
                match self.files.remove(&from) {
                    Some(content) => {
                        self.files.insert(to, content);
                        HostReply::Done
                    }
                    None => HostReply::Failed("no such file".to_string()),
                }
            }
            HostRequest::Copy { from, to } => {
                self.log.push(format!("copy {} {}", from, to));
                if self.fails(format!("copy {} {}", from, to)) {
                    return refused();
                }
                match self.files.get(&from).cloned() {
                    Some(content) => {
                        self.files.insert(to, content);
                        HostReply::Done
                    }
                    None => HostReply::Failed("no such file".to_string()),
                }
            }
            HostRequest::Write { path, content } => {
                self.log.push(format!("write {}", path));
                if self.fails(format!("write {}", path)) {
                    return refused();
                }
                self.files.insert(path, content);
                HostReply::Done
            }
            HostRequest::Create { path } => {
                if self.fails(format!("create {}", path)) {
                    return refused();
                }
                self.files.insert(path, Vec::new());
                HostReply::Done
            }
            HostRequest::Append { path, content } => match self.files.get_mut(&path) {
                Some(held) => {
                    held.extend_from_slice(&content);
                    HostReply::Done
                }
                None => HostReply::Failed("no such file".to_string()),
            },
            HostRequest::CreateDir { path } => {
                if self.fails(format!("mkdir {}", path)) {
                    return refused();
                }
                self.dirs.insert(path);
                HostReply::Done
            }
            HostRequest::Open { url } => {
                self.log.push(format!("open {}", url));
                self.pulled = 0;
                self.current = self.responses.pop_front();
                match &self.current {
                    None => HostReply::Failed("connection refused".to_string()),
                    Some(r) => match &r.open_error {
                        Some(why) => HostReply::Failed(why.clone()),
                        None => HostReply::Status { code: r.code, length: r.length },
                    },
                }
            }
            HostRequest::Pull => match &mut self.current {
                None => HostReply::Failed("no response".to_string()),
                Some(r) => {
                    if r.break_after == Some(self.pulled) {
                        return HostReply::Failed("connection reset".to_string());
                    }
                    self.pulled += 1;
                    match r.chunks.pop_front() {
                        Some(chunk) => HostReply::Chunk(chunk),
                        None => HostReply::End,
                    }
                }
            },
            HostRequest::Get { url, accept } => {
                self.log.push(format!("get {} {}", url, accept));
                match self.api.take() {
                    Some(reply) => reply,
                    None => HostReply::Failed("offline".to_string()),
                }
            }
            HostRequest::Notify { event } => {
                self.events.push((event.tool, event.percentage, event.status));
                HostReply::Done
            }
        }
    }
}

/// Performs what a protocol asks for until it ends.
fn drive<M, T>(
    host: &mut Host,
    first: Step<M, T>,
    step: fn(M, HostReply) -> Step<M, T>,
) -> Result<T, EngineError> {
    let mut current = first;
    loop {
        match current {
            Step::Finished(result) => return result,
            Step::Ask(machine, request) => {
                let reply = host.perform(request);
                current = step(machine, reply);
            }
        }
    }
}

fn install(host: &mut Host, dest: &str, staging: &str) -> Result<(), EngineError> {
    drive(host, safe_replace_with_backup(dest, staging), Install::step)
}

fn names(list: &[&str]) -> Vec<String> {
    list.iter().map(|s| s.to_string()).collect()
}

// ---- installation ----

#[test]
fn install_into_an_empty_place() {
    let mut host = Host::new().with("bin/tool.exe.new", b"v1");
    install(&mut host, "bin/tool.exe", "bin/tool.exe.new").unwrap();
    assert_eq!(host.get("bin/tool.exe"), Some(b"v1".to_vec()));
    assert!(!host.has("bin/tool.exe.new"));
    assert!(!host.has("bin/tool.exe.old"));
}

#[test]
fn install_keeps_the_previous_version_as_backup() {
    let mut host = Host::new().with("bin/tool.exe", b"v1").with("bin/tool.exe.new", b"v2");
    install(&mut host, "bin/tool.exe", "bin/tool.exe.new").unwrap();
    assert_eq!(host.get("bin/tool.exe"), Some(b"v2".to_vec()));
    assert_eq!(host.get("bin/tool.exe.old"), Some(b"v1".to_vec()));
    assert!(!host.has("bin/tool.exe.new"));
    assert_eq!(host.files.len(), 2);
}

#[test]
fn install_drops_the_older_backup() {
    let mut host = Host::new()
        .with("bin/tool.exe", b"v2")
        .with("bin/tool.exe.old", b"v1")
        .with("bin/tool.exe.new", b"v3");
    install(&mut host, "bin/tool.exe", "bin/tool.exe.new").unwrap();
    assert_eq!(host.get("bin/tool.exe"), Some(b"v3".to_vec()));
    assert_eq!(host.get("bin/tool.exe.old"), Some(b"v2".to_vec()));
    assert!(!host.has("bin/tool.exe.new"));
    assert_eq!(
        host.log,
        vec![
            "exists bin/tool.exe.old",
            "exists bin/tool.exe",
            "remove bin/tool.exe.old",
            "rename bin/tool.exe bin/tool.exe.old",
            "rename bin/tool.exe.new bin/tool.exe",
        ]
    );
}

#[test]
fn install_goes_on_when_the_older_backup_cannot_be_deleted() {
    let mut host = Host::new()
        .with("bin/tool.exe", b"v2")
        .with("bin/tool.exe.old", b"v1")
        .with("bin/tool.exe.new", b"v3")
        .failing("remove bin/tool.exe.old");
    install(&mut host, "bin/tool.exe", "bin/tool.exe.new").unwrap();
    assert_eq!(host.get("bin/tool.exe"), Some(b"v3".to_vec()));
    assert_eq!(host.get("bin/tool.exe.old"), Some(b"v2".to_vec()));
}

#[test]
fn every_install_of_a_series_leaves_one_live_file_and_one_backup() {
    let mut host = Host::new();
    let versions: [&[u8]; 4] = [b"v1", b"v2", b"v3", b"v4"];
    for (i, version) in versions.iter().enumerate() {
        host.files.insert("bin/tool.exe.new".to_string(), version.to_vec());
        install(&mut host, "bin/tool.exe", "bin/tool.exe.new").unwrap();
        assert_eq!(host.get("bin/tool.exe"), Some(version.to_vec()));
        assert!(!host.has("bin/tool.exe.new"));
        if i == 0 {
            assert_eq!(host.files.len(), 1);
        } else {
            assert_eq!(host.files.len(), 2);
            assert_eq!(host.get("bin/tool.exe.old"), Some(versions[i - 1].to_vec()));
        }
    }
}

#[test]
fn install_fails_when_the_live_file_cannot_be_moved_aside() {
    let mut host = Host::new()
        .with("bin/tool.exe", b"v1")
        .with("bin/tool.exe.new", b"v2")
        .failing("rename bin/tool.exe bin/tool.exe.old");
    let error = install(&mut host, "bin/tool.exe", "bin/tool.exe.new").unwrap_err();
    assert_eq!(error.kind, ErrorKind::BackupFailed);
    assert_eq!(
        error.message,
        "Failed to backup existing file bin/tool.exe -> bin/tool.exe.old: boom"
    );
    assert_eq!(host.get("bin/tool.exe"), Some(b"v1".to_vec()));
    assert_eq!(host.get("bin/tool.exe.new"), Some(b"v2".to_vec()));
}

#[test]
fn failed_activation_puts_the_previous_version_back() {
    let mut host = Host::new()
        .with("bin/tool.exe", b"v1")
        .with("bin/tool.exe.new", b"v2")
        .failing("rename bin/tool.exe.new bin/tool.exe");
    let before = host.files.clone();
    let error = install(&mut host, "bin/tool.exe", "bin/tool.exe.new").unwrap_err();
    assert_eq!(error.kind, ErrorKind::ActivationFailed);
    assert_eq!(
        error.message,
        "Failed to activate new file bin/tool.exe.new -> bin/tool.exe: boom"
    );
    assert_eq!(host.files, before);
}

#[test]
fn failed_activation_without_a_staging_file_changes_nothing() {
    let mut host = Host::new().with("bin/tool.exe", b"v1");
    let before = host.files.clone();
    let error = install(&mut host, "bin/tool.exe", "bin/tool.exe.new").unwrap_err();
    assert_eq!(error.kind, ErrorKind::ActivationFailed);
    assert_eq!(
        error.message,
        "Failed to activate new file bin/tool.exe.new -> bin/tool.exe: no such file"
    );
    assert_eq!(host.files, before);
}

#[test]
fn failed_activation_never_makes_a_backup_from_earlier_live() {
    let mut host = Host::new().with("d/t.exe.old", b"v0");
    let before = host.files.clone();
    let error = install(&mut host, "d/t.exe", "d/t.exe.new").unwrap_err();
    assert_eq!(error.kind, ErrorKind::ActivationFailed);
    assert_eq!(host.files, before);
    assert_eq!(
        host.log,
        vec!["exists d/t.exe.old", "exists d/t.exe", "rename d/t.exe.new d/t.exe"]
    );
}

#[test]
fn failed_activation_costs_the_backup_from_earlier_only() {
    let mut host = Host::new()
        .with("bin/tool.exe", b"v2")
        .with("bin/tool.exe.old", b"v1")
        .with("bin/tool.exe.new", b"v3")
        .failing("rename bin/tool.exe.new bin/tool.exe");
    let error = install(&mut host, "bin/tool.exe", "bin/tool.exe.new").unwrap_err();
    assert_eq!(error.kind, ErrorKind::ActivationFailed);
    assert_eq!(host.get("bin/tool.exe"), Some(b"v2".to_vec()));
    assert_eq!(host.get("bin/tool.exe.new"), Some(b"v3".to_vec()));
    assert!(!host.has("bin/tool.exe.old"));
}

#[test]
fn install_leaves_out_what_follows_the_file_name() {
    let mut host = Host::new().with("bin/tool.exe", b"v1").with("bin/tool.exe.new", b"v2");
    install(&mut host, "bin/tool.exe/.", "bin/tool.exe.new").unwrap();
    assert_eq!(host.get("bin/tool.exe"), Some(b"v2".to_vec()));
    assert_eq!(host.get("bin/tool.exe.old"), Some(b"v1".to_vec()));
    assert_eq!(host.files.len(), 2);
}

#[test]
fn failed_activation_and_failed_recovery_are_told_apart() {
    let mut host = Host::new()
        .with("bin/tool.exe", b"v1")
        .with("bin/tool.exe.new", b"v2")
        .failing("rename bin/tool.exe.new bin/tool.exe")
        .failing("rename bin/tool.exe.old bin/tool.exe");
    let error = install(&mut host, "bin/tool.exe", "bin/tool.exe.new").unwrap_err();
    assert_eq!(error.kind, ErrorKind::ActivationUnrecovered);
    assert_eq!(
        error.message,
        "Failed to activate new file bin/tool.exe.new -> bin/tool.exe: boom; the previous file could not be put back, it is kept at bin/tool.exe.old: boom"
    );
    assert!(!host.has("bin/tool.exe"));
    assert_eq!(host.get("bin/tool.exe.old"), Some(b"v1".to_vec()));
    assert_eq!(error.kind.class(), ErrorClass::Install);
}

#[test]
fn install_refuses_a_target_that_names_no_file() {
    let mut host = Host::new();
    let error = install(&mut host, "bin/..", "x.new").unwrap_err();
    assert_eq!(error.kind, ErrorKind::InvalidPath);
    assert_eq!(error.message, "Invalid target path: bin/..");
    assert!(host.log.is_empty());
    assert_eq!(error.to_text(), "Invalid target path: bin/..");
}

// ---- rollback ----

fn rollback(host: &mut Host, tool: &str, dirs: &[&str]) -> Result<Vec<String>, EngineError> {
    let table = ToolTable::standard();
    drive(host, rollback_tool(&table, tool, &names(dirs), '/'), Rollback::step)
}

#[test]
fn rollback_after_install_brings_the_old_content_back() {
    let mut host = Host::new().with("bin/yt-dlp.exe", b"old").with("bin/yt-dlp.exe.new", b"new");
    install(&mut host, "bin/yt-dlp.exe", "bin/yt-dlp.exe.new").unwrap();
    let restored = rollback(&mut host, "yt-dlp", &["bin"]).unwrap();
    assert_eq!(restored, vec!["yt-dlp.exe (bin)"]);
    assert_eq!(host.get("bin/yt-dlp.exe"), Some(b"old".to_vec()));
    assert_eq!(host.files.len(), 1);
}

#[test]
fn rollback_of_a_tool_undoes_the_install_of_one_of_its_binaries() {
    let mut host = Host::new()
        .with("d/ffmpeg.exe", b"C0")
        .with("d/ffmpeg.exe.new", b"C1")
        .with("d/ffprobe.exe", b"probe")
        .with("e/ffmpeg.exe", b"other");
    install(&mut host, "d/ffmpeg.exe", "d/ffmpeg.exe.new").unwrap();
    let restored = rollback(&mut host, "ffmpeg", &["e", "d"]).unwrap();
    assert_eq!(restored, vec!["ffmpeg.exe (d)"]);
    assert_eq!(host.get("d/ffmpeg.exe"), Some(b"C0".to_vec()));
    assert_eq!(host.get("d/ffprobe.exe"), Some(b"probe".to_vec()));
    assert_eq!(host.get("e/ffmpeg.exe"), Some(b"other".to_vec()));
    assert!(!host.has("d/ffmpeg.exe.new"));
    assert!(!host.has("d/ffmpeg.exe.old"));
    assert!(!host.has("d/ffmpeg.exe.rollback-tmp"));
    assert_eq!(host.files.len(), 3);
}

#[test]
fn rollback_restores_only_what_has_a_backup() {
    let mut host = Host::new()
        .with("bin/ffmpeg.exe", b"ffmpeg 2")
        .with("bin/ffmpeg.exe.old", b"ffmpeg 1")
        .with("bin/ffprobe.exe", b"ffprobe 2");
    let restored = rollback(&mut host, "ffmpeg", &["bin"]).unwrap();
    assert_eq!(restored, vec!["ffmpeg.exe (bin)"]);
    assert_eq!(host.get("bin/ffmpeg.exe"), Some(b"ffmpeg 1".to_vec()));
    assert_eq!(host.get("bin/ffprobe.exe"), Some(b"ffprobe 2".to_vec()));
    assert_eq!(host.files.len(), 2);
    assert_eq!(rolled_back_message(&restored), "Rolled back: ffmpeg.exe (bin)");
}

#[test]
fn rollback_without_backups_changes_nothing() {
    let mut host = Host::new().with("bin/aria2c.exe", b"aria2").with_dir("bin");
    let before = host.files.clone();
    let error = rollback(&mut host, "aria2", &["bin", "other"]).unwrap_err();
    assert_eq!(error.kind, ErrorKind::NoBackupsFound);
    assert_eq!(error.message, "No backups found for aria2");
    assert_eq!(error.kind.class(), ErrorClass::Rollback);
    assert_eq!(host.files, before);
    assert_eq!(host.log, vec!["exists bin/aria2c.exe.old", "exists other/aria2c.exe.old"]);
}

#[test]
fn rollback_of_an_unknown_tool_is_refused() {
    let mut host = Host::new();
    let error = rollback(&mut host, "curl", &["bin"]).unwrap_err();
    assert_eq!(error.kind, ErrorKind::UnknownTool);
    assert_eq!(error.message, "Unknown tool: curl");
    assert_eq!(error.kind.class(), ErrorClass::Config);
    assert!(host.log.is_empty());
}

#[test]
fn rollback_in_several_directories_lists_each_restored_binary() {
    let mut host = Host::new()
        .with("a/ffmpeg.exe.old", b"1")
        .with("b/ffmpeg.exe", b"2")
        .with("b/ffprobe.exe.old", b"3");
    let restored = rollback(&mut host, "ffmpeg", &["a", "b"]).unwrap();
    assert_eq!(restored, vec!["ffmpeg.exe (a)", "ffprobe.exe (b)"]);
    assert_eq!(rolled_back_message(&restored), "Rolled back: ffmpeg.exe (a), ffprobe.exe (b)");
    assert_eq!(host.get("a/ffmpeg.exe"), Some(b"1".to_vec()));
    assert_eq!(host.get("b/ffprobe.exe"), Some(b"3".to_vec()));
    assert_eq!(host.get("b/ffmpeg.exe"), Some(b"2".to_vec()));
}

#[test]
fn failed_restore_moves_the_live_file_back() {
    let mut host = Host::new()
        .with("bin/deno.exe", b"new")
        .with("bin/deno.exe.old", b"old")
        .failing("rename bin/deno.exe.old bin/deno.exe");
    let before = host.files.clone();
    let error = rollback(&mut host, "deno", &["bin"]).unwrap_err();
    assert_eq!(error.kind, ErrorKind::RestoreFailed);
    assert_eq!(error.message, "Failed to restore backup for deno.exe: boom");
    assert_eq!(host.files, before);
}

#[test]
fn rollback_fails_when_the_live_file_cannot_be_moved_aside() {
    let mut host = Host::new()
        .with("bin/deno.exe", b"new")
        .with("bin/deno.exe.old", b"old")
        .failing("rename bin/deno.exe bin/deno.exe.rollback-tmp");
    let before = host.files.clone();
    let error = rollback(&mut host, "deno", &["bin"]).unwrap_err();
    assert_eq!(error.kind, ErrorKind::MoveAsideFailed);
    assert_eq!(error.message, "Failed to move current deno.exe aside: boom");
    assert_eq!(host.files, before);
}

#[test]
fn restoring_one_binary_says_whether_there_was_a_backup() {
    let mut host = Host::new().with("d/x", b"live");
    let (machine, request) = Restore::begin("d", "x", '/');
    let reply = host.perform(request);
    assert!(matches!(machine.step(reply), Step::Finished(Ok(false))));
    let mut host = Host::new().with("d/x.old", b"kept");
    let (machine, request) = Restore::begin("d", "x", '/');
    let restored = drive(&mut host, Step::Ask(machine, request), Restore::step).unwrap();
    assert!(restored);
    assert_eq!(host.get("d/x"), Some(b"kept".to_vec()));
}

// ---- the registry of backups ----

#[test]
fn tools_with_a_backup_are_listed_once() {
    let table = ToolTable::standard();
    let mut host = Host::new()
        .with_dir("a")
        .with_dir("b")
        .with("a/FFPROBE.EXE.old", b"1")
        .with("a/ffmpeg.exe.old", b"2")
        .with("a/readme.old", b"3")
        .with("a/yt-dlp.exe", b"4")
        .with("b/yt-dlp.exe.old", b"5")
        .with("b/ffmpeg.exe.old.old", b"6");
    let tools = drive(
        &mut host,
        list_tool_backups(&table, names(&["a", "missing", "b"])),
        ListBackups::step,
    )
    .unwrap();
    assert_eq!(tools, vec!["ffmpeg", "yt-dlp"]);
}

#[test]
fn cleanup_of_a_tool_deletes_its_backups_and_goes_on_past_failures() {
    let table = ToolTable::standard();
    let mut host = Host::new()
        .with("a/ffmpeg.exe.old", b"1")
        .with("a/ffprobe.exe.old", b"2")
        .with("b/ffmpeg.exe.old", b"3")
        .with("b/ffmpeg.exe", b"live")
        .failing("remove a/ffprobe.exe.old");
    let report = drive(
        &mut host,
        cleanup_tool_backup(&table, "ffmpeg", &names(&["a", "b"]), '/'),
        Cleanup::step,
    )
    .unwrap();
    assert_eq!(report.removed, vec!["ffmpeg.exe (a)", "ffmpeg.exe (b)"]);
    assert_eq!(report.failures, vec!["ffprobe.exe (a): boom"]);
    assert_eq!(report.count(), 2);
    assert_eq!(cleaned_message(&report), "Cleaned: ffmpeg.exe (a), ffmpeg.exe (b)");
    assert!(host.has("a/ffprobe.exe.old"));
    assert!(host.has("b/ffmpeg.exe"));
    assert_eq!(host.files.len(), 2);
}

#[test]
fn cleanup_of_an_unknown_tool_is_refused() {
    let table = ToolTable::standard();
    let mut host = Host::new();
    let error = drive(
        &mut host,
        cleanup_tool_backup(&table, "curl", &names(&["a"]), '/'),
        Cleanup::step,
    )
    .unwrap_err();
    assert_eq!(error.kind, ErrorKind::UnknownTool);
    assert_eq!(error.message, "Unknown tool: curl");
}

#[test]
fn cleanup_of_all_backups_counts_what_it_deleted() {
    let table = ToolTable::standard();
    let mut host = Host::new()
        .with_dir("a")
        .with_dir("b")
        .with("a/ffmpeg.exe.old", b"1")
        .with("a/notes.old", b"2")
        .with("a/deno.exe", b"3")
        .with("b/Aria2c.exe.old", b"4")
        .with("b/yt-dlp.exe.old", b"5")
        .failing("remove b/yt-dlp.exe.old");
    let report = drive(
        &mut host,
        cleanup_all_backups(&table, names(&["a", "gone", "b"]), '/'),
        Purge::step,
    )
    .unwrap();
    assert_eq!(report.removed, vec!["ffmpeg.exe.old", "Aria2c.exe.old"]);
    assert_eq!(report.failures, vec!["yt-dlp.exe.old: boom"]);
    assert_eq!(removed_message(&report), "Removed 2 backup file(s)");
    assert!(host.has("a/notes.old"));
    assert!(host.has("a/deno.exe"));
    assert!(host.has("b/yt-dlp.exe.old"));
    assert_eq!(host.files.len(), 3);
}

#[test]
fn a_listing_after_a_purge_finds_no_backup() {
    let table = ToolTable::standard();
    let mut host = Host::new()
        .with_dir("a")
        .with_dir("b")
        .with("a/ffmpeg.exe.old", b"1")
        .with("a/ffprobe.exe.old", b"2")
        .with("a/ffmpeg.exe", b"3")
        .with("b/deno.exe.old", b"4")
        .with("b/notes.old", b"5");
    let dirs = names(&["a", "b"]);
    let before = drive(&mut host, list_tool_backups(&table, dirs.clone()), ListBackups::step);
    assert_eq!(before.unwrap(), vec!["ffmpeg", "deno"]);
    let report =
        drive(&mut host, cleanup_all_backups(&table, dirs.clone(), '/'), Purge::step).unwrap();
    assert_eq!(report.removed.len(), 3);
    assert!(report.failures.is_empty());
    let after = drive(&mut host, list_tool_backups(&table, dirs), ListBackups::step);
    assert_eq!(after.unwrap(), Vec::<String>::new());
    assert!(host.has("a/ffmpeg.exe"));
    assert!(host.has("b/notes.old"));
    assert_eq!(host.files.len(), 2);
}

#[test]
fn backup_directories_are_taken_once_and_only_if_they_exist() {
    let mut host = Host::new().with_dir("app/bin").with_dir("C:\\tools").with_dir("/");
    let dirs = drive(
        &mut host,
        collect_backup_dirs(
            Some("app/bin".to_string()),
            &names(&[
                "C:\\tools\\ffmpeg.exe",
                "app/bin/yt-dlp.exe",
                "gone/deno.exe",
                "C:\\tools\\ffprobe.exe",
                "/aria2c.exe",
                "plain.exe",
            ]),
        ),
        CollectDirs::step,
    )
    .unwrap();
    assert_eq!(dirs, vec!["app/bin", "C:\\tools", "/"]);
    let mut host = Host::new();
    let dirs = drive(
        &mut host,
        collect_backup_dirs(None, &names(&["a/b.exe"])),
        CollectDirs::step,
    )
    .unwrap();
    assert!(dirs.is_empty());
}

// ---- download ----

fn download(host: &mut Host, dest: &str) -> Result<(), EngineError> {
    drive(host, download_file("tool", "https://example.org/tool.exe", dest), Download::step)
}

#[test]
fn download_that_succeeds_at_the_third_attempt_holds_the_third_body() {
    let mut host = Host::new().with("bin/tool.exe", b"installed");
    host.responses.push_back(broken(200, vec![b"first ".to_vec(), b"try".to_vec()], 1));
    host.responses.push_back(broken(200, vec![b"second".to_vec()], 1));
    host.responses.push_back(response(200, None, vec![b"third ".to_vec(), b"body".to_vec()]));
    download(&mut host, "bin/tool.exe").unwrap();
    assert_eq!(host.get("bin/tool.exe.new"), Some(b"third body".to_vec()));
    assert_eq!(host.get("bin/tool.exe"), Some(b"installed".to_vec()));
    let statuses: Vec<&str> = host.events.iter().map(|e| e.2.as_str()).collect();
    assert_eq!(
        statuses,
        vec!["Retrying download (attempt 2/3)...", "Retrying download (attempt 3/3)..."]
    );
    assert!(host.events.iter().all(|e| e.0 == "tool" && e.1 == Percentage::Fixed(0)));
    install(&mut host, "bin/tool.exe", "bin/tool.exe.new").unwrap();
    assert_eq!(host.get("bin/tool.exe"), Some(b"third body".to_vec()));
    assert_eq!(host.get("bin/tool.exe.old"), Some(b"installed".to_vec()));
}

#[test]
fn download_gives_up_after_three_attempts_with_the_last_error() {
    let mut host = Host::new();
    host.responses.push_back(unreachable_server("timeout"));
    host.responses.push_back(response(503, None, vec![]));
    host.responses.push_back(response(404, None, vec![]));
    host.responses.push_back(response(200, None, vec![b"late".to_vec()]));
    let error = download(&mut host, "bin/tool.exe").unwrap_err();
    assert_eq!(error.kind, ErrorKind::Network);
    assert_eq!(error.message, "Download failed with status: 404");
    assert_eq!(error.kind.class(), ErrorClass::Network);
    assert_eq!(host.events.len(), 2);
    assert_eq!(host.responses.len(), 1);
    assert!(host.files.is_empty());
}

#[test]
fn download_of_nothing_is_an_error_and_leaves_no_staging_file() {
    let mut host = Host::new().with("bin/tool.exe", b"installed");
    for _ in 0..3 {
        host.responses.push_back(response(200, Some(0), vec![]));
    }
    let error = download(&mut host, "bin/tool.exe").unwrap_err();
    assert_eq!(error.kind, ErrorKind::EmptyDownload);
    assert_eq!(error.message, "Downloaded file is empty");
    assert_eq!(error.kind.class(), ErrorClass::Integrity);
    assert!(!host.has("bin/tool.exe.new"));
    assert_eq!(host.get("bin/tool.exe"), Some(b"installed".to_vec()));
}

#[test]
fn download_starts_from_an_empty_staging_file() {
    let mut host = Host::new().with("bin/tool.exe.new", b"stale bytes of an earlier run");
    host.responses.push_back(response(200, None, vec![b"fresh".to_vec()]));
    download(&mut host, "bin/tool.exe").unwrap();
    assert_eq!(host.get("bin/tool.exe.new"), Some(b"fresh".to_vec()));
    assert!(host.events.is_empty());
}

#[test]
fn download_reports_each_percent_and_the_end() {
    let mut host = Host::new();
    let mut chunks = Vec::new();
    for _ in 0..100 {
        chunks.push(vec![7u8; 5]);
    }
    host.responses.push_back(response(200, Some(500), chunks));
    download(&mut host, "bin/tool.exe").unwrap();
    assert_eq!(host.events.len(), 100);
    assert_eq!(
        host.events[0],
        (
            "tool".to_string(),
            Percentage::Ratio { received: 5, total: 500 },
            "Downloading...".to_string()
        )
    );
    assert_eq!(host.events[99].1, Percentage::Ratio { received: 500, total: 500 });

    let mut host = Host::new();
    let mut chunks = Vec::new();
    for _ in 0..10 {
        chunks.push(vec![7u8; 3]);
    }
    host.responses.push_back(response(200, Some(1000), chunks));
    download(&mut host, "bin/tool.exe").unwrap();
    let seen: Vec<Percentage> = host.events.iter().map(|e| e.1).collect();
    assert_eq!(
        seen,
        vec![
            Percentage::Ratio { received: 12, total: 1000 },
            Percentage::Ratio { received: 24, total: 1000 },
        ]
    );
}

#[test]
fn download_of_unknown_length_is_not_reported() {
    let mut host = Host::new();
    host.responses.push_back(response(200, None, vec![vec![1u8; 10], vec![2u8; 10]]));
    download(&mut host, "bin/tool.exe").unwrap();
    assert!(host.events.is_empty());
    assert_eq!(host.get("bin/tool.exe.new").map(|c| c.len()), Some(20));
}

#[test]
fn download_longer_than_announced_is_reported_as_complete() {
    let mut host = Host::new();
    host.responses.push_back(response(200, Some(4), vec![vec![1u8; 10]]));
    download(&mut host, "bin/tool.exe").unwrap();
    assert_eq!(host.events.len(), 1);
    assert_eq!(host.events[0].1, Percentage::Ratio { received: 4, total: 4 });
}

#[test]
fn download_fails_when_the_staging_file_cannot_be_created() {
    let mut host = Host::new();
    for _ in 0..3 {
        host.fail_once.push("create bin/tool.exe.new".to_string());
        host.responses.push_back(response(200, None, vec![b"x".to_vec()]));
    }
    let error = download(&mut host, "bin/tool.exe").unwrap_err();
    assert_eq!(error.kind, ErrorKind::StagingFailed);
    assert_eq!(error.message, "boom");
}

#[test]
fn download_refuses_a_target_that_names_no_file() {
    let mut host = Host::new();
    let error = download(&mut host, "bin/..").unwrap_err();
    assert_eq!(error.kind, ErrorKind::InvalidPath);
    assert_eq!(error.message, "Invalid target path: bin/..");
    assert!(host.log.is_empty());
}

// ---- sessions ----

fn zip_of(members: &[(&str, &[u8])]) -> Vec<u8> {
    let mut writer = zip::ZipWriter::new(std::io::Cursor::new(Vec::new()));
    for (name, content) in members {
        writer.start_file(*name, zip::write::SimpleFileOptions::default()).unwrap();
        writer.write_all(content).unwrap();
    }
    writer.finish().unwrap().into_inner()
}

#[test]
fn update_of_a_single_binary_downloads_and_installs_it() {
    let mut host = Host::new().with_dir("tools").with("tools/yt-dlp.exe", b"old");
    host.responses.push_back(response(200, Some(3), vec![b"new".to_vec()]));
    let reports = drive(
        &mut host,
        update_tool_at_path("yt-dlp", "tools", None, Some("nightly"), '/'),
        Session::step,
    )
    .unwrap();
    assert_eq!(reports.len(), 1);
    assert!(reports[0].extracted.is_empty());
    assert_eq!(reports[0].warning, None);
    assert_eq!(host.get("tools/yt-dlp.exe"), Some(b"new".to_vec()));
    assert_eq!(host.get("tools/yt-dlp.exe.old"), Some(b"old".to_vec()));
    assert!(host.log.contains(
        &"open https://github.com/yt-dlp/yt-dlp-nightly-builds/releases/latest/download/yt-dlp.exe"
            .to_string()
    ));
    assert_eq!(updated_message("yt-dlp", "tools"), "yt-dlp updated at tools");
}

#[test]
fn update_of_an_archived_tool_extracts_and_deletes_the_archive() {
    let archive = zip_of(&[("deno.exe", b"deno 2"), ("LICENSE", b"text")]);
    let mut host = Host::new().with_dir("tools").with("tools/deno.exe", b"deno 1");
    host.responses.push_back(response(200, None, vec![archive]));
    let reports = drive(
        &mut host,
        update_tool_at_path("deno", "tools", None, None, '/'),
        Session::step,
    )
    .unwrap();
    assert_eq!(reports[0].extracted, vec!["deno.exe"]);
    assert_eq!(reports[0].warning, None);
    assert_eq!(host.get("tools/deno.exe"), Some(b"deno 2".to_vec()));
    assert_eq!(host.get("tools/deno.exe.old"), Some(b"deno 1".to_vec()));
    assert_eq!(host.files.len(), 2);
    let statuses: Vec<&str> = host.events.iter().map(|e| e.2.as_str()).collect();
    assert_eq!(
        statuses,
        vec![
            "Extracting deno.exe...",
            "Opening archive...",
            "Scanning 2 files...",
            "Extracting deno.exe...",
            "Extracted: deno.exe"
        ]
    );
    assert_eq!(host.events[0].1, Percentage::Fixed(99));
    assert_eq!(host.events[4].1, Percentage::Fixed(100));
    assert!(host.log.contains(
        &"open https://github.com/denoland/deno/releases/latest/download/deno-x86_64-pc-windows-msvc.zip"
            .to_string()
    ));
}

#[test]
fn update_warns_when_the_archive_cannot_be_deleted() {
    let archive = zip_of(&[("deno.exe", b"deno 2")]);
    let mut host =
        Host::new().with_dir("tools").failing("remove tools/deno-update.zip");
    host.responses.push_back(response(200, None, vec![archive]));
    let reports = drive(
        &mut host,
        update_tool_at_path("deno", "tools", None, None, '/'),
        Session::step,
    )
    .unwrap();
    assert_eq!(
        reports[0].warning,
        Some("failed to clean up tools/deno-update.zip: boom".to_string())
    );
    assert!(host.has("tools/deno-update.zip"));
    assert_eq!(host.get("tools/deno.exe"), Some(b"deno 2".to_vec()));
}

#[test]
fn update_asks_the_release_service_for_aria2_and_falls_back() {
    let archive = zip_of(&[("aria2-1.37.0/aria2c.exe", b"aria2")]);
    let mut host = Host::new().with_dir("tools");
    host.api = Some(HostReply::Text {
        code: 200,
        body: "{\"assets\":[{\"name\":\"aria2-1.38.0-win-64bit-build1.zip\",\"browser_download_url\":\"https://example.org/aria2.zip\"}]}".to_string(),
    });
    host.responses.push_back(response(200, None, vec![archive.clone()]));
    drive(&mut host, update_tool_at_path("aria2", "tools", None, None, '/'), Session::step)
        .unwrap();
    assert_eq!(host.get("tools/aria2c.exe"), Some(b"aria2".to_vec()));
    assert!(host.log.contains(
        &"get https://api.github.com/repos/aria2/aria2/releases/latest application/vnd.github+json"
            .to_string()
    ));
    assert!(host.log.contains(&"open https://example.org/aria2.zip".to_string()));

    let mut host = Host::new().with_dir("tools");
    host.responses.push_back(response(200, None, vec![archive]));
    drive(&mut host, update_tool_at_path("aria2", "tools", None, None, '/'), Session::step)
        .unwrap();
    assert!(host.log.contains(
        &"open https://github.com/aria2/aria2/releases/download/release-1.37.0/aria2-1.37.0-win-64bit-build1.zip"
            .to_string()
    ));
}

#[test]
fn update_needs_the_directory_and_a_known_tool() {
    let mut host = Host::new();
    let error = drive(
        &mut host,
        update_tool_at_path("curl", "nowhere", None, None, '/'),
        Session::step,
    )
    .unwrap_err();
    assert_eq!(error.kind, ErrorKind::MissingDirectory);
    assert_eq!(error.message, "Directory does not exist: nowhere");
    let mut host = Host::new().with_dir("tools");
    let error = drive(
        &mut host,
        update_tool_at_path("curl", "tools", None, None, '/'),
        Session::step,
    )
    .unwrap_err();
    assert_eq!(error.kind, ErrorKind::UnknownTool);
    assert_eq!(error.message, "Unknown tool: curl");
}

#[test]
fn update_is_not_retried_when_the_extraction_fails() {
    let archive = zip_of(&[("README", b"no binary here")]);
    let mut host = Host::new().with_dir("tools");
    host.responses.push_back(response(200, None, vec![archive.clone()]));
    host.responses.push_back(response(200, None, vec![archive]));
    let error = drive(
        &mut host,
        update_tool_at_path("deno", "tools", None, None, '/'),
        Session::step,
    )
    .unwrap_err();
    assert_eq!(error.kind, ErrorKind::MissingMembers);
    assert_eq!(error.message, "Missing files. Found [], expected [\"deno.exe\"]");
    assert_eq!(error.kind.class(), ErrorClass::Archive);
    assert_eq!(host.responses.len(), 1);
}

#[test]
fn tools_are_fetched_in_a_fixed_order_from_their_channels() {
    let mut host = Host::new();
    host.responses.push_back(response(200, None, vec![b"yt".to_vec()]));
    host.responses.push_back(response(200, None, vec![zip_of(&[("deno.exe", b"deno")])]));
    let channels = vec![
        ChannelChoice { tool: "yt-dlp".to_string(), channel: "nightly".to_string() },
        ChannelChoice { tool: "deno".to_string(), channel: "nightly".to_string() },
    ];
    let reports = drive(
        &mut host,
        download_tools(&names(&["deno", "wget", "yt-dlp"]), &channels, "app/bin", '/'),
        Session::step,
    )
    .unwrap();
    assert_eq!(reports.len(), 2);
    assert!(host.dirs.contains("app/bin"));
    assert_eq!(host.get("app/bin/yt-dlp.exe"), Some(b"yt".to_vec()));
    assert_eq!(host.get("app/bin/deno.exe"), Some(b"deno".to_vec()));
    let opened: Vec<&String> = host.log.iter().filter(|l| l.starts_with("open ")).collect();
    assert_eq!(
        opened,
        vec![
            "open https://github.com/yt-dlp/yt-dlp-nightly-builds/releases/latest/download/yt-dlp.exe",
            "open https://github.com/denoland/deno/releases/latest/download/deno-x86_64-pc-windows-msvc.zip",
        ]
    );
    assert!(host.log.contains(&"remove app/bin/deno.zip".to_string()));
    assert_eq!(downloaded_message(), "Selected tools downloaded successfully");
}

#[test]
fn fetching_stops_at_the_first_failure() {
    let mut host = Host::new().with_dir("app/bin");
    for _ in 0..3 {
        host.responses.push_back(response(500, None, vec![]));
    }
    host.responses.push_back(response(200, None, vec![zip_of(&[("deno.exe", b"deno")])]));
    let error = drive(
        &mut host,
        download_tools(&names(&["yt-dlp", "deno"]), &Vec::new(), "app/bin", '/'),
        Session::step,
    )
    .unwrap_err();
    assert_eq!(error.message, "Download failed with status: 500");
    assert!(!host.has("app/bin/deno.exe"));
    assert_eq!(host.responses.len(), 1);
}

#[test]
fn fetching_fails_when_the_directory_cannot_be_created() {
    let mut host = Host::new().failing("mkdir app/bin");
    let error = drive(
        &mut host,
        download_tools(&names(&["yt-dlp"]), &Vec::new(), "app/bin", '/'),
        Session::step,
    )
    .unwrap_err();
    assert_eq!(error.kind, ErrorKind::MissingDirectory);
    assert_eq!(error.message, "boom");
}

// ---- a binary handed in by the user ----

fn stage(host: &mut Host, tool: &str, source: &str) -> Result<String, EngineError> {
    let table = ToolTable::standard();
    drive(host, stage_manual_tool(&table, tool, source, "app/bin", '/'), ManualInstall::step)
}

#[test]
fn a_binary_handed_in_is_installed_with_its_sidecar() {
    let mut host = Host::new()
        .with("downloads/FFmpeg.exe", b"ffmpeg")
        .with("downloads/ffprobe.exe", b"ffprobe")
        .with("app/bin/ffmpeg.exe", b"old")
        .with("app/bin/ffmpeg.exe.new", b"stale");
    let path = stage(&mut host, "ffmpeg", "downloads/FFmpeg.exe").unwrap();
    assert_eq!(path, "app/bin/ffmpeg.exe");
    assert!(host.dirs.contains("app/bin"));
    assert_eq!(host.get("app/bin/ffmpeg.exe"), Some(b"ffmpeg".to_vec()));
    assert_eq!(host.get("app/bin/ffmpeg.exe.old"), Some(b"old".to_vec()));
    assert_eq!(host.get("app/bin/ffprobe.exe"), Some(b"ffprobe".to_vec()));
    assert!(!host.has("app/bin/ffmpeg.exe.new"));
    assert_eq!(host.get("downloads/FFmpeg.exe"), Some(b"ffmpeg".to_vec()));
}

#[test]
fn a_binary_without_sidecar_is_installed_alone() {
    let mut host = Host::new().with_dir("app/bin").with("dl/yt-dlp.exe", b"yt");
    assert_eq!(stage(&mut host, "yt-dlp", "dl/yt-dlp.exe").unwrap(), "app/bin/yt-dlp.exe");
    assert_eq!(host.files.len(), 2);
    let mut host = Host::new().with_dir("app/bin").with("dl/ffmpeg.exe", b"ff");
    assert_eq!(stage(&mut host, "ffmpeg", "dl/ffmpeg.exe").unwrap(), "app/bin/ffmpeg.exe");
    assert!(!host.has("app/bin/ffprobe.exe"));
}

#[test]
fn a_binary_handed_in_must_exist_be_a_file_and_bear_the_right_name() {
    let mut host = Host::new();
    let error = stage(&mut host, "curl", "dl/curl.exe").unwrap_err();
    assert_eq!(error.kind, ErrorKind::UnusableSource);
    assert_eq!(error.message, "Source path does not exist");

    let mut host = Host::new().with_dir("dl/deno.exe");
    let error = stage(&mut host, "deno", "dl/deno.exe").unwrap_err();
    assert_eq!(error.message, "Source path is not a file");

    let mut host = Host::new().with("dl/curl.exe", b"curl");
    let error = stage(&mut host, "curl", "dl/curl.exe").unwrap_err();
    assert_eq!(error.kind, ErrorKind::UnknownTool);
    assert_eq!(error.message, "Unsupported tool id");

    let mut host = Host::new().with("dl/deno-1.exe", b"deno");
    let error = stage(&mut host, "deno", "dl/deno-1.exe").unwrap_err();
    assert_eq!(error.kind, ErrorKind::UnusableSource);
    assert_eq!(
        error.message,
        "Expected 'deno.exe' but got 'deno-1.exe'. Please select the correct binary."
    );
    assert_eq!(host.files.len(), 1);
}

#[test]
fn an_empty_binary_handed_in_is_refused() {
    let mut host = Host::new().with("dl/deno.exe", b"").with("app/bin/deno.exe", b"live");
    let error = stage(&mut host, "deno", "dl/deno.exe").unwrap_err();
    assert_eq!(error.kind, ErrorKind::EmptyFile);
    assert_eq!(error.message, "Copied file is empty");
    assert!(!host.has("app/bin/deno.exe.new"));
    assert_eq!(host.get("app/bin/deno.exe"), Some(b"live".to_vec()));
}

#[test]
fn a_binary_that_cannot_be_copied_is_refused() {
    let mut host =
        Host::new().with("dl/deno.exe", b"deno").failing("copy dl/deno.exe app/bin/deno.exe.new");
    let error = stage(&mut host, "deno", "dl/deno.exe").unwrap_err();
    assert_eq!(error.kind, ErrorKind::StagingFailed);
    assert_eq!(error.message, "Failed to copy file: boom");
}
