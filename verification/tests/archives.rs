use std::collections::BTreeMap;
use std::io::{Read, Write};

use tool_updater::archive::ArchiveMember;
use tool_updater::errors::{EngineError, ErrorKind};
use tool_updater::extract::{extract_from_7z, extract_from_zip, Extraction};
use tool_updater::files::{HostReply, HostRequest};
use tool_updater::protocol::Step;

/// A host that keeps its files in memory and knows the file operations of an
/// extraction.
struct Disk {
    files: BTreeMap<String, Vec<u8>>,
    statuses: Vec<String>,
    written: Vec<String>,
    refuse_write: bool,
}

impl Disk {
    fn new() -> Disk {
        Disk { files: BTreeMap::new(), statuses: Vec::new(), written: Vec::new(), refuse_write: false }
    }

    fn with(mut self, path: &str, content: &[u8]) -> Disk {
        self.files.insert(path.to_string(), content.to_vec());
        self
    }

    fn perform(&mut self, request: HostRequest) -> HostReply {
        match request {
            HostRequest::Exists { path } => HostReply::Found(self.files.contains_key(&path)),
            HostRequest::Remove { path } => match self.files.remove(&path) {
                Some(_) => HostReply::Done,
                None => HostReply::Failed("no such file".to_string()),
            },
            HostRequest::Rename { from, to } => match self.files.remove(&from) {
                Some(content) => {
                    self.files.insert(to, content);
                    HostReply::Done
                }
                None => HostReply::Failed("no such file".to_string()),
            },
            HostRequest::Write { path, content } => {
                if self.refuse_write {
                    return HostReply::Failed("disk full".to_string());
                }
                self.written.push(path.clone());
                self.files.insert(path, content);
                HostReply::Done
            }
            HostRequest::Notify { event } => {
                self.statuses.push(event.status);
                HostReply::Done
            }
            _ => HostReply::Failed("not expected here".to_string()),
        }
    }
}

fn drive(disk: &mut Disk, first: Step<Extraction, Vec<String>>) -> Result<Vec<String>, EngineError> {
    let mut current = first;
    loop {
        match current {
            Step::Finished(result) => return result,
            Step::Ask(machine, request) => {
                let reply = disk.perform(request);
                current = machine.step(reply);
            }
        }
    }
}

fn names(list: &[&str]) -> Vec<String> {
    list.iter().map(|s| s.to_string()).collect()
}

fn zip_of(members: &[(&str, &[u8])]) -> Vec<u8> {
    let mut writer = zip::ZipWriter::new(std::io::Cursor::new(Vec::new()));
    for (name, content) in members {
        writer.start_file(*name, zip::write::SimpleFileOptions::default()).unwrap();
        writer.write_all(content).unwrap();
    }
    writer.finish().unwrap().into_inner()
}

fn sevenz_of(members: &[(&str, &[u8])]) -> Vec<u8> {
    let mut writer = sevenz_rust::SevenZWriter::new(std::io::Cursor::new(Vec::new())).unwrap();
    for (name, content) in members {
        let mut entry = sevenz_rust::SevenZArchiveEntry::new();
        entry.name = name.to_string();
        entry.has_stream = true;
        writer.push_archive_entry(entry, Some(std::io::Cursor::new(content.to_vec()))).unwrap();
    }
    writer.finish().unwrap().into_inner()
}

fn unzip(disk: &mut Disk, archive: Vec<u8>, targets: &[&str]) -> Result<Vec<String>, EngineError> {
    drive(disk, extract_from_zip("ffmpeg", archive, "bin", names(targets), '/'))
}

/// Unpacks a 7z archive, as a host does.
fn unpack(bytes: Vec<u8>) -> Result<Vec<ArchiveMember>, String> {
    let len = bytes.len() as u64;
    let mut reader = sevenz_rust::SevenZReader::new(
        std::io::Cursor::new(bytes),
        len,
        sevenz_rust::Password::empty(),
    )
    .map_err(|e| e.to_string())?;
    let mut members = Vec::new();
    reader
        .for_each_entries(|entry, data| {
            let mut content = Vec::new();
            data.read_to_end(&mut content)?;
            members.push(ArchiveMember { name: entry.name().to_string(), data: content });
            Ok(true)
        })
        .map_err(|e| e.to_string())?;
    Ok(members)
}

fn un7z(disk: &mut Disk, archive: Vec<u8>, targets: &[&str]) -> Result<Vec<String>, EngineError> {
    drive(disk, extract_from_7z("ffmpeg", unpack(archive), "bin", names(targets), '/'))
}

#[test]
fn only_the_wanted_members_of_a_zip_are_installed() {
    let archive = zip_of(&[
        ("ffmpeg.exe", b"ffmpeg"),
        ("ffprobe.exe", b"ffprobe"),
        ("README.txt", b"read me"),
    ]);
    let mut disk = Disk::new().with("bin/ffmpeg.exe", b"old");
    let mut found = unzip(&mut disk, archive, &["ffmpeg.exe", "ffprobe.exe"]).unwrap();
    found.sort();
    assert_eq!(found, vec!["ffmpeg.exe", "ffprobe.exe"]);
    assert_eq!(disk.files.get("bin/ffmpeg.exe"), Some(&b"ffmpeg".to_vec()));
    assert_eq!(disk.files.get("bin/ffprobe.exe"), Some(&b"ffprobe".to_vec()));
    assert_eq!(disk.files.get("bin/ffmpeg.exe.old"), Some(&b"old".to_vec()));
    assert_eq!(disk.files.len(), 3);
    assert_eq!(disk.written, vec!["bin/ffmpeg.exe.new", "bin/ffprobe.exe.new"]);
    assert_eq!(
        disk.statuses,
        vec![
            "Opening archive...",
            "Scanning 3 files...",
            "Extracting ffmpeg.exe...",
            "Extracting ffprobe.exe..."
        ]
    );
}

#[test]
fn members_are_matched_by_file_name_whatever_their_directory_and_case() {
    let archive = zip_of(&[
        ("ffmpeg-7.1/doc/ffmpeg.exe.txt", b"doc"),
        ("ffmpeg-7.1/bin/FFmpeg.EXE", b"ffmpeg"),
        ("ffmpeg-7.1\\bin\\ffprobe.exe", b"ffprobe"),
    ]);
    let mut disk = Disk::new();
    let found = unzip(&mut disk, archive, &["ffmpeg.exe", "FFPROBE.exe"]).unwrap();
    assert_eq!(found, vec!["FFmpeg.EXE", "ffprobe.exe"]);
    assert_eq!(disk.files.get("bin/FFmpeg.EXE"), Some(&b"ffmpeg".to_vec()));
    assert_eq!(disk.files.get("bin/ffprobe.exe"), Some(&b"ffprobe".to_vec()));
    assert_eq!(disk.files.len(), 2);
}

#[test]
fn two_members_of_one_name_do_not_stand_for_two_targets() {
    let archive = zip_of(&[("a/x.exe", b"first"), ("b/x.exe", b"second")]);
    let mut disk = Disk::new();
    let error = unzip(&mut disk, archive, &["x.exe", "y.exe"]).unwrap_err();
    assert_eq!(error.kind, ErrorKind::MissingMembers);
    assert_eq!(error.message, "Missing files. Found [\"x.exe\", \"x.exe\"], expected [\"x.exe\", \"y.exe\"]");
    assert_eq!(disk.files.get("bin/y.exe"), None);
    let members = vec![
        ArchiveMember { name: "a/x.exe".to_string(), data: b"first".to_vec() },
        ArchiveMember { name: "b/x.exe".to_string(), data: b"second".to_vec() },
    ];
    let mut disk = Disk::new();
    let first = extract_from_7z("tool", Ok(members), "bin", names(&["x.exe", "y.exe"]), '/');
    let error = drive(&mut disk, first).unwrap_err();
    assert_eq!(error.kind, ErrorKind::MissingMembers);
    assert_eq!(
        error.message,
        "Missing files from 7z. Found [\"x.exe\", \"x.exe\"], expected [\"x.exe\", \"y.exe\"]"
    );
}

#[test]
fn names_in_the_failure_are_quoted_and_escaped() {
    let archive = zip_of(&[("other.txt", b"text")]);
    let mut disk = Disk::new();
    let error = unzip(&mut disk, archive, &["a\"b.exe"]).unwrap_err();
    assert_eq!(error.message, "Missing files. Found [], expected [\"a\\\"b.exe\"]");
}

#[test]
fn a_member_that_leads_out_of_the_directory_is_passed_over() {
    let archive = zip_of(&[("../ffmpeg.exe", b"outside"), ("/abs/ffprobe.exe", b"absolute")]);
    let mut disk = Disk::new();
    let error = unzip(&mut disk, archive, &["ffmpeg.exe", "ffprobe.exe"]).unwrap_err();
    assert_eq!(error.kind, ErrorKind::MissingMembers);
    assert_eq!(
        error.message,
        "Missing files. Found [], expected [\"ffmpeg.exe\", \"ffprobe.exe\"]"
    );
    assert!(disk.written.is_empty());
    let archive = zip_of(&[("../ffmpeg.exe", b"outside"), ("in/ffmpeg.exe", b"inside")]);
    let mut disk = Disk::new();
    assert_eq!(unzip(&mut disk, archive, &["ffmpeg.exe"]).unwrap(), vec!["ffmpeg.exe"]);
    assert_eq!(disk.files.get("bin/ffmpeg.exe"), Some(&b"inside".to_vec()));
}

#[test]
fn a_7z_that_could_not_be_unpacked_is_refused_after_the_opening_notice() {
    let mut disk = Disk::new();
    let first = extract_from_7z("tool", Err("bad header".to_string()), "bin", names(&["x"]), '/');
    let error = drive(&mut disk, first).unwrap_err();
    assert_eq!(error.kind, ErrorKind::UnreadableArchive);
    assert_eq!(error.message, "7z extraction failed: bad header");
    assert_eq!(disk.statuses, vec!["Opening 7z archive..."]);
}

#[test]
fn every_target_of_a_zip_with_members_of_different_names_is_installed() {
    let archive = zip_of(&[
        ("x/Deno.EXE", b"deno"),
        ("x/notes/deno.exe.txt", b"notes"),
        ("y/aria2c.exe", b"aria2c"),
    ]);
    let mut disk = Disk::new();
    let found = unzip(&mut disk, archive, &["aria2c.exe", "deno.exe"]).unwrap();
    assert_eq!(found.len(), 2);
    for target in ["aria2c.exe", "deno.exe"] {
        let name = found.iter().find(|n| n.eq_ignore_ascii_case(target)).unwrap();
        assert!(!disk.files.get(&format!("bin/{}", name)).unwrap().is_empty());
    }
}

#[test]
fn a_zip_that_lacks_a_member_is_an_error_after_the_others_were_installed() {
    let archive = zip_of(&[("ffmpeg.exe", b"ffmpeg"), ("notes.txt", b"notes")]);
    let mut disk = Disk::new();
    let error = unzip(&mut disk, archive, &["ffmpeg.exe", "ffprobe.exe"]).unwrap_err();
    assert_eq!(error.kind, ErrorKind::MissingMembers);
    assert_eq!(
        error.message,
        "Missing files. Found [\"ffmpeg.exe\"], expected [\"ffmpeg.exe\", \"ffprobe.exe\"]"
    );
    assert_eq!(disk.files.get("bin/ffmpeg.exe"), Some(&b"ffmpeg".to_vec()));
}

#[test]
fn an_empty_member_is_refused_and_never_written() {
    let archive = zip_of(&[("ffmpeg.exe", b""), ("ffprobe.exe", b"ffprobe")]);
    let mut disk = Disk::new().with("bin/ffmpeg.exe", b"live");
    let error = unzip(&mut disk, archive, &["ffmpeg.exe", "ffprobe.exe"]).unwrap_err();
    assert_eq!(error.kind, ErrorKind::EmptyFile);
    assert_eq!(error.message, "Extracted file ffmpeg.exe is empty");
    assert!(disk.written.is_empty());
    assert_eq!(disk.files.get("bin/ffmpeg.exe"), Some(&b"live".to_vec()));
    assert_eq!(disk.files.len(), 1);
}

#[test]
fn bytes_that_are_no_zip_are_refused() {
    let mut disk = Disk::new();
    let error = unzip(&mut disk, b"this is no archive".to_vec(), &["ffmpeg.exe"]).unwrap_err();
    assert_eq!(error.kind, ErrorKind::UnreadableArchive);
    assert!(error.message.starts_with("Failed to read zip archive: "));
    assert!(error.message.len() > "Failed to read zip archive: ".len());
    assert_eq!(disk.statuses, vec!["Opening archive..."]);
}

#[test]
fn a_member_with_a_broken_checksum_is_refused() {
    let mut archive = zip_of(&[("ffmpeg.exe", b"ffmpeg ffmpeg ffmpeg ffmpeg ffmpeg ffmpeg")]);
    // The member is the first thing in the archive: its header takes 30 bytes
    // and its name 10, then its data follows.
    archive[41] ^= 0xff;
    archive[42] ^= 0xff;
    let mut disk = Disk::new();
    let error = unzip(&mut disk, archive, &["ffmpeg.exe"]).unwrap_err();
    assert_eq!(error.kind, ErrorKind::UnreadableArchive);
    assert!(error.message.starts_with("Failed to extract file ffmpeg.exe: "));
    assert!(disk.written.is_empty());
}

#[test]
fn a_staging_file_that_cannot_be_written_ends_the_extraction() {
    let archive = zip_of(&[("ffmpeg.exe", b"ffmpeg")]);
    let mut disk = Disk::new();
    disk.refuse_write = true;
    let error = unzip(&mut disk, archive, &["ffmpeg.exe"]).unwrap_err();
    assert_eq!(error.kind, ErrorKind::StagingFailed);
    assert_eq!(error.message, "Failed to create output file ffmpeg.exe: disk full");
}

#[test]
fn an_archive_without_members_yields_nothing() {
    let archive = zip_of(&[]);
    let mut disk = Disk::new();
    assert_eq!(unzip(&mut disk, archive.clone(), &[]).unwrap(), Vec::<String>::new());
    assert_eq!(disk.statuses, vec!["Opening archive...", "Scanning 0 files..."]);
    let error = unzip(&mut disk, archive, &["deno.exe"]).unwrap_err();
    assert_eq!(error.message, "Missing files. Found [], expected [\"deno.exe\"]");
}

#[test]
fn only_the_wanted_members_of_a_7z_are_installed() {
    let archive = sevenz_of(&[
        ("ffmpeg-7.1/README.txt", b"read me"),
        ("ffmpeg-7.1/bin/ffmpeg.exe", b"ffmpeg"),
        ("ffmpeg-7.1/bin/ffplay.exe", b"ffplay"),
        ("ffmpeg-7.1/bin/ffprobe.exe", b"ffprobe"),
    ]);
    let mut disk = Disk::new().with("bin/ffprobe.exe", b"old");
    let mut found = un7z(&mut disk, archive, &["ffmpeg.exe", "ffprobe.exe"]).unwrap();
    found.sort();
    assert_eq!(found, vec!["ffmpeg.exe", "ffprobe.exe"]);
    assert_eq!(disk.files.get("bin/ffmpeg.exe"), Some(&b"ffmpeg".to_vec()));
    assert_eq!(disk.files.get("bin/ffprobe.exe"), Some(&b"ffprobe".to_vec()));
    assert_eq!(disk.files.get("bin/ffprobe.exe.old"), Some(&b"old".to_vec()));
    assert_eq!(disk.files.len(), 3);
    assert_eq!(disk.statuses[0], "Opening 7z archive...");
    assert_eq!(disk.statuses[1], "Scanning 4 files...");
}

#[test]
fn a_7z_that_lacks_a_member_is_an_error() {
    let archive = sevenz_of(&[("ffmpeg.exe", b"ffmpeg")]);
    let mut disk = Disk::new();
    let error = un7z(&mut disk, archive, &["ffmpeg.exe", "ffprobe.exe"]).unwrap_err();
    assert_eq!(error.kind, ErrorKind::MissingMembers);
    assert_eq!(
        error.message,
        "Missing files from 7z. Found [\"ffmpeg.exe\"], expected [\"ffmpeg.exe\", \"ffprobe.exe\"]"
    );
}

#[test]
fn bytes_that_are_no_7z_are_refused() {
    let mut disk = Disk::new();
    let error = un7z(&mut disk, b"this is no archive, not at all".to_vec(), &["ffmpeg.exe"])
        .unwrap_err();
    assert_eq!(error.kind, ErrorKind::UnreadableArchive);
    assert!(error.message.starts_with("7z extraction failed: "));
    assert!(error.message.len() > "7z extraction failed: ".len());
}
