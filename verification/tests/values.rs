use tool_updater::backups::{backups_in, owner_of_backup};
use tool_updater::catalog::{tool_id_for_binary, ToolEntry, ToolTable};
use tool_updater::errors::{EngineError, ErrorClass, ErrorKind};
use tool_updater::files::{HostReply, HostRequest};
use tool_updater::lookup::{first_path_line, is_whitespace, resolve_system_tool_path, strip_exe};
use tool_updater::manual::normalize;
use tool_updater::paths::{
    backup_path_for, file_name_of, is_file_path, join_path, parent_dir, rollback_path_for,
    temp_path_for, trim_path,
};
use tool_updater::plan::{update_plan, ArchiveKind};
use tool_updater::progress::{
    count, downloading_event, emit_progress, is_worth_reporting, Percentage,
};
use tool_updater::release::{
    address_of_asset, aria2_release_request, aria2_url_or_fallback, names_windows_zip,
    parse_json, resolve_latest_aria2_zip_url, select_aria2_asset, Json,
};
use tool_updater::version::{
    body_text, deno_version_request, fetch_latest_aria2_version, fetch_latest_deno_version,
    fetch_latest_ffmpeg_version, fetch_latest_ytdlp_version, ffmpeg_version_request,
    first_word_of, strip_leading, strip_release, trim_chars, ytdlp_version_request,
};
use tool_updater::text::{
    append_numeral, chars_of, concat2, concat3, contains_lowered, ends_with,
    eq_ignore_ascii_case, join, same_text, text_of, to_lower,
};

fn names(list: &[&str]) -> Vec<String> {
    list.iter().map(|s| s.to_string()).collect()
}

// ---- paths ----

#[test]
fn companions_of_a_path_bear_its_name_and_a_suffix() {
    assert_eq!(temp_path_for("bin/ffmpeg.exe").unwrap(), "bin/ffmpeg.exe.new");
    assert_eq!(backup_path_for("bin/ffmpeg.exe").unwrap(), "bin/ffmpeg.exe.old");
    assert_eq!(rollback_path_for("bin/ffmpeg.exe").unwrap(), "bin/ffmpeg.exe.rollback-tmp");
    assert_eq!(temp_path_for("C:\\Tools\\yt-dlp.exe").unwrap(), "C:\\Tools\\yt-dlp.exe.new");
    assert_eq!(backup_path_for("deno").unwrap(), "deno.old");
    assert_eq!(temp_path_for("a/...").unwrap(), "a/....new");
    assert_eq!(backup_path_for("bin/ärger.exe").unwrap(), "bin/ärger.exe.old");
}

#[test]
fn separators_and_dots_behind_the_file_name_do_not_count() {
    assert_eq!(temp_path_for("bin/").unwrap(), "bin.new");
    assert_eq!(backup_path_for("bin/").unwrap(), "bin.old");
    assert_eq!(temp_path_for("bin\\").unwrap(), "bin.new");
    assert_eq!(temp_path_for("bin/.").unwrap(), "bin.new");
    assert_eq!(backup_path_for("a/b/././/").unwrap(), "a/b.old");
    assert_eq!(rollback_path_for("a/tool.exe/").unwrap(), "a/tool.exe.rollback-tmp");
    assert_eq!(temp_path_for("a/x.").unwrap(), "a/x..new");
    assert_eq!(file_name_of("a/b/"), "b");
    assert_eq!(file_name_of("a/b/."), "b");
    assert_eq!(trim_path("a/b/./"), "a/b");
    assert_eq!(trim_path("./."), ".");
    assert_eq!(trim_path("//"), "");
    assert!(is_file_path("bin/"));
}

#[test]
fn a_path_without_a_file_name_has_no_companions() {
    for path in ["", "/", "//", ".", "./", "/.", "..", "bin/..", "bin\\..", "a/../", "a/.././"] {
        let expected = format!("Invalid target path: {}", path);
        assert_eq!(temp_path_for(path), Err(expected.clone()));
        assert_eq!(backup_path_for(path), Err(expected.clone()));
        assert_eq!(rollback_path_for(path), Err(expected));
        assert!(!is_file_path(path));
    }
    assert!(is_file_path("x"));
    assert!(is_file_path("a/.b"));
}

#[test]
fn the_file_name_is_what_follows_the_last_separator() {
    assert_eq!(file_name_of("a/b/c.exe"), "c.exe");
    assert_eq!(file_name_of("a\\b/c\\d.exe"), "d.exe");
    assert_eq!(file_name_of("plain"), "plain");
    assert_eq!(file_name_of("dir/"), "dir");
    assert_eq!(file_name_of("/"), "");
    assert_eq!(file_name_of(""), "");
}

#[test]
fn joining_adds_a_separator_where_one_is_missing() {
    assert_eq!(join_path("bin", "ffmpeg.exe", '/'), "bin/ffmpeg.exe");
    assert_eq!(join_path("C:\\bin", "ffmpeg.exe", '\\'), "C:\\bin\\ffmpeg.exe");
    assert_eq!(join_path("bin/", "ffmpeg.exe", '/'), "bin/ffmpeg.exe");
    assert_eq!(join_path("C:\\", "ffmpeg.exe", '/'), "C:\\ffmpeg.exe");
    assert_eq!(join_path("", "ffmpeg.exe", '/'), "ffmpeg.exe");
}

#[test]
fn the_parent_is_the_path_without_its_last_component() {
    assert_eq!(parent_dir("a/b/c.exe"), "a/b");
    assert_eq!(parent_dir("C:\\tools\\ffmpeg.exe"), "C:\\tools");
    assert_eq!(parent_dir("C:\\ffmpeg.exe"), "C:\\");
    assert_eq!(parent_dir("/ffmpeg.exe"), "/");
    assert_eq!(parent_dir("ffmpeg.exe"), "");
    assert_eq!(parent_dir("a//b"), "a//");
    assert_eq!(parent_dir("a/b/"), "a");
}

// ---- text ----

#[test]
fn text_helpers_work_on_characters() {
    assert_eq!(chars_of("héllo"), vec!['h', 'é', 'l', 'l', 'o']);
    assert_eq!(text_of(&chars_of("héllo wörld"), 1, 5), "éllo");
    assert_eq!(text_of(&chars_of("abc"), 3, 3), "");
    assert_eq!(to_lower('A'), 'a');
    assert_eq!(to_lower('Z'), 'z');
    assert_eq!(to_lower('a'), 'a');
    assert_eq!(to_lower('@'), '@');
    assert_eq!(to_lower('['), '[');
    assert_eq!(to_lower('É'), 'É');
    assert_eq!(concat2("ab", "cd"), "abcd");
    assert_eq!(concat3("a", "", "c"), "ac");
    assert!(same_text("yt-dlp", "yt-dlp"));
    assert!(!same_text("yt-dlp", "yt-dlP"));
}

#[test]
fn comparison_ignores_the_case_of_ascii_letters_only() {
    assert!(eq_ignore_ascii_case("FFmpeg.EXE", "ffmpeg.exe"));
    assert!(eq_ignore_ascii_case("", ""));
    assert!(!eq_ignore_ascii_case("ffmpeg.exe", "ffmpeg.ex"));
    assert!(!eq_ignore_ascii_case("ffmpeg.exe", "ffprobe.exe"));
    assert!(!eq_ignore_ascii_case("É", "é"));
    assert!(!eq_ignore_ascii_case("K", "\u{212a}"));
}

#[test]
fn suffixes_and_infixes_are_found() {
    assert!(ends_with(&chars_of("ffmpeg.exe.old"), &chars_of(".old")));
    assert!(ends_with(&chars_of(".old"), &chars_of(".old")));
    assert!(ends_with(&chars_of("x"), &chars_of("")));
    assert!(!ends_with(&chars_of("old"), &chars_of(".old")));
    assert!(!ends_with(&chars_of("ffmpeg.exe.OLD"), &chars_of(".old")));
    assert!(contains_lowered("FFmpeg Essentials Build", "essentials"));
    assert!(contains_lowered("essentials", "essentials"));
    assert!(contains_lowered("anything", ""));
    assert!(contains_lowered("", ""));
    assert!(!contains_lowered("essential", "essentials"));
    assert!(!contains_lowered("", "x"));
    assert!(!contains_lowered("shared", "Shared"));
}

#[test]
fn numbers_are_written_in_decimal() {
    for (n, expected) in [
        (0u64, "0"),
        (7, "7"),
        (10, "10"),
        (404, "404"),
        (1000, "1000"),
        (18446744073709551615, "18446744073709551615"),
    ] {
        let mut text = String::from("n=");
        append_numeral(&mut text, n);
        assert_eq!(text, format!("n={}", expected));
    }
}

#[test]
fn names_are_joined_with_a_separator_between_them() {
    assert_eq!(join(&names(&[]), ", "), "");
    assert_eq!(join(&names(&["a"]), ", "), "a");
    assert_eq!(join(&names(&["a", "b", "c"]), ", "), "a, b, c");
    assert_eq!(join(&names(&["", ""]), "-"), "-");
}

// ---- the table of tools ----

#[test]
fn every_binary_of_the_standard_table_has_its_tool() {
    assert_eq!(tool_id_for_binary("yt-dlp.exe"), Some("yt-dlp"));
    assert_eq!(tool_id_for_binary("ffmpeg.exe"), Some("ffmpeg"));
    assert_eq!(tool_id_for_binary("FFPROBE.EXE"), Some("ffmpeg"));
    assert_eq!(tool_id_for_binary("aria2c.exe"), Some("aria2"));
    assert_eq!(tool_id_for_binary("Deno.exe"), Some("deno"));
    assert_eq!(tool_id_for_binary("aria2.exe"), None);
    assert_eq!(tool_id_for_binary("ffmpeg"), None);
    assert_eq!(tool_id_for_binary(""), None);
}

#[test]
fn the_standard_table_lists_the_binaries_of_each_tool() {
    let table = ToolTable::standard();
    assert_eq!(table.len(), 4);
    assert_eq!(table.binaries("ffmpeg"), Some(names(&["ffmpeg.exe", "ffprobe.exe"])));
    assert_eq!(table.binaries("yt-dlp"), Some(names(&["yt-dlp.exe"])));
    assert_eq!(table.binaries("aria2"), Some(names(&["aria2c.exe"])));
    assert_eq!(table.binaries("deno"), Some(names(&["deno.exe"])));
    assert_eq!(table.binaries("FFMPEG"), None);
    assert_eq!(table.tool_for_binary("ffprobe.EXE"), Some("ffmpeg".to_string()));
    assert_eq!(table.tool_for_binary("ffplay.exe"), None);
}

#[test]
fn a_table_of_ones_own_takes_the_place_of_the_standard_one() {
    let table = ToolTable::new(vec![
        ToolEntry { id: "curl".to_string(), binaries: names(&["curl", "curl-config"]) },
        ToolEntry { id: "wget".to_string(), binaries: names(&["wget"]) },
    ])
    .unwrap();
    assert_eq!(table.len(), 2);
    assert_eq!(table.tool_for_binary("CURL-config"), Some("curl".to_string()));
    assert_eq!(table.tool_for_binary("ffmpeg.exe"), None);
    assert_eq!(owner_of_backup(&table, "wget.old"), Some("wget".to_string()));
    assert!(ToolTable::new(vec![ToolEntry { id: "none".to_string(), binaries: Vec::new() }])
        .is_none());
    assert!(ToolTable::new(Vec::new()).is_some());
}

#[test]
fn a_backup_belongs_to_the_tool_of_the_binary_it_is_named_after() {
    let table = ToolTable::standard();
    assert_eq!(owner_of_backup(&table, "ffprobe.exe.old"), Some("ffmpeg".to_string()));
    assert_eq!(owner_of_backup(&table, "YT-DLP.EXE.old"), Some("yt-dlp".to_string()));
    assert_eq!(owner_of_backup(&table, "ffprobe.exe"), None);
    assert_eq!(owner_of_backup(&table, "ffprobe.exe.old.old"), None);
    assert_eq!(owner_of_backup(&table, "ffprobe.exe.OLD"), None);
    assert_eq!(owner_of_backup(&table, ".old"), None);
    assert_eq!(
        backups_in(&table, &names(&["a.old", "deno.exe.old", "deno.exe", "aria2c.exe.old"])),
        names(&["deno.exe.old", "aria2c.exe.old"])
    );
}

// ---- errors ----

#[test]
fn every_kind_of_failure_has_its_family() {
    let families = [
        (ErrorKind::UnknownTool, ErrorClass::Config),
        (ErrorKind::InvalidPath, ErrorClass::Config),
        (ErrorKind::MissingDirectory, ErrorClass::Config),
        (ErrorKind::UnusableSource, ErrorClass::Config),
        (ErrorKind::Network, ErrorClass::Network),
        (ErrorKind::ReleaseLookup, ErrorClass::Network),
        (ErrorKind::StagingFailed, ErrorClass::Network),
        (ErrorKind::EmptyDownload, ErrorClass::Integrity),
        (ErrorKind::EmptyFile, ErrorClass::Integrity),
        (ErrorKind::UnreadableArchive, ErrorClass::Archive),
        (ErrorKind::MissingMembers, ErrorClass::Archive),
        (ErrorKind::BackupFailed, ErrorClass::Install),
        (ErrorKind::ActivationFailed, ErrorClass::Install),
        (ErrorKind::ActivationUnrecovered, ErrorClass::Install),
        (ErrorKind::NoBackupsFound, ErrorClass::Rollback),
        (ErrorKind::MoveAsideFailed, ErrorClass::Rollback),
        (ErrorKind::RestoreFailed, ErrorClass::Rollback),
    ];
    for (kind, family) in families {
        assert_eq!(kind.class(), family);
    }
    let error = EngineError::new(ErrorKind::Network, "offline".to_string());
    assert_eq!(error.kind, ErrorKind::Network);
    assert_eq!(error.to_text(), "offline");
}

// ---- progress ----

#[test]
fn a_download_is_reported_when_it_advanced_by_a_percent_or_is_complete() {
    assert!(is_worth_reporting(1000, 0, 10));
    assert!(!is_worth_reporting(1000, 0, 9));
    assert!(is_worth_reporting(1000, 500, 510));
    assert!(!is_worth_reporting(1000, 500, 509));
    assert!(is_worth_reporting(1000, 999, 1000));
    assert!(is_worth_reporting(1000, 1000, 1000));
    assert!(is_worth_reporting(1000, 1000, 5000));
    assert!(!is_worth_reporting(0, 0, 5000));
    assert!(!is_worth_reporting(1000, 20, 10));
    assert!(is_worth_reporting(3, 0, 1));
    assert!(is_worth_reporting(u64::MAX, 0, u64::MAX / 100 + 1));
    assert!(!is_worth_reporting(u64::MAX, 0, u64::MAX / 100));
    assert!(is_worth_reporting(u64::MAX, 1, u64::MAX));
}

#[test]
fn the_count_of_bytes_stops_at_the_largest_number() {
    assert_eq!(count(0, 0), 0);
    assert_eq!(count(10, 5), 15);
    assert_eq!(count(u64::MAX - 5, 5), u64::MAX);
    assert_eq!(count(u64::MAX - 5, 6), u64::MAX);
    assert_eq!(count(u64::MAX, 1), u64::MAX);
}

#[test]
fn notifications_carry_a_percentage_between_nothing_and_all() {
    let event = emit_progress("ffmpeg", 99, "Opening archive...");
    assert_eq!(event.tool, "ffmpeg");
    assert_eq!(event.percentage, Percentage::Fixed(99));
    assert_eq!(event.status, "Opening archive...");
    assert_eq!(emit_progress("x", 250, "").percentage, Percentage::Fixed(100));
    assert_eq!(emit_progress("x", 0, "").percentage, Percentage::Fixed(0));
    let event = downloading_event("deno", 200, 50);
    assert_eq!(event.tool, "deno");
    assert_eq!(event.percentage, Percentage::Ratio { received: 50, total: 200 });
    assert_eq!(event.status, "Downloading...");
    assert_eq!(
        downloading_event("deno", 200, 900).percentage,
        Percentage::Ratio { received: 200, total: 200 }
    );
}

// ---- plans ----

#[test]
fn every_known_tool_has_a_plan() {
    let plan = update_plan("yt-dlp", false, "", true).unwrap();
    assert_eq!(
        plan.address,
        Some("https://github.com/yt-dlp/yt-dlp/releases/latest/download/yt-dlp.exe".to_string())
    );
    assert_eq!(plan.file, "yt-dlp.exe");
    assert_eq!(plan.archive, None);
    assert!(plan.targets.is_empty());
    assert_eq!(plan.tool, "yt-dlp");
    let plan = update_plan("yt-dlp", true, "", false).unwrap();
    assert_eq!(
        plan.address,
        Some(
            "https://github.com/yt-dlp/yt-dlp-nightly-builds/releases/latest/download/yt-dlp.exe"
                .to_string()
        )
    );

    let plan = update_plan("aria2", true, "x", true).unwrap();
    assert_eq!(plan.address, None);
    assert_eq!(plan.file, "aria2-update.zip");
    assert_eq!(plan.archive, Some(ArchiveKind::Zip));
    assert_eq!(plan.targets, names(&["aria2c.exe"]));
    assert_eq!(plan.announce, "Extracting aria2c.exe...");
    assert_eq!(update_plan("aria2", false, "", false).unwrap().file, "aria2.zip");

    let plan = update_plan("deno", false, "", true).unwrap();
    assert_eq!(
        plan.address,
        Some(
            "https://github.com/denoland/deno/releases/latest/download/deno-x86_64-pc-windows-msvc.zip"
                .to_string()
        )
    );
    assert_eq!(plan.file, "deno-update.zip");
    assert_eq!(plan.targets, names(&["deno.exe"]));
    assert_eq!(plan.announce, "Extracting deno.exe...");
    assert_eq!(update_plan("deno", false, "", false).unwrap().file, "deno.zip");

    assert!(update_plan("curl", false, "", true).is_none());
    assert!(update_plan("FFMPEG", false, "", true).is_none());
    assert!(update_plan("", false, "", false).is_none());
}

#[test]
fn the_ffmpeg_build_follows_the_channel_and_the_variant() {
    let address = |nightly: bool, variant: &str, in_place: bool| {
        update_plan("ffmpeg", nightly, variant, in_place).unwrap().address.unwrap()
    };
    let base = "https://www.gyan.dev/ffmpeg/builds/";
    assert_eq!(address(false, "", true), format!("{}ffmpeg-release-full.7z", base));
    assert_eq!(address(false, "Full Build", true), format!("{}ffmpeg-release-full.7z", base));
    assert_eq!(
        address(false, "Essentials", true),
        format!("{}ffmpeg-release-essentials.7z", base)
    );
    assert_eq!(
        address(false, "full-SHARED", true),
        format!("{}ffmpeg-release-full-shared.7z", base)
    );
    assert_eq!(
        address(false, "essentials shared", true),
        format!("{}ffmpeg-release-full-shared.7z", base)
    );
    assert_eq!(address(true, "", true), format!("{}ffmpeg-git-full.7z", base));
    assert_eq!(address(true, "shared", true), format!("{}ffmpeg-git-full.7z", base));
    assert_eq!(address(true, "ESSENTIALS", true), format!("{}ffmpeg-git-essentials.7z", base));
    assert_eq!(address(false, "essentials", false), format!("{}ffmpeg-release-full.7z", base));
    assert_eq!(address(true, "essentials", false), format!("{}ffmpeg-git-full.7z", base));
    let plan = update_plan("ffmpeg", false, "", true).unwrap();
    assert_eq!(plan.file, "ffmpeg-update.7z");
    assert_eq!(plan.archive, Some(ArchiveKind::SevenZ));
    assert_eq!(plan.targets, names(&["ffmpeg.exe", "ffprobe.exe"]));
    assert_eq!(plan.announce, "Extracting ffmpeg.exe, ffprobe.exe from 7z...");
    assert_eq!(update_plan("ffmpeg", false, "", false).unwrap().file, "ffmpeg.7z");
}

// ---- the release service ----

const RELEASE: &str = r#"{
  "tag_name": "release-1.38.0",
  "assets": [
    {"name": "aria2-1.38.0.tar.gz", "browser_download_url": "https://example.org/src.tar.gz"},
    {"name": "aria2-1.38.0-win-64bit-build1.zip.asc", "browser_download_url": "https://example.org/sig"},
    {"name": "aria2-1.38.0-win-32bit-build1.zip", "browser_download_url": "https://example.org/32.zip"},
    {"name": "aria2-1.38.0-WIN-64bit-build1.zip", "size": 12},
    {"name": "aria2-1.38.0-Win-64Bit-build1.zip", "browser_download_url": "https://example.org/64.zip"},
    {"name": "aria2-1.38.0-win-64bit-build2.zip", "browser_download_url": "https://example.org/later.zip"}
  ]
}"#;

#[test]
fn the_first_fitting_asset_of_a_release_gives_the_address() {
    let release = parse_json(RELEASE).unwrap();
    assert_eq!(select_aria2_asset(&release).unwrap(), "https://example.org/64.zip");
    let reply = HostReply::Text { code: 200, body: RELEASE.to_string() };
    assert_eq!(resolve_latest_aria2_zip_url(reply).unwrap(), "https://example.org/64.zip");
    let reply = HostReply::Text { code: 200, body: RELEASE.to_string() };
    assert_eq!(aria2_url_or_fallback(reply), "https://example.org/64.zip");
}

#[test]
fn a_release_without_a_fitting_asset_gives_the_fallback() {
    let fallback = "https://github.com/aria2/aria2/releases/download/release-1.37.0/aria2-1.37.0-win-64bit-build1.zip";
    let cases = [
        (
            HostReply::Text { code: 200, body: "{\"assets\": []}".to_string() },
            ErrorKind::ReleaseLookup,
            "No matching aria2 Windows zip asset found",
        ),
        (
            HostReply::Text { code: 200, body: "{\"assets\": {\"name\": \"x\"}}".to_string() },
            ErrorKind::ReleaseLookup,
            "Missing assets in GitHub release response",
        ),
        (
            HostReply::Text { code: 200, body: "[1, 2]".to_string() },
            ErrorKind::ReleaseLookup,
            "Missing assets in GitHub release response",
        ),
        (
            HostReply::Text { code: 403, body: RELEASE.to_string() },
            ErrorKind::Network,
            "GitHub API failed with status: 403",
        ),
        (HostReply::Failed("offline".to_string()), ErrorKind::Network, "offline"),
        (HostReply::Done, ErrorKind::Network, "unexpected reply from the host"),
    ];
    for (reply, kind, message) in cases {
        let again = match &reply {
            HostReply::Text { code, body } => HostReply::Text { code: *code, body: body.clone() },
            HostReply::Failed(why) => HostReply::Failed(why.clone()),
            _ => HostReply::Done,
        };
        let error = resolve_latest_aria2_zip_url(reply).unwrap_err();
        assert_eq!(error.kind, kind);
        assert_eq!(error.message, message);
        assert_eq!(aria2_url_or_fallback(again), fallback);
    }
    let error =
        resolve_latest_aria2_zip_url(HostReply::Text { code: 200, body: "{oops".to_string() })
            .unwrap_err();
    assert_eq!(error.kind, ErrorKind::ReleaseLookup);
    assert!(!error.message.is_empty());
}

#[test]
fn json_text_is_read_into_values() {
    let value = parse_json(r#"{"b": [1, "two", null, true, {"c": -2.5e3}], "a": "x"}"#).unwrap();
    assert!(matches!(value, Json::Object(_, _)));
    assert_eq!(value.text_at("a"), Some(&"x".to_string()));
    assert_eq!(value.text_at("b"), None);
    assert_eq!(value.text_at("missing"), None);
    assert!(value.get("missing").is_none());
    match value.get("b") {
        Some(Json::List(items)) => {
            assert_eq!(items.len(), 5);
            assert!(matches!(&items[0], Json::Number(n) if n == "1"));
            assert_eq!(items[1].as_text(), Some(&"two".to_string()));
            assert!(matches!(items[2], Json::Null));
            assert!(matches!(items[3], Json::Bool(true)));
            assert!(matches!(items[4].get("c"), Some(Json::Number(n)) if n == "-2500.0"));
            assert!(items[0].get("c").is_none());
            assert!(items[0].as_text().is_none());
        }
        _ => panic!("the member b is a list"),
    }
    assert!(parse_json("").is_err());
    assert!(parse_json("{\"a\": }").is_err());
    assert!(matches!(parse_json("\"text\""), Ok(Json::Text(t)) if t == "text"));
}

#[test]
fn an_asset_fits_if_it_is_a_zip_for_64_bit_windows() {
    assert!(names_windows_zip("aria2-1.37.0-win-64bit-build1.zip"));
    assert!(names_windows_zip("ARIA2-WIN-64BIT.zip"));
    assert!(!names_windows_zip("aria2-1.37.0-win-64bit-build1.ZIP"));
    assert!(!names_windows_zip("aria2-1.37.0-win-64bit-build1.zip.asc"));
    assert!(!names_windows_zip("aria2-1.37.0-win-32bit-build1.zip"));
    assert!(!names_windows_zip(""));
    let asset = parse_json(r#"{"name": "a-win-64bit.zip", "browser_download_url": "u"}"#).unwrap();
    assert_eq!(address_of_asset(&asset), Some("u".to_string()));
    let asset = parse_json(r#"{"name": "a-win-64bit.zip", "browser_download_url": 7}"#).unwrap();
    assert_eq!(address_of_asset(&asset), None);
    let asset = parse_json(r#"{"name": 7, "browser_download_url": "u"}"#).unwrap();
    assert_eq!(address_of_asset(&asset), None);
    let asset = parse_json(r#"{"browser_download_url": "u"}"#).unwrap();
    assert_eq!(address_of_asset(&asset), None);
}

// ---- looking a tool up on the system ----

#[test]
fn the_command_to_look_for_is_the_main_binary() {
    let table = ToolTable::standard();
    assert_eq!(resolve_system_tool_path(&table, "yt-dlp", true).unwrap(), "yt-dlp.exe");
    assert_eq!(resolve_system_tool_path(&table, "ffmpeg", true).unwrap(), "ffmpeg.exe");
    assert_eq!(resolve_system_tool_path(&table, "aria2", true).unwrap(), "aria2c.exe");
    assert_eq!(resolve_system_tool_path(&table, "deno", true).unwrap(), "deno.exe");
    assert_eq!(resolve_system_tool_path(&table, "aria2", false).unwrap(), "aria2c");
    assert_eq!(resolve_system_tool_path(&table, "yt-dlp", false).unwrap(), "yt-dlp");
    let error = resolve_system_tool_path(&table, "curl", true).unwrap_err();
    assert_eq!(error.kind, ErrorKind::UnknownTool);
    assert_eq!(error.message, "Unknown tool: curl");
    assert_eq!(strip_exe("a.exe.exe"), "a");
    assert_eq!(strip_exe(".exe"), "");
    assert_eq!(strip_exe("a.EXE"), "a.EXE");
    assert_eq!(strip_exe("a.exe.txt"), "a.exe.txt");
    assert_eq!(strip_exe(""), "");
}

#[test]
fn the_first_line_of_the_answer_is_the_path() {
    assert_eq!(
        first_path_line("C:\\Tools\\ffmpeg.exe\r\nD:\\other\\ffmpeg.exe\r\n"),
        Some("C:\\Tools\\ffmpeg.exe".to_string())
    );
    assert_eq!(first_path_line("  /usr/bin/deno \t\n"), Some("/usr/bin/deno".to_string()));
    assert_eq!(first_path_line("/usr/bin/yt dlp"), Some("/usr/bin/yt dlp".to_string()));
    assert_eq!(first_path_line("\u{a0}\u{3000}x\u{2003}"), Some("x".to_string()));
    assert_eq!(first_path_line(""), None);
    assert_eq!(first_path_line("\n/usr/bin/deno"), None);
    assert_eq!(first_path_line("  \r\n/usr/bin/deno"), None);
    assert_eq!(first_path_line(" \t \u{2028}"), None);
    for c in ['\t', '\n', '\u{b}', '\u{c}', '\r', ' ', '\u{85}', '\u{a0}', '\u{1680}', '\u{2000}',
        '\u{200a}', '\u{2028}', '\u{2029}', '\u{202f}', '\u{205f}', '\u{3000}']
    {
        assert!(is_whitespace(c));
        assert!(c.is_whitespace());
    }
    for c in ['a', '\u{8}', '\u{e}', '\u{200b}', '\u{1f}', '\u{feff}', '\u{180e}'] {
        assert!(!is_whitespace(c));
        assert!(!c.is_whitespace());
    }
}

#[test]
fn a_path_is_brought_to_the_separator_of_the_platform() {
    assert_eq!(normalize("C:/Tools/ffmpeg.exe", '\\'), "C:\\Tools\\ffmpeg.exe");
    assert_eq!(normalize("C:\\Tools/ffmpeg.exe", '\\'), "C:\\Tools\\ffmpeg.exe");
    assert_eq!(normalize("a/b\\c", '/'), "a/b\\c");
    assert_eq!(normalize("", '\\'), "");
}

// ---- the latest versions ----

fn answer(body: &str) -> HostReply {
    HostReply::Text { code: 200, body: body.to_string() }
}

#[test]
fn the_version_of_a_release_is_its_tag_without_its_prefix() {
    assert_eq!(
        fetch_latest_ytdlp_version(answer("{\"tag_name\": \" v2025.01.15 \"}")).unwrap(),
        "2025.01.15"
    );
    assert_eq!(
        fetch_latest_ytdlp_version(answer("{\"tag_name\": \"2025.01.15\"}")).unwrap(),
        "2025.01.15"
    );
    assert_eq!(fetch_latest_ytdlp_version(answer("{\"tag_name\": \"vv v1\"}")).unwrap(), "v1");
    assert_eq!(fetch_latest_ytdlp_version(answer("{\"tag_name\": \"v\"}")).unwrap(), "");
    assert_eq!(
        fetch_latest_aria2_version(answer("{\"tag_name\": \"release-1.37.0\"}")).unwrap(),
        "1.37.0"
    );
    assert_eq!(
        fetch_latest_aria2_version(answer("{\"tag_name\": \"release-release-v1.2\"}")).unwrap(),
        "1.2"
    );
    assert_eq!(
        fetch_latest_aria2_version(answer("{\"tag_name\": \"v release-1\"}")).unwrap(),
        "release-1"
    );
    assert_eq!(fetch_latest_aria2_version(answer("{\"tag_name\": \"releas-1\"}")).unwrap(), "releas-1");
    assert_eq!(fetch_latest_deno_version(answer("  v2.1.4\n")).unwrap(), "2.1.4");
    assert_eq!(fetch_latest_deno_version(answer("v2.1.4 extra words")).unwrap(), "2.1.4");
    assert_eq!(fetch_latest_ffmpeg_version(answer("7.1\n")).unwrap(), "7.1");
    assert_eq!(
        fetch_latest_ffmpeg_version(answer("\t2025-01-15-git-4f3c9f2f03 \u{a0}x")).unwrap(),
        "2025-01-15-git-4f3c9f2f03"
    );
    assert_eq!(fetch_latest_ffmpeg_version(answer("v7")).unwrap(), "v7");
}

#[test]
fn an_answer_without_a_version_is_an_error() {
    let missing = [
        "{\"tag_name\": \"  \"}",
        "{\"tag_name\": 7}",
        "{\"name\": \"v1\"}",
        "[\"tag_name\"]",
    ];
    for body in missing {
        let error = fetch_latest_ytdlp_version(answer(body)).unwrap_err();
        assert_eq!(error.kind, ErrorKind::ReleaseLookup);
        assert_eq!(error.message, "Missing tag_name");
        let error = fetch_latest_aria2_version(answer(body)).unwrap_err();
        assert_eq!(error.message, "Missing tag_name");
    }
    assert_eq!(
        fetch_latest_ytdlp_version(answer("{")).unwrap_err().kind,
        ErrorKind::ReleaseLookup
    );
    for body in ["", "  \n\t "] {
        let error = fetch_latest_deno_version(answer(body)).unwrap_err();
        assert_eq!(error.kind, ErrorKind::ReleaseLookup);
        assert_eq!(error.message, "Empty response");
        assert_eq!(fetch_latest_ffmpeg_version(answer(body)).unwrap_err().message, "Empty response");
    }
    let refused = HostReply::Text { code: 404, body: "v1".to_string() };
    let error = fetch_latest_deno_version(refused).unwrap_err();
    assert_eq!(error.kind, ErrorKind::Network);
    assert_eq!(error.message, "HTTP 404");
    let error = fetch_latest_ffmpeg_version(HostReply::Failed("offline".to_string())).unwrap_err();
    assert_eq!(error.message, "offline");
    let error = fetch_latest_aria2_version(HostReply::End).unwrap_err();
    assert_eq!(error.message, "unexpected reply from the host");
    assert_eq!(body_text(answer("x")).unwrap(), "x");
}

#[test]
fn the_release_services_are_asked_at_their_addresses() {
    let address = |request: HostRequest| match request {
        HostRequest::Get { url, accept } => (url, accept),
        _ => panic!("a request to a release service is a Get"),
    };
    assert_eq!(
        address(ytdlp_version_request(None)),
        (
            "https://api.github.com/repos/yt-dlp/yt-dlp/releases/latest".to_string(),
            "application/vnd.github+json".to_string()
        )
    );
    assert_eq!(
        address(ytdlp_version_request(Some("nightly"))).0,
        "https://api.github.com/repos/yt-dlp/yt-dlp-nightly-builds/releases/latest"
    );
    assert_eq!(
        address(ytdlp_version_request(Some("stable"))).0,
        "https://api.github.com/repos/yt-dlp/yt-dlp/releases/latest"
    );
    assert_eq!(
        address(deno_version_request()),
        ("https://dl.deno.land/release-latest.txt".to_string(), "text/plain,*/*".to_string())
    );
    assert_eq!(
        address(ffmpeg_version_request(None)).0,
        "https://www.gyan.dev/ffmpeg/builds/release-version"
    );
    assert_eq!(
        address(ffmpeg_version_request(Some("nightly"))),
        ("https://www.gyan.dev/ffmpeg/builds/git-version".to_string(), "text/plain,*/*".to_string())
    );
    assert_eq!(
        address(aria2_release_request()),
        (
            "https://api.github.com/repos/aria2/aria2/releases/latest".to_string(),
            "application/vnd.github+json".to_string()
        )
    );
}

#[test]
fn words_and_prefixes_are_cut_off_character_by_character() {
    let text = |chars: Vec<char>| chars.into_iter().collect::<String>();
    assert_eq!(text(trim_chars(&chars_of(" \t a b \n"))), "a b");
    assert_eq!(text(trim_chars(&chars_of("ab"))), "ab");
    assert_eq!(text(trim_chars(&chars_of("   "))), "");
    assert_eq!(text(trim_chars(&chars_of(""))), "");
    assert_eq!(text(strip_leading(&chars_of("vvv1v"), 'v')), "1v");
    assert_eq!(text(strip_leading(&chars_of("1v"), 'v')), "1v");
    assert_eq!(text(strip_leading(&chars_of("vvv"), 'v')), "");
    assert_eq!(text(strip_release(&chars_of("release-release-1"))), "1");
    assert_eq!(text(strip_release(&chars_of("release-"))), "");
    assert_eq!(text(strip_release(&chars_of("release"))), "release");
    assert_eq!(text(strip_release(&chars_of("Release-1"))), "Release-1");
    assert_eq!(text(first_word_of("  one two ")), "one");
    assert_eq!(text(first_word_of("one")), "one");
    assert_eq!(text(first_word_of(" \n ")), "");
}
