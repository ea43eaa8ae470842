//! What updating a tool takes: where it is downloaded from, under which name
//! the download is kept, and what is taken out of it.

use vstd::prelude::*;
use vstd::string::StringExecFns;
use crate::text::{contains_lowered, has_infix, lowered, same_text, views};

verus! {

/// The kinds of archive.
#[derive(Clone, Copy, Debug, PartialEq, Eq, Structural)]
pub enum ArchiveKind {
    Zip,
    SevenZ,
}

/// What updating a tool takes.
#[derive(Debug)]
pub struct UpdatePlan {
    /// The tool, as the notifications name it.
    pub tool: String,
    /// The address to download from; none if the release service is to be
    /// asked for it.
    pub address: Option<String>,
    /// The name under which the download is kept in the install directory.
    pub file: String,
    /// The kind of archive that the download is; none if it is the binary.
    pub archive: Option<ArchiveKind>,
    /// The members to take out of the archive.
    pub targets: Vec<String>,
    /// The status text that announces the extraction.
    pub announce: String,
}

/// A plan as a value of the model.
pub ghost struct Plan {
    pub tool: Seq<char>,
    pub address: Option<Seq<char>>,
    pub file: Seq<char>,
    pub archive: Option<ArchiveKind>,
    pub targets: Seq<Seq<char>>,
    pub announce: Seq<char>,
}

impl View for UpdatePlan {
    type V = Plan;

    open spec fn view(&self) -> Plan {
        Plan {
            tool: self.tool@,
            address: match self.address {
                Some(address) => Some(address@),
                None => None,
            },
            file: self.file@,
            archive: self.archive,
            targets: views(self.targets@),
            announce: self.announce@,
        }
    }
}

/// Where yt-dlp is downloaded from.
pub open spec fn ytdlp_address(nightly: bool) -> Seq<char> {
    if nightly {
        "https://github.com/yt-dlp/yt-dlp-nightly-builds/releases/latest/download/yt-dlp.exe"@
    } else {
        "https://github.com/yt-dlp/yt-dlp/releases/latest/download/yt-dlp.exe"@
    }
}

/// Where ffmpeg is downloaded from: the build that the variant names, of the
/// channel; the full build if it names none.
pub open spec fn ffmpeg_address(nightly: bool, variant: Seq<char>) -> Seq<char> {
    let wanted = lowered(variant);
    if nightly {
        if has_infix(wanted, "essentials"@) {
            "https://www.gyan.dev/ffmpeg/builds/ffmpeg-git-essentials.7z"@
        } else {
            "https://www.gyan.dev/ffmpeg/builds/ffmpeg-git-full.7z"@
        }
    } else if has_infix(wanted, "shared"@) {
        "https://www.gyan.dev/ffmpeg/builds/ffmpeg-release-full-shared.7z"@
    } else if has_infix(wanted, "essentials"@) {
        "https://www.gyan.dev/ffmpeg/builds/ffmpeg-release-essentials.7z"@
    } else {
        "https://www.gyan.dev/ffmpeg/builds/ffmpeg-release-full.7z"@
    }
}

/// Where deno is downloaded from.
pub open spec fn deno_address() -> Seq<char> {
    "https://github.com/denoland/deno/releases/latest/download/deno-x86_64-pc-windows-msvc.zip"@
}

/// The plan for the tool `tool`, if it is a known one. `in_place` is set for
/// the update of a tool where it lies; only then does the variant count, and
/// the archive is kept under a name of its own.
pub open spec fn plan_for(tool: Seq<char>, nightly: bool, variant: Seq<char>, in_place: bool)
    -> Option<Plan> {
    if tool == "yt-dlp"@ {
        Some(
            Plan {
                tool,
                address: Some(ytdlp_address(nightly)),
                file: "yt-dlp.exe"@,
                archive: None,
                targets: Seq::empty(),
                announce: Seq::empty(),
            },
        )
    } else if tool == "ffmpeg"@ {
        Some(
            Plan {
                tool,
                address: Some(
                    ffmpeg_address(
                        nightly,
                        if in_place {
                            variant
                        } else {
                            Seq::empty()
                        },
                    ),
                ),
                file: if in_place {
                    "ffmpeg-update.7z"@
                } else {
                    "ffmpeg.7z"@
                },
                archive: Some(ArchiveKind::SevenZ),
                targets: seq!["ffmpeg.exe"@, "ffprobe.exe"@],
                announce: "Extracting ffmpeg.exe, ffprobe.exe from 7z..."@,
            },
        )
    } else if tool == "aria2"@ {
        Some(
            Plan {
                tool,
                address: None,
                file: if in_place {
                    "aria2-update.zip"@
                } else {
                    "aria2.zip"@
                },
                archive: Some(ArchiveKind::Zip),
                targets: seq!["aria2c.exe"@],
                announce: "Extracting aria2c.exe..."@,
            },
        )
    } else if tool == "deno"@ {
        Some(
            Plan {
                tool,
                address: Some(deno_address()),
                file: if in_place {
                    "deno-update.zip"@
                } else {
                    "deno.zip"@
                },
                archive: Some(ArchiveKind::Zip),
                targets: seq!["deno.exe"@],
                announce: "Extracting deno.exe..."@,
            },
        )
    } else {
        None
    }
}

/// The address of the ffmpeg build that the variant names.
fn ffmpeg_url(nightly: bool, variant: &str) -> (address: String)
    ensures
        address@ == ffmpeg_address(nightly, variant@),
{
    if nightly {
        if contains_lowered(variant, "essentials") {
            String::from_str("https://www.gyan.dev/ffmpeg/builds/ffmpeg-git-essentials.7z")
        } else {
            String::from_str("https://www.gyan.dev/ffmpeg/builds/ffmpeg-git-full.7z")
        }
    } else if contains_lowered(variant, "shared") {
        String::from_str("https://www.gyan.dev/ffmpeg/builds/ffmpeg-release-full-shared.7z")
    } else if contains_lowered(variant, "essentials") {
        String::from_str("https://www.gyan.dev/ffmpeg/builds/ffmpeg-release-essentials.7z")
    } else {
        String::from_str("https://www.gyan.dev/ffmpeg/builds/ffmpeg-release-full.7z")
    }
}

fn one_target(a: &str) -> (v: Vec<String>)
    ensures
        views(v@) == seq![a@],
{
    let mut v: Vec<String> = Vec::new();
    v.push(String::from_str(a));
    assert(views(v@) =~= seq![a@]);
    v
}

/// The plan for the tool `tool`, if it is a known one.
pub fn update_plan(tool: &str, nightly: bool, variant: &str, in_place: bool) -> (plan: Option<
    UpdatePlan,
>)
    ensures
        plan is Some == plan_for(tool@, nightly, variant@, in_place) is Some,
        plan matches Some(p) ==> plan_for(tool@, nightly, variant@, in_place) == Some(p@),
{
    if same_text(tool, "yt-dlp") {
        let address = if nightly {
            String::from_str(
                "https://github.com/yt-dlp/yt-dlp-nightly-builds/releases/latest/download/yt-dlp.exe",
            )
        } else {
            String::from_str("https://github.com/yt-dlp/yt-dlp/releases/latest/download/yt-dlp.exe")
        };
        let targets: Vec<String> = Vec::new();
        assert(views(targets@) =~= Seq::<Seq<char>>::empty());
        Some(
            UpdatePlan {
                tool: String::from_str(tool),
                address: Some(address),
                file: String::from_str("yt-dlp.exe"),
                archive: None,
                targets,
                announce: String::new(),
            },
        )
    } else if same_text(tool, "ffmpeg") {
        let address = if in_place {
            ffmpeg_url(nightly, variant)
        } else {
            let none = String::new();
            assert(none@ =~= Seq::<char>::empty());
            ffmpeg_url(nightly, none.as_str())
        };
        let mut targets: Vec<String> = Vec::new();
        targets.push(String::from_str("ffmpeg.exe"));
        targets.push(String::from_str("ffprobe.exe"));
        assert(views(targets@) =~= seq!["ffmpeg.exe"@, "ffprobe.exe"@]);
        Some(
            UpdatePlan {
                tool: String::from_str(tool),
                address: Some(address),
                file: if in_place {
                    String::from_str("ffmpeg-update.7z")
                } else {
                    String::from_str("ffmpeg.7z")
                },
                archive: Some(ArchiveKind::SevenZ),
                targets,
                announce: String::from_str("Extracting ffmpeg.exe, ffprobe.exe from 7z..."),
            },
        )
    } else if same_text(tool, "aria2") {
        Some(
            UpdatePlan {
                tool: String::from_str(tool),
                address: None,
                file: if in_place {
                    String::from_str("aria2-update.zip")
                } else {
                    String::from_str("aria2.zip")
                },
                archive: Some(ArchiveKind::Zip),
                targets: one_target("aria2c.exe"),
                announce: String::from_str("Extracting aria2c.exe..."),
            },
        )
    } else if same_text(tool, "deno") {
        Some(
            UpdatePlan {
                tool: String::from_str(tool),
                address: Some(
                    String::from_str(
                        "https://github.com/denoland/deno/releases/latest/download/deno-x86_64-pc-windows-msvc.zip",
                    ),
                ),
                file: if in_place {
                    String::from_str("deno-update.zip")
                } else {
                    String::from_str("deno.zip")
                },
                archive: Some(ArchiveKind::Zip),
                targets: one_target("deno.exe"),
                announce: String::from_str("Extracting deno.exe..."),
            },
        )
    } else {
        None
    }
}

} // verus!
