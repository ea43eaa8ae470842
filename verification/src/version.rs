//! The latest version of a tool, as the answer of its release service tells
//! it.

use vstd::prelude::*;
use vstd::string::StringExecFns;
use crate::download::is_success;
use crate::errors::{EngineError, ErrorKind, Failure};
use crate::files::{unexpected_reply, HostReply, HostRequest, Reply, Request};
use crate::lookup::{first_mark, is_space, is_whitespace, last_mark, trimmed};
use crate::release::{github_accept, json_parse, parse_json, text_member};
use crate::text::{append_numeral, chars_of, numeral, same_text, text_of};

verus! {

/// `s` without the characters `c` at its beginning.
pub open spec fn without_leading(s: Seq<char>, c: char) -> Seq<char>
    decreases s.len(),
{
    if s.len() > 0 && s[0] == c {
        without_leading(s.drop_first(), c)
    } else {
        s
    }
}

/// The beginning of a tag of aria2.
pub open spec fn release_prefix() -> Seq<char> {
    seq!['r', 'e', 'l', 'e', 'a', 's', 'e', '-']
}

/// `s` without any `release-` at its beginning.
pub open spec fn without_release(s: Seq<char>) -> Seq<char>
    decreases s.len(),
{
    if s.len() >= 8 && s.take(8) == release_prefix() {
        without_release(s.skip(8))
    } else {
        s
    }
}

/// The index of the first white space of `s` at or after `from`; the length
/// of `s` if there is none.
pub open spec fn word_end(s: Seq<char>, from: int) -> int
    decreases s.len() - from,
{
    if 0 <= from < s.len() && !is_space(s[from]) {
        word_end(s, from + 1)
    } else if from < s.len() {
        from
    } else {
        s.len() as int
    }
}

/// The first word of `text`: what stands between the white space at its
/// beginning and the next white space.
pub open spec fn first_word(text: Seq<char>) -> Seq<char> {
    let rest = trimmed(text);
    rest.take(word_end(rest, 0))
}

/// The text for an answer whose status is not one of success.
pub open spec fn http_text(code: u16) -> Seq<char> {
    "HTTP "@ + numeral(code as nat)
}

/// The body of the answer `reply`, or why there is none.
pub open spec fn body_of(reply: Reply) -> Result<Seq<char>, Failure> {
    match reply {
        Reply::Text { code, body } => if is_success(code) {
            Ok(body)
        } else {
            Err(Failure { kind: ErrorKind::Network, message: http_text(code) })
        },
        Reply::Failed(why) => Err(Failure { kind: ErrorKind::Network, message: why }),
        _ => Err(Failure { kind: ErrorKind::Network, message: unexpected_reply() }),
    }
}

/// The tag of the release that the answer `reply` describes, without the
/// white space around it.
pub open spec fn tag_of(reply: Reply) -> Result<Seq<char>, Failure> {
    match body_of(reply) {
        Err(failure) => Err(failure),
        Ok(body) => match json_parse(body) {
            Err(why) => Err(Failure { kind: ErrorKind::ReleaseLookup, message: why }),
            Ok(release) => {
                let tag = match text_member(release, "tag_name"@) {
                    Some(text) => trimmed(text),
                    None => Seq::empty(),
                };
                if tag.len() == 0 {
                    Err(Failure { kind: ErrorKind::ReleaseLookup, message: "Missing tag_name"@ })
                } else {
                    Ok(tag)
                }
            },
        },
    }
}

/// The word that the answer `reply` begins with.
pub open spec fn word_of(reply: Reply) -> Result<Seq<char>, Failure> {
    match body_of(reply) {
        Err(failure) => Err(failure),
        Ok(body) => if first_word(body).len() == 0 {
            Err(Failure { kind: ErrorKind::ReleaseLookup, message: "Empty response"@ })
        } else {
            Ok(first_word(body))
        },
    }
}

/// The version of yt-dlp or of deno that a tag or a word names: the tag
/// without the `v` it begins with.
pub open spec fn plain_version(tag: Seq<char>) -> Seq<char> {
    trimmed(without_leading(tag, 'v'))
}

/// The version of aria2 that a tag names: the tag without the `release-` and
/// the `v` it begins with.
pub open spec fn aria2_version(tag: Seq<char>) -> Seq<char> {
    trimmed(without_leading(without_release(tag), 'v'))
}

/// The address of the service that describes the latest release of yt-dlp.
pub open spec fn ytdlp_release_api(nightly: bool) -> Seq<char> {
    if nightly {
        "https://api.github.com/repos/yt-dlp/yt-dlp-nightly-builds/releases/latest"@
    } else {
        "https://api.github.com/repos/yt-dlp/yt-dlp/releases/latest"@
    }
}

/// The address that tells the latest version of ffmpeg.
pub open spec fn ffmpeg_version_address(nightly: bool) -> Seq<char> {
    if nightly {
        "https://www.gyan.dev/ffmpeg/builds/git-version"@
    } else {
        "https://www.gyan.dev/ffmpeg/builds/release-version"@
    }
}

/// `chars` without the white space at its beginning and at its end.
pub fn trim_chars(chars: &Vec<char>) -> (r: Vec<char>)
    ensures
        r@ == trimmed(chars@),
{
    let mut start: usize = 0;
    while start < chars.len() && is_whitespace(chars[start])
        invariant
            start <= chars.len(),
            first_mark(chars@, start as int) == first_mark(chars@, 0),
        decreases chars.len() - start,
    {
        start += 1;
    }
    let mut stop: usize = chars.len();
    while stop > 0 && is_whitespace(chars[stop - 1])
        invariant
            stop <= chars.len(),
            last_mark(chars@, stop as int) == last_mark(chars@, chars@.len() as int),
        decreases stop,
    {
        stop -= 1;
    }
    let mut r: Vec<char> = Vec::new();
    if start < stop {
        let mut i: usize = start;
        while i < stop
            invariant
                start <= i <= stop <= chars.len(),
                r@ == chars@.subrange(start as int, i as int),
            decreases stop - i,
        {
            r.push(chars[i]);
            assert(r@ =~= chars@.subrange(start as int, i + 1));
            i += 1;
        }
    } else {
        assert(r@ =~= Seq::<char>::empty());
    }
    r
}

/// `chars` from the first character on that is not `c`.
pub fn strip_leading(chars: &Vec<char>, c: char) -> (r: Vec<char>)
    ensures
        r@ == without_leading(chars@, c),
{
    let mut start: usize = 0;
    assert(chars@.skip(0) =~= chars@);
    while start < chars.len() && chars[start] == c
        invariant
            start <= chars.len(),
            without_leading(chars@.skip(start as int), c) == without_leading(chars@, c),
        decreases chars.len() - start,
    {
        assert(chars@.skip(start as int).drop_first() =~= chars@.skip(start + 1));
        start += 1;
    }
    let mut r: Vec<char> = Vec::new();
    let mut i: usize = start;
    while i < chars.len()
        invariant
            start <= i <= chars.len(),
            r@ == chars@.subrange(start as int, i as int),
        decreases chars.len() - i,
    {
        r.push(chars[i]);
        assert(r@ =~= chars@.subrange(start as int, i + 1));
        i += 1;
    }
    assert(r@ =~= chars@.skip(start as int));
    r
}

/// Whether `chars` goes on with `release-` at `at`.
fn release_at(chars: &Vec<char>, at: usize) -> (r: bool)
    requires
        at <= chars.len(),
    ensures
        r == (chars@.skip(at as int).len() >= 8 && chars@.skip(at as int).take(8)
            == release_prefix()),
{
    let ghost rest = chars@.skip(at as int);
    if chars.len() - at < 8 {
        return false;
    }
    let found = chars[at] == 'r' && chars[at + 1] == 'e' && chars[at + 2] == 'l' && chars[at + 3]
        == 'e' && chars[at + 4] == 'a' && chars[at + 5] == 's' && chars[at + 6] == 'e' && chars[at
        + 7] == '-';
    proof {
        let head = rest.take(8);
        assert(head[0] == chars@[at as int]);
        assert(head[1] == chars@[at + 1]);
        assert(head[2] == chars@[at + 2]);
        assert(head[3] == chars@[at + 3]);
        assert(head[4] == chars@[at + 4]);
        assert(head[5] == chars@[at + 5]);
        assert(head[6] == chars@[at + 6]);
        assert(head[7] == chars@[at + 7]);
        if found {
            assert(head =~= release_prefix());
        }
    }
    found
}

/// `chars` without any `release-` at its beginning.
pub fn strip_release(chars: &Vec<char>) -> (r: Vec<char>)
    ensures
        r@ == without_release(chars@),
{
    let mut start: usize = 0;
    assert(chars@.skip(0) =~= chars@);
    while release_at(chars, start)
        invariant
            start <= chars.len(),
            without_release(chars@.skip(start as int)) == without_release(chars@),
        decreases chars.len() - start,
    {
        assert(chars@.skip(start as int).skip(8) =~= chars@.skip(start + 8));
        start += 8;
    }
    let mut r: Vec<char> = Vec::new();
    let mut i: usize = start;
    while i < chars.len()
        invariant
            start <= i <= chars.len(),
            r@ == chars@.subrange(start as int, i as int),
        decreases chars.len() - i,
    {
        r.push(chars[i]);
        assert(r@ =~= chars@.subrange(start as int, i + 1));
        i += 1;
    }
    assert(r@ =~= chars@.skip(start as int));
    r
}

/// The first word of `text`.
pub fn first_word_of(text: &str) -> (r: Vec<char>)
    ensures
        r@ == first_word(text@),
{
    let rest = trim_chars(&chars_of(text));
    let mut end: usize = 0;
    while end < rest.len() && !is_whitespace(rest[end])
        invariant
            end <= rest.len(),
            word_end(rest@, end as int) == word_end(rest@, 0),
        decreases rest.len() - end,
    {
        end += 1;
    }
    let mut r: Vec<char> = Vec::new();
    let mut i: usize = 0;
    while i < end
        invariant
            i <= end <= rest.len(),
            r@ == rest@.take(i as int),
        decreases end - i,
    {
        r.push(rest[i]);
        assert(r@ =~= rest@.take(i + 1));
        i += 1;
    }
    r
}

fn whole(chars: &Vec<char>) -> (s: String)
    ensures
        s@ == chars@,
{
    let s = text_of(chars, 0, chars.len());
    assert(chars@.subrange(0, chars.len() as int) =~= chars@);
    s
}

/// The body of the answer `reply`, or why there is none.
pub fn body_text(reply: HostReply) -> (r: Result<String, EngineError>)
    ensures
        match r {
            Ok(body) => body_of(reply@) == Ok::<Seq<char>, Failure>(body@),
            Err(e) => body_of(reply@) == Err::<Seq<char>, Failure>(e@),
        },
{
    match reply {
        HostReply::Text { code, body } => {
            if 200 <= code && code < 300 {
                Ok(body)
            } else {
                let mut text = String::from_str("HTTP ");
                append_numeral(&mut text, code as u64);
                Err(EngineError::new(ErrorKind::Network, text))
            }
        },
        HostReply::Failed(why) => Err(EngineError::new(ErrorKind::Network, why)),
        _ => Err(
            EngineError::new(ErrorKind::Network, String::from_str("unexpected reply from the host")),
        ),
    }
}

/// The tag of the release that the answer `reply` describes.
fn release_tag(reply: HostReply) -> (r: Result<Vec<char>, EngineError>)
    ensures
        match r {
            Ok(tag) => tag_of(reply@) == Ok::<Seq<char>, Failure>(tag@),
            Err(e) => tag_of(reply@) == Err::<Seq<char>, Failure>(e@),
        },
{
    let body = match body_text(reply) {
        Ok(body) => body,
        Err(e) => {
            return Err(e);
        },
    };
    let release = match parse_json(body.as_str()) {
        Ok(release) => release,
        Err(why) => {
            return Err(EngineError::new(ErrorKind::ReleaseLookup, why));
        },
    };
    let tag = match release.text_at("tag_name") {
        Some(text) => trim_chars(&chars_of(text.as_str())),
        None => Vec::new(),
    };
    if tag.len() == 0 {
        Err(EngineError::new(ErrorKind::ReleaseLookup, String::from_str("Missing tag_name")))
    } else {
        Ok(tag)
    }
}

/// The first word of the answer `reply`.
fn answer_word(reply: HostReply) -> (r: Result<Vec<char>, EngineError>)
    ensures
        match r {
            Ok(word) => word_of(reply@) == Ok::<Seq<char>, Failure>(word@),
            Err(e) => word_of(reply@) == Err::<Seq<char>, Failure>(e@),
        },
{
    match body_text(reply) {
        Err(e) => Err(e),
        Ok(body) => {
            let word = first_word_of(body.as_str());
            if word.len() == 0 {
                Err(EngineError::new(ErrorKind::ReleaseLookup, String::from_str("Empty response")))
            } else {
                Ok(word)
            }
        },
    }
}

/// The request for the description of the latest release of yt-dlp, of the
/// channel `channel`; `stable` if none is named.
pub fn ytdlp_version_request(channel: Option<&str>) -> (request: HostRequest)
    ensures
        request@ == (Request::Get {
            url: ytdlp_release_api(channel matches Some(name) && name@ == "nightly"@),
            accept: github_accept(),
        }),
{
    let nightly = match channel {
        Some(name) => same_text(name, "nightly"),
        None => false,
    };
    HostRequest::Get {
        url: if nightly {
            String::from_str(
                "https://api.github.com/repos/yt-dlp/yt-dlp-nightly-builds/releases/latest",
            )
        } else {
            String::from_str("https://api.github.com/repos/yt-dlp/yt-dlp/releases/latest")
        },
        accept: String::from_str("application/vnd.github+json"),
    }
}

/// The request for the latest version of deno.
pub fn deno_version_request() -> (request: HostRequest)
    ensures
        request@ == (Request::Get {
            url: "https://dl.deno.land/release-latest.txt"@,
            accept: "text/plain,*/*"@,
        }),
{
    HostRequest::Get {
        url: String::from_str("https://dl.deno.land/release-latest.txt"),
        accept: String::from_str("text/plain,*/*"),
    }
}

/// The request for the latest version of ffmpeg, of the channel `channel`;
/// `stable` if none is named.
pub fn ffmpeg_version_request(channel: Option<&str>) -> (request: HostRequest)
    ensures
        request@ == (Request::Get {
            url: ffmpeg_version_address(channel matches Some(name) && name@ == "nightly"@),
            accept: "text/plain,*/*"@,
        }),
{
    let nightly = match channel {
        Some(name) => same_text(name, "nightly"),
        None => false,
    };
    HostRequest::Get {
        url: if nightly {
            String::from_str("https://www.gyan.dev/ffmpeg/builds/git-version")
        } else {
            String::from_str("https://www.gyan.dev/ffmpeg/builds/release-version")
        },
        accept: String::from_str("text/plain,*/*"),
    }
}

/// The latest version of yt-dlp, as the answer `reply` of its release
/// service tells it.
pub fn fetch_latest_ytdlp_version(reply: HostReply) -> (r: Result<String, EngineError>)
    ensures
        match r {
            Ok(version) => tag_of(reply@) matches Ok(tag) && version@ == plain_version(tag),
            Err(e) => tag_of(reply@) == Err::<Seq<char>, Failure>(e@),
        },
{
    match release_tag(reply) {
        Ok(tag) => Ok(whole(&trim_chars(&strip_leading(&tag, 'v')))),
        Err(e) => Err(e),
    }
}

/// The latest version of aria2, as the answer `reply` of its release service
/// tells it.
pub fn fetch_latest_aria2_version(reply: HostReply) -> (r: Result<String, EngineError>)
    ensures
        match r {
            Ok(version) => tag_of(reply@) matches Ok(tag) && version@ == aria2_version(tag),
            Err(e) => tag_of(reply@) == Err::<Seq<char>, Failure>(e@),
        },
{
    match release_tag(reply) {
        Ok(tag) => Ok(whole(&trim_chars(&strip_leading(&strip_release(&tag), 'v')))),
        Err(e) => Err(e),
    }
}

/// The latest version of deno, as the answer `reply` tells it.
pub fn fetch_latest_deno_version(reply: HostReply) -> (r: Result<String, EngineError>)
    ensures
        match r {
            Ok(version) => word_of(reply@) matches Ok(word) && version@ == plain_version(word),
            Err(e) => word_of(reply@) == Err::<Seq<char>, Failure>(e@),
        },
{
    match answer_word(reply) {
        Ok(word) => Ok(whole(&trim_chars(&strip_leading(&word, 'v')))),
        Err(e) => Err(e),
    }
}

/// The latest version of ffmpeg, as the answer `reply` tells it.
pub fn fetch_latest_ffmpeg_version(reply: HostReply) -> (r: Result<String, EngineError>)
    ensures
        match r {
            Ok(version) => word_of(reply@) == Ok::<Seq<char>, Failure>(version@),
            Err(e) => word_of(reply@) == Err::<Seq<char>, Failure>(e@),
        },
{
    match answer_word(reply) {
        Ok(word) => Ok(whole(&word)),
        Err(e) => Err(e),
    }
}

} // verus!
