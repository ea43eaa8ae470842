//! Finding the download address of a release in the answer of a release
//! service.
//!
//! The answer is JSON text. It is parsed by `serde_json`; what is read of it
//! is read in verified code, on a value of the library's own.

use vstd::prelude::*;
use vstd::string::StringExecFns;
use crate::download::is_success;
use crate::errors::{EngineError, ErrorKind, Failure};
use crate::files::{unexpected_reply, HostReply, HostRequest, Reply, Request};
use crate::text::{
    append_numeral, chars_of, contains_lowered, ends_with, has_infix, has_suffix, lowered,
    numeral, same_text,
};

verus! {

/// A JSON value. A number is kept as its text. An object is kept as the keys
/// of its members and, in the same order, their values.
pub enum Json {
    Null,
    Bool(bool),
    Number(String),
    Text(String),
    List(Vec<Json>),
    Object(Vec<String>, Vec<Json>),
}

/// A JSON value as a value of the model.
pub ghost enum JsonValue {
    Null,
    Bool(bool),
    Number(Seq<char>),
    Text(Seq<char>),
    List(Seq<JsonValue>),
    Object(Seq<(Seq<char>, JsonValue)>),
}

impl View for Json {
    type V = JsonValue;

    open spec fn view(&self) -> JsonValue
        decreases self,
    {
        match self {
            Json::Null => JsonValue::Null,
            Json::Bool(b) => JsonValue::Bool(*b),
            Json::Number(text) => JsonValue::Number(text@),
            Json::Text(text) => JsonValue::Text(text@),
            Json::List(items) => JsonValue::List(
                Seq::new(items@.len(), |i: int| if 0 <= i < items@.len() {
                    items@[i].view()
                } else {
                    JsonValue::Null
                }),
            ),
            Json::Object(keys, values) => JsonValue::Object(
                Seq::new(keys@.len(), |i: int| (keys@[i]@, if 0 <= i < values@.len() {
                    values@[i].view()
                } else {
                    JsonValue::Null
                })),
            ),
        }
    }
}

/// `serde_json::Value`, a parsed JSON value. Nothing is known of what is
/// inside; `json_model` names what it holds.
#[verifier::external_type_specification]
#[verifier::external_body]
pub struct ExJsonTree(serde_json::Value);

/// What a value of `serde_json` holds.
pub uninterp spec fn json_model(value: serde_json::Value) -> JsonValue;

/// What parsing `text` as JSON gives: the value, or why the text is no JSON.
pub uninterp spec fn json_parse(text: Seq<char>) -> Result<JsonValue, Seq<char>>;

/// Parses `text` as JSON.
///
/// Stands for `serde_json::from_str` at the type `serde_json::Value`. The
/// contract claims that the outcome depends on the text alone, and names it.
#[verifier::external_body]
fn json_from_str(text: &str) -> (r: Result<serde_json::Value, String>)
    ensures
        match r {
            Ok(value) => json_parse(text@) == Ok::<JsonValue, Seq<char>>(json_model(value)),
            Err(why) => json_parse(text@) == Err::<JsonValue, Seq<char>>(why@),
        },
{
    serde_json::from_str::<serde_json::Value>(text).map_err(|e| e.to_string())
}

/// Copies a value of `serde_json` into a value of the library.
///
/// Tells the variants of `serde_json::Value` apart and moves what each holds;
/// a number is kept as the text that `serde_json` prints for it, the members
/// of an object in the order in which `serde_json` keeps them. The contract
/// claims that the copy holds what the model names as the content of the
/// value.
#[verifier::external_body]
fn json_of(value: &serde_json::Value) -> (json: Json)
    ensures
        json@ == json_model(*value),
{
    match value {
        serde_json::Value::Null => Json::Null,
        serde_json::Value::Bool(b) => Json::Bool(*b),
        serde_json::Value::Number(n) => Json::Number(n.to_string()),
        serde_json::Value::String(s) => Json::Text(s.clone()),
        serde_json::Value::Array(items) => Json::List(items.iter().map(json_of).collect()),
        serde_json::Value::Object(members) => Json::Object(
            members.keys().cloned().collect(),
            members.values().map(json_of).collect(),
        ),
    }
}

/// Parses `text` as JSON.
pub fn parse_json(text: &str) -> (r: Result<Json, String>)
    ensures
        match r {
            Ok(json) => json_parse(text@) == Ok::<JsonValue, Seq<char>>(json@),
            Err(why) => json_parse(text@) == Err::<JsonValue, Seq<char>>(why@),
        },
{
    match json_from_str(text) {
        Ok(value) => Ok(json_of(&value)),
        Err(why) => Err(why),
    }
}

/// The member `key` of an object: the value of its first member with that
/// key.
pub open spec fn first_with_key(members: Seq<(Seq<char>, JsonValue)>, key: Seq<char>) -> Option<
    JsonValue,
>
    decreases members.len(),
{
    if members.len() == 0 {
        None
    } else if members[0].0 == key {
        Some(members[0].1)
    } else {
        first_with_key(members.drop_first(), key)
    }
}

/// The member `key` of `value`, if `value` is an object that has one.
pub open spec fn member_of(value: JsonValue, key: Seq<char>) -> Option<JsonValue> {
    match value {
        JsonValue::Object(members) => first_with_key(members, key),
        _ => None,
    }
}

/// The text of `value`, if `value` is a text.
pub open spec fn text_of_value(value: JsonValue) -> Option<Seq<char>> {
    match value {
        JsonValue::Text(text) => Some(text),
        _ => None,
    }
}

/// The text of the member `key` of `value`, if there is such a member and it
/// is a text.
pub open spec fn text_member(value: JsonValue, key: Seq<char>) -> Option<Seq<char>> {
    match member_of(value, key) {
        Some(member) => text_of_value(member),
        None => None,
    }
}

/// Whether `name` is the name of a zip archive for 64-bit Windows: it ends
/// with `.zip` and holds `win-64bit`, whatever the case of its letters.
pub open spec fn is_windows_zip(name: Seq<char>) -> bool {
    has_suffix(name, ".zip"@) && has_infix(lowered(name), "win-64bit"@)
}

/// The download address of `asset`, if it is a zip archive for 64-bit
/// Windows that has one.
pub open spec fn asset_address(asset: JsonValue) -> Option<Seq<char>> {
    let name = match text_member(asset, "name"@) {
        Some(text) => text,
        None => Seq::empty(),
    };
    if is_windows_zip(name) {
        text_member(asset, "browser_download_url"@)
    } else {
        None
    }
}

/// The download address of the first of `assets` that has one.
pub open spec fn first_address(assets: Seq<JsonValue>) -> Option<Seq<char>>
    decreases assets.len(),
{
    if assets.len() == 0 {
        None
    } else if asset_address(assets[0]) is Some {
        asset_address(assets[0])
    } else {
        first_address(assets.drop_first())
    }
}

/// The failure of a release that lists no assets.
pub open spec fn missing_assets() -> Failure {
    Failure {
        kind: ErrorKind::ReleaseLookup,
        message: "Missing assets in GitHub release response"@,
    }
}

/// The failure of a release none of whose assets fits.
pub open spec fn no_matching_asset() -> Failure {
    Failure {
        kind: ErrorKind::ReleaseLookup,
        message: "No matching aria2 Windows zip asset found"@,
    }
}

/// The download address that the release `release` gives for aria2: that of
/// the first of its assets that is a zip archive for 64-bit Windows.
pub open spec fn aria2_address(release: JsonValue) -> Result<Seq<char>, Failure> {
    match member_of(release, "assets"@) {
        Some(JsonValue::List(assets)) => match first_address(assets) {
            Some(address) => Ok(address),
            None => Err(no_matching_asset()),
        },
        _ => Err(missing_assets()),
    }
}

/// The items of a list of the model are the views of the items of the list.
pub proof fn lemma_list_view(items: Vec<Json>)
    ensures
        Json::List(items)@ matches JsonValue::List(values) && values.len() == items@.len()
            && forall|i: int| 0 <= i < items@.len() ==> values[i] == (#[trigger] items@[i])@,
{
}

/// The members of an object of the model are the keys of the object with
/// the views of its values.
pub proof fn lemma_object_view(keys: Vec<String>, values: Vec<Json>)
    ensures
        Json::Object(keys, values)@ matches JsonValue::Object(members) && members.len()
            == keys@.len() && forall|i: int|
            0 <= i < keys@.len() ==> (#[trigger] members[i]).0 == keys@[i]@ && (i < values@.len()
                ==> members[i].1 == values@[i]@),
{
}

impl Json {
    /// The member `key` of this value, if it is an object that has one.
    #[verifier::loop_isolation(false)]
    pub fn get(&self, key: &str) -> (r: Option<&Json>)
        ensures
            r is Some == member_of(self@, key@) is Some,
            r matches Some(member) ==> member_of(self@, key@) == Some(member@),
    {
        match self {
            Json::Object(keys, values) => {
                let ghost all = self@->Object_0;
                let mut i: usize = 0;
                proof {
                    lemma_object_view(*keys, *values);
                    assert(*self == Json::Object(*keys, *values));
                    assert(all.skip(0) =~= all);
                }
                while i < keys.len()
                    invariant
                        i <= keys.len(),
                        all.len() == keys@.len(),
                        forall|k: int|
                            0 <= k < keys@.len() ==> (#[trigger] all[k]).0 == keys@[k]@ && (k
                                < values@.len() ==> all[k].1 == values@[k]@),
                        first_with_key(all, key@) == first_with_key(all.skip(i as int), key@),
                    decreases keys.len() - i,
                {
                    let ghost rest = all.skip(i as int);
                    assert(rest[0] == all[i as int]);
                    assert(rest.drop_first() =~= all.skip(i + 1));
                    if same_text(keys[i].as_str(), key) {
                        if i < values.len() {
                            return Some(&values[i]);
                        } else {
                            assert(all[i as int].1 == JsonValue::Null);
                            return Some(&Json::Null);
                        }
                    }
                    i += 1;
                }
                None
            },
            _ => None,
        }
    }

    /// The text of this value, if it is a text.
    pub fn as_text(&self) -> (r: Option<&String>)
        ensures
            r is Some == text_of_value(self@) is Some,
            r matches Some(text) ==> text_of_value(self@) == Some(text@),
    {
        match self {
            Json::Text(text) => Some(text),
            _ => None,
        }
    }

    /// The text of the member `key` of this value.
    pub fn text_at(&self, key: &str) -> (r: Option<&String>)
        ensures
            r is Some == text_member(self@, key@) is Some,
            r matches Some(text) ==> text_member(self@, key@) == Some(text@),
    {
        match self.get(key) {
            Some(member) => member.as_text(),
            None => None,
        }
    }
}

/// Whether `name` is the name of a zip archive for 64-bit Windows.
pub fn names_windows_zip(name: &str) -> (r: bool)
    ensures
        r == is_windows_zip(name@),
{
    let chars = chars_of(name);
    let suffix = chars_of(".zip");
    ends_with(&chars, &suffix) && contains_lowered(name, "win-64bit")
}

/// The download address of `asset`, if it is a zip archive for 64-bit
/// Windows that has one.
pub fn address_of_asset(asset: &Json) -> (r: Option<String>)
    ensures
        r is Some == asset_address(asset@) is Some,
        r matches Some(address) ==> asset_address(asset@) == Some(address@),
{
    let fits = match asset.text_at("name") {
        Some(name) => names_windows_zip(name.as_str()),
        None => {
            proof {
                reveal_strlit(".zip");
                assert(!has_suffix(Seq::<char>::empty(), ".zip"@));
            }
            false
        },
    };
    if fits {
        match asset.text_at("browser_download_url") {
            Some(address) => Some(address.clone()),
            None => None,
        }
    } else {
        None
    }
}

/// The download address that the release `release` gives for aria2.
#[verifier::loop_isolation(false)]
pub fn select_aria2_asset(release: &Json) -> (r: Result<String, EngineError>)
    ensures
        match r {
            Ok(address) => aria2_address(release@) == Ok::<Seq<char>, Failure>(address@),
            Err(e) => aria2_address(release@) == Err::<Seq<char>, Failure>(e@),
        },
{
    match release.get("assets") {
        Some(Json::List(assets)) => {
            let ghost all = Json::List(*assets)@->List_0;
            let mut i: usize = 0;
            proof {
                lemma_list_view(*assets);
                assert(all.skip(0) =~= all);
            }
            while i < assets.len()
                invariant
                    i <= assets.len(),
                    all.len() == assets@.len(),
                    forall|k: int| 0 <= k < assets@.len() ==> #[trigger] all[k] == assets@[k]@,
                    first_address(all) == first_address(all.skip(i as int)),
                decreases assets.len() - i,
            {
                let ghost rest = all.skip(i as int);
                assert(rest[0] == all[i as int]);
                assert(rest.drop_first() =~= all.skip(i + 1));
                match address_of_asset(&assets[i]) {
                    Some(address) => {
                        return Ok(address);
                    },
                    None => {},
                }
                i += 1;
            }
            Err(
                EngineError::new(
                    ErrorKind::ReleaseLookup,
                    String::from_str("No matching aria2 Windows zip asset found"),
                ),
            )
        },
        _ => Err(
            EngineError::new(
                ErrorKind::ReleaseLookup,
                String::from_str("Missing assets in GitHub release response"),
            ),
        ),
    }
}

/// The address of the service that describes the latest release of aria2.
pub open spec fn aria2_release_api() -> Seq<char> {
    "https://api.github.com/repos/aria2/aria2/releases/latest"@
}

/// The media type asked of the release service.
pub open spec fn github_accept() -> Seq<char> {
    "application/vnd.github+json"@
}

/// The address to download aria2 from when the release service is of no help.
pub open spec fn aria2_fallback() -> Seq<char> {
    "https://github.com/aria2/aria2/releases/download/release-1.37.0/aria2-1.37.0-win-64bit-build1.zip"@
}

/// The text for an answer of the release service whose status is not one of
/// success.
pub open spec fn api_failed_text(code: u16) -> Seq<char> {
    "GitHub API failed with status: "@ + numeral(code as nat)
}

/// What the answer `reply` of the release service gives as the download
/// address of aria2.
pub open spec fn aria2_answer(reply: Reply) -> Result<Seq<char>, Failure> {
    match reply {
        Reply::Text { code, body } => if !is_success(code) {
            Err(Failure { kind: ErrorKind::Network, message: api_failed_text(code) })
        } else {
            match json_parse(body) {
                Ok(release) => aria2_address(release),
                Err(why) => Err(Failure { kind: ErrorKind::ReleaseLookup, message: why }),
            }
        },
        Reply::Failed(why) => Err(Failure { kind: ErrorKind::Network, message: why }),
        _ => Err(Failure { kind: ErrorKind::Network, message: unexpected_reply() }),
    }
}

/// The address to download aria2 from, given the answer `reply` of the
/// release service: the address that the answer gives, or else the fixed one.
pub open spec fn aria2_download_address(reply: Reply) -> Seq<char> {
    match aria2_answer(reply) {
        Ok(address) => address,
        Err(_) => aria2_fallback(),
    }
}

/// The request for the description of the latest release of aria2.
pub fn aria2_release_request() -> (request: HostRequest)
    ensures
        request@ == (Request::Get { url: aria2_release_api(), accept: github_accept() }),
{
    HostRequest::Get {
        url: String::from_str("https://api.github.com/repos/aria2/aria2/releases/latest"),
        accept: String::from_str("application/vnd.github+json"),
    }
}

/// What the answer `reply` of the release service gives as the download
/// address of aria2, or why it gives none.
pub fn resolve_latest_aria2_zip_url(reply: HostReply) -> (r: Result<String, EngineError>)
    ensures
        match r {
            Ok(address) => aria2_answer(reply@) == Ok::<Seq<char>, Failure>(address@),
            Err(e) => aria2_answer(reply@) == Err::<Seq<char>, Failure>(e@),
        },
{
    match reply {
        HostReply::Text { code, body } => {
            if !(200 <= code && code < 300) {
                let mut text = String::from_str("GitHub API failed with status: ");
                append_numeral(&mut text, code as u64);
                Err(EngineError::new(ErrorKind::Network, text))
            } else {
                match parse_json(body.as_str()) {
                    Ok(release) => select_aria2_asset(&release),
                    Err(why) => Err(EngineError::new(ErrorKind::ReleaseLookup, why)),
                }
            }
        },
        HostReply::Failed(why) => Err(EngineError::new(ErrorKind::Network, why)),
        _ => Err(
            EngineError::new(ErrorKind::Network, String::from_str("unexpected reply from the host")),
        ),
    }
}

/// The address to download aria2 from, given the answer `reply` of the
/// release service.
pub fn aria2_url_or_fallback(reply: HostReply) -> (address: String)
    ensures
        address@ == aria2_download_address(reply@),
{
    match resolve_latest_aria2_zip_url(reply) {
        Ok(address) => address,
        Err(_) => String::from_str(
            "https://github.com/aria2/aria2/releases/download/release-1.37.0/aria2-1.37.0-win-64bit-build1.zip",
        ),
    }
}

} // verus!
