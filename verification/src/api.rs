//! The three calls that the viewer makes to the streaming service: whether a
//! broadcaster is live, where a broadcast is streamed from, and the key for
//! a protected broadcast. Each is a request to build and an answer to read.

use vstd::prelude::*;
use vstd::string::{StrSliceExecFns, StringExecFns};
use crate::headers::{spoof, spoofed};
use crate::json::{json_object_members, member_texts, read_object, texts_of};
use crate::json::JsonModel;
use crate::query::{get_value, lookup};
use crate::request::{Method, TargetModel, TargetRequest};
use crate::text::{same_text, trim, trim_matches};

verus! {

/// The address of the player API.
pub open spec fn live_api() -> Seq<char> {
    "https://live.sooplive.co.kr/afreeca/player_live_api.php"@
}

/// The address of the stream assignment.
pub open spec fn assign_api() -> Seq<char> {
    "https://livestream-manager.sooplive.co.kr/broad_stream_assign.html"@
}

/// The kind of address to ask the stream assignment for, by content
/// delivery network: `gs_cdn_pc_web` for `gs_cdn`, `gcp_cdn` for any other.
pub open spec fn return_type(cdn: Seq<char>) -> Seq<char> {
    if cdn == "gs_cdn"@ {
        "gs_cdn_pc_web"@
    } else {
        "gcp_cdn"@
    }
}

/// The key under which the service knows a broadcast in a quality.
pub open spec fn broad_key(bno: Seq<char>, quality: Seq<char>) -> Seq<char> {
    bno + "-common-"@ + quality + "-hls"@
}

/// The request that asks whether the broadcaster `bid` is live.
pub open spec fn live_request(bid: Seq<char>) -> TargetModel {
    TargetModel {
        method: Method::Post,
        url: live_api(),
        headers: spoofed(Seq::empty()),
        fields: seq![("bid"@, bid)],
    }
}

/// The request that asks where the broadcast `bno` is streamed from.
pub open spec fn assign_request(bno: Seq<char>, cdn: Seq<char>, quality: Seq<char>) -> TargetModel {
    TargetModel {
        method: Method::Get,
        url: assign_api(),
        headers: spoofed(Seq::empty()),
        fields: seq![("return_type"@, return_type(cdn)), ("broad_key"@, broad_key(bno, quality))],
    }
}

/// The request that asks for the key of the protected broadcast `bno`.
pub open spec fn aid_request(bno: Seq<char>, quality: Seq<char>, password: Seq<char>) -> TargetModel {
    TargetModel {
        method: Method::Post,
        url: live_api(),
        headers: spoofed(Seq::empty()),
        fields: seq![("type"@, "aid"@), ("bno"@, bno), ("quality"@, quality), ("pwd"@, password)],
    }
}

/// The JSON text of the member `name`, given the members that were read
/// from an answer.
pub open spec fn member_text(members: Option<Seq<(Seq<char>, JsonModel)>>, name: Seq<char>) -> Option<
    Seq<char>,
> {
    match members {
        Some(m) => lookup(texts_of(m), name),
        None => None,
    }
}

/// What the answer to a live check says, given its status and the JSON text
/// of its `CHANNEL` member.
pub open spec fn live_outcome(status: u16, channel: Option<Seq<char>>) -> Result<
    Seq<char>,
    Seq<char>,
> {
    if status == 200 {
        match channel {
            Some(text) => Ok(text),
            None => Err("Invalid response"@),
        }
    } else if status == 404 {
        Err("404 Not Found"@)
    } else {
        Err("Unknown error"@)
    }
}

/// The text of a member without the quotes around it.
pub open spec fn unquoted(text: Option<Seq<char>>) -> Result<Seq<char>, Seq<char>> {
    match text {
        Some(t) => Ok(trim(t, '"')),
        None => Err("Invalid response"@),
    }
}

/// The views of a result of texts.
pub open spec fn result_view(r: Result<String, String>) -> Result<Seq<char>, Seq<char>> {
    match r {
        Ok(t) => Ok(t@),
        Err(e) => Err(e@),
    }
}

fn plain_request(method: Method, url: &str, fields: Vec<(String, String)>) -> (out: TargetRequest)
    ensures
        out@ == (TargetModel {
            method,
            url: url@,
            headers: spoofed(Seq::empty()),
            fields: fields.deep_view(),
        }),
{
    let none: Vec<(String, Vec<u8>)> = Vec::new();
    assert(crate::headers::header_views(none@) =~= Seq::empty());
    TargetRequest { method, url: String::from_str(url), headers: spoof(none), fields }
}

fn field(name: &str, value: String) -> (out: (String, String))
    ensures
        out.0@ == name@,
        out.1@ == value@,
{
    (String::from_str(name), value)
}

/// The request that asks whether the broadcaster `bid` is live.
pub fn check_live_request(bid: &str) -> (out: TargetRequest)
    ensures
        out@ == live_request(bid@),
{
    let mut fields: Vec<(String, String)> = Vec::new();
    fields.push(field("bid", String::from_str(bid)));
    assert(fields.deep_view() =~= seq![("bid"@, bid@)]);
    plain_request(
        Method::Post,
        "https://live.sooplive.co.kr/afreeca/player_live_api.php",
        fields,
    )
}

/// The request that asks where the broadcast `bno` is streamed from in the
/// quality `quality`, over the network `cdn`.
pub fn stream_url_request(bno: &str, cdn: &str, quality: &str) -> (out: TargetRequest)
    ensures
        out@ == assign_request(bno@, cdn@, quality@),
{
    let kind = if same_text(cdn, "gs_cdn") {
        String::from_str("gs_cdn_pc_web")
    } else {
        String::from_str("gcp_cdn")
    };
    let mut key = String::from_str(bno);
    key.append("-common-");
    key.append(quality);
    key.append("-hls");
    let mut fields: Vec<(String, String)> = Vec::new();
    fields.push(field("return_type", kind));
    fields.push(field("broad_key", key));
    assert(fields.deep_view() =~= seq![
        ("return_type"@, return_type(cdn@)),
        ("broad_key"@, broad_key(bno@, quality@)),
    ]);
    plain_request(
        Method::Get,
        "https://livestream-manager.sooplive.co.kr/broad_stream_assign.html",
        fields,
    )
}

/// The request that asks for the key of the protected broadcast `bno`.
pub fn post_aid_request(bno: &str, quality: &str, password: &str) -> (out: TargetRequest)
    ensures
        out@ == aid_request(bno@, quality@, password@),
{
    let mut fields: Vec<(String, String)> = Vec::new();
    fields.push(field("type", String::from_str("aid")));
    fields.push(field("bno", String::from_str(bno)));
    fields.push(field("quality", String::from_str(quality)));
    fields.push(field("pwd", String::from_str(password)));
    assert(fields.deep_view() =~= seq![
        ("type"@, "aid"@),
        ("bno"@, bno@),
        ("quality"@, quality@),
        ("pwd"@, password@),
    ]);
    plain_request(
        Method::Post,
        "https://live.sooplive.co.kr/afreeca/player_live_api.php",
        fields,
    )
}

/// The JSON text of the member `name` of the object that `body` holds.
pub fn read_member(body: &[u8], name: &str) -> (out: Option<String>)
    ensures
        out.deep_view() == member_text(json_object_members(body@), name@),
{
    match read_object(body) {
        Some(members) => get_value(&member_texts(&members), name),
        None => None,
    }
}

/// What the answer to a live check says, given its status and the JSON text
/// of its `CHANNEL` member: under status 200 that text, else an error.
pub fn live_result(status: u16, channel: Option<String>) -> (out: Result<String, String>)
    ensures
        result_view(out) == live_outcome(status, channel.deep_view()),
{
    if status == 200 {
        match channel {
            Some(text) => Ok(text),
            None => Err(String::from_str("Invalid response")),
        }
    } else if status == 404 {
        Err(String::from_str("404 Not Found"))
    } else {
        Err(String::from_str("Unknown error"))
    }
}

/// What the answer to a live check says: under status 200 the JSON text of
/// the `CHANNEL` member of its body, under 404 and any other status an
/// error.
pub fn check_live_result(status: u16, body: &[u8]) -> (out: Result<String, String>)
    ensures
        result_view(out) == live_outcome(
            status,
            member_text(json_object_members(body@), "CHANNEL"@),
        ),
{
    live_result(status, read_member(body, "CHANNEL"))
}

/// The text of a member without the quotes around it; an error where the
/// member is not there.
pub fn unquote(text: Option<String>) -> (out: Result<String, String>)
    ensures
        result_view(out) == unquoted(text.deep_view()),
{
    match text {
        Some(t) => Ok(trim_matches(t.as_str(), '"')),
        None => Err(String::from_str("Invalid response")),
    }
}

/// The address that the stream assignment answered with: the `view_url`
/// member of the body, without the quotes around it.
pub fn stream_url_result(body: &[u8]) -> (out: Result<String, String>)
    ensures
        result_view(out) == unquoted(member_text(json_object_members(body@), "view_url"@)),
{
    unquote(read_member(body, "view_url"))
}

/// The key that the player API answered with: the `AID` member of the
/// `CHANNEL` member of the body, without the quotes around it.
pub fn post_aid_result(body: &[u8]) -> (out: Result<String, String>)
    ensures
        result_view(out) == unquoted(
            match member_text(json_object_members(body@), "CHANNEL"@) {
                Some(channel) => member_text(
                    json_object_members(vstd::utf8::encode_utf8(channel)),
                    "AID"@,
                ),
                None => None,
            },
        ),
{
    match read_member(body, "CHANNEL") {
        Some(channel) => unquote(read_member(channel.as_str().as_bytes(), "AID")),
        None => unquote(None),
    }
}

} // verus!
