//! The answers that the proxy gives to the viewer.

use vstd::prelude::*;
use vstd::string::{StrSliceExecFns, StringExecFns};
use vstd::utf8::encode_utf8;
use crate::playlist::{parse_playlist, reads_as, rewrite, rewritten, serialize, written};
use crate::playlist::PlaylistModel;

verus! {

/// Why a request of the viewer is answered with a failure.
#[derive(Clone, Copy, Debug, PartialEq, Eq, Structural)]
pub enum ProxyError {
    /// The proxy URI does not parse, or has no `url` parameter.
    MissingUrl,
    /// The method to use upstream is neither `GET` nor `POST`.
    UnsupportedMethod,
    /// A form field is `null`, an array or an object.
    UnsupportedField,
    /// The upstream service gave no answer, or its body could not be read.
    Upstream,
    /// The rewritten playlist could not be written.
    Serialize,
}

/// An answer to the viewer: a status, headers in order, and a body.
#[derive(Clone, Debug, PartialEq, Eq)]
pub struct Response {
    pub status: u16,
    pub headers: Vec<(String, String)>,
    pub body: Vec<u8>,
}

/// The mathematical value of a `Response`.
pub struct ResponseModel {
    pub status: u16,
    pub headers: Seq<(Seq<char>, Seq<char>)>,
    pub body: Seq<u8>,
}

impl View for Response {
    type V = ResponseModel;

    open spec fn view(&self) -> ResponseModel {
        ResponseModel { status: self.status, headers: self.headers.deep_view(), body: self.body@ }
    }
}

/// What came of a request to the upstream service.
#[derive(Clone, Debug, PartialEq, Eq)]
pub enum Upstream {
    /// The service answered. `content_type` is its `Content-Type` header
    /// where it sent one that is readable text.
    Answer { status: u16, content_type: Option<String>, body: Vec<u8> },
    /// No answer came, or its body could not be read to the end.
    Failed,
}

/// The mathematical value of an `Upstream`.
pub enum UpstreamModel {
    Answer { status: u16, content_type: Option<Seq<char>>, body: Seq<u8> },
    Failed,
}

impl View for Upstream {
    type V = UpstreamModel;

    open spec fn view(&self) -> UpstreamModel {
        match self {
            Upstream::Answer { status, content_type, body } => UpstreamModel::Answer {
                status: *status,
                content_type: content_type.deep_view(),
                body: body@,
            },
            Upstream::Failed => UpstreamModel::Failed,
        }
    }
}

/// The message of an answer to a request that names no target.
pub open spec fn missing_url_message() -> Seq<char> {
    "URL 파라미터가 없습니다."@
}

/// The headers of an answer that reports a failure.
pub open spec fn plain_text_headers() -> Seq<(Seq<char>, Seq<char>)> {
    seq![("Content-Type"@, "text/plain"@)]
}

/// The headers of an answer that passes upstream content on: any origin may
/// read it, and its type is the upstream's, or that of plain bytes where the
/// upstream named none.
pub open spec fn open_headers(content_type: Option<Seq<char>>) -> Seq<(Seq<char>, Seq<char>)> {
    seq![
        ("Access-Control-Allow-Origin"@, "*"@),
        (
            "Content-Type"@,
            match content_type {
                Some(t) => t,
                None => "application/octet-stream"@,
            },
        ),
    ]
}

/// The answer that reports a failure under `status`.
pub open spec fn error_reply(status: u16) -> ResponseModel {
    ResponseModel { status, headers: plain_text_headers(), body: encode_utf8("Error"@) }
}

/// The status under which a failure is reported: 400 for a method that is
/// not supported, 500 for every other.
pub open spec fn status_of(e: ProxyError) -> u16 {
    if e == ProxyError::UnsupportedMethod {
        400
    } else {
        500
    }
}

/// The message with which a failure is reported: its own for a request
/// that names no target, `Error` for every other.
pub open spec fn message_of(e: ProxyError) -> Seq<char> {
    if e == ProxyError::MissingUrl {
        missing_url_message()
    } else {
        "Error"@
    }
}

/// The answer that reports the failure `e`: plain text under the failure's
/// status, with the failure's message as its body.
pub open spec fn failure_reply(e: ProxyError) -> ResponseModel {
    ResponseModel {
        status: status_of(e),
        headers: plain_text_headers(),
        body: encode_utf8(message_of(e)),
    }
}

/// A failure other than a missing target is reported as `Error` under its
/// status; a missing target under status 500 with its own message.
pub proof fn lemma_failure_reply(e: ProxyError)
    ensures
        e != ProxyError::MissingUrl ==> failure_reply(e) == error_reply(status_of(e)),
        failure_reply(ProxyError::MissingUrl).status == 500,
        failure_reply(e).headers == seq![("Content-Type"@, "text/plain"@)],
{
}

/// The answer that passes `body` on under the upstream's status.
pub open spec fn open_reply(
    status: u16,
    content_type: Option<Seq<char>>,
    body: Seq<u8>,
) -> ResponseModel {
    ResponseModel { status, headers: open_headers(content_type), body }
}

/// The answer for a plainly forwarded request: the upstream's answer passed
/// on, or a failure under status 500.
pub open spec fn forwarded_reply(upstream: UpstreamModel) -> ResponseModel {
    match upstream {
        UpstreamModel::Answer { status, content_type, body } => open_reply(
            status,
            content_type,
            body,
        ),
        UpstreamModel::Failed => failure_reply(ProxyError::Upstream),
    }
}

/// The answer for a playlist request once the rewritten playlist has been
/// written: the text under the upstream's status, or a failure under status
/// 500 where it could not be written.
pub open spec fn playlist_reply(
    status: u16,
    content_type: Option<Seq<char>>,
    text: Option<Seq<u8>>,
) -> ResponseModel {
    match text {
        Some(t) => open_reply(status, content_type, t),
        None => failure_reply(ProxyError::Serialize),
    }
}

/// Every answer that passes upstream content on, whatever the upstream's
/// status, content type and body, lets any origin read it.
pub proof fn lemma_forwarded_reply_is_open(upstream: UpstreamModel)
    requires
        upstream is Answer,
    ensures
        forwarded_reply(upstream).headers.contains(("Access-Control-Allow-Origin"@, "*"@)),
        forwarded_reply(upstream).status == upstream->status,
        forwarded_reply(upstream).body == upstream->body,
{
    assert(forwarded_reply(upstream).headers[0] == ("Access-Control-Allow-Origin"@, "*"@));
}

fn plain_text() -> (out: Vec<(String, String)>)
    ensures
        out.deep_view() == plain_text_headers(),
{
    let mut out: Vec<(String, String)> = Vec::new();
    out.push((String::from_str("Content-Type"), String::from_str("text/plain")));
    assert(out.deep_view() =~= plain_text_headers());
    out
}

/// The answer that reports a failure under `status`: plain text, the body
/// `Error`.
pub fn build_error_response(status: u16) -> (out: Response)
    ensures
        out@ == error_reply(status),
{
    Response { status, headers: plain_text(), body: "Error".as_bytes_vec() }
}

impl ProxyError {
    /// The status under which the failure is reported.
    pub fn status(&self) -> (out: u16)
        ensures
            out == status_of(*self),
    {
        match self {
            ProxyError::UnsupportedMethod => 400,
            _ => 500,
        }
    }

    /// The message with which the failure is reported.
    pub fn message(&self) -> (out: String)
        ensures
            out@ == message_of(*self),
    {
        match self {
            ProxyError::MissingUrl => String::from_str("URL 파라미터가 없습니다."),
            _ => String::from_str("Error"),
        }
    }
}

/// The answer that reports the failure `e`: its status, plain text, its
/// message as the body.
pub fn error_response(e: ProxyError) -> (out: Response)
    ensures
        out@ == failure_reply(e),
{
    Response {
        status: e.status(),
        headers: plain_text(),
        body: e.message().as_str().as_bytes_vec(),
    }
}

/// The answer that passes `body` on under `status`, readable from any
/// origin, with the upstream's content type or that of plain bytes.
pub fn open_response(status: u16, content_type: Option<String>, body: Vec<u8>) -> (out: Response)
    ensures
        out@ == open_reply(status, content_type.deep_view(), body@),
        out@.headers[0] == ("Access-Control-Allow-Origin"@, "*"@),
{
    let kind = match content_type {
        Some(t) => t,
        None => String::from_str("application/octet-stream"),
    };
    let mut headers: Vec<(String, String)> = Vec::new();
    headers.push((String::from_str("Access-Control-Allow-Origin"), String::from_str("*")));
    headers.push((String::from_str("Content-Type"), kind));
    assert(headers.deep_view() =~= open_headers(content_type.deep_view()));
    Response { status, headers, body }
}

/// The answer for a plainly forwarded request.
pub fn handle_response(upstream: Upstream) -> (out: Response)
    ensures
        out@ == forwarded_reply(upstream@),
{
    match upstream {
        Upstream::Answer { status, content_type, body } => open_response(
            status,
            content_type,
            body,
        ),
        Upstream::Failed => error_response(ProxyError::Upstream),
    }
}

/// The answer for a playlist request, given the text of the rewritten
/// playlist or `None` where it could not be written.
pub fn playlist_response(status: u16, content_type: Option<String>, text: Option<Vec<u8>>) -> (out:
    Response)
    ensures
        out@ == playlist_reply(
            status,
            content_type.deep_view(),
            match text {
                Some(t) => Some(t@),
                None => None,
            },
        ),
{
    match text {
        Some(t) => open_response(status, content_type, t),
        None => error_response(ProxyError::Serialize),
    }
}

/// `out` answers a playlist request to the upstream address `url` whose
/// upstream answer had the given status, content type and body: it passes
/// on, under that status and readable from any origin, the text of a
/// playlist that the body reads as, rewritten for `url`. The text begins
/// with the `#EXTM3U` line and lists the loopback URIs of the children that
/// are kept, in their order.
pub open spec fn stream_reply(
    body: Seq<u8>,
    status: u16,
    content_type: Option<Seq<char>>,
    url: Seq<char>,
    out: ResponseModel,
) -> bool {
    exists|playlist: PlaylistModel| #[trigger]
        reads_as(body, playlist) && out == open_reply(status, content_type, out.body) && written(
            rewritten(playlist, url),
            out.body,
        )
}

/// The answer for a playlist request to the upstream address `url`: the
/// upstream's playlist rewritten and written out again under the upstream's
/// status, or a failure under status 500 where the upstream gave no answer.
pub fn build_stream_response(upstream: Upstream, url: &str) -> (out: Response)
    ensures
        upstream@ is Failed ==> out@ == failure_reply(ProxyError::Upstream),
        upstream@ matches UpstreamModel::Answer { status, content_type, body } ==> stream_reply(
            body,
            status,
            content_type,
            url@,
            out@,
        ),
{
    match upstream {
        Upstream::Answer { status, content_type, body } => {
            let parsed = parse_playlist(body.as_slice());
            let ghost read = parsed@;
            let playlist = rewrite(parsed, url);
            let out = playlist_response(status, content_type, serialize(playlist));
            assert(reads_as(body@, read));
            out
        },
        Upstream::Failed => error_response(ProxyError::Upstream),
    }
}

} // verus!
