//! From a request of the viewer to the request that goes upstream.
//!
//! The viewer names the upstream address in the `url` parameter of the
//! proxy URI. It may send form fields along, as a JSON object in the `query`
//! parameter or in the body, and may name the method to use upstream in the
//! `method` parameter.

use vstd::prelude::*;
use vstd::string::StringExecFns;
use vstd::utf8::encode_utf8;
use crate::headers::{header_views, spoof, spoofed};
use crate::json::{json_object_members, member_views, read_object, JsonMember, JsonModel, JsonValue};
use crate::query::{distinct_keys, get_value, has_key, keep_last, last_wins, lookup};
use crate::query::{lemma_last_key_index_bounds, lemma_last_wins_lookup};
use crate::response::{error_response, failure_reply, ProxyError, Response, ResponseModel};
use crate::text::same_text;

verus! {

/// The method of a request to the upstream service.
#[derive(Clone, Copy, Debug, PartialEq, Eq, Structural)]
pub enum Method {
    Get,
    Post,
}

/// A request to the upstream service. With `Get` the fields go into the
/// query string of `url`, with `Post` into a form body.
#[derive(Clone, Debug, PartialEq, Eq)]
pub struct TargetRequest {
    pub method: Method,
    pub url: String,
    pub headers: Vec<(String, Vec<u8>)>,
    pub fields: Vec<(String, String)>,
}

/// What to do with a request of the viewer.
#[derive(Clone, Debug, PartialEq, Eq)]
pub enum Plan {
    /// Answer at once, without asking upstream.
    Reject(Response),
    /// Ask upstream and pass the answer on.
    Forward(TargetRequest),
    /// Ask upstream for a playlist and answer with the playlist rewritten.
    Stream(TargetRequest),
}

/// The mathematical value of a `TargetRequest`.
pub struct TargetModel {
    pub method: Method,
    pub url: Seq<char>,
    pub headers: Seq<(Seq<char>, Seq<u8>)>,
    pub fields: Seq<(Seq<char>, Seq<char>)>,
}

/// The mathematical value of a `Plan`.
pub enum PlanModel {
    Reject(ResponseModel),
    Forward(TargetModel),
    Stream(TargetModel),
}

impl View for TargetRequest {
    type V = TargetModel;

    open spec fn view(&self) -> TargetModel {
        TargetModel {
            method: self.method,
            url: self.url@,
            headers: header_views(self.headers@),
            fields: self.fields.deep_view(),
        }
    }
}

impl View for Plan {
    type V = PlanModel;

    open spec fn view(&self) -> PlanModel {
        match self {
            Plan::Reject(r) => PlanModel::Reject(r@),
            Plan::Forward(t) => PlanModel::Forward(t@),
            Plan::Stream(t) => PlanModel::Stream(t@),
        }
    }
}

/// The query pairs of a proxy URI as the `url` crate reads them: the pairs
/// of its query string, percent-decoded, in order; `None` where the URI does
/// not parse.
pub uninterp spec fn uri_pairs(uri: Seq<char>) -> Option<Seq<(Seq<char>, Seq<char>)>>;

/// The parameters of a request, given the query pairs of its URI: each key
/// with its last value, provided that the URI parsed and names a `url`.
pub open spec fn params_of(pairs: Option<Seq<(Seq<char>, Seq<char>)>>) -> Option<
    Seq<(Seq<char>, Seq<char>)>,
> {
    match pairs {
        Some(p) => if has_key(last_wins(p), "url"@) {
            Some(last_wins(p))
        } else {
            None
        },
        None => None,
    }
}

/// The method that a name stands for.
pub open spec fn method_of(name: Seq<char>) -> Option<Method> {
    if name == "GET"@ {
        Some(Method::Get)
    } else if name == "POST"@ {
        Some(Method::Post)
    } else {
        None
    }
}

/// The method to use upstream: the one that the `method` parameter names,
/// or without that parameter the one that the viewer's request came with.
pub open spec fn effective_method(inbound: Seq<char>, params: Seq<(Seq<char>, Seq<char>)>) -> Option<
    Method,
> {
    method_of(
        match lookup(params, "method"@) {
            Some(m) => m,
            None => inbound,
        },
    )
}

/// The text that a JSON value gives as a form field: a string its
/// contents, a number or a boolean its JSON text. `null`, an array and an
/// object give none.
pub open spec fn field_of(value: JsonModel) -> Option<Seq<char>> {
    match value {
        JsonModel::Text(t) => Some(t),
        JsonModel::Number(t) => Some(t),
        JsonModel::Bool(b) => Some(
            if b {
                "true"@
            } else {
                "false"@
            },
        ),
        _ => None,
    }
}

/// The form fields that the members of a JSON object give, in order;
/// `None` where one of them gives none.
pub open spec fn fields_of(members: Seq<(Seq<char>, JsonModel)>) -> Option<
    Seq<(Seq<char>, Seq<char>)>,
>
    decreases members.len(),
{
    if members.len() == 0 {
        Some(Seq::empty())
    } else {
        match (fields_of(members.drop_last()), field_of(members.last().1)) {
            (Some(fields), Some(value)) => Some(fields.push((members.last().0, value))),
            _ => None,
        }
    }
}

/// The form fields that a text gives, given the members that were read
/// from it: those of the object, or none at all where the text is not one
/// JSON object.
pub open spec fn fields_from(members: Option<Seq<(Seq<char>, JsonModel)>>) -> Option<
    Seq<(Seq<char>, Seq<char>)>,
> {
    match members {
        Some(m) => fields_of(m),
        None => Some(Seq::empty()),
    }
}

/// The form fields to send upstream: those of the `query` parameter where
/// there is one, else with `POST` those of the body, else none. `None` where
/// a field cannot be sent.
pub open spec fn forwarded_fields(
    params: Seq<(Seq<char>, Seq<char>)>,
    method: Method,
    body: Seq<u8>,
) -> Option<Seq<(Seq<char>, Seq<char>)>> {
    match lookup(params, "query"@) {
        Some(q) => fields_from(json_object_members(encode_utf8(q))),
        None => if method == Method::Post {
            fields_from(json_object_members(body))
        } else {
            Some(Seq::empty())
        },
    }
}

/// The plan for a request to the upstream address `url`. The path `/stream`
/// asks for a playlist, always with `GET`; every other path is forwarded
/// with the effective method.
pub open spec fn planned_for(
    url: Seq<char>,
    inbound: Seq<char>,
    params: Seq<(Seq<char>, Seq<char>)>,
    path: Seq<char>,
    headers: Seq<(Seq<char>, Seq<u8>)>,
    body: Seq<u8>,
) -> PlanModel {
    if path == "/stream"@ {
        match forwarded_fields(params, Method::Get, body) {
            Some(fields) => PlanModel::Stream(
                TargetModel { method: Method::Get, url, headers: spoofed(headers), fields },
            ),
            None => PlanModel::Reject(failure_reply(ProxyError::UnsupportedField)),
        }
    } else {
        match effective_method(inbound, params) {
            Some(method) => match forwarded_fields(params, method, body) {
                Some(fields) => PlanModel::Forward(
                    TargetModel { method, url, headers: spoofed(headers), fields },
                ),
                None => PlanModel::Reject(failure_reply(ProxyError::UnsupportedField)),
            },
            None => PlanModel::Reject(failure_reply(ProxyError::UnsupportedMethod)),
        }
    }
}

/// The plan for a request with the given parameters: refused where they
/// name no `url`.
pub open spec fn planned_with(
    inbound: Seq<char>,
    params: Seq<(Seq<char>, Seq<char>)>,
    path: Seq<char>,
    headers: Seq<(Seq<char>, Seq<u8>)>,
    body: Seq<u8>,
) -> PlanModel {
    match lookup(params, "url"@) {
        Some(url) => planned_for(url, inbound, params, path, headers, body),
        None => PlanModel::Reject(failure_reply(ProxyError::MissingUrl)),
    }
}

/// The plan for a request whose URI has the query pairs `pairs`.
pub open spec fn planned(
    inbound: Seq<char>,
    pairs: Option<Seq<(Seq<char>, Seq<char>)>>,
    path: Seq<char>,
    headers: Seq<(Seq<char>, Seq<u8>)>,
    body: Seq<u8>,
) -> PlanModel {
    match params_of(pairs) {
        Some(params) => planned_with(inbound, params, path, headers, body),
        None => PlanModel::Reject(failure_reply(ProxyError::MissingUrl)),
    }
}

/// A request whose URI does not parse, or holds no pair with the key `url`,
/// is answered at once: status 500, plain text.
pub proof fn lemma_request_without_url(
    inbound: Seq<char>,
    pairs: Option<Seq<(Seq<char>, Seq<char>)>>,
    path: Seq<char>,
    headers: Seq<(Seq<char>, Seq<u8>)>,
    body: Seq<u8>,
)
    requires
        pairs matches Some(p) ==> forall|i: int| 0 <= i < p.len() ==> p[i].0 != "url"@,
    ensures
        planned(inbound, pairs, path, headers, body) matches PlanModel::Reject(r) && r.status
            == 500 && r.headers == seq![("Content-Type"@, "text/plain"@)],
{
    if let Some(p) = pairs {
        lemma_last_wins_lookup(p, "url"@);
        lemma_last_key_index_bounds(p, "url"@);
    }
}

/// A request on a path other than `/stream` for which the method to use
/// upstream is neither `GET` nor `POST`, be it named in a `method` parameter
/// or the request's own, is answered at once with status 400.
pub proof fn lemma_unsupported_method(
    inbound: Seq<char>,
    pairs: Option<Seq<(Seq<char>, Seq<char>)>>,
    path: Seq<char>,
    headers: Seq<(Seq<char>, Seq<u8>)>,
    body: Seq<u8>,
)
    requires
        params_of(pairs) matches Some(params) && effective_method(inbound, params).is_none(),
        path != "/stream"@,
    ensures
        planned(inbound, pairs, path, headers, body) matches PlanModel::Reject(r) && r.status
            == 400,
{
    lemma_params_name_url(pairs);
}

/// A request on a path other than `/stream` whose own method is neither
/// `GET` nor `POST`, and which names no method in a `method` parameter, is
/// answered at once with status 400.
pub proof fn lemma_unsupported_inbound_method(
    inbound: Seq<char>,
    pairs: Option<Seq<(Seq<char>, Seq<char>)>>,
    path: Seq<char>,
    headers: Seq<(Seq<char>, Seq<u8>)>,
    body: Seq<u8>,
)
    requires
        params_of(pairs) matches Some(params) && lookup(params, "method"@).is_none(),
        path != "/stream"@,
        inbound != "GET"@,
        inbound != "POST"@,
    ensures
        planned(inbound, pairs, path, headers, body) matches PlanModel::Reject(r) && r.status
            == 400,
{
    lemma_unsupported_method(inbound, pairs, path, headers, body);
}

/// The parameters of a request name a `url`.
proof fn lemma_params_name_url(pairs: Option<Seq<(Seq<char>, Seq<char>)>>)
    ensures
        params_of(pairs) matches Some(params) ==> lookup(params, "url"@).is_some(),
{
}

/// Whatever headers a request comes with, the request that goes upstream
/// has the proxy's headers for them.
pub proof fn lemma_plan_spoofs_headers(
    inbound: Seq<char>,
    pairs: Option<Seq<(Seq<char>, Seq<char>)>>,
    path: Seq<char>,
    headers: Seq<(Seq<char>, Seq<u8>)>,
    body: Seq<u8>,
)
    ensures
        match planned(inbound, pairs, path, headers, body) {
            PlanModel::Forward(t) => t.headers == spoofed(headers),
            PlanModel::Stream(t) => t.headers == spoofed(headers),
            PlanModel::Reject(_) => true,
        },
{
}

/// Parses `uri` with `url::Url::parse` and hands out the pairs of
/// `Url::query_pairs`, which splits the query string at `&` and at the first
/// `=` of each piece and percent-decodes both sides. `None` where the URI
/// does not parse. The result depends on `uri` alone; the contract gives it
/// a name and says no more.
#[verifier::external_body]
fn read_uri_pairs(uri: &str) -> (out: Option<Vec<(String, String)>>)
    ensures
        out.deep_view() == uri_pairs(uri@),
{
    let parsed = url::Url::parse(uri).ok()?;
    Some(parsed.query_pairs().into_owned().collect())
}

/// The parameters of a request, given the query pairs of its URI.
pub fn collect_params(pairs: Option<Vec<(String, String)>>) -> (out: Result<
    Vec<(String, String)>,
    ProxyError,
>)
    ensures
        match out {
            Ok(params) => params_of(pairs.deep_view()) == Some(params.deep_view())
                && distinct_keys(params.deep_view()) && has_key(params.deep_view(), "url"@),
            Err(e) => e == ProxyError::MissingUrl && params_of(pairs.deep_view()).is_none(),
        },
{
    match pairs {
        Some(p) => {
            let params = keep_last(p);
            if get_value(&params, "url").is_some() {
                Ok(params)
            } else {
                Err(ProxyError::MissingUrl)
            }
        },
        None => Err(ProxyError::MissingUrl),
    }
}

/// The parameters of the request that came under `uri`: its query pairs,
/// each key with its last value. The request is refused where the URI does
/// not parse or names no `url`.
pub fn parse_proxy_request(uri: &str) -> (out: Result<Vec<(String, String)>, ProxyError>)
    ensures
        match out {
            Ok(params) => params_of(uri_pairs(uri@)) == Some(params.deep_view())
                && distinct_keys(params.deep_view()) && has_key(params.deep_view(), "url"@),
            Err(e) => e == ProxyError::MissingUrl && params_of(uri_pairs(uri@)).is_none(),
        },
{
    collect_params(read_uri_pairs(uri))
}

/// The method that `name` stands for.
pub fn parse_method(name: &str) -> (out: Option<Method>)
    ensures
        out == method_of(name@),
{
    if same_text(name, "GET") {
        Some(Method::Get)
    } else if same_text(name, "POST") {
        Some(Method::Post)
    } else {
        None
    }
}

/// The method to use upstream for a request that came with the method
/// `inbound` and the parameters `params`.
pub fn resolve_method(inbound: &str, params: &Vec<(String, String)>) -> (out: Result<
    Method,
    ProxyError,
>)
    ensures
        match out {
            Ok(method) => effective_method(inbound@, params.deep_view()) == Some(method),
            Err(e) => e == ProxyError::UnsupportedMethod && effective_method(
                inbound@,
                params.deep_view(),
            ).is_none(),
        },
{
    let named = match get_value(params, "method") {
        Some(m) => parse_method(m.as_str()),
        None => parse_method(inbound),
    };
    match named {
        Some(method) => Ok(method),
        None => Err(ProxyError::UnsupportedMethod),
    }
}

/// The text that a JSON value gives as a form field.
pub fn form_value(value: &JsonValue) -> (out: Option<String>)
    ensures
        out.deep_view() == field_of(value@),
{
    match value {
        JsonValue::Text(t) => Some(t.clone()),
        JsonValue::Number(t) => Some(t.clone()),
        JsonValue::Bool(b) => Some(
            if *b {
                String::from_str("true")
            } else {
                String::from_str("false")
            },
        ),
        _ => None,
    }
}

/// The form fields that the members of a JSON object give.
pub fn form_fields(members: &Vec<JsonMember>) -> (out: Option<Vec<(String, String)>>)
    ensures
        out.deep_view() == fields_of(member_views(members@)),
{
    let ghost model = member_views(members@);
    let mut fields: Vec<(String, String)> = Vec::new();
    let mut i: usize = 0;
    proof {
        assert(model.take(0) =~= Seq::empty());
        assert(fields.deep_view() =~= Seq::empty());
    }
    while i < members.len()
        invariant
            i <= members@.len(),
            model == member_views(members@),
            fields_of(model.take(i as int)) == Some(fields.deep_view()),
        decreases members@.len() - i,
    {
        let ghost before = fields.deep_view();
        proof {
            let upto = model.take(i + 1);
            assert(upto.drop_last() == model.take(i as int));
            assert(upto.last() == members@[i as int]@);
        }
        match form_value(&members[i].value) {
            Some(value) => {
                let name = members[i].name.clone();
                let ghost pair = (name@, value@);
                fields.push((name, value));
                assert(fields.deep_view() =~= before.push(pair));
            },
            None => {
                proof {
                    lemma_fields_of_prefix(model, i + 1);
                }
                return None;
            },
        }
        i = i + 1;
    }
    assert(model.take(i as int) == model);
    Some(fields)
}

/// Where a prefix of the members gives no fields, the whole gives none.
proof fn lemma_fields_of_prefix(members: Seq<(Seq<char>, JsonModel)>, n: int)
    requires
        0 <= n <= members.len(),
        fields_of(members.take(n)).is_none(),
    ensures
        fields_of(members).is_none(),
    decreases members.len() - n,
{
    if n < members.len() {
        assert(members.take(n + 1).drop_last() == members.take(n));
        lemma_fields_of_prefix(members, n + 1);
    } else {
        assert(members.take(n) == members);
    }
}

/// The form fields that a text gives, given what was read from it.
pub fn fields_of_source(members: Option<Vec<JsonMember>>) -> (out: Option<Vec<(String, String)>>)
    ensures
        out.deep_view() == fields_from(
            match members {
                Some(m) => Some(member_views(m@)),
                None => None,
            },
        ),
{
    match members {
        Some(m) => form_fields(&m),
        None => {
            let none: Vec<(String, String)> = Vec::new();
            assert(none.deep_view() =~= Seq::empty());
            Some(none)
        },
    }
}

/// The form fields to send upstream for a request with the parameters
/// `params` and the body `body`, to be made with `method`.
pub fn forward_fields(params: &Vec<(String, String)>, method: Method, body: &[u8]) -> (out: Result<
    Vec<(String, String)>,
    ProxyError,
>)
    ensures
        match out {
            Ok(fields) => forwarded_fields(params.deep_view(), method, body@) == Some(
                fields.deep_view(),
            ),
            Err(e) => e == ProxyError::UnsupportedField && forwarded_fields(
                params.deep_view(),
                method,
                body@,
            ).is_none(),
        },
{
    let fields = match get_value(params, "query") {
        Some(q) => fields_of_source(read_object(q.as_str().as_bytes())),
        None => {
            if method == Method::Post {
                fields_of_source(read_object(body))
            } else {
                let none: Vec<(String, String)> = Vec::new();
                assert(none.deep_view() =~= Seq::empty());
                Some(none)
            }
        },
    };
    match fields {
        Some(f) => Ok(f),
        None => Err(ProxyError::UnsupportedField),
    }
}

/// The plan for a request that came with the method `inbound`, the
/// parameters `params` and the path `path`.
pub fn plan_with(
    inbound: &str,
    params: &Vec<(String, String)>,
    path: &str,
    headers: Vec<(String, Vec<u8>)>,
    body: &[u8],
) -> (out: Plan)
    ensures
        out@ == planned_with(inbound@, params.deep_view(), path@, header_views(headers@), body@),
{
    let url = match get_value(params, "url") {
        Some(url) => url,
        None => {
            return Plan::Reject(error_response(ProxyError::MissingUrl));
        },
    };
    if same_text(path, "/stream") {
        match forward_fields(params, Method::Get, body) {
            Ok(fields) => Plan::Stream(
                TargetRequest { method: Method::Get, url, headers: spoof(headers), fields },
            ),
            Err(e) => Plan::Reject(error_response(e)),
        }
    } else {
        match resolve_method(inbound, params) {
            Ok(method) => match forward_fields(params, method, body) {
                Ok(fields) => Plan::Forward(
                    TargetRequest { method, url, headers: spoof(headers), fields },
                ),
                Err(e) => Plan::Reject(error_response(e)),
            },
            Err(e) => Plan::Reject(error_response(e)),
        }
    }
}

/// The plan for a request of the viewer: its method, its URI, the path of
/// that URI, its headers and its body.
pub fn plan_request(
    inbound: &str,
    uri: &str,
    path: &str,
    headers: Vec<(String, Vec<u8>)>,
    body: &[u8],
) -> (out: Plan)
    ensures
        out@ == planned(inbound@, uri_pairs(uri@), path@, header_views(headers@), body@),
{
    match parse_proxy_request(uri) {
        Ok(params) => plan_with(inbound, &params, path, headers, body),
        Err(e) => Plan::Reject(error_response(e)),
    }
}

} // verus!
