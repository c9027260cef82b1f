use stream_proxy::headers::{default_headers, is_name, spoof};
use stream_proxy::json::{JsonMember, JsonValue};
use stream_proxy::request::{
    collect_params, fields_of_source, form_fields, form_value, forward_fields, parse_method,
    parse_proxy_request, plan_request, plan_with, resolve_method, Method, Plan, TargetRequest,
};
use stream_proxy::response::{build_error_response, error_response, ProxyError};

const ORIGIN: &[u8] = b"https://play.sooplive.co.kr";
const REFERER: &[u8] = b"https://play.sooplive.co.kr/";

fn pairs(items: &[(&str, &str)]) -> Vec<(String, String)> {
    items.iter().map(|(k, v)| (k.to_string(), v.to_string())).collect()
}

fn headers(items: &[(&str, &[u8])]) -> Vec<(String, Vec<u8>)> {
    items.iter().map(|(k, v)| (k.to_string(), v.to_vec())).collect()
}

fn spoofed_only() -> Vec<(String, Vec<u8>)> {
    headers(&[("Origin", ORIGIN), ("Referer", REFERER)])
}

fn member(name: &str, value: JsonValue) -> JsonMember {
    JsonMember { name: name.to_string(), value }
}

#[test]
fn parameters_are_read_from_the_query_string() {
    let params = parse_proxy_request(
        "proxy:///stream/segment?url=https://h.example/720/chunklist.m3u8/seg1.ts&method=GET",
    )
    .unwrap();
    assert_eq!(
        params,
        pairs(&[("url", "https://h.example/720/chunklist.m3u8/seg1.ts"), ("method", "GET")])
    );
}

#[test]
fn parameters_are_percent_decoded() {
    let params = parse_proxy_request(
        "smtv://localhost/fetch?url=https%3A%2F%2Fh.example%2Fa%3Fb%3D1%26c%3D2&query=%7B%22k%22%3A%22v+w%22%7D",
    )
    .unwrap();
    assert_eq!(
        params,
        pairs(&[("url", "https://h.example/a?b=1&c=2"), ("query", "{\"k\":\"v w\"}")])
    );
}

#[test]
fn the_last_of_two_equal_parameters_wins() {
    let params = parse_proxy_request("proxy:///fetch?url=first&x=1&url=second").unwrap();
    assert_eq!(params, pairs(&[("url", "second"), ("x", "1")]));
}

#[test]
fn a_request_without_url_is_refused() {
    assert_eq!(parse_proxy_request("proxy:///stream?x=1"), Err(ProxyError::MissingUrl));
    assert_eq!(parse_proxy_request("proxy:///stream"), Err(ProxyError::MissingUrl));
    assert_eq!(parse_proxy_request("proxy:///stream?URL=x"), Err(ProxyError::MissingUrl));
}

#[test]
fn a_uri_that_does_not_parse_is_refused() {
    assert_eq!(parse_proxy_request("?url=https://h.example/a"), Err(ProxyError::MissingUrl));
    assert_eq!(parse_proxy_request(""), Err(ProxyError::MissingUrl));
    assert_eq!(collect_params(None), Err(ProxyError::MissingUrl));
}

#[test]
fn the_missing_url_message_is_kept() {
    let e = parse_proxy_request("proxy:///stream?x=1").unwrap_err();
    assert_eq!(e.message(), "URL 파라미터가 없습니다.");
    assert_eq!(e.status(), 500);
}

#[test]
fn parameters_are_collected_from_given_pairs() {
    assert_eq!(
        collect_params(Some(pairs(&[("a", "1"), ("url", "u"), ("a", "2")]))),
        Ok(pairs(&[("a", "2"), ("url", "u")]))
    );
    assert_eq!(collect_params(Some(pairs(&[("a", "1")]))), Err(ProxyError::MissingUrl));
    assert_eq!(collect_params(Some(pairs(&[]))), Err(ProxyError::MissingUrl));
}

#[test]
fn a_request_without_url_is_answered_with_status_500() {
    let plan = plan_request("GET", "proxy:///stream?x=1", "/stream", headers(&[]), b"");
    match plan {
        Plan::Reject(r) => {
            assert_eq!(r.status, 500);
            assert_eq!(r.headers, pairs(&[("Content-Type", "text/plain")]));
            assert_eq!(r.body, "URL 파라미터가 없습니다.".as_bytes().to_vec());
        }
        other => panic!("expected a refusal, got {:?}", other),
    }
    let plan = plan_request("POST", "not a uri", "/auth", headers(&[]), b"{}");
    assert_eq!(plan, Plan::Reject(error_response(ProxyError::MissingUrl)));
}

#[test]
fn methods_are_named_in_upper_case() {
    assert_eq!(parse_method("GET"), Some(Method::Get));
    assert_eq!(parse_method("POST"), Some(Method::Post));
    assert_eq!(parse_method("get"), None);
    assert_eq!(parse_method("PUT"), None);
    assert_eq!(parse_method(""), None);
}

#[test]
fn the_method_parameter_overrides_the_inbound_method() {
    assert_eq!(resolve_method("POST", &pairs(&[("url", "u")])), Ok(Method::Post));
    assert_eq!(resolve_method("GET", &pairs(&[("url", "u"), ("method", "POST")])), Ok(Method::Post));
    assert_eq!(resolve_method("PUT", &pairs(&[("url", "u"), ("method", "GET")])), Ok(Method::Get));
    assert_eq!(
        resolve_method("GET", &pairs(&[("method", "DELETE")])),
        Err(ProxyError::UnsupportedMethod)
    );
    assert_eq!(resolve_method("PUT", &pairs(&[])), Err(ProxyError::UnsupportedMethod));
}

#[test]
fn an_unsupported_method_is_answered_with_status_400() {
    for path in ["/stream/segment", "/auth", "/fetch", "/", "/anything"] {
        let plan = plan_request("PUT", "proxy:///x?url=https://h.example/a", path, headers(&[]), b"");
        match plan {
            Plan::Reject(r) => {
                assert_eq!(r.status, 400);
                assert_eq!(r.headers, pairs(&[("Content-Type", "text/plain")]));
                assert_eq!(r.body, b"Error".to_vec());
            }
            other => panic!("expected a refusal, got {:?}", other),
        }
    }
    assert_eq!(error_response(ProxyError::UnsupportedMethod), build_error_response(400));
}

#[test]
fn the_playlist_path_always_uses_get() {
    let plan = plan_request(
        "PUT",
        "proxy:///stream?url=https://h.example/playlist.m3u8",
        "/stream",
        headers(&[]),
        b"{\"ignored\":\"body\"}",
    );
    assert_eq!(
        plan,
        Plan::Stream(TargetRequest {
            method: Method::Get,
            url: "https://h.example/playlist.m3u8".to_string(),
            headers: spoofed_only(),
            fields: pairs(&[]),
        })
    );
}

#[test]
fn the_playlist_path_forwards_the_query_parameter() {
    let plan = plan_request(
        "GET",
        "proxy:///stream?url=https://h.example/chunklist_720p.m3u8&query=%7B%22token%22%3A%22abc%22%2C%22exp%22%3A%221%22%7D&method=GET",
        "/stream",
        headers(&[]),
        b"",
    );
    match plan {
        Plan::Stream(t) => {
            assert_eq!(t.method, Method::Get);
            assert_eq!(t.url, "https://h.example/chunklist_720p.m3u8");
            let mut fields = t.fields.clone();
            fields.sort();
            assert_eq!(fields, pairs(&[("exp", "1"), ("token", "abc")]));
        }
        other => panic!("expected a playlist request, got {:?}", other),
    }
}

#[test]
fn a_segment_request_is_forwarded_with_get() {
    let plan = plan_request(
        "GET",
        "proxy:///stream/segment?url=https://h.example/720/chunklist.m3u8/seg1.ts&method=GET",
        "/stream/segment",
        headers(&[("accept", b"*/*")]),
        b"",
    );
    assert_eq!(
        plan,
        Plan::Forward(TargetRequest {
            method: Method::Get,
            url: "https://h.example/720/chunklist.m3u8/seg1.ts".to_string(),
            headers: headers(&[("accept", b"*/*"), ("Origin", ORIGIN), ("Referer", REFERER)]),
            fields: pairs(&[]),
        })
    );
}

#[test]
fn a_post_body_becomes_form_fields_and_headers_are_spoofed() {
    let plan = plan_request(
        "POST",
        "proxy:///auth?url=https://live.example/api",
        "/auth",
        headers(&[
            ("origin", b"https://evil.example"),
            ("content-type", b"application/json"),
            ("REFERER", b"https://evil.example/page"),
        ]),
        b"{\"bno\":\"123\",\"quality\":\"hd\"}",
    );
    assert_eq!(
        plan,
        Plan::Forward(TargetRequest {
            method: Method::Post,
            url: "https://live.example/api".to_string(),
            headers: headers(&[
                ("content-type", b"application/json"),
                ("Origin", ORIGIN),
                ("Referer", REFERER),
            ]),
            fields: pairs(&[("bno", "123"), ("quality", "hd")]),
        })
    );
}

#[test]
fn form_fields_are_encoded_as_the_upstream_expects() {
    let plan = plan_request(
        "POST",
        "proxy:///auth?url=https://live.example/api",
        "/auth",
        headers(&[]),
        b"{\"bno\":\"123\",\"quality\":\"hd\"}",
    );
    match plan {
        Plan::Forward(t) => {
            let body = url::form_urlencoded::Serializer::new(String::new())
                .extend_pairs(t.fields.iter())
                .finish();
            assert_eq!(body, "bno=123&quality=hd");
        }
        other => panic!("expected a forwarded request, got {:?}", other),
    }
}

#[test]
fn the_query_parameter_takes_precedence_over_the_body() {
    let params = pairs(&[("url", "u"), ("query", "{\"a\":\"1\"}")]);
    assert_eq!(forward_fields(&params, Method::Post, b"{\"b\":\"2\"}"), Ok(pairs(&[("a", "1")])));
    assert_eq!(forward_fields(&params, Method::Get, b""), Ok(pairs(&[("a", "1")])));
}

#[test]
fn a_get_request_ignores_the_body() {
    let params = pairs(&[("url", "u")]);
    assert_eq!(forward_fields(&params, Method::Get, b"{\"b\":\"2\"}"), Ok(pairs(&[])));
    assert_eq!(forward_fields(&params, Method::Post, b"{\"b\":\"2\"}"), Ok(pairs(&[("b", "2")])));
}

#[test]
fn text_that_is_no_json_object_gives_no_fields() {
    let params = pairs(&[("url", "u"), ("query", "not json")]);
    assert_eq!(forward_fields(&params, Method::Get, b""), Ok(pairs(&[])));
    let params = pairs(&[("url", "u")]);
    assert_eq!(forward_fields(&params, Method::Post, b""), Ok(pairs(&[])));
    assert_eq!(forward_fields(&params, Method::Post, b"[1,2]"), Ok(pairs(&[])));
    assert_eq!(forward_fields(&params, Method::Post, b"\"text\""), Ok(pairs(&[])));
    assert_eq!(fields_of_source(None), Some(pairs(&[])));
}

#[test]
fn numbers_and_booleans_are_sent_as_their_text() {
    let params = pairs(&[("url", "u")]);
    assert_eq!(
        forward_fields(&params, Method::Post, b"{\"a\":12,\"b\":true,\"c\":false,\"d\":-1.5}"),
        Ok(pairs(&[("a", "12"), ("b", "true"), ("c", "false"), ("d", "-1.5")]))
    );
}

#[test]
fn a_field_that_cannot_be_sent_fails_the_request() {
    let params = pairs(&[("url", "u")]);
    for body in [&b"{\"a\":null}"[..], b"{\"a\":[1]}", b"{\"a\":{\"b\":1}}", b"{\"ok\":\"1\",\"z\":null}"] {
        assert_eq!(forward_fields(&params, Method::Post, body), Err(ProxyError::UnsupportedField));
    }
    let plan = plan_with("POST", &params, "/fetch", headers(&[]), b"{\"a\":null}");
    assert_eq!(plan, Plan::Reject(build_error_response(500)));
    assert_eq!(error_response(ProxyError::UnsupportedField), build_error_response(500));
}

#[test]
fn json_values_as_form_values() {
    assert_eq!(form_value(&JsonValue::Text("a b".to_string())), Some("a b".to_string()));
    assert_eq!(form_value(&JsonValue::Number("7".to_string())), Some("7".to_string()));
    assert_eq!(form_value(&JsonValue::Bool(true)), Some("true".to_string()));
    assert_eq!(form_value(&JsonValue::Bool(false)), Some("false".to_string()));
    assert_eq!(form_value(&JsonValue::Null), None);
    assert_eq!(form_value(&JsonValue::Array("[]".to_string())), None);
    assert_eq!(form_value(&JsonValue::Object("{}".to_string())), None);
}

#[test]
fn members_as_form_fields() {
    assert_eq!(form_fields(&vec![]), Some(pairs(&[])));
    assert_eq!(
        form_fields(&vec![
            member("a", JsonValue::Text("1".to_string())),
            member("b", JsonValue::Bool(false)),
        ]),
        Some(pairs(&[("a", "1"), ("b", "false")]))
    );
    assert_eq!(
        form_fields(&vec![
            member("a", JsonValue::Text("1".to_string())),
            member("b", JsonValue::Null),
            member("c", JsonValue::Text("3".to_string())),
        ]),
        None
    );
}

#[test]
fn planning_without_url_parameter_refuses() {
    let plan = plan_with("GET", &pairs(&[("x", "1")]), "/fetch", headers(&[]), b"");
    assert_eq!(plan, Plan::Reject(error_response(ProxyError::MissingUrl)));
}

#[test]
fn outbound_headers_always_carry_the_spoofed_origin_and_referer() {
    let out = spoof(headers(&[
        ("Origin", b"https://a.example"),
        ("x-one", b"1"),
        ("referer", b"https://b.example/"),
        ("ORIGIN", b"https://c.example"),
        ("x-two", b"\xff\xfe"),
    ]));
    assert_eq!(
        out,
        headers(&[("x-one", b"1"), ("x-two", b"\xff\xfe"), ("Origin", ORIGIN), ("Referer", REFERER)])
    );
    assert_eq!(spoof(headers(&[])), spoofed_only());
    let origins: Vec<_> = out.iter().filter(|h| h.0.eq_ignore_ascii_case("origin")).collect();
    assert_eq!(origins.len(), 1);
    let referers: Vec<_> = out.iter().filter(|h| h.0.eq_ignore_ascii_case("referer")).collect();
    assert_eq!(referers.len(), 1);
}

#[test]
fn header_names_are_compared_without_case() {
    assert!(is_name("origin", "Origin"));
    assert!(is_name("ORIGIN", "Origin"));
    assert!(is_name("Origin", "Origin"));
    assert!(!is_name("Origins", "Origin"));
    assert!(!is_name("Origi", "Origin"));
    assert!(!is_name("", "Origin"));
    assert!(!is_name("Orig\u{131}n", "Origin"));
    assert!(!is_name("[rigin", "{rigin"));
    assert!(!is_name("@b", "`b"));
}

#[test]
fn the_client_sends_six_default_headers() {
    assert_eq!(
        default_headers(),
        headers(&[
            ("Origin", ORIGIN),
            ("Referer", REFERER),
            (
                "User-Agent",
                b"Mozilla/5.0 (Windows NT 10.0; Win64; x64) AppleWebKit/537.36 (KHTML, like Gecko) Chrome/131.0.0.0 Safari/537.36"
            ),
            ("Accept", b"*/*"),
            ("Accept-Encoding", b"deflate, br"),
            ("Connection", b"keep-alive"),
        ])
    );
}

#[test]
fn a_rewritten_variant_uri_leads_back_to_its_target() {
    let uri = stream_proxy::loopback::variant_loopback_uri(
        "https://h.example/live/playlist.m3u8",
        "chunklist_720p.m3u8?token=abc&exp=1",
    );
    let base = url::Url::parse("smtv://localhost/stream?url=https://h.example/live/playlist.m3u8").unwrap();
    let resolved = base.join(&uri).unwrap();
    assert_eq!(resolved.path(), "/stream");
    let params = parse_proxy_request(resolved.as_str()).unwrap();
    assert_eq!(
        params,
        pairs(&[
            ("url", "https://h.example/live/chunklist_720p.m3u8"),
            ("query", "{\"token\":\"abc\",\"exp\":\"1\"}"),
            ("method", "GET"),
        ])
    );
}

#[test]
fn a_rewritten_segment_uri_leads_back_to_its_target() {
    let uri = stream_proxy::loopback::segment_loopback_uri(
        "https://h.example/720/chunklist.m3u8?sid=xyz",
        "seg1.ts",
    );
    let base = url::Url::parse("smtv://localhost/stream/?url=x").unwrap();
    let resolved = base.join(&uri).unwrap();
    assert_eq!(resolved.path(), "/stream/segment");
    let params = parse_proxy_request(resolved.as_str()).unwrap();
    assert_eq!(
        params,
        pairs(&[("url", "https://h.example/720/chunklist.m3u8/seg1.ts"), ("method", "GET")])
    );
}

#[test]
fn a_method_parameter_that_is_not_supported_is_answered_with_status_400() {
    for name in ["PUT", "DELETE", "get", ""] {
        let uri = format!("proxy:///fetch?url=https://h.example/a&method={}", name);
        match plan_request("GET", &uri, "/fetch", headers(&[]), b"") {
            Plan::Reject(r) => assert_eq!(r.status, 400),
            other => panic!("expected a refusal, got {:?}", other),
        }
    }
    let plan = plan_request(
        "PUT",
        "proxy:///fetch?url=https://h.example/a&method=GET",
        "/fetch",
        headers(&[]),
        b"",
    );
    assert!(matches!(plan, Plan::Forward(_)));
}

#[test]
fn a_signed_token_passes_through_the_proxy_unaltered() {
    let uri = stream_proxy::loopback::variant_loopback_uri(
        "https://h.example/live/playlist.m3u8",
        "chunklist.m3u8?token=YWJjZA==&exp=1",
    );
    let base = url::Url::parse("smtv://localhost/stream?url=x").unwrap();
    let resolved = base.join(&uri).unwrap();
    let plan = plan_request("GET", resolved.as_str(), "/stream", headers(&[]), b"");
    match plan {
        Plan::Stream(t) => {
            assert_eq!(t.url, "https://h.example/live/chunklist.m3u8");
            let mut fields = t.fields.clone();
            fields.sort();
            assert_eq!(fields, pairs(&[("exp", "1"), ("token", "YWJjZA==")]));
        }
        other => panic!("expected a playlist request, got {:?}", other),
    }
}
