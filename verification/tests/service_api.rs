use stream_proxy::api::{
    check_live_request, check_live_result, live_result, post_aid_request, post_aid_result,
    read_member, stream_url_request, stream_url_result, unquote,
};
use stream_proxy::request::{Method, TargetRequest};

const LIVE_API: &str = "https://live.sooplive.co.kr/afreeca/player_live_api.php";
const ASSIGN_API: &str = "https://livestream-manager.sooplive.co.kr/broad_stream_assign.html";

fn pairs(items: &[(&str, &str)]) -> Vec<(String, String)> {
    items.iter().map(|(k, v)| (k.to_string(), v.to_string())).collect()
}

fn spoofed_only() -> Vec<(String, Vec<u8>)> {
    vec![
        ("Origin".to_string(), b"https://play.sooplive.co.kr".to_vec()),
        ("Referer".to_string(), b"https://play.sooplive.co.kr/".to_vec()),
    ]
}

#[test]
fn live_check_posts_the_broadcaster() {
    assert_eq!(
        check_live_request("someone"),
        TargetRequest {
            method: Method::Post,
            url: LIVE_API.to_string(),
            headers: spoofed_only(),
            fields: pairs(&[("bid", "someone")]),
        }
    );
}

#[test]
fn live_check_returns_the_channel() {
    assert_eq!(
        check_live_result(200, b"{\"CHANNEL\":{\"RESULT\":1,\"BNO\":\"42\"},\"x\":1}"),
        Ok("{\"BNO\":\"42\",\"RESULT\":1}".to_string())
    );
    assert_eq!(check_live_result(200, b"{\"CHANNEL\":\"text\"}"), Ok("\"text\"".to_string()));
    assert_eq!(check_live_result(200, b"{\"CHANNEL\":null}"), Ok("null".to_string()));
}

#[test]
fn live_check_of_an_unknown_broadcaster_fails() {
    assert_eq!(check_live_result(404, b"whatever"), Err("404 Not Found".to_string()));
    assert_eq!(
        check_live_result(404, b"{\"CHANNEL\":{}}"),
        Err("404 Not Found".to_string())
    );
}

#[test]
fn live_check_under_another_status_fails() {
    for status in [201u16, 302, 400, 403, 500, 503] {
        assert_eq!(
            check_live_result(status, b"{\"CHANNEL\":{}}"),
            Err("Unknown error".to_string())
        );
    }
}

#[test]
fn live_check_without_channel_fails() {
    assert_eq!(check_live_result(200, b"{\"OTHER\":1}"), Err("Invalid response".to_string()));
    assert_eq!(check_live_result(200, b"not json"), Err("Invalid response".to_string()));
    assert_eq!(check_live_result(200, b"[1]"), Err("Invalid response".to_string()));
    assert_eq!(live_result(200, None), Err("Invalid response".to_string()));
    assert_eq!(live_result(200, Some("x".to_string())), Ok("x".to_string()));
    assert_eq!(live_result(404, Some("x".to_string())), Err("404 Not Found".to_string()));
    assert_eq!(live_result(500, None), Err("Unknown error".to_string()));
}

#[test]
fn stream_assignment_names_network_and_broadcast() {
    assert_eq!(
        stream_url_request("42", "gs_cdn", "1080p"),
        TargetRequest {
            method: Method::Get,
            url: ASSIGN_API.to_string(),
            headers: spoofed_only(),
            fields: pairs(&[("return_type", "gs_cdn_pc_web"), ("broad_key", "42-common-1080p-hls")]),
        }
    );
    let query = url::form_urlencoded::Serializer::new(String::new())
        .extend_pairs(stream_url_request("42", "gs_cdn", "1080p").fields.iter())
        .finish();
    assert_eq!(query, "return_type=gs_cdn_pc_web&broad_key=42-common-1080p-hls");
}

#[test]
fn stream_assignment_defaults_to_the_other_network() {
    for cdn in ["gcp_cdn", "", "GS_CDN", "other"] {
        assert_eq!(
            stream_url_request("7", cdn, "original").fields,
            pairs(&[("return_type", "gcp_cdn"), ("broad_key", "7-common-original-hls")])
        );
    }
}

#[test]
fn stream_assignment_answers_with_the_address() {
    assert_eq!(
        stream_url_result(b"{\"view_url\":\"https://s.example/hls/42\"}"),
        Ok("https://s.example/hls/42".to_string())
    );
    assert_eq!(stream_url_result(b"{\"view_url\":12}"), Ok("12".to_string()));
    assert_eq!(stream_url_result(b"{\"other\":1}"), Err("Invalid response".to_string()));
    assert_eq!(stream_url_result(b""), Err("Invalid response".to_string()));
}

#[test]
fn key_request_posts_four_fields() {
    assert_eq!(
        post_aid_request("42", "hd", "secret"),
        TargetRequest {
            method: Method::Post,
            url: LIVE_API.to_string(),
            headers: spoofed_only(),
            fields: pairs(&[("type", "aid"), ("bno", "42"), ("quality", "hd"), ("pwd", "secret")]),
        }
    );
}

#[test]
fn key_request_answers_with_the_key() {
    assert_eq!(
        post_aid_result(b"{\"CHANNEL\":{\"RESULT\":1,\"AID\":\".A32.key\"}}"),
        Ok(".A32.key".to_string())
    );
    assert_eq!(post_aid_result(b"{\"CHANNEL\":{\"RESULT\":0}}"), Err("Invalid response".to_string()));
    assert_eq!(post_aid_result(b"{\"CHANNEL\":\"text\"}"), Err("Invalid response".to_string()));
    assert_eq!(post_aid_result(b"{}"), Err("Invalid response".to_string()));
}

#[test]
fn members_are_read_by_name() {
    assert_eq!(read_member(b"{\"a\":\"x\",\"b\":[1,{\"c\":null}]}", "a"), Some("\"x\"".to_string()));
    assert_eq!(
        read_member(b"{\"a\":\"x\",\"b\":[1,{\"c\":null}]}", "b"),
        Some("[1,{\"c\":null}]".to_string())
    );
    assert_eq!(read_member(b"{\"a\":\"x\"}", "A"), None);
    assert_eq!(read_member(b"{\"a\":1,\"a\":2}", "a"), Some("2".to_string()));
    assert_eq!(read_member(b"{", "a"), None);
}

#[test]
fn quotes_around_a_member_are_taken_off() {
    assert_eq!(unquote(Some("\"abc\"".to_string())), Ok("abc".to_string()));
    assert_eq!(unquote(Some("abc".to_string())), Ok("abc".to_string()));
    assert_eq!(unquote(Some("\"a\\\"b\"".to_string())), Ok("a\\\"b".to_string()));
    assert_eq!(unquote(None), Err("Invalid response".to_string()));
}
