use stream_proxy::response::{
    build_error_response, build_stream_response, error_response, handle_response, open_response,
    playlist_response, ProxyError, Response, Upstream,
};

fn pairs(items: &[(&str, &str)]) -> Vec<(String, String)> {
    items.iter().map(|(k, v)| (k.to_string(), v.to_string())).collect()
}

#[test]
fn an_error_is_plain_text() {
    assert_eq!(
        build_error_response(500),
        Response {
            status: 500,
            headers: pairs(&[("Content-Type", "text/plain")]),
            body: b"Error".to_vec(),
        }
    );
    assert_eq!(build_error_response(400).status, 400);
    assert_eq!(build_error_response(400).body, b"Error".to_vec());
}

#[test]
fn each_failure_has_its_status_and_message() {
    let cases = [
        (ProxyError::MissingUrl, 500u16, "URL 파라미터가 없습니다."),
        (ProxyError::UnsupportedMethod, 400, "Error"),
        (ProxyError::UnsupportedField, 500, "Error"),
        (ProxyError::Upstream, 500, "Error"),
        (ProxyError::Serialize, 500, "Error"),
    ];
    for (e, status, message) in cases {
        assert_eq!(e.status(), status);
        assert_eq!(e.message(), message);
        assert_eq!(
            error_response(e),
            Response {
                status,
                headers: pairs(&[("Content-Type", "text/plain")]),
                body: message.as_bytes().to_vec(),
            }
        );
    }
}

#[test]
fn a_segment_is_passed_on_as_it_came() {
    let bytes = vec![0x47u8, 0x40, 0x00, 0x10, 0xff, 0x00];
    let response = handle_response(Upstream::Answer {
        status: 200,
        content_type: Some("video/mp2t".to_string()),
        body: bytes.clone(),
    });
    assert_eq!(
        response,
        Response {
            status: 200,
            headers: pairs(&[("Access-Control-Allow-Origin", "*"), ("Content-Type", "video/mp2t")]),
            body: bytes,
        }
    );
}

#[test]
fn every_passed_on_answer_allows_any_origin() {
    for status in [200u16, 204, 301, 403, 404, 500, 503] {
        let response = handle_response(Upstream::Answer {
            status,
            content_type: None,
            body: vec![1, 2, 3],
        });
        assert_eq!(response.status, status);
        assert!(response
            .headers
            .contains(&("Access-Control-Allow-Origin".to_string(), "*".to_string())));
        assert_eq!(response.body, vec![1, 2, 3]);
    }
}

#[test]
fn a_missing_content_type_is_that_of_plain_bytes() {
    let response = open_response(200, None, vec![]);
    assert_eq!(
        response.headers,
        pairs(&[("Access-Control-Allow-Origin", "*"), ("Content-Type", "application/octet-stream")])
    );
}

#[test]
fn a_failed_upstream_request_is_answered_with_status_500() {
    assert_eq!(handle_response(Upstream::Failed), build_error_response(500));
    assert_eq!(build_stream_response(Upstream::Failed, "https://h.example/a.m3u8"), build_error_response(500));
}

#[test]
fn a_playlist_that_cannot_be_written_is_answered_with_status_500() {
    assert_eq!(playlist_response(200, Some("x".to_string()), None), build_error_response(500));
    assert_eq!(
        playlist_response(206, Some("application/x-mpegURL".to_string()), Some(b"#EXTM3U\n".to_vec())),
        Response {
            status: 206,
            headers: pairs(&[
                ("Access-Control-Allow-Origin", "*"),
                ("Content-Type", "application/x-mpegURL"),
            ]),
            body: b"#EXTM3U\n".to_vec(),
        }
    );
}

#[test]
fn a_master_playlist_is_answered_rewritten() {
    let body = "#EXTM3U\n\
        #EXT-X-STREAM-INF:BANDWIDTH=2000000\nchunklist_720p.m3u8?token=abc&exp=1\n\
        #EXT-X-STREAM-INF:BANDWIDTH=800000\nchunklist_480p.m3u8?token=def&exp=2\n";
    let response = build_stream_response(
        Upstream::Answer {
            status: 200,
            content_type: Some("application/vnd.apple.mpegurl".to_string()),
            body: body.as_bytes().to_vec(),
        },
        "https://h.example/playlist.m3u8",
    );
    assert_eq!(response.status, 200);
    assert_eq!(
        response.headers,
        pairs(&[
            ("Access-Control-Allow-Origin", "*"),
            ("Content-Type", "application/vnd.apple.mpegurl"),
        ])
    );
    assert_eq!(
        String::from_utf8(response.body).unwrap(),
        "#EXTM3U\n\
         #EXT-X-STREAM-INF:BANDWIDTH=2000000\n\
         ?url=https://h.example/chunklist_720p.m3u8&query=%7B%22token%22%3A%22abc%22%2C%22exp%22%3A%221%22%7D&method=GET\n\
         #EXT-X-STREAM-INF:BANDWIDTH=800000\n\
         ?url=https://h.example/chunklist_480p.m3u8&query=%7B%22token%22%3A%22def%22%2C%22exp%22%3A%222%22%7D&method=GET\n"
    );
}

#[test]
fn a_media_playlist_is_answered_rewritten() {
    let body = "#EXTM3U\n#EXT-X-TARGETDURATION:2\n\
        #EXTINF:2,\nseg1.ts\n#EXTINF:2,\npreloading_seg2.ts\n#EXTINF:2,\nseg3.ts\n";
    let response = build_stream_response(
        Upstream::Answer { status: 200, content_type: None, body: body.as_bytes().to_vec() },
        "https://h.example/720/chunklist.m3u8?sid=xyz",
    );
    assert_eq!(response.status, 200);
    assert_eq!(
        String::from_utf8(response.body).unwrap(),
        "#EXTM3U\n#EXT-X-TARGETDURATION:2\n\
         #EXTINF:2,\nsegment?url=https://h.example/720/chunklist.m3u8/seg1.ts&method=GET\n\
         #EXTINF:2,\nsegment?url=https://h.example/720/chunklist.m3u8/seg3.ts&method=GET\n"
    );
}

#[test]
fn an_upstream_error_page_becomes_an_empty_playlist_under_its_status() {
    let response = build_stream_response(
        Upstream::Answer {
            status: 404,
            content_type: Some("text/html".to_string()),
            body: b"<html>not found</html>".to_vec(),
        },
        "https://h.example/gone.m3u8",
    );
    assert_eq!(response.status, 404);
    assert_eq!(String::from_utf8(response.body).unwrap(), "#EXTM3U\n#EXT-X-TARGETDURATION:0\n");
}
