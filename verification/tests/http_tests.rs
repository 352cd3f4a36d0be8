use aien_benchmarks::http::{
    chat_completion_request_body, embed_request_body, endpoint_url, http_get_request,
    http_post_json_request, percentile_indices, requests_per_worker, route_request,
    sample_index, standalone_response, tally_requests, StandaloneRoute,
};

#[test]
fn routes_by_request_line() {
    assert_eq!(route_request("GET /api/status HTTP/1.1\r\n"), StandaloneRoute::Status);
    assert_eq!(route_request("GET /health HTTP/1.1\r\n"), StandaloneRoute::Status);
    assert_eq!(route_request("GET /api/query?x=1 HTTP/1.1"), StandaloneRoute::Query);
    assert_eq!(route_request("GET /api/vector HTTP/1.1"), StandaloneRoute::Vector);
    assert_eq!(route_request("POST /api/status HTTP/1.1"), StandaloneRoute::NotFound);
    assert_eq!(route_request(""), StandaloneRoute::NotFound);
}

#[test]
fn standalone_response_frames_body() {
    let r = standalone_response("GET /health HTTP/1.1\r\n\r\n", "unused");
    let body = r#"{"status":"ok","engine":"rust-standalone","version":"0.1"}"#;
    assert_eq!(
        r,
        format!(
            "HTTP/1.1 200 OK\r\nContent-Type: application/json\r\nContent-Length: {}\r\nConnection: close\r\n\r\n{}",
            body.len(),
            body
        )
    );
    let r = standalone_response("GET /nope", "");
    assert_eq!(
        r,
        "HTTP/1.1 404 Not Found\r\nContent-Type: application/json\r\nContent-Length: 21\r\nConnection: close\r\n\r\n{\"error\":\"not found\"}"
    );
    let r = standalone_response("GET /api/vector", "{\"s\":\"é\"}");
    assert!(r.contains("Content-Length: 10\r\n"));
    assert!(r.ends_with("{\"s\":\"é\"}"));
}

#[test]
fn request_text() {
    assert_eq!(
        http_get_request("127.0.0.1", 18080, "/health", None),
        "GET /health HTTP/1.1\r\nHost: 127.0.0.1:18080\r\nConnection: close\r\nUser-Agent: aien-benchmarks/0.1\r\n\r\n"
    );
    assert_eq!(
        http_get_request("h", 0, "/", Some("tok")),
        "GET / HTTP/1.1\r\nHost: h:0\r\nConnection: close\r\nUser-Agent: aien-benchmarks/0.1\r\nAuthorization: Bearer tok\r\n\r\n"
    );
    assert_eq!(endpoint_url("127.0.0.1", 65535, "/api/pulse"), "http://127.0.0.1:65535/api/pulse");
}

#[test]
fn percentile_positions() {
    assert_eq!(percentile_indices(1), (0, 0, 0));
    assert_eq!(percentile_indices(500), (250, 475, 495));
    assert_eq!(percentile_indices(10), (5, 9, 9));
    assert_eq!(percentile_indices(101), (50, 95, 99));
    assert_eq!(sample_index(19, 95), 18);
    assert_eq!(sample_index(3, 50), 1);
    assert_eq!(requests_per_worker(500, 10), 50);
    assert_eq!(requests_per_worker(500, 0), 500);
    assert_eq!(requests_per_worker(7, 3), 2);
}

#[test]
fn post_request_counts_body_bytes() {
    let body = embed_request_body("héllo");
    assert_eq!(body, "{\"text\":\"héllo\"}");
    let req = http_post_json_request("127.0.0.1", 18081, "/embed", &body);
    assert_eq!(
        req,
        "POST /embed HTTP/1.1\r\nHost: 127.0.0.1:18081\r\nContent-Type: application/json\r\nContent-Length: 17\r\nConnection: close\r\n\r\n{\"text\":\"héllo\"}"
    );
}

#[test]
fn chat_body_is_streamed() {
    assert_eq!(
        chat_completion_request_body("atlas-lightning-omni", "Warmup", 4),
        "{\"model\":\"atlas-lightning-omni\",\"messages\":[{\"role\":\"user\",\"content\":\"Warmup\"}],\"max_tokens\":4,\"stream\":true}"
    );
}

#[test]
fn request_tally() {
    assert_eq!(tally_requests(&vec![true, false, true, true]), Ok((3, 1)));
    assert_eq!(tally_requests(&vec![true]), Ok((1, 0)));
    assert_eq!(tally_requests(&vec![false, false]), Err("All benchmark requests failed".to_string()));
    assert_eq!(tally_requests(&Vec::new()), Err("All benchmark requests failed".to_string()));
}
