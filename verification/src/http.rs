//! The HTTP text of the benchmark: the requests the load generator sends, the answers of the
//! standalone reference server, and how latency samples are picked for percentiles.
use vstd::prelude::*;
use crate::text::{chars_of, decimal, has_prefix, push_decimal, starts_with};

verus! {

/// The endpoints of the standalone reference server.
#[derive(Clone, Copy, Debug, PartialEq, Eq, Structural)]
pub enum StandaloneRoute {
    /// `/api/status` and `/health`: a fixed status document.
    Status,
    /// `/api/query`: a fixed entity record.
    Query,
    /// `/api/vector`: the result of a dot product.
    Vector,
    /// Anything else.
    NotFound,
}

/// The route that a raw request text selects, by the start of its request line.
pub open spec fn route_of(req: Seq<char>) -> StandaloneRoute {
    if starts_with(req, "GET /api/status"@) || starts_with(req, "GET /health"@) {
        StandaloneRoute::Status
    } else if starts_with(req, "GET /api/query"@) {
        StandaloneRoute::Query
    } else if starts_with(req, "GET /api/vector"@) {
        StandaloneRoute::Vector
    } else {
        StandaloneRoute::NotFound
    }
}

/// Which endpoint of the standalone server a request asks for.
pub fn route_request(req: &str) -> (r: StandaloneRoute)
    ensures
        r == route_of(req@),
{
    let v = chars_of(req);
    assert(v@.subrange(0, v@.len() as int) =~= req@);
    let n = v.len();
    if has_prefix(&v, 0, n, &chars_of("GET /api/status")) || has_prefix(
        &v,
        0,
        n,
        &chars_of("GET /health"),
    ) {
        StandaloneRoute::Status
    } else if has_prefix(&v, 0, n, &chars_of("GET /api/query")) {
        StandaloneRoute::Query
    } else if has_prefix(&v, 0, n, &chars_of("GET /api/vector")) {
        StandaloneRoute::Vector
    } else {
        StandaloneRoute::NotFound
    }
}

/// The body of the status route.
pub open spec fn status_body() -> Seq<char> {
    "{\"status\":\"ok\",\"engine\":\"rust-standalone\",\"version\":\"0.1\"}"@
}

/// The body of the query route.
pub open spec fn query_body() -> Seq<char> {
    "{\"id\":1,\"canonical_name\":\"benchmark_reference_entity\",\"content\":\"Verified cryptographic token record for baseline testing\"}"@
}

/// The body of an unknown route.
pub open spec fn not_found_body() -> Seq<char> {
    "{\"error\":\"not found\"}"@
}

/// The status line and body that answer a route; the vector route answers with `vector_body`.
pub open spec fn route_answer(r: StandaloneRoute, vector_body: Seq<char>) -> (Seq<char>, Seq<char>) {
    match r {
        StandaloneRoute::Status => ("200 OK"@, status_body()),
        StandaloneRoute::Query => ("200 OK"@, query_body()),
        StandaloneRoute::Vector => ("200 OK"@, vector_body),
        StandaloneRoute::NotFound => ("404 Not Found"@, not_found_body()),
    }
}

/// What the standalone server answers, by the start of the request line: `/api/status` and
/// `/health` get `200 OK` with the status document, `/api/query` gets `200 OK` with the fixed
/// entity record (which is not the status document), `/api/vector` gets `200 OK` with the
/// vector result, and anything else gets `404 Not Found`.
pub proof fn lemma_standalone_answers(req: Seq<char>, vector_body: Seq<char>)
    ensures
        starts_with(req, "GET /api/status"@) || starts_with(req, "GET /health"@) ==> route_answer(
            route_of(req),
            vector_body,
        ) == ("200 OK"@, "{\"status\":\"ok\",\"engine\":\"rust-standalone\",\"version\":\"0.1\"}"@),
        starts_with(req, "GET /api/query"@) ==> route_answer(route_of(req), vector_body) == (
            "200 OK"@,
            "{\"id\":1,\"canonical_name\":\"benchmark_reference_entity\",\"content\":\"Verified cryptographic token record for baseline testing\"}"@,
        ),
        starts_with(req, "GET /api/vector"@) ==> route_answer(route_of(req), vector_body) == (
            "200 OK"@,
            vector_body,
        ),
        !starts_with(req, "GET /api/status"@) && !starts_with(req, "GET /health"@)
            && !starts_with(req, "GET /api/query"@) && !starts_with(req, "GET /api/vector"@)
            ==> route_answer(route_of(req), vector_body) == (
            "404 Not Found"@,
            "{\"error\":\"not found\"}"@,
        ),
        "{\"id\":1,\"canonical_name\":\"benchmark_reference_entity\",\"content\":\"Verified cryptographic token record for baseline testing\"}"@
            != "{\"status\":\"ok\",\"engine\":\"rust-standalone\",\"version\":\"0.1\"}"@,
{
    reveal_strlit("GET /api/status");
    reveal_strlit("GET /health");
    reveal_strlit("GET /api/query");
    reveal_strlit("GET /api/vector");
    reveal_strlit("{\"id\":1,\"canonical_name\":\"benchmark_reference_entity\",\"content\":\"Verified cryptographic token record for baseline testing\"}");
    reveal_strlit("{\"status\":\"ok\",\"engine\":\"rust-standalone\",\"version\":\"0.1\"}");
    if starts_with(req, "GET /api/query"@) {
        assert(req[9] == req.take(14)[9]);
        assert(req[5] == req.take(14)[5]);
        if starts_with(req, "GET /api/status"@) {
            assert(req[9] == req.take(15)[9]);
        }
        if starts_with(req, "GET /health"@) {
            assert(req[5] == req.take(11)[5]);
        }
    }
    if starts_with(req, "GET /api/vector"@) {
        assert(req[9] == req.take(15)[9]);
        assert(req[5] == req.take(15)[5]);
        if starts_with(req, "GET /api/status"@) {
            assert(req[9] == req.take(15)[9]);
        }
        if starts_with(req, "GET /health"@) {
            assert(req[5] == req.take(11)[5]);
        }
    }
    let q = "{\"id\":1,\"canonical_name\":\"benchmark_reference_entity\",\"content\":\"Verified cryptographic token record for baseline testing\"}"@;
    let st = "{\"status\":\"ok\",\"engine\":\"rust-standalone\",\"version\":\"0.1\"}"@;
    assert(q.len() != st.len());
}

/// The number of bytes of the UTF-8 encoding of `s` (what `str::len` returns).
pub open spec fn byte_len(s: Seq<char>) -> nat {
    vstd::utf8::encode_utf8(s).len()
}

/// A complete HTTP/1.1 response with a JSON body whose `Content-Length` is the byte length
/// of the body.
pub open spec fn json_response(status: Seq<char>, body: Seq<char>) -> Seq<char> {
    "HTTP/1.1 "@ + status + "\r\nContent-Type: application/json\r\nContent-Length: "@ + decimal(
        byte_len(body),
    ) + "\r\nConnection: close\r\n\r\n"@ + body
}

/// The full answer of the standalone server to a raw request: the route's status line and
/// body (the vector route's body is `vector_body`), framed with the body's byte length.
pub fn standalone_response(req: &str, vector_body: &str) -> (resp: String)
    ensures
        resp@ == json_response(
            route_answer(route_of(req@), vector_body@).0,
            route_answer(route_of(req@), vector_body@).1,
        ),
{
    let route = route_request(req);
    let (status, body): (&str, &str) = match route {
        StandaloneRoute::Status => (
            "200 OK",
            "{\"status\":\"ok\",\"engine\":\"rust-standalone\",\"version\":\"0.1\"}",
        ),
        StandaloneRoute::Query => (
            "200 OK",
            "{\"id\":1,\"canonical_name\":\"benchmark_reference_entity\",\"content\":\"Verified cryptographic token record for baseline testing\"}",
        ),
        StandaloneRoute::Vector => ("200 OK", vector_body),
        StandaloneRoute::NotFound => ("404 Not Found", "{\"error\":\"not found\"}"),
    };
    json_response_text(status, body)
}

/// `json_response(status, body)` as a string.
pub fn json_response_text(status: &str, body: &str) -> (resp: String)
    ensures
        resp@ == json_response(status@, body@),
{
    let bytes = body.as_bytes();
    let len = bytes.len();
    assert(len as nat == byte_len(body@));
    let mut resp = String::from_str("HTTP/1.1 ");
    resp.append(status);
    resp.append("\r\nContent-Type: application/json\r\nContent-Length: ");
    push_decimal(&mut resp, len as u64);
    resp.append("\r\nConnection: close\r\n\r\n");
    resp.append(body);
    resp
}

/// The text of a `GET` request for `path` on `host:port`, with a bearer token when one is
/// given.
pub open spec fn get_request(host: Seq<char>, port: u16, path: Seq<char>, auth_token: Option<Seq<char>>) -> Seq<char> {
    let head = "GET "@ + path + " HTTP/1.1\r\nHost: "@ + host + ":"@ + decimal(port as nat)
        + "\r\nConnection: close\r\nUser-Agent: aien-benchmarks/0.1\r\n"@;
    match auth_token {
        Some(t) => head + "Authorization: Bearer "@ + t + "\r\n"@ + "\r\n"@,
        None => head + "\r\n"@,
    }
}

/// The request that the load generator sends for one sample.
pub fn http_get_request(host: &str, port: u16, path: &str, auth_token: Option<&str>) -> (req: String)
    ensures
        req@ == get_request(
            host@,
            port,
            path@,
            match auth_token {
                Some(t) => Some(t@),
                None => None,
            },
        ),
{
    let mut req = String::from_str("GET ");
    req.append(path);
    req.append(" HTTP/1.1\r\nHost: ");
    req.append(host);
    req.append(":");
    push_decimal(&mut req, port as u64);
    req.append("\r\nConnection: close\r\nUser-Agent: aien-benchmarks/0.1\r\n");
    match auth_token {
        Some(t) => {
            req.append("Authorization: Bearer ");
            req.append(t);
            req.append("\r\n");
        },
        None => {},
    }
    req.append("\r\n");
    req
}

/// The text of a `POST` of the JSON document `body` to `path` on `host:port`, whose
/// `Content-Length` is the byte length of the body.
pub open spec fn post_json_request(host: Seq<char>, port: u16, path: Seq<char>, body: Seq<char>) -> Seq<char> {
    "POST "@ + path + " HTTP/1.1\r\nHost: "@ + host + ":"@ + decimal(port as nat)
        + "\r\nContent-Type: application/json\r\nContent-Length: "@ + decimal(byte_len(body))
        + "\r\nConnection: close\r\n\r\n"@ + body
}

/// The request that posts `body` to an inference endpoint.
pub fn http_post_json_request(host: &str, port: u16, path: &str, body: &str) -> (req: String)
    ensures
        req@ == post_json_request(host@, port, path@, body@),
{
    let len = body.as_bytes().len();
    assert(len as nat == byte_len(body@));
    let mut req = String::from_str("POST ");
    req.append(path);
    req.append(" HTTP/1.1\r\nHost: ");
    req.append(host);
    req.append(":");
    push_decimal(&mut req, port as u64);
    req.append("\r\nContent-Type: application/json\r\nContent-Length: ");
    push_decimal(&mut req, len as u64);
    req.append("\r\nConnection: close\r\n\r\n");
    req.append(body);
    req
}

/// The body of a streamed chat completion with one user message; the model name and the
/// prompt are inserted as they are.
pub open spec fn chat_completion_body(model: Seq<char>, prompt: Seq<char>, max_tokens: nat) -> Seq<char> {
    "{\"model\":\""@ + model + "\",\"messages\":[{\"role\":\"user\",\"content\":\""@ + prompt
        + "\"}],\"max_tokens\":"@ + decimal(max_tokens) + ",\"stream\":true}"@
}

/// `chat_completion_body(model, prompt, max_tokens)` as a string.
pub fn chat_completion_request_body(model: &str, prompt: &str, max_tokens: usize) -> (body: String)
    ensures
        body@ == chat_completion_body(model@, prompt@, max_tokens as nat),
{
    let mut body = String::from_str("{\"model\":\"");
    body.append(model);
    body.append("\",\"messages\":[{\"role\":\"user\",\"content\":\"");
    body.append(prompt);
    body.append("\"}],\"max_tokens\":");
    push_decimal(&mut body, max_tokens as u64);
    body.append(",\"stream\":true}");
    body
}

/// The body of an embedding request for `text`, inserted as it is.
pub fn embed_request_body(text: &str) -> (body: String)
    ensures
        body@ == "{\"text\":\""@ + text@ + "\"}"@,
{
    let mut body = String::from_str("{\"text\":\"");
    body.append(text);
    body.append("\"}");
    body
}

/// The URL that a benchmark result names: `http://host:port` followed by the path.
pub fn endpoint_url(host: &str, port: u16, path: &str) -> (url: String)
    ensures
        url@ == "http://"@ + host@ + ":"@ + decimal(port as nat) + path@,
{
    let mut url = String::from_str("http://");
    url.append(host);
    url.append(":");
    push_decimal(&mut url, port as u64);
    url.append(path);
    url
}

/// The number of requests each worker sends: the total split evenly over at least one worker,
/// the remainder dropped.
pub fn requests_per_worker(total_requests: usize, concurrency: usize) -> (n: usize)
    ensures
        n == total_requests / (if concurrency == 0 {
            1usize
        } else {
            concurrency
        }),
{
    let workers = if concurrency == 0 {
        1
    } else {
        concurrency
    };
    total_requests / workers
}

/// The positions in `count` sorted samples of the 50th, 95th and 99th percentile.
pub open spec fn percentile_positions(count: nat) -> (nat, nat, nat) {
    let p99 = count * 99 / 100;
    (count * 50 / 100, count * 95 / 100, if p99 < count - 1 {
        p99
    } else {
        (count - 1) as nat
    })
}

/// The positions in `count` sorted latency samples that the benchmark reports as p50, p95
/// and p99; they are in order and all within the samples.
pub fn percentile_indices(count: usize) -> (r: (usize, usize, usize))
    requires
        count >= 1,
        count * 99 <= usize::MAX,
    ensures
        (r.0 as nat, r.1 as nat, r.2 as nat) == percentile_positions(count as nat),
        r.0 <= r.1 <= r.2 < count,
{
    let p50 = count * 50 / 100;
    let p95 = count * 95 / 100;
    let p99 = count * 99 / 100;
    let p99 = if p99 < count - 1 {
        p99
    } else {
        count - 1
    };
    assert(count * 50 / 100 <= count * 95 / 100) by (nonlinear_arith)
        requires
            count >= 1,
    ;
    assert(count * 95 / 100 <= count * 99 / 100) by (nonlinear_arith)
        requires
            count >= 1,
    ;
    assert(count * 95 / 100 < count) by (nonlinear_arith)
        requires
            count >= 1,
    ;
    (p50, p95, p99)
}

/// The position of a percentile `pct` (out of 100, below 100) in `len` sorted samples,
/// rounded down; it is within the samples.
pub fn sample_index(len: usize, pct: usize) -> (i: usize)
    requires
        len >= 1,
        pct < 100,
        len * pct <= usize::MAX,
    ensures
        i == len * pct / 100,
        i < len,
{
    assert(len * pct / 100 < len) by (nonlinear_arith)
        requires
            len >= 1,
            pct < 100,
    ;
    len * pct / 100
}

/// The number of requests among `outcomes` that succeeded.
pub open spec fn successes(outcomes: Seq<bool>) -> nat
    decreases outcomes.len(),
{
    if outcomes.len() == 0 {
        0
    } else {
        successes(outcomes.drop_last()) + if outcomes.last() {
            1nat
        } else {
            0nat
        }
    }
}

/// Successes add up over concatenated outcome lists; one outcome counts one exactly when it
/// is a success; so the count never exceeds the number of requests.
pub proof fn lemma_successes_additive(a: Seq<bool>, b: Seq<bool>, o: bool)
    ensures
        successes(a + b) == successes(a) + successes(b),
        successes(seq![o]) == (if o { 1nat } else { 0nat }),
        successes(a) <= a.len(),
    decreases a.len() + b.len(),
{
    assert(seq![o].drop_last() =~= Seq::<bool>::empty());
    assert(seq![o].last() == o);
    assert(successes(Seq::<bool>::empty()) == 0);
    if b.len() > 0 {
        lemma_successes_additive(a, b.drop_last(), o);
        assert((a + b).drop_last() =~= a + b.drop_last());
        assert((a + b).last() == b.last());
    } else {
        assert(a + b =~= a);
    }
    if a.len() > 0 {
        lemma_successes_additive(a.drop_last(), Seq::<bool>::empty(), o);
    }
}

/// The successful and failed counts of a benchmark from the outcome of each request, or the
/// error `All benchmark requests failed` when none succeeded.
pub fn tally_requests(outcomes: &Vec<bool>) -> (r: Result<(usize, usize), String>)
    ensures
        match r {
            Ok((ok, failed)) => successes(outcomes@) > 0 && ok == successes(outcomes@) && failed
                == outcomes.len() - successes(outcomes@),
            Err(e) => successes(outcomes@) == 0 && e@ == "All benchmark requests failed"@,
        },
{
    let mut ok: usize = 0;
    let mut failed: usize = 0;
    let mut i: usize = 0;
    while i < outcomes.len()
        invariant
            i <= outcomes.len(),
            ok == successes(outcomes@.take(i as int)),
            ok + failed == i,
        decreases outcomes.len() - i,
    {
        proof {
            assert(outcomes@.take(i + 1).drop_last() =~= outcomes@.take(i as int));
            assert(outcomes@.take(i + 1).last() == outcomes@[i as int]);
        }
        if outcomes[i] {
            ok = ok + 1;
        } else {
            failed = failed + 1;
        }
        i = i + 1;
    }
    assert(outcomes@.take(outcomes.len() as int) =~= outcomes@);
    if ok == 0 {
        return Err(String::from_str("All benchmark requests failed"));
    }
    Ok((ok, failed))
}

} // verus!
