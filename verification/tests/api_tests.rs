use itol_engine::api::{
    build_request_plan, build_api_envelope, parse_method, plan_body, AuthPlan, ApiError,
    ExecuteApiParams, HttpMethod,
};

fn params(method: &str) -> ExecuteApiParams {
    ExecuteApiParams {
        method: method.to_string(),
        base_url: "https://api.example.com/x".to_string(),
        query: None,
        headers: None,
        body: None,
        auth: None,
        timeout: None,
        project_id: None,
        page_id: 1,
        run_id: "run1".to_string(),
    }
}

#[test]
fn methods_parse_case_insensitively() {
    assert_eq!(parse_method("GET"), Some(HttpMethod::Get));
    assert_eq!(parse_method("get"), Some(HttpMethod::Get));
    assert_eq!(parse_method("Post"), Some(HttpMethod::Post));
    assert_eq!(parse_method("put"), Some(HttpMethod::Put));
    assert_eq!(parse_method("PATCH"), Some(HttpMethod::Patch));
    assert_eq!(parse_method("delete"), Some(HttpMethod::Delete));
    assert_eq!(parse_method("head"), Some(HttpMethod::Head));
    assert_eq!(parse_method("options"), Some(HttpMethod::Options));
    assert_eq!(parse_method("FETCH"), None);
}

#[test]
fn unsupported_method_is_the_only_abort() {
    let err = build_request_plan(&params("FETCH")).unwrap_err();
    match &err {
        ApiError::UnsupportedMethod(_) => {}
        _ => panic!("wrong error kind"),
    }
    assert_eq!(err.message(), "Unsupported HTTP method: FETCH");

    // Malformed fragments everywhere: the call still goes ahead.
    let mut p = params("GET");
    p.query = Some("not json".to_string());
    p.headers = Some("{broken".to_string());
    p.auth = Some("[1,2]".to_string());
    let plan = build_request_plan(&p).unwrap();
    assert!(plan.query.is_empty());
    assert!(plan.auth.is_none());
    assert_eq!(plan.headers, vec![("accept".to_string(), "application/json".to_string())]);
}

#[test]
fn body_goes_out_unmodified_except_for_bodyless_methods() {
    let body = Some("{\"a\":1}".to_string());
    assert_eq!(plan_body(HttpMethod::Post, &body), body.clone());
    assert_eq!(plan_body(HttpMethod::Put, &body), body.clone());
    assert_eq!(plan_body(HttpMethod::Patch, &body), body.clone());
    assert_eq!(plan_body(HttpMethod::Delete, &body), body.clone());
    assert_eq!(plan_body(HttpMethod::Get, &body), None);
    assert_eq!(plan_body(HttpMethod::Head, &body), None);
    assert_eq!(plan_body(HttpMethod::Options, &body), None);
    assert_eq!(plan_body(HttpMethod::Post, &Some(String::new())), None);
    assert_eq!(plan_body(HttpMethod::Post, &None), None);

    let mut p = params("post");
    p.body = body.clone();
    let plan = build_request_plan(&p).unwrap();
    assert_eq!(plan.body, body);

    let mut g = params("get");
    g.body = body;
    assert_eq!(build_request_plan(&g).unwrap().body, None);
}

#[test]
fn query_fragment_contributes_its_entries() {
    let mut p = params("GET");
    p.query = Some("{\"a\":\"1\",\"b\":\"2\"}".to_string());
    let mut q = build_request_plan(&p).unwrap().query;
    q.sort();
    assert_eq!(q, vec![("a".to_string(), "1".to_string()), ("b".to_string(), "2".to_string())]);

    // A query fragment must be a flat string map: nested values make the
    // whole fragment malformed, and only its contribution is dropped.
    let mut nested = params("GET");
    nested.query = Some("{\"a\":{\"b\":\"1\"}}".to_string());
    let plan = build_request_plan(&nested).unwrap();
    assert!(plan.query.is_empty());

    // An empty fragment contributes nothing either.
    let mut empty = params("GET");
    empty.query = Some(String::new());
    assert!(build_request_plan(&empty).unwrap().query.is_empty());
}

#[test]
fn headers_are_validated_individually_and_lowercased() {
    let mut p = params("GET");
    p.headers = Some("{\"X-Test\":\"1\"}".to_string());
    let plan = build_request_plan(&p).unwrap();
    assert_eq!(
        plan.headers,
        vec![
            ("x-test".to_string(), "1".to_string()),
            ("accept".to_string(), "application/json".to_string()),
        ]
    );

    // An invalid name or value drops only that entry.
    let mut bad = params("GET");
    bad.headers = Some("{\"bad name\":\"1\"}".to_string());
    let plan = build_request_plan(&bad).unwrap();
    assert_eq!(plan.headers, vec![("accept".to_string(), "application/json".to_string())]);

    let mut badval = params("GET");
    badval.headers = Some("{\"x-ok\":\"line\\nbreak\"}".to_string());
    let plan = build_request_plan(&badval).unwrap();
    assert_eq!(plan.headers, vec![("accept".to_string(), "application/json".to_string())]);
}

#[test]
fn auth_shapes_are_recognized() {
    let mut p = params("GET");
    p.auth = Some("{\"type\":\"bearer\",\"token\":\"t0\"}".to_string());
    match build_request_plan(&p).unwrap().auth {
        Some(AuthPlan::Bearer(v)) => assert_eq!(v, "Bearer t0"),
        _ => panic!("expected bearer auth"),
    }

    let mut b = params("GET");
    b.auth = Some("{\"type\":\"basic\",\"username\":\"u\",\"password\":\"pw\"}".to_string());
    match build_request_plan(&b).unwrap().auth {
        Some(AuthPlan::Basic { username, password }) => {
            assert_eq!(username, "u");
            assert_eq!(password, "pw");
        }
        _ => panic!("expected basic auth"),
    }

    // An unknown shape, or a missing piece, contributes nothing.
    let mut u = params("GET");
    u.auth = Some("{\"type\":\"digest\"}".to_string());
    assert!(build_request_plan(&u).unwrap().auth.is_none());
    let mut m = params("GET");
    m.auth = Some("{\"type\":\"bearer\"}".to_string());
    assert!(build_request_plan(&m).unwrap().auth.is_none());
}

#[test]
fn defaults_are_thirty_seconds_and_accept_json() {
    let plan = build_request_plan(&params("GET")).unwrap();
    assert_eq!(plan.timeout_secs, 30);
    assert_eq!(plan.url, "https://api.example.com/x");
    assert_eq!(plan.headers, vec![("accept".to_string(), "application/json".to_string())]);

    let mut p = params("GET");
    p.timeout = Some(5);
    assert_eq!(build_request_plan(&p).unwrap().timeout_secs, 5);
}

#[test]
fn envelope_parses_json_bodies_and_quotes_raw_text() {
    let headers = vec![("x-test".to_string(), "1".to_string())];
    let enveloped = build_api_envelope(200, "OK", &headers, "{ \"a\" : 1 }");
    assert_eq!(
        enveloped,
        "{\"status\":200,\"statusText\":\"OK\",\"headers\":{\"x-test\":\"1\"},\"data\":{\"a\":1}}"
    );

    let raw = build_api_envelope(404, "Not Found", &Vec::new(), "plain body");
    assert_eq!(
        raw,
        "{\"status\":404,\"statusText\":\"Not Found\",\"headers\":{},\"data\":\"plain body\"}"
    );
}

#[test]
fn envelope_escapes_header_values_and_raw_bodies() {
    let headers = vec![("x-note".to_string(), "say \"hi\"".to_string())];
    let enveloped = build_api_envelope(200, "OK", &headers, "tab\there");
    assert_eq!(
        enveloped,
        "{\"status\":200,\"statusText\":\"OK\",\"headers\":{\"x-note\":\"say \\\"hi\\\"\"},\"data\":\"tab\\there\"}"
    );

    let control = build_api_envelope(200, "OK", &Vec::new(), "\u{1}");
    assert_eq!(
        control,
        "{\"status\":200,\"statusText\":\"OK\",\"headers\":{},\"data\":\"\\u0001\"}"
    );
}
