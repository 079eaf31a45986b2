use serverless::headers::{decode_headers, decoded_len, header_lookup, js_headers, Header};
use serverless::request::{LambdaPath, Method, Request};
use serverless::response::Response;
use serverless::script::{HostFn, ScriptValue};

fn pair(name: &str, value: &str) -> ScriptValue {
    ScriptValue::Array(vec![
        ScriptValue::Str(name.to_string()),
        ScriptValue::Str(value.to_string()),
    ])
}

fn items_of(v: ScriptValue) -> Vec<ScriptValue> {
    match v {
        ScriptValue::Array(items) => items,
        other => panic!("expected an array, got {:?}", other),
    }
}

#[test]
fn header_round_trip_empty() {
    let hs: Vec<Header> = Vec::new();
    let decoded = decode_headers(&items_of(js_headers(&hs)));
    assert!(decoded.is_empty());
}

#[test]
fn header_round_trip_single() {
    let hs = vec![Header::new("Content-Type", "text/html")];
    let decoded = decode_headers(&items_of(js_headers(&hs)));
    assert_eq!(decoded.len(), 1);
    assert_eq!(decoded[0].name(), "Content-Type");
    assert_eq!(decoded[0].value(), "text/html");
}

#[test]
fn header_round_trip_duplicate_names() {
    let hs = vec![
        Header::new("X-A", "1"),
        Header::new("X-A", "2"),
        Header::new("X-B", "3"),
    ];
    let decoded = decode_headers(&items_of(js_headers(&hs)));
    assert_eq!(decoded.len(), 3);
    assert_eq!(decoded[0].value(), "1");
    assert_eq!(decoded[1].value(), "2");
    assert_eq!(decoded[2].name(), "X-B");
}

#[test]
fn lenient_decode_stops_at_malformed() {
    let items = vec![pair("A", "1"), ScriptValue::Int(7), pair("B", "2")];
    let decoded = decode_headers(&items);
    assert_eq!(decoded.len(), 1);
    assert_eq!(decoded[0].name(), "A");
}

#[test]
fn lenient_decode_rejects_short_and_non_string_pairs() {
    let only_one = vec![ScriptValue::Array(vec![ScriptValue::Str("A".to_string())])];
    assert!(decode_headers(&only_one).is_empty());
    let non_string = vec![ScriptValue::Array(vec![
        ScriptValue::Int(1),
        ScriptValue::Str("v".to_string()),
    ])];
    assert!(decode_headers(&non_string).is_empty());
}

#[test]
fn decoded_len_counts_prefix() {
    let items = vec![pair("A", "1"), pair("B", "2"), ScriptValue::Null];
    assert_eq!(decoded_len(&items), 2);
}

#[test]
fn header_from_js_errors() {
    match Header::from_js(&ScriptValue::Str("x".to_string())) {
        Err(e) => assert_eq!(e, "Invalid Header"),
        Ok(_) => panic!("a bare string is no header pair"),
    }
    match Header::from_js(&pair("n", "v")) {
        Ok(h) => {
            assert_eq!(h.name(), "n");
            assert_eq!(h.value(), "v");
        },
        Err(e) => panic!("a well-formed pair must decode, got {}", e),
    }
}

#[test]
fn header_lookup_is_case_insensitive_first_match() {
    let hs = vec![
        Header::new("Content-Type", "text/html"),
        Header::new("X-A", "first"),
        Header::new("x-a", "second"),
    ];
    assert_eq!(header_lookup(&hs, "content-TYPE"), "text/html");
    assert_eq!(header_lookup(&hs, "X-A"), "first");
    assert_eq!(header_lookup(&hs, "x-A"), "first");
    assert_eq!(header_lookup(&hs, "Missing"), "");
}

#[test]
fn header_lookup_folds_ascii_only() {
    let hs = vec![Header::new("\u{c4}", "x")];
    assert_eq!(header_lookup(&hs, "\u{e4}"), "");
    assert_eq!(header_lookup(&hs, "\u{c4}"), "x");
}

#[test]
fn method_names_round_trip() {
    let all = [
        Method::GET,
        Method::POST,
        Method::PUT,
        Method::DELETE,
        Method::PATCH,
        Method::OPTIONS,
    ];
    for m in all {
        assert_eq!(Method::from_str(m.to_string()), Ok(m));
    }
    assert_eq!(Method::to_string(&Method::GET), "GET");
}

#[test]
fn method_from_str_rejects_unknown() {
    assert_eq!(Method::from_str("FOO"), Err("Invalid Method".to_string()));
    assert_eq!(Method::from_str("get"), Err("Invalid Method".to_string()));
}

#[test]
fn method_from_js() {
    assert_eq!(Method::from_js(&ScriptValue::Str("PUT".to_string())), Ok(Method::PUT));
    assert_eq!(Method::from_js(&ScriptValue::Int(1)), Err("Invalid Method".to_string()));
}

#[test]
fn map_builds_the_snapshot() {
    let req = Request::map(
        &LambdaPath { path: "fn".to_string() },
        "a.com",
        Method::POST,
        vec![Header::new("X-A", "1")],
        Some("payload".to_string()),
    );
    assert_eq!(req.host(), "a.com");
    assert_eq!(req.scheme(), "http");
    assert_eq!(req.path(), "/fn");
    assert_eq!(req.method(), Method::POST);
    assert_eq!(req.headers().len(), 1);
    assert_eq!(req.body(), &Some("payload".to_string()));
    assert_eq!(req.uri(), "http://a.com/fn");
}

#[test]
fn request_object_shape() {
    let req = Request::map(
        &LambdaPath { path: "p".to_string() },
        "h.com",
        Method::GET,
        Vec::new(),
        None,
    );
    let obj = req.js();
    assert_eq!(obj.get_key("host"), Some(&ScriptValue::Str("h.com".to_string())));
    assert_eq!(obj.get_key("proto"), Some(&ScriptValue::Str("http".to_string())));
    assert_eq!(obj.get_key("method"), Some(&ScriptValue::Str("GET".to_string())));
    assert_eq!(obj.get_key("body"), Some(&ScriptValue::Null));
    assert_eq!(obj.get_key("json"), Some(&ScriptValue::HostFunc(HostFn::Json)));
    assert_eq!(obj.get_key("getHeader"), Some(&ScriptValue::HostFunc(HostFn::GetHeader)));
}

#[test]
fn request_round_trips_through_script_object() {
    let req = Request::map(
        &LambdaPath { path: "fn".to_string() },
        "h.com",
        Method::POST,
        vec![Header::new("A", "b")],
        Some("B".to_string()),
    );
    let back = Request::from_js(&req.js()).expect("the exposed object must decode");
    assert_eq!(back.host(), "h.com");
    assert_eq!(back.scheme(), "http");
    assert_eq!(back.path(), "/fn");
    assert_eq!(back.method(), Method::POST);
    assert_eq!(back.headers().len(), 1);
    assert_eq!(back.headers()[0].name(), "A");
    assert_eq!(back.body(), &Some("B".to_string()));
}

#[test]
fn from_js_decomposes_an_explicit_uri() {
    let obj = ScriptValue::Object(vec![(
        "uri".to_string(),
        ScriptValue::Str("http://a.com/x?q=1".to_string()),
    )]);
    let req = Request::from_js(&obj).expect("a parseable URI determines the target");
    assert_eq!(req.scheme(), "http");
    assert_eq!(req.host(), "a.com");
    assert_eq!(req.path(), "/x");
    assert_eq!(req.method(), Method::GET);
    assert!(req.body().is_none());
    assert!(req.headers().is_empty());
}

#[test]
fn from_js_host_triple_with_defaults() {
    let obj = ScriptValue::Object(vec![("host".to_string(), ScriptValue::Str(
        "b.org".to_string(),
    ))]);
    let req = Request::from_js(&obj).expect("a host determines the target");
    assert_eq!(req.scheme(), "http");
    assert_eq!(req.host(), "b.org");
    assert_eq!(req.path(), "/");
}

#[test]
fn from_js_decodes_headers_leniently() {
    let obj = ScriptValue::Object(vec![
        ("host".to_string(), ScriptValue::Str("a.com".to_string())),
        (
            "headers".to_string(),
            ScriptValue::Array(vec![pair("X-A", "1"), ScriptValue::Bool(false), pair("X-B", "2")]),
        ),
    ]);
    let req = Request::from_js(&obj).expect("a host determines the target");
    assert_eq!(req.headers().len(), 1);
    assert_eq!(req.headers()[0].name(), "X-A");
}

#[test]
fn from_js_failures() {
    match Request::from_js(&ScriptValue::Str("x".to_string())) {
        Err(e) => assert_eq!(e, "Invalid Request"),
        Ok(_) => panic!("a bare string is no request"),
    }
    match Request::from_js(&ScriptValue::Object(Vec::new())) {
        Err(e) => assert_eq!(e, "Invalid Request"),
        Ok(_) => panic!("neither a URI nor a host was given"),
    }
    let hostless_uri = ScriptValue::Object(vec![(
        "uri".to_string(),
        ScriptValue::Str("mailto:x@y".to_string()),
    )]);
    match Request::from_js(&hostless_uri) {
        Err(e) => assert_eq!(e, "Invalid Request"),
        Ok(_) => panic!("a URI without a host determines no target"),
    }
    let bad_method = ScriptValue::Object(vec![
        ("host".to_string(), ScriptValue::Str("a.com".to_string())),
        ("method".to_string(), ScriptValue::Str("FOO".to_string())),
    ]);
    match Request::from_js(&bad_method) {
        Err(e) => assert_eq!(e, "Invalid Request Method!"),
        Ok(_) => panic!("an unrecognized method fails the construction rules"),
    }
}

#[test]
fn builder_collects_the_parts() {
    let b = Request::new("http://a.com/p");
    assert!(b.has_req());
    assert!(b.err().is_none());
    let req = b.method("POST").headers(vec![Header::new("k", "v")]).body(Some("x")).build();
    assert_eq!(req.method(), Method::POST);
    assert_eq!(req.uri(), "http://a.com/p");
    assert_eq!(req.headers()[0].value(), "v");
    assert_eq!(req.body(), &Some("x".to_string()));
}

#[test]
fn builder_takes_a_method_value() {
    let req = Request::new("http://a.com/q").method(Method::PUT).build();
    assert_eq!(req.method(), Method::PUT);
}

#[test]
fn builder_records_a_bad_uri() {
    let b = Request::new("not a url");
    assert!(!b.has_req());
    assert_eq!(b.err(), &Some("Invalid URL".to_string()));
}

#[test]
fn builder_records_a_bad_method_and_keeps_the_request() {
    let b = Request::new("http://a.com/").method("WHAT");
    assert_eq!(b.err(), &Some("Invalid Method".to_string()));
    assert!(b.has_req());
    let req = b.build();
    assert_eq!(req.method(), Method::GET);
}

#[test]
fn response_defaults() {
    let r = Response::new();
    assert_eq!(r.status, 200);
    assert!(r.headers.is_empty());
    assert_eq!(r.body, "");
}

#[test]
fn response_object_shape() {
    let obj = Response::new().js();
    assert_eq!(obj.get_key("status"), Some(&ScriptValue::Int(200)));
    assert_eq!(obj.get_key("headers"), Some(&ScriptValue::Array(Vec::new())));
    assert_eq!(obj.get_key("body"), Some(&ScriptValue::Str(String::new())));
    assert_eq!(obj.get_key("addHeader"), Some(&ScriptValue::HostFunc(HostFn::AddHeader)));
}

#[test]
fn response_round_trips_through_script_object() {
    let back = Response::from_js(&Response::new().js()).expect("the exposed object must decode");
    assert_eq!(back.status, 200);
    assert!(back.headers.is_empty());
    assert_eq!(back.body, "");
}

#[test]
fn response_from_js_rejects_out_of_range_status() {
    for bad in [99i64, 1000i64] {
        let obj = ScriptValue::Object(vec![
            ("status".to_string(), ScriptValue::Int(bad)),
            ("headers".to_string(), ScriptValue::Array(Vec::new())),
            ("body".to_string(), ScriptValue::Str(String::new())),
        ]);
        match Response::from_js(&obj) {
            Err(e) => assert_eq!(e, "Invalid Response"),
            Ok(_) => panic!("{} is no HTTP status", bad),
        }
    }
}

#[test]
fn response_from_js_needs_all_three_fields() {
    let no_body = ScriptValue::Object(vec![
        ("status".to_string(), ScriptValue::Int(200)),
        ("headers".to_string(), ScriptValue::Array(Vec::new())),
    ]);
    assert!(Response::from_js(&no_body).is_err());
    let num_status = ScriptValue::Object(vec![
        ("status".to_string(), ScriptValue::Num("2.5".to_string())),
        ("headers".to_string(), ScriptValue::Array(Vec::new())),
        ("body".to_string(), ScriptValue::Str(String::new())),
    ]);
    assert!(Response::from_js(&num_status).is_err());
}

#[test]
fn object_keys_get_and_set() {
    let mut obj = ScriptValue::Object(vec![
        ("a".to_string(), ScriptValue::Int(1)),
        ("a".to_string(), ScriptValue::Int(2)),
    ]);
    assert_eq!(obj.get_key("a"), Some(&ScriptValue::Int(1)));
    assert_eq!(obj.get_key("b"), None);
    obj.set_key("a", ScriptValue::Int(9));
    assert_eq!(obj.get_key("a"), Some(&ScriptValue::Int(9)));
    obj.set_key("b", ScriptValue::Bool(true));
    assert_eq!(obj.get_key("b"), Some(&ScriptValue::Bool(true)));
    assert_eq!(ScriptValue::Array(Vec::new()).get_key("a"), None);
}
