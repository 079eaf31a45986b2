use serverless::functions::{
    add_header, get_header, make_request_plan, make_request_result, parse_json, FetchOutcome,
};
use serverless::headers::{decode_headers, Header};
use serverless::request::{LambdaPath, Method, Request};
use serverless::response::Response;
use serverless::script::{HostFn, ScriptValue};

fn str_val(s: &str) -> ScriptValue {
    ScriptValue::Str(s.to_string())
}

fn body_obj(body: &str) -> ScriptValue {
    ScriptValue::Object(vec![("body".to_string(), str_val(body))])
}

#[test]
fn json_parses_scalars_and_containers() {
    assert_eq!(parse_json(&body_obj("null")), Ok(ScriptValue::Null));
    assert_eq!(parse_json(&body_obj("true")), Ok(ScriptValue::Bool(true)));
    assert_eq!(parse_json(&body_obj("42")), Ok(ScriptValue::Int(42)));
    assert_eq!(parse_json(&body_obj("-7")), Ok(ScriptValue::Int(-7)));
    assert_eq!(parse_json(&body_obj("1.5")), Ok(ScriptValue::Num("1.5".to_string())));
    assert_eq!(parse_json(&body_obj("\"s\"")), Ok(str_val("s")));
    assert_eq!(
        parse_json(&body_obj("[1, true, null]")),
        Ok(ScriptValue::Array(vec![ScriptValue::Int(1), ScriptValue::Bool(true), ScriptValue::Null]))
    );
    assert_eq!(
        parse_json(&body_obj("{\"a\": {\"b\": [2]}}")),
        Ok(ScriptValue::Object(vec![(
            "a".to_string(),
            ScriptValue::Object(vec![(
                "b".to_string(),
                ScriptValue::Array(vec![ScriptValue::Int(2)]),
            )]),
        )]))
    );
}

#[test]
fn json_rejects_bad_input() {
    assert_eq!(parse_json(&body_obj("{oops")), Err("Invalid json".to_string()));
    assert_eq!(parse_json(&ScriptValue::Object(Vec::new())), Err("Invalid json".to_string()));
    let non_string_body =
        ScriptValue::Object(vec![("body".to_string(), ScriptValue::Int(3))]);
    assert_eq!(parse_json(&non_string_body), Err("Invalid json".to_string()));
}

fn request_obj(headers: Vec<Header>) -> ScriptValue {
    Request::map(&LambdaPath { path: "p".to_string() }, "h.com", Method::GET, headers, None).js()
}

#[test]
fn get_header_finds_case_insensitively() {
    let obj = request_obj(vec![
        Header::new("Content-Type", "text/html"),
        Header::new("X-A", "first"),
        Header::new("X-A", "second"),
    ]);
    assert_eq!(get_header(&obj, &vec![str_val("content-TYPE")]), Ok("text/html".to_string()));
    assert_eq!(get_header(&obj, &vec![str_val("x-a")]), Ok("first".to_string()));
}

#[test]
fn get_header_miss_yields_empty_string() {
    let with_headers = request_obj(vec![Header::new("X-A", "1")]);
    assert_eq!(get_header(&with_headers, &vec![str_val("Nonexistent")]), Ok(String::new()));
    let without = request_obj(Vec::new());
    assert_eq!(get_header(&without, &vec![str_val("Nonexistent")]), Ok(String::new()));
}

#[test]
fn get_header_rejects_bad_arguments() {
    let obj = request_obj(Vec::new());
    assert_eq!(get_header(&obj, &vec![ScriptValue::Int(1)]), Err("Invalid Request!".to_string()));
    assert_eq!(get_header(&obj, &Vec::new()), Err("Invalid Request!".to_string()));
    assert_eq!(
        get_header(&obj, &vec![str_val("a"), str_val("b")]),
        Err("Invalid Request!".to_string())
    );
    assert_eq!(
        get_header(&ScriptValue::Null, &vec![str_val("a")]),
        Err("Invalid Request!".to_string())
    );
}

fn headers_of(obj: &ScriptValue) -> Vec<Header> {
    match obj.get_key("headers") {
        Some(ScriptValue::Array(items)) => decode_headers(items),
        other => panic!("expected a headers array, got {:?}", other),
    }
}

#[test]
fn add_header_appends_in_order() {
    let mut obj = Response::new().js();
    assert_eq!(add_header(&mut obj, &vec![str_val("X-A"), str_val("1")]), Ok(true));
    assert_eq!(add_header(&mut obj, &vec![str_val("X-B"), str_val("2")]), Ok(true));
    let hs = headers_of(&obj);
    assert_eq!(hs.len(), 2);
    assert_eq!(hs[0].name(), "X-A");
    assert_eq!(hs[1].name(), "X-B");
    assert_eq!(hs[1].value(), "2");
}

#[test]
fn add_header_writes_at_the_decoded_count() {
    let junk = ScriptValue::Object(vec![(
        "headers".to_string(),
        ScriptValue::Array(vec![ScriptValue::Int(7)]),
    )]);
    let mut obj = junk;
    assert_eq!(add_header(&mut obj, &vec![str_val("N"), str_val("V")]), Ok(true));
    let hs = headers_of(&obj);
    assert_eq!(hs.len(), 1);
    assert_eq!(hs[0].name(), "N");
    assert_eq!(hs[0].value(), "V");
}

#[test]
fn add_header_rejects_bad_arguments_untouched() {
    let mut obj = Response::new().js();
    assert_eq!(
        add_header(&mut obj, &vec![ScriptValue::Int(1), str_val("v")]),
        Err("Invalid Request!".to_string())
    );
    assert_eq!(add_header(&mut obj, &vec![str_val("n")]), Err("Invalid Request!".to_string()));
    assert!(headers_of(&obj).is_empty());
    let mut bare = ScriptValue::Object(Vec::new());
    assert_eq!(
        add_header(&mut bare, &vec![str_val("n"), str_val("v")]),
        Err("Invalid Request!".to_string())
    );
    assert_eq!(bare, ScriptValue::Object(Vec::new()));
}

fn outbound_arg(method: &str, body: Option<&str>) -> ScriptValue {
    let mut fields = vec![
        ("uri".to_string(), str_val("http://x.test/p")),
        ("method".to_string(), str_val(method)),
    ];
    if let Some(b) = body {
        fields.push(("body".to_string(), str_val(b)));
    }
    ScriptValue::Object(fields)
}

#[test]
fn outbound_rules_reject_a_body_on_get() {
    for m in ["GET", "DELETE", "OPTIONS"] {
        match make_request_plan(&vec![outbound_arg(m, Some("x"))]) {
            Err(e) => assert_eq!(e, "Invalid Request Method!"),
            Ok(_) => panic!("{} takes no body", m),
        }
    }
}

#[test]
fn outbound_rules_pass_a_body_on_post() {
    for m in [Method::POST, Method::PUT, Method::PATCH] {
        let req = make_request_plan(&vec![outbound_arg(&m.to_string(), Some("x"))])
            .expect("a body rides on a method that takes one");
        assert_eq!(req.method(), m);
        assert_eq!(req.uri(), "http://x.test/p");
        assert_eq!(req.body(), &Some("x".to_string()));
    }
}

#[test]
fn outbound_plan_without_a_body_passes_any_method() {
    let req = make_request_plan(&vec![outbound_arg("GET", None)]).expect("a bare GET is fine");
    assert_eq!(req.method(), Method::GET);
    assert!(req.body().is_none());
}

#[test]
fn outbound_plan_rejects_bad_arguments() {
    match make_request_plan(&Vec::new()) {
        Err(e) => assert_eq!(e, "Invalid Request!"),
        Ok(_) => panic!("no argument determines no target"),
    }
    match make_request_plan(&vec![ScriptValue::Int(2)]) {
        Err(e) => assert_eq!(e, "Invalid Request"),
        Ok(_) => panic!("a number is no request"),
    }
    match make_request_plan(&vec![outbound_arg("FOO", None)]) {
        Err(e) => assert_eq!(e, "Invalid Request Method!"),
        Ok(_) => panic!("an unrecognized method fails the construction rules"),
    }
}

#[test]
fn outbound_result_exposes_a_response_with_json() {
    let out = make_request_result(FetchOutcome::Success {
        status: 201,
        body: "{\"a\": 2}".to_string(),
    })
    .expect("a successful call yields a response object");
    assert_eq!(out.get_key("status"), Some(&ScriptValue::Int(201)));
    assert_eq!(out.get_key("headers"), Some(&ScriptValue::Array(Vec::new())));
    assert_eq!(out.get_key("body"), Some(&str_val("{\"a\": 2}")));
    assert_eq!(out.get_key("addHeader"), Some(&ScriptValue::HostFunc(HostFn::AddHeader)));
    assert_eq!(out.get_key("json"), Some(&ScriptValue::HostFunc(HostFn::Json)));
    assert_eq!(
        parse_json(&out),
        Ok(ScriptValue::Object(vec![("a".to_string(), ScriptValue::Int(2))]))
    );
}

#[test]
fn outbound_result_maps_network_failure() {
    assert_eq!(
        make_request_result(FetchOutcome::NetworkFailed),
        Err("Invalid Request!".to_string())
    );
}
