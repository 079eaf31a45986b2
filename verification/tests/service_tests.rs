use serverless::engine::{
    internal_error_response, make_response, not_found_response, script_outcome, ScriptEvent,
};
use serverless::functions::add_header;
use serverless::headers::Header;
use serverless::request::{LambdaPath, Method, Request};
use serverless::response::Response;
use serverless::script::ScriptValue;
use serverless::store::{CreateLambda, GetLambda, LambdaStore, NewLambda};

#[test]
fn upsert_overwrites_and_keeps_one_record() {
    let mut store = LambdaStore::new();
    let first = store.create(NewLambda { path: "/f", hostname: "a.com", code: "return 1" });
    assert_eq!(first.id, 1);
    assert_eq!(first.code, "return 1");
    let second = store.create(NewLambda { path: "/f", hostname: "a.com", code: "return 2" });
    assert_eq!(second.id, 1);
    assert_eq!(second.code, "return 2");
    let got = store.get("a.com", "/f").expect("the key was created");
    assert_eq!(got.code, "return 2");
    assert_eq!(got.id, 1);
    let other = store.create(NewLambda { path: "/g", hostname: "a.com", code: "x" });
    assert_eq!(other.id, 2);
}

#[test]
fn lookups_are_isolated_by_key() {
    let mut store = LambdaStore::new();
    store.create(NewLambda { path: "/f", hostname: "a.com", code: "A" });
    store.create(NewLambda { path: "/f", hostname: "b.com", code: "B" });
    store.create(NewLambda { path: "/h", hostname: "a.com", code: "C" });
    assert_eq!(store.get("a.com", "/f").unwrap().code, "A");
    assert_eq!(store.get("b.com", "/f").unwrap().code, "B");
    assert_eq!(store.get("a.com", "/h").unwrap().code, "C");
    assert!(store.get("b.com", "/h").is_none());
}

#[test]
fn store_handles_the_messages() {
    let mut store = LambdaStore::new();
    let created = store.handle_create(&CreateLambda {
        path: "/fn".to_string(),
        hostname: "a.com".to_string(),
        code: "code".to_string(),
    });
    assert_eq!(created.hostname, "a.com");
    assert_eq!(created.path, "/fn");
    let req = Request::map(
        &LambdaPath { path: "fn".to_string() },
        "a.com",
        Method::GET,
        Vec::new(),
        None,
    );
    let got = store.handle_get(&GetLambda { request: req }).expect("the record was created");
    assert_eq!(got.code, "code");
}

#[test]
fn missing_record_yields_not_found_without_any_script() {
    let store = LambdaStore::new();
    let req = Request::map(
        &LambdaPath { path: "f".to_string() },
        "a.com",
        Method::GET,
        Vec::new(),
        None,
    );
    assert!(store.handle_get(&GetLambda { request: req }).is_none());
    let out = not_found_response();
    assert_eq!(out.status, 404);
    assert_eq!(out.body, "Not Found");
    assert!(out.headers.is_empty());
}

#[test]
fn every_failure_event_collapses_to_internal_error() {
    let events = [
        ScriptEvent::CompileFailed,
        ScriptEvent::RunFailed,
        ScriptEvent::HandlerMissing,
        ScriptEvent::CallFailed,
    ];
    for ev in events {
        let out = script_outcome(ev);
        assert_eq!(out.status, 500);
        assert_eq!(out.body, "Internal Error");
        assert!(out.headers.is_empty());
    }
    let ie = internal_error_response();
    assert_eq!(ie.status, 500);
    assert_eq!(ie.body, "Internal Error");
}

#[test]
fn handler_contract_scenario() {
    let mut response = Response::new().js();
    response.set_key("status", ScriptValue::Int(201));
    let added = add_header(&mut response, &vec![
        ScriptValue::Str("X-Test".to_string()),
        ScriptValue::Str("1".to_string()),
    ]);
    assert_eq!(added, Ok(true));
    let out = script_outcome(ScriptEvent::Returned { result: "hi".to_string(), response });
    assert_eq!(out.status, 201);
    assert_eq!(out.headers.len(), 1);
    assert_eq!(out.headers[0].name(), "X-Test");
    assert_eq!(out.headers[0].value(), "1");
    assert_eq!(out.body, "hi");
}

#[test]
fn untouched_response_renders_the_defaults() {
    let out = script_outcome(ScriptEvent::Returned {
        result: "answer".to_string(),
        response: Response::new().js(),
    });
    assert_eq!(out.status, 200);
    assert!(out.headers.is_empty());
    assert_eq!(out.body, "answer");
}

#[test]
fn broken_response_object_collapses_to_internal_error() {
    let mut response = Response::new().js();
    response.set_key("status", ScriptValue::Str("broken".to_string()));
    let out = script_outcome(ScriptEvent::Returned { result: "hi".to_string(), response });
    assert_eq!(out.status, 500);
    assert_eq!(out.body, "Internal Error");
}

#[test]
fn make_response_carries_the_parts() {
    let out = make_response(418, vec![Header::new("X-A", "1")], "teapot");
    assert_eq!(out.status, 418);
    assert_eq!(out.headers.len(), 1);
    assert_eq!(out.headers[0].name(), "X-A");
    assert_eq!(out.body, "teapot");
}
