//! The host functions exposed into the sandbox: `json()` on the request,
//! `getHeader(name)` on the request, `addHeader(name, value)` on the
//! response, and the two halves of `http.request(requestLike)` — the decode
//! and the method rules applied before the outbound call, and the shaping of what comes
//! back into a script-visible response object. A malformed script-supplied
//! argument surfaces as an error value inside the sandbox; it never aborts
//! the request.

use vstd::prelude::*;

use crate::foreign::{json_parse, json_parsed};
use crate::headers::{
    decoded_len, decoded_prefix_len, find_header, header_lookup, is_pair_of, sv_str, HeaderV,
};
use crate::request::{spec_request_from, Method, Request, RequestV};
use crate::response::Response;
use crate::script::{find_entry, first_key_idx, lookup_key, HostFn, ScriptValue};

verus! {

/// What `json()` yields on a request object: the parsed body, or `Invalid
/// json` where the body is absent, not a string, or not JSON.
pub open spec fn spec_parse_json(this: ScriptValue) -> Result<ScriptValue, Seq<char>> {
    match lookup_key(this, "body"@) {
        Some(ScriptValue::Str(b)) => match json_parsed(b@) {
            Some(j) => Ok(j),
            None => Err("Invalid json"@),
        },
        _ => Err("Invalid json"@),
    }
}

/// The `json()` host function: parses the bound object's `body` as JSON.
pub fn parse_json(this: &ScriptValue) -> (r: Result<ScriptValue, String>)
    ensures
        match r {
            Ok(j) => spec_parse_json(*this) == Ok::<ScriptValue, Seq<char>>(j),
            Err(e) => spec_parse_json(*this) matches Err(me) && me == e@,
        },
{
    match this.get_key("body") {
        Some(ScriptValue::Str(b)) => match json_parse(b.as_str()) {
            Some(j) => Ok(j),
            None => Err("Invalid json".to_owned()),
        },
        _ => Err("Invalid json".to_owned()),
    }
}

/// What `getHeader` yields: with one string argument and a decodable bound
/// request, the value of the first header whose name matches up to ASCII
/// case — the empty string where none does; the error value otherwise.
pub open spec fn spec_get_header(this: ScriptValue, args: Seq<ScriptValue>) -> Result<
    Seq<char>,
    Seq<char>,
> {
    if args.len() == 1 && args[0] is Str {
        match spec_request_from(this) {
            Ok(req) => match find_header(req.headers, crate::headers::sv_str(args[0])) {
                Some(v) => Ok(v),
                None => Ok(Seq::empty()),
            },
            Err(_) => Err("Invalid Request!"@),
        }
    } else {
        Err("Invalid Request!"@)
    }
}

/// The `getHeader(name)` host function: a case-insensitive first-match scan
/// over the bound request's headers; a miss yields the empty string, never
/// an error.
pub fn get_header(this: &ScriptValue, args: &Vec<ScriptValue>) -> (r: Result<String, String>)
    ensures
        match r {
            Ok(s) => spec_get_header(*this, args@) == Ok::<Seq<char>, Seq<char>>(s@),
            Err(e) => spec_get_header(*this, args@) matches Err(me) && me == e@,
        },
{
    if args.len() != 1 {
        return Err("Invalid Request!".to_owned());
    }
    match &args[0] {
        ScriptValue::Str(name) => match Request::from_js(this) {
            Ok(req) => Ok(header_lookup(req.headers(), name.as_str())),
            Err(_) => Err("Invalid Request!".to_owned()),
        },
        _ => Err("Invalid Request!".to_owned()),
    }
}

/// A missing name: `getHeader` yields the empty string, whatever headers the
/// request carries and whatever else the script asks.
pub proof fn lemma_get_header_miss(
    v: ScriptValue,
    r: RequestV,
    args: Seq<ScriptValue>,
    name: Seq<char>,
)
    requires
        crate::request::request_object(v, r),
        args.len() == 1,
        args[0] matches ScriptValue::Str(n) && n@ == name,
        forall|j: int|
            0 <= j < r.headers.len() ==> !crate::headers::eq_fold(
                (#[trigger] r.headers[j]).name,
                name,
            ),
    ensures
        spec_get_header(v, args) == Ok::<Seq<char>, Seq<char>>(Seq::<char>::empty()),
{
    crate::request::lemma_request_round_trip(v, r);
    crate::headers::lemma_find_header_none(r.headers, name);
}

/// How the live headers array grows under a lookup-based append: the new
/// `[name, value]` pair is written at the index the decoded entry count
/// names — over whatever stood there, or at the end.
pub open spec fn appended_pair(
    a0: Seq<ScriptValue>,
    a1: Seq<ScriptValue>,
    name: Seq<char>,
    value: Seq<char>,
) -> bool {
    let k = decoded_prefix_len(a0);
    exists|p: ScriptValue|
        is_pair_of(p, HeaderV { name, value }) && a1 == (if k < a0.len() {
            a0.update(k, p)
        } else {
            a0.push(p)
        })
}

/// How `v1` relates to `v0` after `addHeader(name, value)`: every entry but
/// `headers` stands as it was, and the headers array has the new pair
/// written at the decoded entry count.
pub open spec fn header_appended(
    v0: ScriptValue,
    v1: ScriptValue,
    name: Seq<char>,
    value: Seq<char>,
) -> bool {
    let fs0 = v0.entries();
    let fs1 = v1.entries();
    let hi = first_key_idx(fs0, "headers"@);
    &&& v0 is Object
    &&& v1 is Object
    &&& hi < fs0.len()
    &&& fs0[hi].1 is Array
    &&& fs1.len() == fs0.len()
    &&& forall|j: int| 0 <= j < fs0.len() && j != hi ==> fs1[j] == fs0[j]
    &&& fs1[hi].0 == fs0[hi].0
    &&& fs1[hi].1 is Array
    &&& appended_pair(fs0[hi].1.elems(), fs1[hi].1.elems(), name, value)
}

/// Whether a value is an object whose `headers` entry is an array — what
/// `addHeader` needs of the object it is bound to.
pub open spec fn has_headers_array(v: ScriptValue) -> bool {
    lookup_key(v, "headers"@) matches Some(a) && a is Array
}

/// The bound response object always offers `addHeader` its headers array:
/// fresh from the marshaling layer, and still after any assignment to
/// `status` — so with well-typed arguments the call always signals success.
pub proof fn lemma_add_header_available(
    o0: ScriptValue,
    o1: ScriptValue,
    r0: crate::response::ResponseV,
    v: ScriptValue,
)
    requires
        crate::response::response_object(o0, r0),
        crate::script::sets_key(o0, o1, "status"@, v),
    ensures
        has_headers_array(o0),
        has_headers_array(o1),
{
    reveal_strlit("status");
    reveal_strlit("headers");
    assert("status"@.len() == 6);
    assert("headers"@.len() == 7);
    let fs0 = o0.entries();
    let fs1 = o1.entries();
    crate::script::lemma_first_key_is(fs0, "status"@, 0);
    crate::script::lemma_first_key_is(fs0, "headers"@, 1);
    assert(fs1 == fs0.update(0, (fs0[0].0, v)));
    crate::script::lemma_first_key_is(fs1, "headers"@, 1);
}

/// The `addHeader(name, value)` host function: appends a header to the live
/// headers array of the bound response object and signals success. Malformed
/// argument types — or a bound object without a headers array — yield the
/// error value and leave the object untouched.
pub fn add_header(this: &mut ScriptValue, args: &Vec<ScriptValue>) -> (r: Result<bool, String>)
    ensures
        match r {
            Ok(b) => {
                &&& b == true
                &&& args@.len() == 2
                &&& args@[0] is Str
                &&& args@[1] is Str
                &&& has_headers_array(*old(this))
                &&& header_appended(
                    *old(this),
                    *final(this),
                    sv_str(args@[0]),
                    sv_str(args@[1]),
                )
            },
            Err(e) => {
                &&& *final(this) == *old(this)
                &&& e@ == "Invalid Request!"@
                &&& (args@.len() != 2 || !(args@[0] is Str) || !(args@[1] is Str)
                    || !has_headers_array(*old(this)))
            },
        },
{
    if args.len() != 2 {
        return Err("Invalid Request!".to_owned());
    }
    let (name, value): (String, String) = match (&args[0], &args[1]) {
        (ScriptValue::Str(n), ScriptValue::Str(v)) => (n.clone(), v.clone()),
        _ => {
            return Err("Invalid Request!".to_owned());
        },
    };
    let has_array: bool = match this.get_key("headers") {
        Some(ScriptValue::Array(_)) => true,
        _ => false,
    };
    if !has_array {
        return Err("Invalid Request!".to_owned());
    }
    let mut owned = ScriptValue::Null;
    core::mem::swap(this, &mut owned);
    match owned {
        ScriptValue::Object(mut fields) => {
            let ghost fs0 = fields@;
            let hi = find_entry(&fields, &"headers".to_owned());
            proof {
                crate::script::lemma_first_key_idx(fs0, "headers"@);
            }
            let (key, hval) = fields.remove(hi);
            match hval {
                ScriptValue::Array(mut items) => {
                    let ghost a0 = items@;
                    let k = decoded_len(&items);
                    let mut pair_items: Vec<ScriptValue> = Vec::new();
                    pair_items.push(ScriptValue::Str(name));
                    pair_items.push(ScriptValue::Str(value));
                    let pair = ScriptValue::Array(pair_items);
                    let ghost gpair = pair;
                    if k < items.len() {
                        items[k] = pair;
                    } else {
                        items.push(pair);
                    }
                    fields.insert(hi, (key, ScriptValue::Array(items)));
                    *this = ScriptValue::Object(fields);
                    proof {
                        assert(fields@ =~= fs0.update(
                            hi as int,
                            (fs0[hi as int].0, ScriptValue::Array(items)),
                        ));
                        assert(appended_pair(a0, items@, sv_str(args@[0]), sv_str(
                            args@[1],
                        ))) by {
                            assert(is_pair_of(gpair, HeaderV {
                                name: sv_str(args@[0]),
                                value: sv_str(args@[1]),
                            }));
                        }
                    }
                    Ok(true)
                },
                _ => unreached(),
            }
        },
        _ => unreached(),
    }
}

/// Whether a method takes a body on an outbound call.
pub open spec fn body_allowed(m: Method) -> bool {
    m == Method::POST || m == Method::PUT || m == Method::PATCH
}

/// What the outbound call is made from, if any: the decoded request-like
/// argument, checked so that a body rides only on a method that takes one. A
/// body on any other method — like the decode of an unrecognized method —
/// fails with `Invalid Request Method!`; an argument that determines no
/// target fails with the decode's own error.
pub open spec fn spec_make_request_plan(args: Seq<ScriptValue>) -> Result<RequestV, Seq<char>> {
    if args.len() != 1 {
        Err("Invalid Request!"@)
    } else {
        match spec_request_from(args[0]) {
            Ok(r) => {
                if r.body is Some && !body_allowed(r.method) {
                    Err("Invalid Request Method!"@)
                } else {
                    Ok(r)
                }
            },
            Err(e) => Err(e),
        }
    }
}

/// The first half of `http.request`: decodes the script-supplied argument
/// and applies the request-construction rules. What comes back is ready for
/// the transport: its URI, method, headers and body are exactly what the
/// outbound call must carry.
pub fn make_request_plan(args: &Vec<ScriptValue>) -> (r: Result<Request, String>)
    ensures
        match r {
            Ok(req) => spec_make_request_plan(args@) == Ok::<RequestV, Seq<char>>(req@),
            Err(e) => spec_make_request_plan(args@) matches Err(me) && me == e@,
        },
{
    if args.len() != 1 {
        return Err("Invalid Request!".to_owned());
    }
    let req: Request = match Request::from_js(&args[0]) {
        Ok(r) => r,
        Err(e) => {
            return Err(e);
        },
    };
    let takes_body = match req.method() {
        Method::POST => true,
        Method::PUT => true,
        Method::PATCH => true,
        _ => false,
    };
    match req.body() {
        Some(_) => {
            if !takes_body {
                return Err("Invalid Request Method!".to_owned());
            }
        },
        None => {},
    }
    Ok(req)
}

/// Outbound method rules: a decoded request-like argument carrying a body is
/// accepted only where its method takes one. With `GET` it fails with
/// `Invalid Request Method!`; with `POST` the plan is exactly the decoded
/// request, body attached.
pub proof fn lemma_outbound_method_rules(args: Seq<ScriptValue>, r: RequestV)
    requires
        args.len() == 1,
        spec_request_from(args[0]) == Ok::<RequestV, Seq<char>>(r),
        r.body is Some,
    ensures
        r.method == Method::GET ==> spec_make_request_plan(args) == Err::<RequestV, Seq<char>>(
            "Invalid Request Method!"@,
        ),
        r.method == Method::POST ==> spec_make_request_plan(args) == Ok::<RequestV, Seq<char>>(r),
{
}

/// What the transport hands back from an outbound call: the status and the
/// body as UTF-8 text, or the fact that the call failed on the wire.
#[derive(Debug, PartialEq)]
pub enum FetchOutcome {
    Success { status: u16, body: String },
    NetworkFailed,
}

/// `v` is exactly the script object exposing an outbound response: status,
/// an empty headers array — outbound response headers are not propagated —
/// the body, the `addHeader` binding, and a `json` binding over the body.
pub open spec fn outbound_response_object(v: ScriptValue, status: int, body: Seq<char>) -> bool {
    let fs = v.entries();
    &&& v is Object
    &&& fs.len() == 5
    &&& fs[0].0@ == "status"@
    &&& fs[0].1 matches ScriptValue::Int(i) && i == status
    &&& fs[1].0@ == "headers"@
    &&& fs[1].1 matches ScriptValue::Array(a) && a@.len() == 0
    &&& fs[2].0@ == "body"@
    &&& fs[2].1 matches ScriptValue::Str(s) && s@ == body
    &&& fs[3].0@ == "addHeader"@
    &&& fs[3].1 == ScriptValue::HostFunc(HostFn::AddHeader)
    &&& fs[4].0@ == "json"@
    &&& fs[4].1 == ScriptValue::HostFunc(HostFn::Json)
}

/// The second half of `http.request`: shapes what the transport handed back
/// into the script-visible response object, or the `Invalid Request!` error
/// value where the call failed on the wire.
pub fn make_request_result(outcome: FetchOutcome) -> (r: Result<ScriptValue, String>)
    ensures
        match outcome {
            FetchOutcome::Success { status, body } => r matches Ok(v) && outbound_response_object(
                v,
                status as int,
                body@,
            ),
            FetchOutcome::NetworkFailed => r matches Err(e) && e@ == "Invalid Request!"@,
        },
{
    match outcome {
        FetchOutcome::Success { status, body } => {
            let resp = Response { status: status as i32, headers: Vec::new(), body };
            let mut obj = resp.js();
            let ghost before = obj;
            obj.set_key("json", ScriptValue::HostFunc(HostFn::Json));
            proof {
                reveal_strlit("status");
                reveal_strlit("headers");
                reveal_strlit("body");
                reveal_strlit("addHeader");
                reveal_strlit("json");
                assert("status"@.len() == 6);
                assert("headers"@.len() == 7);
                assert("body"@.len() == 4);
                assert("addHeader"@.len() == 9);
                assert("json"@.len() == 4);
                assert("body"@[0] == 'b');
                assert("json"@[0] == 'j');
                crate::script::lemma_first_key_idx(before.entries(), "json"@);
            }
            Ok(obj)
        },
        FetchOutcome::NetworkFailed => Err("Invalid Request!".to_owned()),
    }
}

} // verus!
