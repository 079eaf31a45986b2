//! The per-request execution state machine, terminal on first failure. The
//! engine creates a fresh environment, binds the marshaled request, a fresh
//! response object and the host functions, then compiles the stored source,
//! runs its top level, and invokes the global `handler` with the request.
//! Only the embedding layer can compile and run scripts; what it observes
//! comes back here as an event, and this module alone decides the HTTP
//! outcome: any compile, run or invocation failure collapses to a generic
//! internal error, a store miss to `404 Not Found`, and a successful call to
//! the read-back response with the handler's stringified return value as the
//! body. No environment outlives its request.

use vstd::prelude::*;

use crate::headers::{views_of, Header, HeaderV};
use crate::response::{spec_response_from, Response};
use crate::script::ScriptValue;
use crate::store::{has_key, key_idx, lemma_key_idx, spec_get, LambdaV};
use crate::traits::ToString;

verus! {

/// What the HTTP layer renders: status, headers, body.
#[derive(Debug)]
pub struct HttpOutcome {
    pub status: u16,
    pub headers: Vec<Header>,
    pub body: String,
}

/// The mathematical image of an `HttpOutcome`.
#[verifier::ext_equal]
pub struct HttpOutcomeV {
    pub status: int,
    pub headers: Seq<HeaderV>,
    pub body: Seq<char>,
}

impl View for HttpOutcome {
    type V = HttpOutcomeV;

    open spec fn view(&self) -> HttpOutcomeV {
        HttpOutcomeV {
            status: self.status as int,
            headers: views_of(self.headers@),
            body: self.body@,
        }
    }
}

/// What the embedding layer observed of one script execution, in the order
/// the state machine can fail: the source did not parse, its top level did
/// not run, no global `handler` was defined, the call into `handler` threw,
/// or the call returned — with the stringified return value and the
/// possibly script-mutated response object read back from the environment.
#[derive(Debug)]
pub enum ScriptEvent {
    CompileFailed,
    RunFailed,
    HandlerMissing,
    CallFailed,
    Returned { result: String, response: ScriptValue },
}

/// The generic internal error: nothing of the failure leaks to the caller.
pub open spec fn spec_internal_error() -> HttpOutcomeV {
    HttpOutcomeV { status: 500, headers: Seq::empty(), body: "Internal Error"@ }
}

/// The miss response: no record, no script invoked.
pub open spec fn spec_not_found() -> HttpOutcomeV {
    HttpOutcomeV { status: 404, headers: Seq::empty(), body: "Not Found"@ }
}

/// What the state machine renders for an event: every failure collapses to
/// the internal error; a returned call is rendered from the read-back
/// response — its status and headers — with the handler's stringified
/// return value as the body; and a response object that no longer decodes
/// collapses to the internal error too.
pub open spec fn spec_script_outcome(ev: ScriptEvent) -> HttpOutcomeV {
    match ev {
        ScriptEvent::Returned { result, response } => match spec_response_from(response) {
            Some(r) => HttpOutcomeV { status: r.status, headers: r.headers, body: result@ },
            None => spec_internal_error(),
        },
        _ => spec_internal_error(),
    }
}

/// Builds the outcome the HTTP layer renders.
pub fn make_response<T: ToString>(status: u16, headers: Vec<Header>, body: T) -> (r: HttpOutcome)
    ensures
        r@.status == status,
        r@.headers == views_of(headers@),
        r@.body == body.str_view(),
{
    HttpOutcome { status, headers, body: body.get_string() }
}

/// The `404 Not Found` outcome for a request no stored record matches.
pub fn not_found_response() -> (r: HttpOutcome)
    ensures
        r@ == spec_not_found(),
{
    let r = make_response(404, Vec::new(), "Not Found");
    proof {
        assert(r@ =~= spec_not_found());
    }
    r
}

/// The generic `500 Internal Error` outcome for a terminal script failure.
pub fn internal_error_response() -> (r: HttpOutcome)
    ensures
        r@ == spec_internal_error(),
{
    let r = make_response(500, Vec::new(), "Internal Error");
    proof {
        assert(r@ =~= spec_internal_error());
    }
    r
}

/// Decides the HTTP outcome of one script execution, as
/// [`spec_script_outcome`] lays down.
pub fn script_outcome(ev: ScriptEvent) -> (r: HttpOutcome)
    ensures
        r@ == spec_script_outcome(ev),
{
    match ev {
        ScriptEvent::Returned { result, response } => match Response::from_js(&response) {
            Ok(resp) => {
                let r = HttpOutcome {
                    status: resp.status as u16,
                    headers: resp.headers,
                    body: result,
                };
                proof {
                    assert(r@ =~= spec_script_outcome(ScriptEvent::Returned { result, response }));
                }
                r
            },
            Err(_) => internal_error_response(),
        },
        _ => internal_error_response(),
    }
}

/// Missing handler: an execution that never reaches the call — the handler
/// is not defined, like any earlier failure — yields `500` with the fixed
/// `Internal Error` body, for every request.
pub proof fn lemma_missing_handler()
    ensures
        spec_script_outcome(ScriptEvent::HandlerMissing) == spec_internal_error(),
        spec_internal_error().status == 500,
        spec_internal_error().body == "Internal Error"@,
        spec_internal_error().headers == Seq::<HeaderV>::empty(),
{
}

/// Handler contract: whatever request the execution is for, a handler that
/// sets the response status to `201`, appends the header `X-Test: 1` and
/// returns the text `hi` yields exactly that outcome — status `201`, that
/// one header, body `hi`. The three hypotheses are what the bound response
/// object, the script's assignment and the `addHeader` host call leave
/// behind, in the order the script performs them.
pub proof fn lemma_handler_contract(
    obj0: ScriptValue,
    obj1: ScriptValue,
    obj2: ScriptValue,
    r0: crate::response::ResponseV,
    result: String,
)
    requires
        crate::response::response_object(obj0, r0),
        crate::script::sets_key(obj0, obj1, "status"@, ScriptValue::Int(201)),
        crate::functions::header_appended(obj1, obj2, "X-Test"@, "1"@),
        result@ == "hi"@,
    ensures
        spec_script_outcome(ScriptEvent::Returned { result, response: obj2 }) == (HttpOutcomeV {
            status: 201,
            headers: seq![HeaderV { name: "X-Test"@, value: "1"@ }],
            body: "hi"@,
        }),
{
    reveal_strlit("status");
    reveal_strlit("headers");
    reveal_strlit("body");
    reveal_strlit("addHeader");
    assert("status"@.len() == 6);
    assert("headers"@.len() == 7);
    assert("body"@.len() == 4);
    assert("addHeader"@.len() == 9);
    let fs0 = obj0.entries();
    let fs1 = obj1.entries();
    let fs2 = obj2.entries();
    crate::script::lemma_first_key_is(fs0, "status"@, 0);
    assert(fs1 == fs0.update(0, (fs0[0].0, ScriptValue::Int(201))));
    crate::script::lemma_first_key_is(fs1, "headers"@, 1);
    let a0 = fs1[1].1.elems();
    let a1 = fs2[1].1.elems();
    assert(a0.len() == 0);
    let p = choose|p: ScriptValue|
        crate::headers::is_pair_of(p, HeaderV { name: "X-Test"@, value: "1"@ }) && a1 == (
        if crate::headers::decoded_prefix_len(a0) < a0.len() {
            a0.update(crate::headers::decoded_prefix_len(a0), p)
        } else {
            a0.push(p)
        });
    assert(a1 == a0.push(p));
    assert(crate::headers::wf_pair(a1[0]));
    crate::headers::lemma_prefix_stops(a1, 1);
    crate::script::lemma_first_key_is(fs2, "status"@, 0);
    crate::script::lemma_first_key_is(fs2, "headers"@, 1);
    crate::script::lemma_first_key_is(fs2, "body"@, 2);
    assert(spec_response_from(obj2) matches Some(rv) && rv.status == 201 && rv.headers
        =~= seq![HeaderV { name: "X-Test"@, value: "1"@ }]);
    assert(spec_script_outcome(ScriptEvent::Returned { result, response: obj2 })
        =~= (HttpOutcomeV {
        status: 201,
        headers: seq![HeaderV { name: "X-Test"@, value: "1"@ }],
        body: "hi"@,
    }));
}

/// Not found: where no record sits at the key, the lookup yields nothing —
/// so no script is ever invoked — and what the HTTP layer renders is `404`
/// with the fixed `Not Found` body.
pub proof fn lemma_not_found(s: Seq<LambdaV>, h: Seq<char>, p: Seq<char>)
    requires
        !has_key(s, h, p),
    ensures
        spec_get(s, h, p) is None,
        spec_not_found().status == 404,
        spec_not_found().body == "Not Found"@,
        spec_not_found().headers == Seq::<HeaderV>::empty(),
{
    lemma_key_idx(s, h, p);
    if key_idx(s, h, p) < s.len() {
        assert(has_key(s, h, p));
    }
}

} // verus!
