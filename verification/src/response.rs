//! The response model: a mutable status/headers/body container. It is
//! created with defaults before the script runs, exposed into the sandbox as
//! an object the script mutates in place, and read back once afterwards.

use vstd::prelude::*;

use crate::headers::{decode_headers, decoded_headers, views_of, Header, HeaderV};
use crate::script::{lookup_key, HostFn, ScriptValue};

verus! {

/// The response under construction: status, ordered headers, body.
#[derive(Debug)]
pub struct Response {
    pub status: i32,
    pub headers: Vec<Header>,
    pub body: String,
}

/// The mathematical image of a `Response`.
#[verifier::ext_equal]
pub struct ResponseV {
    pub status: int,
    pub headers: Seq<HeaderV>,
    pub body: Seq<char>,
}

impl View for Response {
    type V = ResponseV;

    open spec fn view(&self) -> ResponseV {
        ResponseV { status: self.status as int, headers: views_of(self.headers@), body: self.body@ }
    }
}

/// The lowest and highest status values a response may decode to: the range
/// HTTP status codes live in.
pub open spec fn valid_status(s: int) -> bool {
    100 <= s <= 999
}

/// `v` is exactly the script object exposing `r`: entries `status`,
/// `headers`, `body` and the `addHeader` host binding, in that order. The
/// `headers` entry starts as an empty array whatever `r` holds: the script
/// sees only what it appends itself.
pub open spec fn response_object(v: ScriptValue, r: ResponseV) -> bool {
    let fs = v.entries();
    &&& v is Object
    &&& fs.len() == 4
    &&& fs[0].0@ == "status"@
    &&& fs[0].1 matches ScriptValue::Int(i) && i == r.status
    &&& fs[1].0@ == "headers"@
    &&& fs[1].1 matches ScriptValue::Array(a) && a@.len() == 0
    &&& fs[2].0@ == "body"@
    &&& fs[2].1 matches ScriptValue::Str(s) && s@ == r.body
    &&& fs[3].0@ == "addHeader"@
    &&& fs[3].1 == ScriptValue::HostFunc(HostFn::AddHeader)
}

/// What reading a script object back as a response yields, if anything:
/// `status` must be an integer in the HTTP range, `body` a string, and
/// `headers` an array, which is decoded leniently.
pub open spec fn spec_response_from(v: ScriptValue) -> Option<ResponseV> {
    match (lookup_key(v, "status"@), lookup_key(v, "headers"@), lookup_key(v, "body"@)) {
        (Some(ScriptValue::Int(st)), Some(ScriptValue::Array(items)), Some(ScriptValue::Str(b))) => {
            if valid_status(st as int) {
                Some(ResponseV { status: st as int, headers: decoded_headers(items@), body: b@ })
            } else {
                None
            }
        },
        _ => None,
    }
}

impl Response {
    /// The all-defaults response: 200, no headers, empty body.
    pub fn new() -> (r: Response)
        ensures
            r@.status == 200,
            r@.headers == Seq::<HeaderV>::empty(),
            r@.body == Seq::<char>::empty(),
    {
        let r = Response { status: 200, headers: Vec::new(), body: String::new() };
        proof {
            assert(r@.headers =~= Seq::<HeaderV>::empty());
        }
        r
    }

    /// The script object exposing this response.
    pub fn js(&self) -> (r: ScriptValue)
        ensures
            response_object(r, self@),
    {
        let mut fields: Vec<(String, ScriptValue)> = Vec::new();
        fields.push(("status".to_owned(), ScriptValue::Int(self.status as i64)));
        fields.push(("headers".to_owned(), ScriptValue::Array(Vec::new())));
        fields.push(("body".to_owned(), ScriptValue::Str(self.body.clone())));
        fields.push(("addHeader".to_owned(), ScriptValue::HostFunc(HostFn::AddHeader)));
        ScriptValue::Object(fields)
    }

    /// Reads a script object back as a response, after the script has run.
    pub fn from_js(v: &ScriptValue) -> (r: Result<Response, String>)
        ensures
            match r {
                Ok(resp) => spec_response_from(*v) == Some(resp@),
                Err(e) => spec_response_from(*v) is None && e@ == "Invalid Response"@,
            },
    {
        let status: i32 = match v.get_key("status") {
            Some(ScriptValue::Int(st)) => {
                if 100 <= *st && *st <= 999 {
                    *st as i32
                } else {
                    return Err("Invalid Response".to_owned());
                }
            },
            _ => {
                return Err("Invalid Response".to_owned());
            },
        };
        let headers: Vec<Header> = match v.get_key("headers") {
            Some(ScriptValue::Array(items)) => decode_headers(items),
            _ => {
                return Err("Invalid Response".to_owned());
            },
        };
        let body: String = match v.get_key("body") {
            Some(ScriptValue::Str(b)) => b.clone(),
            _ => {
                return Err("Invalid Response".to_owned());
            },
        };
        let resp = Response { status, headers, body };
        proof {
            assert(spec_response_from(*v) matches Some(rv) && rv =~= resp@);
        }
        Ok(resp)
    }
}

} // verus!
