//! The request model: an immutable snapshot of an inbound HTTP request, its
//! marshaling into the script's object representation, and the decoding of
//! script-supplied request-like objects for outbound-call construction.

use vstd::prelude::*;

use crate::foreign::{parse_url_parts, url_parts_of};
use crate::headers::{
    decode_headers, decoded_headers, encodes_headers, js_headers, sv_str, views_of, Header,
    HeaderV,
};
use crate::script::{lookup_key, HostFn, ScriptValue};
use crate::traits::ToString;

verus! {

/// The path segment a lambda is addressed by, as the router extracts it.
#[derive(Debug)]
pub struct LambdaPath {
    pub path: String,
}

/// The HTTP methods the host understands.
#[derive(Debug, Clone, Copy, PartialEq, Eq, Structural)]
pub enum Method {
    GET,
    POST,
    PUT,
    DELETE,
    PATCH,
    OPTIONS,
}

/// The text of a method.
pub open spec fn method_str(m: Method) -> Seq<char> {
    match m {
        Method::GET => "GET"@,
        Method::POST => "POST"@,
        Method::DELETE => "DELETE"@,
        Method::PUT => "PUT"@,
        Method::PATCH => "PATCH"@,
        Method::OPTIONS => "OPTIONS"@,
    }
}

/// The method a text names, if any.
pub open spec fn method_of_str(s: Seq<char>) -> Option<Method> {
    if s == "GET"@ {
        Some(Method::GET)
    } else if s == "POST"@ {
        Some(Method::POST)
    } else if s == "PUT"@ {
        Some(Method::PUT)
    } else if s == "DELETE"@ {
        Some(Method::DELETE)
    } else if s == "PATCH"@ {
        Some(Method::PATCH)
    } else if s == "OPTIONS"@ {
        Some(Method::OPTIONS)
    } else {
        None
    }
}

/// Naming a method and reading the name back lands on the same method.
pub proof fn lemma_method_round_trip(m: Method)
    ensures
        method_of_str(method_str(m)) == Some(m),
{
    reveal_strlit("GET");
    reveal_strlit("POST");
    reveal_strlit("PUT");
    reveal_strlit("DELETE");
    reveal_strlit("PATCH");
    reveal_strlit("OPTIONS");
    assert("GET"@.len() == 3);
    assert("POST"@.len() == 4);
    assert("PUT"@.len() == 3);
    assert("DELETE"@.len() == 6);
    assert("PATCH"@.len() == 5);
    assert("OPTIONS"@.len() == 7);
    assert("GET"@[0] == 'G');
    assert("PUT"@[0] == 'P');
}

impl Method {
    pub fn to_string(&self) -> (s: String)
        ensures
            s@ == method_str(*self),
    {
        match self {
            Method::GET => "GET".to_owned(),
            Method::POST => "POST".to_owned(),
            Method::DELETE => "DELETE".to_owned(),
            Method::PUT => "PUT".to_owned(),
            Method::PATCH => "PATCH".to_owned(),
            Method::OPTIONS => "OPTIONS".to_owned(),
        }
    }

    /// The script-side encoding of a method: its name as a string.
    pub fn js(&self) -> (r: ScriptValue)
        ensures
            r matches ScriptValue::Str(s) && s@ == method_str(*self),
    {
        ScriptValue::Str(self.to_string())
    }

    /// Decodes a method from a script value: a string naming one of the six.
    pub fn from_js(v: &ScriptValue) -> (r: Result<Method, String>)
        ensures
            match r {
                Ok(m) => *v is Str && method_of_str(sv_str(*v)) == Some(m),
                Err(e) => (!(*v is Str) || method_of_str(sv_str(*v)) is None) && e@
                    == "Invalid Method"@,
            },
    {
        match v {
            ScriptValue::Str(s) => Method::from_str(s.clone()),
            _ => Err("Invalid Method".to_owned()),
        }
    }

    /// Reads a method from its name.
    pub fn from_str<T: ToString>(method: T) -> (r: Result<Method, String>)
        ensures
            match r {
                Ok(m) => method_of_str(method.str_view()) == Some(m),
                Err(e) => method_of_str(method.str_view()) is None && e@ == "Invalid Method"@,
            },
    {
        let s = method.get_string();
        if s == "GET".to_owned() {
            Ok(Method::GET)
        } else if s == "POST".to_owned() {
            Ok(Method::POST)
        } else if s == "PUT".to_owned() {
            Ok(Method::PUT)
        } else if s == "DELETE".to_owned() {
            Ok(Method::DELETE)
        } else if s == "PATCH".to_owned() {
            Ok(Method::PATCH)
        } else if s == "OPTIONS".to_owned() {
            Ok(Method::OPTIONS)
        } else {
            Err("Invalid Method".to_owned())
        }
    }
}

impl ToString for Method {
    open spec fn str_view(&self) -> Seq<char> {
        method_str(*self)
    }

    fn get_string(self) -> (s: String) {
        self.to_string()
    }
}

/// An inbound request snapshot: fully immutable for the lifetime of the
/// execution; the script receives a marshaled projection, never this value.
#[derive(Debug)]
pub struct Request {
    host: String,
    scheme: String,
    path: String,
    method: Method,
    headers: Vec<Header>,
    body: Option<String>,
}

/// The mathematical image of a `Request`.
#[verifier::ext_equal]
pub struct RequestV {
    pub host: Seq<char>,
    pub scheme: Seq<char>,
    pub path: Seq<char>,
    pub method: Method,
    pub headers: Seq<HeaderV>,
    pub body: Option<Seq<char>>,
}

/// The image of an optional body.
pub open spec fn opt_str_view(b: Option<String>) -> Option<Seq<char>> {
    match b {
        Some(s) => Some(s@),
        None => None,
    }
}

impl View for Request {
    type V = RequestV;

    closed spec fn view(&self) -> RequestV {
        RequestV {
            host: self.host@,
            scheme: self.scheme@,
            path: self.path@,
            method: self.method,
            headers: views_of(self.headers@),
            body: opt_str_view(self.body),
        }
    }
}

/// The URI a request addresses: scheme, host and path joined back together.
pub open spec fn spec_uri(r: RequestV) -> Seq<char> {
    r.scheme + "://"@ + r.host + r.path
}

/// `v` is exactly the script object exposing `r`: its fields, the header
/// array, the body (null when absent), and the `json` and `getHeader` host
/// bindings, in that order.
pub open spec fn request_object(v: ScriptValue, r: RequestV) -> bool {
    let fs = v.entries();
    &&& v is Object
    &&& fs.len() == 8
    &&& fs[0].0@ == "host"@
    &&& fs[0].1 matches ScriptValue::Str(h) && h@ == r.host
    &&& fs[1].0@ == "proto"@
    &&& fs[1].1 matches ScriptValue::Str(p) && p@ == r.scheme
    &&& fs[2].0@ == "path"@
    &&& fs[2].1 matches ScriptValue::Str(p) && p@ == r.path
    &&& fs[3].0@ == "method"@
    &&& fs[3].1 matches ScriptValue::Str(m) && m@ == method_str(r.method)
    &&& fs[4].0@ == "headers"@
    &&& encodes_headers(fs[4].1, r.headers)
    &&& fs[5].0@ == "body"@
    &&& match r.body {
        Some(b) => fs[5].1 matches ScriptValue::Str(s) && s@ == b,
        None => fs[5].1 == ScriptValue::Null,
    }
    &&& fs[6].0@ == "json"@
    &&& fs[6].1 == ScriptValue::HostFunc(HostFn::Json)
    &&& fs[7].0@ == "getHeader"@
    &&& fs[7].1 == ScriptValue::HostFunc(HostFn::GetHeader)
}

/// The scheme a request-like object carries, defaulting to plain HTTP.
pub open spec fn spec_proto_of(v: ScriptValue) -> Seq<char> {
    match lookup_key(v, "proto"@) {
        Some(ScriptValue::Str(p)) => p@,
        _ => "http"@,
    }
}

/// The path a request-like object carries, defaulting to the root.
pub open spec fn spec_path_of(v: ScriptValue) -> Seq<char> {
    match lookup_key(v, "path"@) {
        Some(ScriptValue::Str(p)) => p@,
        _ => "/"@,
    }
}

/// The scheme, host and path a request-like object determines: through its
/// `uri` entry where one is present and parses, through its `host` entry
/// otherwise, and nothing where neither can be determined.
pub open spec fn spec_base_parts(v: ScriptValue) -> Option<(Seq<char>, Seq<char>, Seq<char>)> {
    let from_uri = match lookup_key(v, "uri"@) {
        Some(ScriptValue::Str(u)) => url_parts_of(u@),
        _ => None,
    };
    if from_uri is Some {
        from_uri
    } else {
        match lookup_key(v, "host"@) {
            Some(ScriptValue::Str(h)) => Some((spec_proto_of(v), h@, spec_path_of(v))),
            _ => None,
        }
    }
}

/// The body a request-like object carries: a string entry, or nothing.
pub open spec fn spec_body_of(v: ScriptValue) -> Option<Seq<char>> {
    match lookup_key(v, "body"@) {
        Some(ScriptValue::Str(b)) => Some(b@),
        _ => None,
    }
}

/// The headers a request-like object carries: its `headers` array decoded
/// leniently, or none at all.
pub open spec fn spec_req_headers_of(v: ScriptValue) -> Seq<HeaderV> {
    match lookup_key(v, "headers"@) {
        Some(ScriptValue::Array(items)) => decoded_headers(items@),
        _ => Seq::empty(),
    }
}

/// The method a request-like object carries: `GET` where the entry is
/// missing or no string, the named method where its text names one, and the
/// construction-rule error where it does not.
pub open spec fn spec_method_entry(v: ScriptValue) -> Result<Method, Seq<char>> {
    match lookup_key(v, "method"@) {
        Some(ScriptValue::Str(m)) => match method_of_str(m@) {
            Some(meth) => Ok(meth),
            None => Err("Invalid Request Method!"@),
        },
        _ => Ok(Method::GET),
    }
}

/// What decoding a script-supplied request-like object yields: a request, or
/// the error naming what failed. It fails with `Invalid Request` exactly
/// where neither a URI nor a host can be determined, and with `Invalid
/// Request Method!` where a method entry is a string naming no method; the
/// scheme defaults to plain HTTP, the method to `GET`, the headers to none
/// and the body to absent.
pub open spec fn spec_request_from(v: ScriptValue) -> Result<RequestV, Seq<char>> {
    if !(v is Object) {
        Err("Invalid Request"@)
    } else {
        match spec_base_parts(v) {
            None => Err("Invalid Request"@),
            Some(base) => match spec_method_entry(v) {
                Ok(meth) => Ok(
                    RequestV {
                        host: base.1,
                        scheme: base.0,
                        path: base.2,
                        method: meth,
                        headers: spec_req_headers_of(v),
                        body: spec_body_of(v),
                    },
                ),
                Err(e) => Err(e),
            },
        }
    }
}

impl Request {
    /// Starts building a request addressed by a URI.
    pub fn new(uri: &str) -> (b: RequestBuilder)
        ensures
            b.wf_new(uri@),
    {
        RequestBuilder::new(uri)
    }

    /// Builds the request snapshot from what the transport layer extracted:
    /// the addressed path segment, the `Host` header's text, the method, the
    /// full header list and the body where one was read.
    pub fn map(name: &LambdaPath, host: &str, method: Method, headers: Vec<Header>, body: Option<
        String,
    >) -> (r: Request)
        ensures
            r@.host == host@,
            r@.scheme == "http"@,
            r@.path == "/"@ + name.path@,
            r@.method == method,
            r@.headers == views_of(headers@),
            r@.body == opt_str_view(body),
    {
        let mut path: String = "/".to_owned();
        path.append(name.path.as_str());
        Request { host: host.to_owned(), scheme: "http".to_owned(), path, method, headers, body }
    }

    pub fn path(&self) -> (s: String)
        ensures
            s@ == self@.path,
    {
        self.path.clone()
    }

    pub fn host(&self) -> (s: String)
        ensures
            s@ == self@.host,
    {
        self.host.clone()
    }

    pub fn scheme(&self) -> (s: String)
        ensures
            s@ == self@.scheme,
    {
        self.scheme.clone()
    }

    pub fn method(&self) -> (m: Method)
        ensures
            m == self@.method,
    {
        self.method
    }

    pub fn headers(&self) -> (hs: &Vec<Header>)
        ensures
            views_of(hs@) == self@.headers,
    {
        &self.headers
    }

    pub fn body(&self) -> (b: &Option<String>)
        ensures
            opt_str_view(*b) == self@.body,
    {
        &self.body
    }

    /// The URI this request addresses.
    pub fn uri(&self) -> (s: String)
        ensures
            s@ == spec_uri(self@),
    {
        let mut u = self.scheme.clone();
        u.append("://");
        u.append(self.host.as_str());
        u.append(self.path.as_str());
        u
    }

    /// The script object exposing this request.
    pub fn js(&self) -> (r: ScriptValue)
        ensures
            request_object(r, self@),
    {
        let mut fields: Vec<(String, ScriptValue)> = Vec::new();
        fields.push(("host".to_owned(), ScriptValue::Str(self.host.clone())));
        fields.push(("proto".to_owned(), ScriptValue::Str(self.scheme.clone())));
        fields.push(("path".to_owned(), ScriptValue::Str(self.path.clone())));
        fields.push(("method".to_owned(), self.method.js()));
        fields.push(("headers".to_owned(), js_headers(&self.headers)));
        let body = match &self.body {
            Some(b) => ScriptValue::Str(b.clone()),
            None => ScriptValue::Null,
        };
        fields.push(("body".to_owned(), body));
        fields.push(("json".to_owned(), ScriptValue::HostFunc(HostFn::Json)));
        fields.push(("getHeader".to_owned(), ScriptValue::HostFunc(HostFn::GetHeader)));
        ScriptValue::Object(fields)
    }

    /// Decodes a script-supplied request-like object, as
    /// [`spec_request_from`] lays down.
    pub fn from_js(v: &ScriptValue) -> (r: Result<Request, String>)
        ensures
            match r {
                Ok(req) => spec_request_from(*v) == Ok::<RequestV, Seq<char>>(req@),
                Err(e) => spec_request_from(*v) matches Err(me) && me == e@,
            },
    {
        if !(matches!(v, ScriptValue::Object(_))) {
            return Err("Invalid Request".to_owned());
        }
        let base: (String, String, String) = match Self::base_parts(v) {
            Ok(b) => b,
            Err(e) => {
                return Err(e);
            },
        };
        let method: Method = match v.get_key("method") {
            Some(ScriptValue::Str(m)) => match Method::from_str(m.clone()) {
                Ok(meth) => meth,
                Err(_) => {
                    return Err("Invalid Request Method!".to_owned());
                },
            },
            _ => Method::GET,
        };
        let body: Option<String> = match v.get_key("body") {
            Some(ScriptValue::Str(b)) => Some(b.clone()),
            _ => None,
        };
        let headers: Vec<Header> = match v.get_key("headers") {
            Some(ScriptValue::Array(items)) => decode_headers(items),
            _ => Vec::new(),
        };
        let req = Request {
            host: base.1,
            scheme: base.0,
            path: base.2,
            method,
            headers,
            body,
        };
        proof {
            assert(spec_request_from(*v) matches Ok(rv) && rv =~= req@);
        }
        Ok(req)
    }

    /// The scheme, host and path a request-like object determines, as
    /// [`spec_base_parts`] lays down.
    fn base_parts(v: &ScriptValue) -> (r: Result<(String, String, String), String>)
        ensures
            match r {
                Ok(p) => spec_base_parts(*v) matches Some(q) && p.0@ == q.0 && p.1@ == q.1 && p.2@
                    == q.2,
                Err(e) => spec_base_parts(*v) is None && e@ == "Invalid Request"@,
            },
    {
        let parsed: Option<(String, String, String)> = match v.get_key("uri") {
            Some(ScriptValue::Str(u)) => parse_url_parts(u.as_str()),
            _ => None,
        };
        match parsed {
            Some(p) => Ok(p),
            None => {
                match v.get_key("host") {
                    Some(ScriptValue::Str(h)) => {
                        let proto: String = match v.get_key("proto") {
                            Some(ScriptValue::Str(p)) => p.clone(),
                            _ => "http".to_owned(),
                        };
                        let path: String = match v.get_key("path") {
                            Some(ScriptValue::Str(p)) => p.clone(),
                            _ => "/".to_owned(),
                        };
                        Ok((proto, h.clone(), path))
                    },
                    _ => Err("Invalid Request".to_owned()),
                }
            },
        }
    }
}

/// Request round-trip: decoding the script object that exposes a request
/// yields that request back — fields, method, headers, and body alike.
pub proof fn lemma_request_round_trip(v: ScriptValue, r: RequestV)
    requires
        request_object(v, r),
    ensures
        spec_request_from(v) == Ok::<RequestV, Seq<char>>(r),
{
    reveal_strlit("host");
    reveal_strlit("proto");
    reveal_strlit("path");
    reveal_strlit("method");
    reveal_strlit("headers");
    reveal_strlit("body");
    reveal_strlit("json");
    reveal_strlit("getHeader");
    reveal_strlit("uri");
    assert("uri"@.len() == 3);
    assert("host"@.len() == 4);
    assert("proto"@.len() == 5);
    assert("path"@.len() == 4);
    assert("method"@.len() == 6);
    assert("headers"@.len() == 7);
    assert("body"@.len() == 4);
    assert("json"@.len() == 4);
    assert("getHeader"@.len() == 9);
    assert("host"@[0] == 'h');
    assert("path"@[0] == 'p');
    assert("body"@[0] == 'b');
    assert("json"@[0] == 'j');
    let fs = v.entries();
    crate::script::lemma_first_key_idx(fs, "uri"@);
    crate::script::lemma_first_key_is(fs, "host"@, 0);
    crate::script::lemma_first_key_is(fs, "proto"@, 1);
    crate::script::lemma_first_key_is(fs, "path"@, 2);
    crate::script::lemma_first_key_is(fs, "method"@, 3);
    crate::script::lemma_first_key_is(fs, "headers"@, 4);
    crate::script::lemma_first_key_is(fs, "body"@, 5);
    lemma_method_round_trip(r.method);
    crate::headers::lemma_header_round_trip(fs[4].1, r.headers);
    assert(spec_base_parts(v) matches Some(base) && base.0 == r.scheme && base.1 == r.host
        && base.2 == r.path);
    assert(spec_request_from(v) matches Ok(rv) && rv =~= r);
}

/// Builds a request step by step: from a URI, then method, headers and body.
/// A step that rejects its input records the error and leaves the request
/// as it stood.
#[derive(Debug)]
pub struct RequestBuilder {
    req: Option<Request>,
    err: Option<String>,
}

impl RequestBuilder {
    /// The request under construction, if the URI parsed.
    pub closed spec fn spec_req(&self) -> Option<RequestV> {
        match self.req {
            Some(r) => Some(r@),
            None => None,
        }
    }

    /// The first error any step recorded.
    pub closed spec fn spec_err(&self) -> Option<Seq<char>> {
        match self.err {
            Some(e) => Some(e@),
            None => None,
        }
    }

    /// What a fresh builder looks like: a bare `GET` at the parsed URI, or
    /// the recorded `Invalid URL` where the text did not parse.
    pub open spec fn wf_new(&self, uri: Seq<char>) -> bool {
        match url_parts_of(uri) {
            Some(parts) => {
                &&& self.spec_err() is None
                &&& self.spec_req() matches Some(r)
                &&& r.scheme == parts.0
                &&& r.host == parts.1
                &&& r.path == parts.2
                &&& r.method == Method::GET
                &&& r.headers == Seq::<HeaderV>::empty()
                &&& r.body is None
            },
            None => self.spec_req() is None && (self.spec_err() matches Some(e) && e
                == "Invalid URL"@),
        }
    }

    /// Starts a builder from a URI.
    pub fn new(uri: &str) -> (b: RequestBuilder)
        ensures
            b.wf_new(uri@),
    {
        match parse_url_parts(uri) {
            Some(parts) => {
                let req = Request {
                    host: parts.1,
                    scheme: parts.0,
                    path: parts.2,
                    method: Method::GET,
                    headers: Vec::new(),
                    body: None,
                };
                proof {
                    assert(views_of(Seq::<Header>::empty()) =~= Seq::<HeaderV>::empty());
                }
                RequestBuilder { req: Some(req), err: None }
            },
            None => RequestBuilder { req: None, err: Some("Invalid URL".to_owned()) },
        }
    }

    /// Whether a request is under construction — what `build` asks for.
    pub fn has_req(&self) -> (b: bool)
        ensures
            b == (self.spec_req() is Some),
    {
        match &self.req {
            Some(_) => true,
            None => false,
        }
    }

    /// The first error any step recorded, if one was.
    pub fn err(&self) -> (e: &Option<String>)
        ensures
            match e {
                Some(s) => self.spec_err() == Some(s@),
                None => self.spec_err() is None,
            },
    {
        &self.err
    }

    /// Hands the finished request out.
    pub fn build(self) -> (r: Request)
        requires
            self.spec_req() is Some,
        ensures
            Some(r@) == self.spec_req(),
    {
        match self.req {
            Some(r) => r,
            None => unreached(),
        }
    }

    /// Sets the method from its name; an unknown name records the error and
    /// leaves the request as it stood.
    pub fn method<T: ToString>(self, method: T) -> (b: RequestBuilder)
        requires
            self.spec_req() is Some,
        ensures
            match method_of_str(method.str_view()) {
                Some(m) => {
                    &&& b.spec_err() == self.spec_err()
                    &&& b.spec_req() matches Some(r)
                    &&& self.spec_req() matches Some(r0)
                    &&& r == (RequestV { method: m, ..r0 })
                },
                None => b.spec_req() == self.spec_req() && (b.spec_err() matches Some(e) && e
                    == "Invalid Method"@),
            },
    {
        match Method::from_str(method) {
            Ok(m) => {
                match self.req {
                    Some(mut req) => {
                        req.method = m;
                        RequestBuilder { req: Some(req), err: self.err }
                    },
                    None => unreached(),
                }
            },
            Err(e) => RequestBuilder { req: self.req, err: Some(e) },
        }
    }

    /// Sets the header list.
    pub fn headers(self, headers: Vec<Header>) -> (b: RequestBuilder)
        requires
            self.spec_req() is Some,
        ensures
            b.spec_err() == self.spec_err(),
            b.spec_req() matches Some(r) && self.spec_req() matches Some(r0) && r == (RequestV {
                headers: views_of(headers@),
                ..r0
            }),
    {
        match self.req {
            Some(mut req) => {
                req.headers = headers;
                RequestBuilder { req: Some(req), err: self.err }
            },
            None => unreached(),
        }
    }

    /// Sets the body, or takes it away.
    pub fn body<T: ToString>(self, body: Option<T>) -> (b: RequestBuilder)
        requires
            self.spec_req() is Some,
        ensures
            b.spec_err() == self.spec_err(),
            b.spec_req() matches Some(r) && self.spec_req() matches Some(r0) && r == (RequestV {
                body: match body {
                    Some(s) => Some(s.str_view()),
                    None => None,
                },
                ..r0
            }),
    {
        let b: Option<String> = match body {
            Some(s) => Some(s.get_string()),
            None => None,
        };
        match self.req {
            Some(mut req) => {
                req.body = b;
                RequestBuilder { req: Some(req), err: self.err }
            },
            None => unreached(),
        }
    }
}

} // verus!
