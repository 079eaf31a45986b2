//! HTTP headers: ordered name/value pairs, and their marshaling to and from
//! the script-side representation. A header list crosses the boundary as an
//! array whose elements are two-element `[name, value]` string pairs.
//! Decoding is lenient: it stops at, and silently drops, the first element
//! that is not a well-formed pair. Lookup by name is a case-insensitive
//! first-match scan; insertion order is preserved and names may repeat.

use vstd::prelude::*;

use crate::script::ScriptValue;
use crate::traits::ToString;

verus! {

/// One HTTP header. Immutable once constructed; appending builds a new one.
#[derive(Debug, Clone)]
pub struct Header {
    name: String,
    value: String,
}

/// The mathematical image of a `Header`: its name and value as character
/// sequences.
#[verifier::ext_equal]
pub struct HeaderV {
    pub name: Seq<char>,
    pub value: Seq<char>,
}

impl View for Header {
    type V = HeaderV;

    closed spec fn view(&self) -> HeaderV {
        HeaderV { name: self.name@, value: self.value@ }
    }
}

/// The images of a header list.
pub open spec fn views_of(hs: Seq<Header>) -> Seq<HeaderV> {
    hs.map_values(|h: Header| h@)
}

/// A well-formed header pair: an array carrying strings in its first two
/// slots. (Anything an array holds beyond them is ignored, as the script is
/// free to decorate its own arrays.)
pub open spec fn wf_pair(v: ScriptValue) -> bool {
    &&& v is Array
    &&& v.elems().len() >= 2
    &&& v.elems()[0] is Str
    &&& v.elems()[1] is Str
}

/// The characters of a string value; empty for any other value.
pub open spec fn sv_str(v: ScriptValue) -> Seq<char> {
    match v {
        ScriptValue::Str(s) => s@,
        _ => Seq::empty(),
    }
}

/// The header a well-formed pair carries.
pub open spec fn pair_header(v: ScriptValue) -> HeaderV
    recommends
        wf_pair(v),
{
    HeaderV { name: sv_str(v.elems()[0]), value: sv_str(v.elems()[1]) }
}

/// `v` is exactly the encoding of the header list `hs`: an array of
/// two-element `[name, value]` pairs, in order.
pub open spec fn encodes_headers(v: ScriptValue, hs: Seq<HeaderV>) -> bool {
    &&& v is Array
    &&& v.elems().len() == hs.len()
    &&& forall|i: int| 0 <= i < hs.len() ==> is_pair_of(#[trigger] v.elems()[i], hs[i])
}

/// `v` is exactly the encoding of the single header `h`.
pub open spec fn is_pair_of(v: ScriptValue, h: HeaderV) -> bool {
    &&& v is Array
    &&& v.elems().len() == 2
    &&& v.elems()[0] matches ScriptValue::Str(n) && n@ == h.name
    &&& v.elems()[1] matches ScriptValue::Str(s) && s@ == h.value
}

/// How many leading elements of `s` are well-formed pairs: the part that
/// lenient decoding keeps.
pub open spec fn decoded_prefix_len(s: Seq<ScriptValue>) -> int
    decreases s.len(),
{
    if s.len() == 0 || !wf_pair(s[0]) {
        0
    } else {
        1 + decoded_prefix_len(s.drop_first())
    }
}

/// What lenient decoding of the array elements `s` yields: the headers of
/// the longest well-formed prefix.
pub open spec fn decoded_headers(s: Seq<ScriptValue>) -> Seq<HeaderV> {
    Seq::new(decoded_prefix_len(s) as nat, |i: int| pair_header(s[i]))
}

/// Any stretch of well-formed pairs ending at a malformed element (or at the
/// end) is the decoded prefix.
pub proof fn lemma_prefix_stops(s: Seq<ScriptValue>, i: int)
    requires
        0 <= i <= s.len(),
        forall|j: int| 0 <= j < i ==> wf_pair(#[trigger] s[j]),
        i < s.len() ==> !wf_pair(s[i]),
    ensures
        decoded_prefix_len(s) == i,
    decreases s.len(),
{
    if i > 0 {
        assert forall|j: int| 0 <= j < i - 1 implies wf_pair(#[trigger] s.drop_first()[j]) by {
            assert(s.drop_first()[j] == s[j + 1]);
        }
        if i < s.len() {
            assert(s.drop_first()[i - 1] == s[i]);
        }
        lemma_prefix_stops(s.drop_first(), i - 1);
    }
}

impl Header {
    pub fn new<T: ToString>(name: T, value: T) -> (h: Header)
        ensures
            h@.name == name.str_view(),
            h@.value == value.str_view(),
    {
        Header { name: name.get_string(), value: value.get_string() }
    }

    pub fn name(&self) -> (s: String)
        ensures
            s@ == self@.name,
    {
        self.name.clone()
    }

    pub fn value(&self) -> (s: String)
        ensures
            s@ == self@.value,
    {
        self.value.clone()
    }

    /// The script-side encoding of this header: the pair `[name, value]`.
    pub fn js(&self) -> (r: ScriptValue)
        ensures
            is_pair_of(r, self@),
    {
        let mut items: Vec<ScriptValue> = Vec::new();
        items.push(ScriptValue::Str(self.name.clone()));
        items.push(ScriptValue::Str(self.value.clone()));
        ScriptValue::Array(items)
    }

    /// Decodes one header from a script value: succeeds exactly on
    /// well-formed pairs.
    pub fn from_js(v: &ScriptValue) -> (r: Result<Header, String>)
        ensures
            match r {
                Ok(h) => wf_pair(*v) && h@ == pair_header(*v),
                Err(e) => !wf_pair(*v) && e@ == "Invalid Header"@,
            },
    {
        match v {
            ScriptValue::Array(items) => {
                if items.len() >= 2 {
                    match (&items[0], &items[1]) {
                        (ScriptValue::Str(n), ScriptValue::Str(s)) => {
                            Ok(Header { name: n.clone(), value: s.clone() })
                        },
                        _ => Err("Invalid Header".to_owned()),
                    }
                } else {
                    Err("Invalid Header".to_owned())
                }
            },
            _ => Err("Invalid Header".to_owned()),
        }
    }
}

/// Encodes a header list as the script-side array of `[name, value]` pairs.
pub fn js_headers(headers: &Vec<Header>) -> (r: ScriptValue)
    ensures
        encodes_headers(r, views_of(headers@)),
{
    let mut items: Vec<ScriptValue> = Vec::new();
    let mut i: usize = 0;
    while i < headers.len()
        invariant
            0 <= i <= headers@.len(),
            items@.len() == i,
            forall|j: int| 0 <= j < i ==> is_pair_of(#[trigger] items@[j], headers@[j]@),
        decreases headers@.len() - i,
    {
        items.push(headers[i].js());
        i = i + 1;
    }
    ScriptValue::Array(items)
}

/// Decodes a header list from array elements, leniently: the first element
/// that is not a well-formed pair ends the list, and it and everything after
/// it are dropped.
pub fn decode_headers(items: &Vec<ScriptValue>) -> (r: Vec<Header>)
    ensures
        views_of(r@) == decoded_headers(items@),
{
    let mut out: Vec<Header> = Vec::new();
    let mut i: usize = 0;
    while i < items.len()
        invariant_except_break
            0 <= i <= items@.len(),
            forall|j: int| 0 <= j < i ==> wf_pair(#[trigger] items@[j]),
            out@.len() == i,
            forall|j: int| 0 <= j < i ==> (#[trigger] out@[j])@ == pair_header(items@[j]),
        ensures
            0 <= i <= items@.len(),
            forall|j: int| 0 <= j < i ==> wf_pair(#[trigger] items@[j]),
            out@.len() == i,
            forall|j: int| 0 <= j < i ==> (#[trigger] out@[j])@ == pair_header(items@[j]),
            i == items@.len() || !wf_pair(items@[i as int]),
        decreases items@.len() - i,
    {
        match Header::from_js(&items[i]) {
            Ok(h) => {
                out.push(h);
                i = i + 1;
            },
            Err(_) => {
                break ;
            },
        }
    }
    proof {
        lemma_prefix_stops(items@, i as int);
        assert(views_of(out@) =~= decoded_headers(items@));
    }
    out
}

/// How many leading elements of `items` are well-formed pairs: the count a
/// lookup-based append writes at.
pub fn decoded_len(items: &Vec<ScriptValue>) -> (n: usize)
    ensures
        n == decoded_prefix_len(items@),
{
    let mut i: usize = 0;
    while i < items.len()
        invariant
            0 <= i <= items@.len(),
            forall|j: int| 0 <= j < i ==> wf_pair(#[trigger] items@[j]),
        decreases items@.len() - i,
    {
        match Header::from_js(&items[i]) {
            Ok(_) => {
                i = i + 1;
            },
            Err(_) => {
                proof {
                    lemma_prefix_stops(items@, i as int);
                }
                return i;
            },
        }
    }
    proof {
        lemma_prefix_stops(items@, i as int);
    }
    i
}

/// The character `c` with an ASCII capital folded to its small form, as a
/// code point.
pub open spec fn fold_char(c: char) -> int {
    if 65 <= c as int <= 90 {
        c as int + 32
    } else {
        c as int
    }
}

/// Case-insensitive equality of two names: equal lengths, and every
/// character equal up to ASCII case.
pub open spec fn eq_fold(a: Seq<char>, b: Seq<char>) -> bool {
    a.len() == b.len() && forall|i: int| 0 <= i < a.len() ==> fold_char(a[i]) == fold_char(b[i])
}

/// The value of the first header whose name matches `name` up to ASCII
/// case, if any.
pub open spec fn find_header(hs: Seq<HeaderV>, name: Seq<char>) -> Option<Seq<char>>
    decreases hs.len(),
{
    if hs.len() == 0 {
        None
    } else if eq_fold(hs[0].name, name) {
        Some(hs[0].value)
    } else {
        find_header(hs.drop_first(), name)
    }
}

/// If nothing before `i` matches and `i` does, the scan finds `i`'s value.
pub proof fn lemma_find_header_at(hs: Seq<HeaderV>, name: Seq<char>, i: int)
    requires
        0 <= i < hs.len(),
        eq_fold(hs[i].name, name),
        forall|j: int| 0 <= j < i ==> !eq_fold(#[trigger] hs[j].name, name),
    ensures
        find_header(hs, name) == Some(hs[i].value),
    decreases hs.len(),
{
    if i > 0 {
        assert forall|j: int| 0 <= j < i - 1 implies !eq_fold(#[trigger] hs.drop_first()[j].name, name) by {
            assert(hs.drop_first()[j] == hs[j + 1]);
        }
        assert(hs.drop_first()[i - 1] == hs[i]);
        lemma_find_header_at(hs.drop_first(), name, i - 1);
    }
}

/// If nothing matches, the scan finds nothing.
pub proof fn lemma_find_header_none(hs: Seq<HeaderV>, name: Seq<char>)
    requires
        forall|j: int| 0 <= j < hs.len() ==> !eq_fold(#[trigger] hs[j].name, name),
    ensures
        find_header(hs, name) is None,
    decreases hs.len(),
{
    if hs.len() > 0 {
        assert forall|j: int| 0 <= j < hs.len() - 1 implies !eq_fold(
            #[trigger] hs.drop_first()[j].name,
            name,
        ) by {
            assert(hs.drop_first()[j] == hs[j + 1]);
        }
        lemma_find_header_none(hs.drop_first(), name);
    }
}

/// Whether two names are equal up to ASCII case.
fn eq_ignore_case(a: &str, b: &str) -> (r: bool)
    ensures
        r == eq_fold(a@, b@),
{
    let alen = a.unicode_len();
    let blen = b.unicode_len();
    if alen != blen {
        return false;
    }
    let mut i: usize = 0;
    while i < alen
        invariant
            alen == a@.len(),
            a@.len() == b@.len(),
            0 <= i <= alen,
            forall|j: int| 0 <= j < i ==> fold_char(a@[j]) == fold_char(b@[j]),
        decreases alen - i,
    {
        let ca: u32 = a.get_char(i) as u32;
        let cb: u32 = b.get_char(i) as u32;
        let fa: u32 = if 65 <= ca && ca <= 90 {
            ca + 32
        } else {
            ca
        };
        let fb: u32 = if 65 <= cb && cb <= 90 {
            cb + 32
        } else {
            cb
        };
        if fa != fb {
            return false;
        }
        i = i + 1;
    }
    true
}

/// Case-insensitive first-match lookup over a header list: the matching
/// value, or the empty string when no name matches.
pub fn header_lookup(headers: &Vec<Header>, name: &str) -> (r: String)
    ensures
        match find_header(views_of(headers@), name@) {
            Some(v) => r@ == v,
            None => r@ == Seq::<char>::empty(),
        },
{
    let mut i: usize = 0;
    while i < headers.len()
        invariant
            0 <= i <= headers@.len(),
            forall|j: int| 0 <= j < i ==> !eq_fold(#[trigger] views_of(headers@)[j].name, name@),
        decreases headers@.len() - i,
    {
        if eq_ignore_case(headers[i].name.as_str(), name) {
            proof {
                lemma_find_header_at(views_of(headers@), name@, i as int);
            }
            return headers[i].value.clone();
        }
        i = i + 1;
    }
    proof {
        lemma_find_header_none(views_of(headers@), name@);
    }
    String::new()
}

/// Header round-trip: decoding any encoded header list yields the original
/// list, order and duplicate names preserved.
pub proof fn lemma_header_round_trip(v: ScriptValue, hs: Seq<HeaderV>)
    requires
        encodes_headers(v, hs),
    ensures
        decoded_headers(v.elems()) == hs,
{
    let es = v.elems();
    assert forall|j: int| 0 <= j < es.len() implies wf_pair(#[trigger] es[j]) by {
        assert(is_pair_of(es[j], hs[j]));
    }
    lemma_prefix_stops(es, es.len() as int);
    assert(decoded_headers(es) =~= hs);
}

/// Lenient decode: when the first `i` elements are well-formed pairs and the
/// element after them (if any) is malformed, exactly those `i` headers are
/// decoded, in order.
pub proof fn lemma_lenient_decode(s: Seq<ScriptValue>, i: int)
    requires
        0 <= i <= s.len(),
        forall|j: int| 0 <= j < i ==> wf_pair(#[trigger] s[j]),
        i < s.len() ==> !wf_pair(s[i]),
    ensures
        decoded_headers(s).len() == i,
        forall|j: int| 0 <= j < i ==> decoded_headers(s)[j] == pair_header(#[trigger] s[j]),
{
    lemma_prefix_stops(s, i);
}

} // verus!
