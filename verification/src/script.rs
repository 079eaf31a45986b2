//! The script-side object model. Values crossing the boundary between the
//! native host and the per-request script environment are modeled as plain
//! data: nulls, booleans, numbers, strings, arrays, objects with ordered
//! string keys, and references to host functions installed by the engine.
//! The embedding layer outside this crate converts between these values and
//! the engine's own handles; all logic that reads or builds them lives here.

use vstd::prelude::*;

verus! {

/// A host function exposed into the sandbox.
#[derive(Debug, Clone, Copy, PartialEq, Eq, Structural)]
pub enum HostFn {
    /// `json()`: parse a body string as JSON.
    Json,
    /// `getHeader(name)`: case-insensitive first-match header lookup.
    GetHeader,
    /// `addHeader(name, value)`: append a header to the live response object.
    AddHeader,
    /// `http.request(requestLike)`: synchronous outbound HTTP call.
    HttpRequest,
}

/// A value in the script environment, as seen from the host.
#[derive(Debug, PartialEq)]
pub enum ScriptValue {
    Null,
    Bool(bool),
    /// An integral number.
    Int(i64),
    /// A non-integral number, carried by its decimal text.
    Num(String),
    Str(String),
    Array(Vec<ScriptValue>),
    /// An object: ordered key/value entries.
    Object(Vec<(String, ScriptValue)>),
    HostFunc(HostFn),
}

impl ScriptValue {
    /// The entries of an object; the empty sequence for any other value.
    pub open spec fn entries(self) -> Seq<(String, ScriptValue)> {
        match self {
            ScriptValue::Object(fields) => fields@,
            _ => Seq::empty(),
        }
    }

    /// The elements of an array; the empty sequence for any other value.
    pub open spec fn elems(self) -> Seq<ScriptValue> {
        match self {
            ScriptValue::Array(items) => items@,
            _ => Seq::empty(),
        }
    }
}

/// The position of the first entry named `k`, or `fs.len()` if there is none.
pub open spec fn first_key_idx(fs: Seq<(String, ScriptValue)>, k: Seq<char>) -> int
    decreases fs.len(),
{
    if fs.len() == 0 {
        0
    } else if fs[0].0@ == k {
        0
    } else {
        1 + first_key_idx(fs.drop_first(), k)
    }
}

/// What the first entry named `k` holds, if any: object key lookup is a
/// first-match scan over the ordered entries.
pub open spec fn lookup_key(v: ScriptValue, k: Seq<char>) -> Option<ScriptValue> {
    let fs = v.entries();
    if v is Object && first_key_idx(fs, k) < fs.len() {
        Some(fs[first_key_idx(fs, k)].1)
    } else {
        None
    }
}

/// `first_key_idx` really is the first match: everything before it is named
/// otherwise, and it names `k` whenever it is in range.
pub proof fn lemma_first_key_idx(fs: Seq<(String, ScriptValue)>, k: Seq<char>)
    ensures
        0 <= first_key_idx(fs, k) <= fs.len(),
        first_key_idx(fs, k) < fs.len() ==> fs[first_key_idx(fs, k)].0@ == k,
        forall|j: int| 0 <= j < first_key_idx(fs, k) ==> fs[j].0@ != k,
    decreases fs.len(),
{
    if fs.len() != 0 && fs[0].0@ != k {
        lemma_first_key_idx(fs.drop_first(), k);
        assert forall|j: int| 0 <= j < first_key_idx(fs, k) implies fs[j].0@ != k by {
            if j > 0 {
                assert(fs.drop_first()[j - 1] == fs[j]);
            }
        }
    }
}

/// If no entry before `j` is named `k` and entry `j` is, then `j` is the
/// first match.
pub proof fn lemma_first_key_is(fs: Seq<(String, ScriptValue)>, k: Seq<char>, j: int)
    requires
        0 <= j < fs.len(),
        fs[j].0@ == k,
        forall|l: int| 0 <= l < j ==> fs[l].0@ != k,
    ensures
        first_key_idx(fs, k) == j,
    decreases fs.len(),
{
    if j > 0 {
        assert forall|l: int| 0 <= l < j - 1 implies fs.drop_first()[l].0@ != k by {
            assert(fs.drop_first()[l] == fs[l + 1]);
        }
        assert(fs.drop_first()[j - 1] == fs[j]);
        lemma_first_key_is(fs.drop_first(), k, j - 1);
    }
}

/// How `v1` relates to `v0` after the entry named `k` is set to `val`: a
/// first-match replacement, or a new entry appended when the key is absent.
pub open spec fn sets_key(v0: ScriptValue, v1: ScriptValue, k: Seq<char>, val: ScriptValue) -> bool {
    let fs0 = v0.entries();
    let fs1 = v1.entries();
    let i = first_key_idx(fs0, k);
    &&& v0 is Object
    &&& v1 is Object
    &&& if i < fs0.len() {
        fs1 == fs0.update(i, (fs0[i].0, val))
    } else {
        exists|s: String| s@ == k && fs1 == fs0.push((s, val))
    }
}

/// The position of the first entry named like `k`, or the entry count if
/// there is none.
pub(crate) fn find_entry(fields: &Vec<(String, ScriptValue)>, k: &String) -> (j: usize)
    ensures
        j == first_key_idx(fields@, k@),
{
    let mut j: usize = 0;
    while j < fields.len()
        invariant
            0 <= j <= fields@.len(),
            forall|l: int| 0 <= l < j ==> fields@[l].0@ != k@,
        decreases fields@.len() - j,
    {
        if fields[j].0 == *k {
            proof {
                lemma_first_key_is(fields@, k@, j as int);
            }
            return j;
        }
        j = j + 1;
    }
    proof {
        lemma_first_key_idx(fields@, k@);
    }
    j
}

impl ScriptValue {
    /// Object key lookup, first match wins; `None` on any non-object.
    pub fn get_key<'a>(&'a self, key: &str) -> (r: Option<&'a ScriptValue>)
        ensures
            match r {
                Some(v) => lookup_key(*self, key@) == Some(*v),
                None => lookup_key(*self, key@) is None,
            },
    {
        let k: String = key.to_owned();
        match self {
            ScriptValue::Object(fields) => {
                let j = find_entry(fields, &k);
                if j < fields.len() {
                    Some(&fields[j].1)
                } else {
                    None
                }
            },
            _ => None,
        }
    }

    /// Sets the entry named `key` to `val`, replacing the first match or
    /// appending a new entry. Any non-object is left unchanged.
    pub fn set_key(&mut self, key: &str, val: ScriptValue)
        ensures
            *old(self) is Object ==> sets_key(*old(self), *final(self), key@, val),
            !(*old(self) is Object) ==> *final(self) == *old(self),
    {
        let k: String = key.to_owned();
        let mut owned = ScriptValue::Null;
        core::mem::swap(self, &mut owned);
        match owned {
            ScriptValue::Object(mut fields) => {
                let ghost fs0 = fields@;
                let j = find_entry(&fields, &k);
                if j < fields.len() {
                    let (name, _) = fields.remove(j);
                    fields.insert(j, (name, val));
                    proof {
                        assert(fields@ =~= fs0.update(j as int, (fs0[j as int].0, val)));
                    }
                } else {
                    let ghost gk = k;
                    fields.push((k, val));
                    proof {
                        assert(fields@ == fs0.push((gk, val)));
                    }
                }
                *self = ScriptValue::Object(fields);
            },
            other => {
                *self = other;
            },
        }
    }
}

} // verus!
