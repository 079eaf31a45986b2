//! The lambda store: script source persisted under the natural key
//! `(hostname, path)`. Creation is an upsert — a colliding key overwrites
//! the stored source, never errors — and lookup is exact on the key. The
//! store keeps at most one record per key, and every record keeps the
//! identifier it was first created with.

use vstd::prelude::*;

use crate::request::Request;

verus! {

/// A stored lambda record.
#[derive(Debug)]
pub struct Lambda {
    pub id: i32,
    pub path: String,
    pub hostname: String,
    pub code: String,
}

/// The mathematical image of a `Lambda`.
#[verifier::ext_equal]
pub struct LambdaV {
    pub id: int,
    pub path: Seq<char>,
    pub hostname: Seq<char>,
    pub code: Seq<char>,
}

impl View for Lambda {
    type V = LambdaV;

    open spec fn view(&self) -> LambdaV {
        LambdaV { id: self.id as int, path: self.path@, hostname: self.hostname@, code: self.code@ }
    }
}

/// What an insertion carries: borrowed key and source.
pub struct NewLambda<'a> {
    pub path: &'a str,
    pub hostname: &'a str,
    pub code: &'a str,
}

/// The message asking the store to upsert a record.
pub struct CreateLambda {
    pub path: String,
    pub hostname: String,
    pub code: String,
}

/// The message asking the store for the record a request addresses.
pub struct GetLambda {
    pub request: Request,
}

/// The images of the stored records, in storage order.
pub open spec fn views_of_records(s: Seq<Lambda>) -> Seq<LambdaV> {
    s.map_values(|l: Lambda| l@)
}

/// Whether a record sits at the key `(h, p)`.
pub open spec fn key_is(l: LambdaV, h: Seq<char>, p: Seq<char>) -> bool {
    l.hostname == h && l.path == p
}

/// The position of the first record at the key, or `s.len()` if there is
/// none.
pub open spec fn key_idx(s: Seq<LambdaV>, h: Seq<char>, p: Seq<char>) -> int
    decreases s.len(),
{
    if s.len() == 0 {
        0
    } else if key_is(s[0], h, p) {
        0
    } else {
        1 + key_idx(s.drop_first(), h, p)
    }
}

/// Whether some record sits at the key.
pub open spec fn has_key(s: Seq<LambdaV>, h: Seq<char>, p: Seq<char>) -> bool {
    exists|i: int| 0 <= i < s.len() && key_is(#[trigger] s[i], h, p)
}

/// How many records sit at the key.
pub open spec fn count_key(s: Seq<LambdaV>, h: Seq<char>, p: Seq<char>) -> int
    decreases s.len(),
{
    if s.len() == 0 {
        0
    } else {
        (if key_is(s[0], h, p) {
            1int
        } else {
            0int
        }) + count_key(s.drop_first(), h, p)
    }
}

/// No two records share a key.
pub open spec fn keys_unique(s: Seq<LambdaV>) -> bool {
    forall|i: int, j: int|
        0 <= i < j < s.len() ==> !(#[trigger] s[i].hostname == #[trigger] s[j].hostname && s[i].path
            == s[j].path)
}

/// What a lookup yields: the record at the key, if any.
pub open spec fn spec_get(s: Seq<LambdaV>, h: Seq<char>, p: Seq<char>) -> Option<LambdaV> {
    if key_idx(s, h, p) < s.len() {
        Some(s[key_idx(s, h, p)])
    } else {
        None
    }
}

/// What an upsert leaves: the record at the key with its source overwritten
/// and everything else untouched, or — where the key is new — the records
/// with one appended under the next identifier.
pub open spec fn spec_create(s: Seq<LambdaV>, h: Seq<char>, p: Seq<char>, c: Seq<char>) -> Seq<
    LambdaV,
> {
    let i = key_idx(s, h, p);
    if i < s.len() {
        s.update(i, LambdaV { code: c, ..s[i] })
    } else {
        s.push(LambdaV { id: s.len() as int + 1, path: p, hostname: h, code: c })
    }
}

/// `key_idx` really is the first match: everything before it misses the key,
/// and it sits at the key whenever it is in range.
pub proof fn lemma_key_idx(s: Seq<LambdaV>, h: Seq<char>, p: Seq<char>)
    ensures
        0 <= key_idx(s, h, p) <= s.len(),
        key_idx(s, h, p) < s.len() ==> key_is(s[key_idx(s, h, p)], h, p),
        forall|j: int| 0 <= j < key_idx(s, h, p) ==> !key_is(#[trigger] s[j], h, p),
    decreases s.len(),
{
    if s.len() != 0 && !key_is(s[0], h, p) {
        lemma_key_idx(s.drop_first(), h, p);
        assert forall|j: int| 0 <= j < key_idx(s, h, p) implies !key_is(#[trigger] s[j], h, p) by {
            if j > 0 {
                assert(s.drop_first()[j - 1] == s[j]);
            }
        }
    }
}

/// If nothing before `i` sits at the key and `i` does, then `i` is the first
/// match.
pub proof fn lemma_key_idx_at(s: Seq<LambdaV>, h: Seq<char>, p: Seq<char>, i: int)
    requires
        0 <= i < s.len(),
        key_is(s[i], h, p),
        forall|j: int| 0 <= j < i ==> !key_is(#[trigger] s[j], h, p),
    ensures
        key_idx(s, h, p) == i,
    decreases s.len(),
{
    if i > 0 {
        assert forall|j: int| 0 <= j < i - 1 implies !key_is(#[trigger] s.drop_first()[j], h, p) by {
            assert(s.drop_first()[j] == s[j + 1]);
        }
        assert(s.drop_first()[i - 1] == s[i]);
        lemma_key_idx_at(s.drop_first(), h, p, i - 1);
    }
}

/// Where no record sits at the key, none is counted.
pub proof fn lemma_count_key_zero(s: Seq<LambdaV>, h: Seq<char>, p: Seq<char>)
    requires
        forall|j: int| 0 <= j < s.len() ==> !key_is(#[trigger] s[j], h, p),
    ensures
        count_key(s, h, p) == 0,
    decreases s.len(),
{
    if s.len() != 0 {
        assert forall|j: int| 0 <= j < s.len() - 1 implies !key_is(
            #[trigger] s.drop_first()[j],
            h,
            p,
        ) by {
            assert(s.drop_first()[j] == s[j + 1]);
        }
        lemma_count_key_zero(s.drop_first(), h, p);
    }
}

/// With keys unique, a key is held by exactly one record, or by none.
pub proof fn lemma_count_key_unique(s: Seq<LambdaV>, h: Seq<char>, p: Seq<char>)
    requires
        keys_unique(s),
    ensures
        count_key(s, h, p) == (if has_key(s, h, p) {
            1int
        } else {
            0int
        }),
    decreases s.len(),
{
    if s.len() != 0 {
        assert forall|i: int, j: int| 0 <= i < j < s.drop_first().len() implies !(
        (#[trigger] s.drop_first()[i]).hostname == (#[trigger] s.drop_first()[j]).hostname
            && s.drop_first()[i].path == s.drop_first()[j].path) by {
            assert(s.drop_first()[i] == s[i + 1]);
            assert(s.drop_first()[j] == s[j + 1]);
        }
        if key_is(s[0], h, p) {
            assert forall|j: int| 0 <= j < s.drop_first().len() implies !key_is(
                #[trigger] s.drop_first()[j],
                h,
                p,
            ) by {
                assert(s.drop_first()[j] == s[j + 1]);
            }
            lemma_count_key_zero(s.drop_first(), h, p);
        } else {
            lemma_count_key_unique(s.drop_first(), h, p);
            if has_key(s, h, p) {
                let w = choose|i: int| 0 <= i < s.len() && key_is(#[trigger] s[i], h, p);
                assert(s.drop_first()[w - 1] == s[w]);
                assert(has_key(s.drop_first(), h, p));
            }
            if has_key(s.drop_first(), h, p) {
                let w = choose|i: int|
                    0 <= i < s.drop_first().len() && key_is(#[trigger] s.drop_first()[i], h, p);
                assert(s.drop_first()[w] == s[w + 1]);
            }
        }
    }
}

/// The store: at most one record per `(hostname, path)`, identifiers given
/// out in creation order.
#[derive(Debug)]
pub struct LambdaStore {
    records: Vec<Lambda>,
}

impl View for LambdaStore {
    type V = Seq<LambdaV>;

    closed spec fn view(&self) -> Seq<LambdaV> {
        views_of_records(self.records@)
    }
}

impl LambdaStore {
    /// The store's invariant: identifiers are the storage positions counted
    /// from one, and no two records share a key.
    pub open spec fn wf(&self) -> bool {
        &&& forall|i: int| 0 <= i < self@.len() ==> (#[trigger] self@[i]).id == i + 1
        &&& keys_unique(self@)
    }

    /// An empty store.
    pub fn new() -> (s: LambdaStore)
        ensures
            s@ == Seq::<LambdaV>::empty(),
            s.wf(),
    {
        let s = LambdaStore { records: Vec::new() };
        proof {
            assert(s@ =~= Seq::<LambdaV>::empty());
        }
        s
    }

    /// How many records the store holds.
    pub fn count(&self) -> (n: usize)
        ensures
            n == self@.len(),
    {
        self.records.len()
    }

    /// Upserts a record: overwrites the source stored at the key, or appends
    /// a record under the next identifier. Yields the record as stored.
    pub fn create(&mut self, rec: NewLambda<'_>) -> (r: Lambda)
        requires
            old(self).wf(),
            old(self)@.len() < 0x7fff_ffff,
        ensures
            final(self).wf(),
            final(self)@ == spec_create(old(self)@, rec.hostname@, rec.path@, rec.code@),
            Some(r@) == spec_get(final(self)@, rec.hostname@, rec.path@),
    {
        let h: String = rec.hostname.to_owned();
        let p: String = rec.path.to_owned();
        let ghost s0 = self@;
        proof {
            lemma_key_idx(s0, rec.hostname@, rec.path@);
        }
        let mut i: usize = 0;
        while i < self.records.len()
            invariant
                old(self).wf(),
                s0 == old(self)@,
                self@ == s0,
                self.records@.len() == s0.len(),
                0 <= i <= s0.len(),
                forall|j: int| 0 <= j < i ==> !key_is(#[trigger] s0[j], rec.hostname@, rec.path@),
                h@ == rec.hostname@,
                p@ == rec.path@,
            decreases s0.len() - i,
        {
            if self.records[i].hostname == h && self.records[i].path == p {
                proof {
                    lemma_key_idx_at(s0, rec.hostname@, rec.path@, i as int);
                }
                let mut found = self.records.remove(i);
                found.code = rec.code.to_owned();
                let r = Lambda {
                    id: found.id,
                    path: found.path.clone(),
                    hostname: found.hostname.clone(),
                    code: found.code.clone(),
                };
                self.records.insert(i, found);
                proof {
                    assert(self@ =~= spec_create(s0, rec.hostname@, rec.path@, rec.code@));
                    lemma_key_idx_at(self@, rec.hostname@, rec.path@, i as int);
                }
                return r;
            }
            i = i + 1;
        }
        let id: i32 = (self.records.len() as i32) + 1;
        let fresh = Lambda { id, path: p, hostname: h, code: rec.code.to_owned() };
        let r = Lambda {
            id,
            path: fresh.path.clone(),
            hostname: fresh.hostname.clone(),
            code: fresh.code.clone(),
        };
        self.records.push(fresh);
        proof {
            assert(self@ =~= spec_create(s0, rec.hostname@, rec.path@, rec.code@));
            lemma_key_idx_at(self@, rec.hostname@, rec.path@, s0.len() as int);
        }
        r
    }

    /// Looks the key up: the record stored at `(hostname, path)`, or nothing.
    pub fn get(&self, hostname: &str, path: &str) -> (r: Option<Lambda>)
        ensures
            match r {
                Some(l) => spec_get(self@, hostname@, path@) == Some(l@),
                None => spec_get(self@, hostname@, path@) is None,
            },
    {
        let h: String = hostname.to_owned();
        let p: String = path.to_owned();
        let mut i: usize = 0;
        while i < self.records.len()
            invariant
                self.records@.len() == self@.len(),
                0 <= i <= self@.len(),
                forall|j: int| 0 <= j < i ==> !key_is(#[trigger] self@[j], hostname@, path@),
                h@ == hostname@,
                p@ == path@,
            decreases self@.len() - i,
        {
            if self.records[i].hostname == h && self.records[i].path == p {
                proof {
                    lemma_key_idx_at(self@, hostname@, path@, i as int);
                }
                let found = &self.records[i];
                return Some(
                    Lambda {
                        id: found.id,
                        path: found.path.clone(),
                        hostname: found.hostname.clone(),
                        code: found.code.clone(),
                    },
                );
            }
            i = i + 1;
        }
        proof {
            lemma_key_idx(self@, hostname@, path@);
        }
        None
    }

    /// Handles the upsert message, as the store's worker does.
    pub fn handle_create(&mut self, msg: &CreateLambda) -> (r: Lambda)
        requires
            old(self).wf(),
            old(self)@.len() < 0x7fff_ffff,
        ensures
            final(self).wf(),
            final(self)@ == spec_create(old(self)@, msg.hostname@, msg.path@, msg.code@),
            Some(r@) == spec_get(final(self)@, msg.hostname@, msg.path@),
    {
        let rec = NewLambda {
            path: msg.path.as_str(),
            hostname: msg.hostname.as_str(),
            code: msg.code.as_str(),
        };
        self.create(rec)
    }

    /// Handles the lookup message: the record the request's host and path
    /// address, or nothing.
    pub fn handle_get(&self, msg: &GetLambda) -> (r: Option<Lambda>)
        ensures
            match r {
                Some(l) => spec_get(self@, msg.request@.host, msg.request@.path) == Some(l@),
                None => spec_get(self@, msg.request@.host, msg.request@.path) is None,
            },
    {
        let host = msg.request.host();
        let path = msg.request.path();
        self.get(host.as_str(), path.as_str())
    }
}

/// Upsert idempotence: creating at one key twice leaves exactly one record
/// there, and the second source wins.
pub proof fn lemma_upsert_idempotent(
    s: Seq<LambdaV>,
    h: Seq<char>,
    p: Seq<char>,
    c1: Seq<char>,
    c2: Seq<char>,
)
    requires
        keys_unique(s),
    ensures
        spec_get(spec_create(spec_create(s, h, p, c1), h, p, c2), h, p) matches Some(l) && l.code
            == c2 && l.hostname == h && l.path == p,
        count_key(spec_create(spec_create(s, h, p, c1), h, p, c2), h, p) == 1,
{
    let s1 = spec_create(s, h, p, c1);
    let s2 = spec_create(s1, h, p, c2);
    lemma_key_idx(s, h, p);
    let i = key_idx(s, h, p);
    if i < s.len() {
        lemma_key_idx_at(s1, h, p, i);
        lemma_key_idx_at(s2, h, p, i);
    } else {
        lemma_key_idx_at(s1, h, p, s.len() as int);
        lemma_key_idx_at(s2, h, p, s.len() as int);
    }
    let j = key_idx(s2, h, p);
    assert(keys_unique(s2));
    lemma_count_key_unique(s2, h, p);
    assert(key_is(s2[j], h, p));
    assert(has_key(s2, h, p));
}

/// Lookup isolation: records looked up under different hostnames are never
/// each other's — each lookup yields a record sitting at its own key.
pub proof fn lemma_lookup_isolation(s: Seq<LambdaV>, h1: Seq<char>, h2: Seq<char>, p: Seq<char>)
    requires
        h1 != h2,
    ensures
        spec_get(s, h1, p) matches Some(l) ==> l.hostname == h1 && l.path == p,
        spec_get(s, h2, p) matches Some(l) ==> l.hostname == h2 && l.path == p,
        match (spec_get(s, h1, p), spec_get(s, h2, p)) {
            (Some(l1), Some(l2)) => l1 != l2,
            _ => true,
        },
{
    lemma_key_idx(s, h1, p);
    lemma_key_idx(s, h2, p);
}

} // verus!
