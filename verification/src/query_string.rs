//! Decomposition of a query-component string into a mapping from parameter
//! name to one-or-many values, borrowing every slice from the parsed buffer.

use vstd::prelude::*;
use vstd::string::StrSliceExecFns;

use crate::text::{find_char_in, find_first, lemma_find_first_at, lemma_find_first_none, str_eq};

verus! {

/// The model of a query string: one entry per distinct key, in order of
/// first appearance; each entry carries the key's values in order of
/// appearance.
pub type QueryMap = Seq<(Seq<char>, Seq<Seq<char>>)>;

/// The text recorded for one query parameter: one value, or every value of a
/// repeated key in order of appearance. Both borrow from the parsed buffer.
pub enum Value<'buf> {
    Single(&'buf str),
    Multiple(Vec<&'buf str>),
}

impl<'buf> View for Value<'buf> {
    type V = Seq<Seq<char>>;

    open spec fn view(&self) -> Seq<Seq<char>> {
        match self {
            Value::Single(v) => seq![v@],
            Value::Multiple(vs) => vs.deep_view(),
        }
    }
}

/// A mapping from parameter name to [`Value`], built once from the substring
/// that follows `?` in a request target.
pub struct QueryString<'buf> {
    data: Vec<(&'buf str, Value<'buf>)>,
}

/// The model of a key/value vector: each pair as its character sequences.
pub open spec fn data_view<'buf>(d: Seq<(&'buf str, Value<'buf>)>) -> QueryMap {
    Seq::new(d.len(), |i: int| (d[i].0@, d[i].1@))
}

impl<'buf> View for QueryString<'buf> {
    type V = QueryMap;

    closed spec fn view(&self) -> QueryMap {
        data_view(self.data@)
    }
}

/// Index of the entry of `m` that holds key `k`, or `None`.
pub open spec fn index_of_key(m: QueryMap, k: Seq<char>) -> Option<int>
    decreases m.len(),
{
    if m.len() == 0 {
        None
    } else if m[0].0 == k {
        Some(0)
    } else {
        match index_of_key(m.drop_first(), k) {
            Some(i) => Some(i + 1),
            None => None,
        }
    }
}

/// What `index_of_key` returns: the first entry holding `k`, or `None` when
/// no entry does.
pub proof fn lemma_index_of_key(m: QueryMap, k: Seq<char>)
    ensures
        match index_of_key(m, k) {
            Some(i) => 0 <= i < m.len() && m[i].0 == k && (forall|j: int|
                0 <= j < i ==> m[j].0 != k),
            None => forall|j: int| 0 <= j < m.len() ==> m[j].0 != k,
        },
    decreases m.len(),
{
    if m.len() == 0 {
    } else if m[0].0 == k {
    } else {
        lemma_index_of_key(m.drop_first(), k);
        assert(forall|j: int| 1 <= j < m.len() ==> m.drop_first()[j - 1] == m[j]);
    }
}

/// An entry holding `k`, with none before it, is exactly what `index_of_key`
/// returns.
pub proof fn lemma_index_of_key_at(m: QueryMap, k: Seq<char>, i: int)
    requires
        0 <= i < m.len(),
        m[i].0 == k,
        forall|j: int| 0 <= j < i ==> m[j].0 != k,
    ensures
        index_of_key(m, k) == Some(i),
{
    lemma_index_of_key(m, k);
    match index_of_key(m, k) {
        Some(n) => {
            if n < i {
                assert(m[n].0 != k);
            } else if n > i {
                assert(m[i].0 != k);
            }
        },
        None => {
            assert(m[i].0 != k);
        },
    }
}

/// When no entry of `m` holds `k`, `index_of_key` returns `None`.
pub proof fn lemma_index_of_key_none(m: QueryMap, k: Seq<char>)
    requires
        forall|j: int| 0 <= j < m.len() ==> m[j].0 != k,
    ensures
        index_of_key(m, k) is None,
{
    lemma_index_of_key(m, k);
    match index_of_key(m, k) {
        Some(n) => {
            assert(m[n].0 != k);
        },
        None => {},
    }
}

/// The key and the value of one segment: split at the first `=`; a segment
/// without `=` is all key, with an empty value.
pub open spec fn segment_kv(seg: Seq<char>) -> (Seq<char>, Seq<char>) {
    match find_first(seg, set!['=']) {
        Some(i) => (seg.subrange(0, i), seg.subrange(i + 1, seg.len() as int)),
        None => (seg, Seq::empty()),
    }
}

/// Records one key/value pair: a new key is appended with its one value; a
/// key already present keeps its place and appends the value, in order of
/// appearance.
pub open spec fn insert_kv(m: QueryMap, k: Seq<char>, v: Seq<char>) -> QueryMap {
    match index_of_key(m, k) {
        Some(i) => m.update(i, (k, m[i].1.push(v))),
        None => m.push((k, seq![v])),
    }
}

/// Folds the `&`-separated segments of `s` into the map, left to right.
pub open spec fn query_fold(m: QueryMap, s: Seq<char>) -> QueryMap
    decreases s.len(),
    via query_fold_decreases
{
    match find_first(s, set!['&']) {
        None => insert_kv(m, segment_kv(s).0, segment_kv(s).1),
        Some(i) => query_fold(
            insert_kv(m, segment_kv(s.subrange(0, i)).0, segment_kv(s.subrange(0, i)).1),
            s.subrange(i + 1, s.len() as int),
        ),
    }
}

#[via_fn]
proof fn query_fold_decreases(m: QueryMap, s: Seq<char>) {
    crate::text::lemma_find_first(s, set!['&']);
}

/// The mapping a query-component string denotes: the empty string denotes the
/// empty mapping; any other string has its segments recorded in order.
pub open spec fn query_map(s: Seq<char>) -> QueryMap {
    if s.len() == 0 {
        Seq::empty()
    } else {
        query_fold(Seq::empty(), s)
    }
}

/// True when no two entries of `m` hold the same key.
pub open spec fn keys_unique(m: QueryMap) -> bool {
    forall|i: int, j: int| 0 <= i < j < m.len() ==> m[i].0 != m[j].0
}

/// Recording a pair keeps the keys distinct: a repeated key extends its own
/// entry rather than adding one.
pub proof fn lemma_insert_kv_keys_unique(m: QueryMap, k: Seq<char>, v: Seq<char>)
    requires
        keys_unique(m),
    ensures
        keys_unique(insert_kv(m, k, v)),
{
    lemma_index_of_key(m, k);
    match index_of_key(m, k) {
        Some(i) => {
            let m2 = m.update(i, (k, m[i].1.push(v)));
            assert(forall|j: int| 0 <= j < m2.len() ==> m2[j].0 == m[j].0);
        },
        None => {},
    }
}

proof fn lemma_query_fold_keys_unique(m: QueryMap, s: Seq<char>)
    requires
        keys_unique(m),
    ensures
        keys_unique(query_fold(m, s)),
    decreases s.len(),
{
    crate::text::lemma_find_first(s, set!['&']);
    match find_first(s, set!['&']) {
        None => {
            lemma_insert_kv_keys_unique(m, segment_kv(s).0, segment_kv(s).1);
        },
        Some(i) => {
            let seg = s.subrange(0, i);
            lemma_insert_kv_keys_unique(m, segment_kv(seg).0, segment_kv(seg).1);
            lemma_query_fold_keys_unique(
                insert_kv(m, segment_kv(seg).0, segment_kv(seg).1),
                s.subrange(i + 1, s.len() as int),
            );
        },
    }
}

/// Keys are unique: the mapping any query-component string denotes holds
/// each parameter name in exactly one entry.
pub proof fn lemma_query_map_keys_unique(s: Seq<char>)
    ensures
        keys_unique(query_map(s)),
{
    if s.len() != 0 {
        lemma_query_fold_keys_unique(Seq::empty(), s);
    }
}

/// Records `k=v` in the vector as [`insert_kv`] does in the model: the first
/// entry with key `k` appends `v` (a single value is promoted to a pair),
/// and a missing key is appended at the end with its single value.
fn insert_pair<'buf>(data: &mut Vec<(&'buf str, Value<'buf>)>, k: &'buf str, v: &'buf str)
    ensures
        data_view(final(data)@) == insert_kv(data_view(old(data)@), k@, v@),
{
    let mut i: usize = 0;
    while i < data.len()
        invariant
            data@ == old(data)@,
            i <= data@.len(),
            forall|j: int| 0 <= j < i ==> data_view(data@)[j].0 != k@,
        decreases data@.len() - i,
    {
        let ki: &'buf str = data[i].0;
        if str_eq(ki, k) {
            proof {
                lemma_index_of_key_at(data_view(data@), k@, i as int);
            }
            let entry = data.remove(i);
            let k0 = entry.0;
            let newval = match entry.1 {
                Value::Single(v0) => {
                    let mut vs: Vec<&'buf str> = Vec::new();
                    vs.push(v0);
                    vs.push(v);
                    Value::Multiple(vs)
                },
                Value::Multiple(mut vs) => {
                    vs.push(v);
                    Value::Multiple(vs)
                },
            };
            data.insert(i, (k0, newval));
            proof {
                assert(data_view(data@) =~~= insert_kv(data_view(old(data)@), k@, v@));
            }
            return;
        }
        i = i + 1;
    }
    proof {
        lemma_index_of_key_none(data_view(data@), k@);
    }
    data.push((k, Value::Single(v)));
    proof {
        assert(data_view(data@) =~~= insert_kv(data_view(old(data)@), k@, v@));
    }
}

impl<'buf> QueryString<'buf> {
    /// Decomposes the substring that follows `?` in a request target: split
    /// on `&`; each segment splits at its first `=` (or is all key with an
    /// empty value); a repeated key collects its values in order. The empty
    /// string yields the empty mapping. Text is taken verbatim: nothing is
    /// percent-decoded.
    pub fn from(s: &'buf str) -> (q: QueryString<'buf>)
        ensures
            q@ == query_map(s@),
    {
        let mut data: Vec<(&'buf str, Value<'buf>)> = Vec::new();
        if s.is_empty() {
            proof {
                assert(data_view(data@) =~~= query_map(s@));
            }
            return QueryString { data };
        }
        let n = s.unicode_len();
        let mut p: usize = 0;
        proof {
            assert(data_view(data@) =~= Seq::<(Seq<char>, Seq<Seq<char>>)>::empty());
            assert(s@.subrange(0, n as int) =~= s@);
        }
        loop
            invariant
                n == s@.len(),
                0 < n,
                p <= n,
                query_fold(data_view(data@), s@.subrange(p as int, n as int)) == query_map(s@),
            decreases n - p,
        {
            let ghost m0 = data_view(data@);
            let ghost rem = s@.subrange(p as int, n as int);
            let amp = find_char_in(s, p, n, '&');
            let end = match amp {
                Some(j) => j,
                None => n,
            };
            proof {
                match amp {
                    Some(j) => {
                        assert(rem[j - p] == s@[j as int]);
                        assert(forall|x: int| 0 <= x < j - p ==> rem[x] == s@[p + x]);
                        lemma_find_first_at(rem, set!['&'], j - p);
                    },
                    None => {
                        assert(forall|x: int| 0 <= x < rem.len() ==> rem[x] == s@[p + x]);
                        lemma_find_first_none(rem, set!['&']);
                    },
                }
            }
            let ghost seg = s@.subrange(p as int, end as int);
            proof {
                assert(seg =~= rem.subrange(0, end - p));
                if amp is None {
                    assert(seg =~= rem);
                }
            }
            let eq = find_char_in(s, p, end, '=');
            let (k, v): (&'buf str, &'buf str) = match eq {
                Some(e) => {
                    proof {
                        assert(seg[e - p] == s@[e as int]);
                        assert(forall|x: int| 0 <= x < e - p ==> seg[x] == s@[p + x]);
                        lemma_find_first_at(seg, set!['='], e - p);
                    }
                    (s.substring_char(p, e), s.substring_char(e + 1, end))
                },
                None => {
                    proof {
                        assert(forall|x: int| 0 <= x < seg.len() ==> seg[x] == s@[p + x]);
                        lemma_find_first_none(seg, set!['=']);
                    }
                    (s.substring_char(p, end), s.substring_char(end, end))
                },
            };
            proof {
                assert(k@ == segment_kv(seg).0 && v@ == segment_kv(seg).1) by {
                    match find_first(seg, set!['=']) {
                        Some(i) => {
                            assert(k@ =~= seg.subrange(0, i));
                            assert(v@ =~= seg.subrange(i + 1, seg.len() as int));
                        },
                        None => {
                            assert(k@ =~= seg);
                            assert(v@ =~= Seq::<char>::empty());
                        },
                    }
                }
            }
            insert_pair(&mut data, k, v);
            match amp {
                Some(j) => {
                    proof {
                        assert(rem.subrange(0, j - p) =~= seg);
                        assert(rem.subrange(j - p + 1, rem.len() as int) =~= s@.subrange(
                            j + 1,
                            n as int,
                        ));
                        assert(query_fold(m0, rem) == query_fold(
                            data_view(data@),
                            s@.subrange(j + 1, n as int),
                        ));
                    }
                    p = j + 1;
                },
                None => {
                    proof {
                        assert(query_fold(m0, rem) == data_view(data@));
                    }
                    return QueryString { data };
                },
            }
        }
    }

    /// How many distinct parameter names the query string holds.
    pub fn len(&self) -> (n: usize)
        ensures
            n == self@.len(),
    {
        self.data.len()
    }

    /// The value recorded for `key`, or `None` when the query string does not
    /// hold that parameter.
    pub fn get(&self, key: &str) -> (r: Option<&Value<'buf>>)
        ensures
            match r {
                Some(v) => index_of_key(self@, key@) matches Some(i) && v@ == self@[i].1,
                None => index_of_key(self@, key@) is None,
            },
    {
        let mut i: usize = 0;
        while i < self.data.len()
            invariant
                i <= self.data@.len(),
                forall|j: int| 0 <= j < i ==> self@[j].0 != key@,
            decreases self.data@.len() - i,
        {
            let ki: &'buf str = self.data[i].0;
            if str_eq(ki, key) {
                proof {
                    lemma_index_of_key_at(self@, key@, i as int);
                }
                return Some(&self.data[i].1);
            }
            i = i + 1;
        }
        proof {
            lemma_index_of_key_none(self@, key@);
        }
        None
    }
}

} // verus!
