//! Parsing of a URL fragment (`key=value&key=value...`) into an
//! ordered key-to-value mapping, as delivered by the OAuth redirect.

use vstd::prelude::*;
use vstd::string::*;

use crate::error::InputError;

verus! {

// ---------------------------------------------------------------------
// Specification: what parsing a fragment means.
// ---------------------------------------------------------------------

/// Index of the first occurrence of `c` in `s`, if any.
pub open spec fn first_index_of(s: Seq<char>, c: char) -> Option<int>
    decreases s.len(),
{
    if s.len() == 0 {
        None
    } else if s[0] == c {
        Some(0int)
    } else {
        match first_index_of(s.drop_first(), c) {
            Some(i) => Some(i + 1),
            None => None,
        }
    }
}

pub proof fn lemma_first_index_of_in_range(s: Seq<char>, c: char)
    ensures
        match first_index_of(s, c) {
            Some(i) => 0 <= i < s.len() && s[i] == c && (forall|j: int| 0 <= j < i ==> s[j] != c),
            None => forall|j: int| 0 <= j < s.len() ==> s[j] != c,
        },
    decreases s.len(),
{
    if s.len() > 0 && s[0] != c {
        lemma_first_index_of_in_range(s.drop_first(), c);
        match first_index_of(s.drop_first(), c) {
            Some(i) => {
                assert(s.drop_first()[i] == s[i + 1]);
                assert forall|j: int| 0 <= j < i + 1 implies s[j] != c by {
                    if j > 0 {
                        assert(s.drop_first()[j - 1] == s[j]);
                    }
                }
            }
            None => {
                assert forall|j: int| 0 <= j < s.len() implies s[j] != c by {
                    if j > 0 {
                        assert(s.drop_first()[j - 1] == s[j]);
                    }
                }
            }
        }
    }
}

proof fn lemma_first_index_of_found(s: Seq<char>, c: char, i: int)
    requires
        0 <= i < s.len(),
        s[i] == c,
        forall|j: int| 0 <= j < i ==> s[j] != c,
    ensures
        first_index_of(s, c) == Some(i),
    decreases i,
{
    if i > 0 {
        assert(s[0] != c);
        assert(s.drop_first()[i - 1] == s[i]);
        assert forall|j: int| 0 <= j < i - 1 implies s.drop_first()[j] != c by {
            assert(s.drop_first()[j] == s[j + 1]);
        }
        lemma_first_index_of_found(s.drop_first(), c, i - 1);
    }
}

proof fn lemma_first_index_of_none(s: Seq<char>, c: char)
    requires
        forall|j: int| 0 <= j < s.len() ==> s[j] != c,
    ensures
        first_index_of(s, c) is None,
{
    lemma_first_index_of_in_range(s, c);
}

/// How one `key=value` pair is read: split at the first `=`.  A pair
/// without `=` or with nothing after it lacks a value; a pair with
/// nothing before it lacks a key.
pub open spec fn spec_pair(p: Seq<char>) -> Result<(Seq<char>, Seq<char>), InputError> {
    match first_index_of(p, '=') {
        None => Err(InputError::MissingValue),
        Some(i) => {
            let key = p.subrange(0, i);
            let value = p.subrange(i + 1, p.len() as int);
            if key.len() == 0 {
                Err(InputError::MissingKey)
            } else if value.len() == 0 {
                Err(InputError::MissingValue)
            } else {
                Ok((key, value))
            }
        }
    }
}

/// The `&`-separated pairs of a non-empty fragment, in order.  One
/// malformed pair aborts the whole parse.
pub open spec fn spec_pairs(s: Seq<char>) -> Result<Seq<(Seq<char>, Seq<char>)>, InputError>
    decreases s.len(),
    via spec_pairs_decreases
{
    match first_index_of(s, '&') {
        None => match spec_pair(s) {
            Ok(kv) => Ok(seq![kv]),
            Err(e) => Err(e),
        },
        Some(i) => match spec_pair(s.subrange(0, i)) {
            Ok(kv) => match spec_pairs(s.subrange(i + 1, s.len() as int)) {
                Ok(rest) => Ok(seq![kv] + rest),
                Err(e) => Err(e),
            },
            Err(e) => Err(e),
        },
    }
}

#[via_fn]
proof fn spec_pairs_decreases(s: Seq<char>) {
    lemma_first_index_of_in_range(s, '&');
}

/// No two entries share a key.
pub open spec fn distinct_keys(m: Seq<(Seq<char>, Seq<char>)>) -> bool {
    forall|a: int, b: int| 0 <= a < b < m.len() ==> m[a].0 != m[b].0
}

/// Insertion with last-write-wins semantics: an existing key keeps its
/// position and takes the new value; a fresh key goes to the end.
pub open spec fn spec_upsert(
    m: Seq<(Seq<char>, Seq<char>)>,
    kv: (Seq<char>, Seq<char>),
) -> Seq<(Seq<char>, Seq<char>)> {
    if exists|i: int| 0 <= i < m.len() && m[i].0 == kv.0 {
        m.update(choose|i: int| 0 <= i < m.len() && m[i].0 == kv.0, kv)
    } else {
        m.push(kv)
    }
}

/// The pairs folded left to right into a mapping, duplicates resolved
/// by `spec_upsert`.
pub open spec fn spec_dedup(ps: Seq<(Seq<char>, Seq<char>)>) -> Seq<(Seq<char>, Seq<char>)>
    decreases ps.len(),
{
    if ps.len() == 0 {
        Seq::empty()
    } else {
        spec_upsert(spec_dedup(ps.drop_last()), ps.last())
    }
}

/// The meaning of parsing a whole fragment: the empty fragment is an
/// empty mapping, anything else is its pairs folded into a mapping, or
/// the first error.
pub open spec fn spec_fragments(s: Seq<char>) -> Result<Seq<(Seq<char>, Seq<char>)>, InputError> {
    if s.len() == 0 {
        Ok(Seq::empty())
    } else {
        match spec_pairs(s) {
            Ok(ps) => Ok(spec_dedup(ps)),
            Err(e) => Err(e),
        }
    }
}

// ---------------------------------------------------------------------
// The parse law: a well-formed fragment parses to exactly its pairs.
// ---------------------------------------------------------------------

/// One pair rendered as `key=value`.
pub open spec fn spec_render_pair(kv: (Seq<char>, Seq<char>)) -> Seq<char> {
    kv.0 + seq!['='] + kv.1
}

/// Pairs rendered as a fragment `k1=v1&k2=v2&...`.
pub open spec fn spec_render(ps: Seq<(Seq<char>, Seq<char>)>) -> Seq<char>
    decreases ps.len(),
{
    if ps.len() == 0 {
        Seq::empty()
    } else if ps.len() == 1 {
        spec_render_pair(ps[0])
    } else {
        spec_render_pair(ps[0]) + seq!['&'] + spec_render(ps.drop_first())
    }
}

/// A pair a fragment can carry: both parts non-empty and free of the
/// two separators.
pub open spec fn valid_pair(kv: (Seq<char>, Seq<char>)) -> bool {
    &&& kv.0.len() > 0
    &&& kv.1.len() > 0
    &&& forall|j: int| 0 <= j < kv.0.len() ==> kv.0[j] != '&' && kv.0[j] != '='
    &&& forall|j: int| 0 <= j < kv.1.len() ==> kv.1[j] != '&' && kv.1[j] != '='
}

/// Pairs a fragment can carry: each well formed, keys distinct.
pub open spec fn valid_pairs(ps: Seq<(Seq<char>, Seq<char>)>) -> bool {
    (forall|i: int| 0 <= i < ps.len() ==> valid_pair(ps[i])) && distinct_keys(ps)
}

proof fn lemma_first_index_of_append(a: Seq<char>, b: Seq<char>, c: char)
    requires
        forall|j: int| 0 <= j < a.len() ==> a[j] != c,
    ensures
        first_index_of(a + b, c) == match first_index_of(b, c) {
            Some(i) => Some(a.len() + i),
            None => None::<int>,
        },
    decreases a.len(),
{
    if a.len() == 0 {
        assert(a + b =~= b);
    } else {
        assert forall|j: int| 0 <= j < a.drop_first().len() implies a.drop_first()[j] != c by {
            assert(a.drop_first()[j] == a[j + 1]);
        }
        lemma_first_index_of_append(a.drop_first(), b, c);
        assert((a + b)[0] == a[0]);
        assert((a + b).drop_first() =~= a.drop_first() + b);
    }
}

proof fn lemma_render_pair_no_amp(kv: (Seq<char>, Seq<char>))
    requires
        valid_pair(kv),
    ensures
        forall|j: int|
            0 <= j < spec_render_pair(kv).len() ==> #[trigger] spec_render_pair(kv)[j] != '&',
{
    let p = spec_render_pair(kv);
    assert forall|j: int| 0 <= j < p.len() implies p[j] != '&' by {
        if j < kv.0.len() {
            assert(p[j] == kv.0[j]);
        } else if j == kv.0.len() {
            assert(p[j] == '=');
        } else {
            assert(p[j] == kv.1[j - kv.0.len() - 1]);
        }
    }
}

proof fn lemma_spec_pair_of_render(kv: (Seq<char>, Seq<char>))
    requires
        valid_pair(kv),
    ensures
        spec_pair(spec_render_pair(kv)) == Ok::<_, InputError>(kv),
{
    let p = spec_render_pair(kv);
    let tail = seq!['='] + kv.1;
    assert(tail[0] == '=');
    assert(first_index_of(tail, '=') == Some(0int));
    lemma_first_index_of_append(kv.0, tail, '=');
    assert(p =~= kv.0 + tail);
    let i = kv.0.len() as int;
    assert(first_index_of(p, '=') == Some(i));
    assert(p.subrange(0, i) =~= kv.0);
    assert(p.subrange(i + 1, p.len() as int) =~= kv.1);
    assert((kv.0, kv.1) == kv);
}

proof fn lemma_spec_pairs_of_render(ps: Seq<(Seq<char>, Seq<char>)>)
    requires
        ps.len() > 0,
        forall|i: int| 0 <= i < ps.len() ==> valid_pair(ps[i]),
    ensures
        spec_pairs(spec_render(ps)) == Ok::<_, InputError>(ps),
    decreases ps.len(),
{
    let s = spec_render(ps);
    lemma_render_pair_no_amp(ps[0]);
    if ps.len() == 1 {
        lemma_first_index_of_none(s, '&');
        lemma_spec_pair_of_render(ps[0]);
        assert(seq![ps[0]] =~= ps);
    } else {
        let head = spec_render_pair(ps[0]);
        let rest = spec_render(ps.drop_first());
        let tail = seq!['&'] + rest;
        assert(tail[0] == '&');
        assert(first_index_of(tail, '&') == Some(0int));
        lemma_first_index_of_append(head, tail, '&');
        assert(s =~= head + tail);
        let i = head.len() as int;
        assert(first_index_of(s, '&') == Some(i));
        assert(s.subrange(0, i) =~= head);
        assert(s.subrange(i + 1, s.len() as int) =~= rest);
        lemma_spec_pair_of_render(ps[0]);
        assert forall|k: int| 0 <= k < ps.drop_first().len() implies valid_pair(
            ps.drop_first()[k],
        ) by {
            assert(ps.drop_first()[k] == ps[k + 1]);
        }
        lemma_spec_pairs_of_render(ps.drop_first());
        assert(seq![ps[0]] + ps.drop_first() =~= ps);
    }
}

proof fn lemma_dedup_distinct(ps: Seq<(Seq<char>, Seq<char>)>)
    requires
        distinct_keys(ps),
    ensures
        spec_dedup(ps) == ps,
    decreases ps.len(),
{
    if ps.len() > 0 {
        let m = ps.drop_last();
        let kv = ps.last();
        assert forall|a: int, b: int| 0 <= a < b < m.len() implies m[a].0 != m[b].0 by {
            assert(ps[a].0 != ps[b].0);
        }
        lemma_dedup_distinct(m);
        assert forall|k: int| 0 <= k < m.len() implies m[k].0 != kv.0 by {
            assert(ps[k].0 != ps[ps.len() - 1].0);
        }
        assert(!(exists|k: int| 0 <= k < m.len() && m[k].0 == kv.0));
        assert(m.push(kv) =~~= ps);
    }
}

/// Every fragment assembled from well-formed `key=value` pairs with
/// distinct keys parses back to exactly those pairs, in that order;
/// the empty fragment parses to the empty mapping.
pub proof fn lemma_fragments_of_render(ps: Seq<(Seq<char>, Seq<char>)>)
    requires
        valid_pairs(ps),
    ensures
        spec_fragments(spec_render(ps)) == Ok::<_, InputError>(ps),
{
    if ps.len() == 0 {
        assert(spec_render(ps).len() == 0);
        assert(ps =~= Seq::<(Seq<char>, Seq<char>)>::empty());
    } else {
        assert(spec_render(ps).len() > 0);
        lemma_spec_pairs_of_render(ps);
        lemma_dedup_distinct(ps);
    }
}

// ---------------------------------------------------------------------
// The fragment mapping.
// ---------------------------------------------------------------------

/// An ordered mapping from fragment key to value: insertion order is
/// kept and keys are unique (last write wins).  Created once per parse
/// and owned by the caller.
#[derive(Debug)]
pub struct FragmentMap {
    pub pairs: Vec<(String, String)>,
}

impl View for FragmentMap {
    type V = Seq<(Seq<char>, Seq<char>)>;

    open spec fn view(&self) -> Seq<(Seq<char>, Seq<char>)> {
        Seq::new(self.pairs@.len(), |i: int| (self.pairs@[i].0@, self.pairs@[i].1@))
    }
}

impl FragmentMap {
    /// Well-formedness: no key occurs twice.
    pub open spec fn wf(&self) -> bool {
        distinct_keys(self@)
    }

    /// An empty mapping.
    pub fn new() -> (m: FragmentMap)
        ensures
            m@ == Seq::<(Seq<char>, Seq<char>)>::empty(),
            m.wf(),
    {
        let m = FragmentMap { pairs: Vec::new() };
        proof {
            assert(m@ =~~= Seq::<(Seq<char>, Seq<char>)>::empty());
        }
        m
    }

    /// The number of entries.
    pub fn len(&self) -> (n: usize)
        ensures
            n == self@.len(),
    {
        self.pairs.len()
    }

    /// The key and value at position `i`.
    pub fn pair_at(&self, i: usize) -> (kv: (&String, &String))
        requires
            i < self@.len(),
        ensures
            kv.0@ == self@[i as int].0,
            kv.1@ == self@[i as int].1,
    {
        (&self.pairs[i].0, &self.pairs[i].1)
    }

    /// Insert with last-write-wins semantics: an existing key keeps its
    /// position and takes the new value; a fresh key goes to the end.
    pub fn insert(&mut self, key: String, value: String)
        requires
            old(self).wf(),
        ensures
            final(self).wf(),
            final(self)@ == spec_upsert(old(self)@, (key@, value@)),
    {
        let n = self.pairs.len();
        let mut i: usize = 0;
        while i < n
            invariant
                *self == *old(self),
                n == self.pairs@.len(),
                i <= n,
                old(self).wf(),
                forall|j: int| 0 <= j < i ==> self@[j].0 != key@,
            decreases n - i,
        {
            if self.pairs[i].0 == key {
                proof {
                    assert(old(self)@[i as int].0 == key@);
                }
                self.pairs[i] = (key, value);
                proof {
                    let m = old(self)@;
                    let kv = (key@, value@);
                    let k0 = choose|k: int| 0 <= k < m.len() && m[k].0 == kv.0;
                    assert(m[i as int].0 == kv.0);
                    if k0 != i as int {
                        if k0 < i as int {
                            assert(m[k0].0 != m[i as int].0);
                        } else {
                            assert(m[i as int].0 != m[k0].0);
                        }
                    }
                    assert(self@ =~~= m.update(i as int, kv));
                    assert forall|a: int|
                        0 <= a < self@.len() implies self@[a].0 == m[a].0 by {}
                    assert forall|a: int, b: int|
                        0 <= a < b < self@.len() implies self@[a].0 != self@[b].0 by {
                        assert(m[a].0 != m[b].0);
                    }
                }
                return;
            }
            i += 1;
        }
        proof {
            assert(forall|j: int| 0 <= j < old(self)@.len() ==> old(self)@[j].0 != key@);
        }
        self.pairs.push((key, value));
        proof {
            let m = old(self)@;
            let kv = (key@, value@);
            assert(!(exists|k: int| 0 <= k < m.len() && m[k].0 == kv.0));
            assert(self@ =~~= m.push(kv));
            assert forall|a: int, b: int|
                0 <= a < b < self@.len() implies self@[a].0 != self@[b].0 by {
                if b < m.len() {
                    assert(m[a].0 != m[b].0);
                } else {
                    assert(self@[b].0 == key@);
                    assert(m[a].0 != key@);
                }
            }
        }
    }
}

// ---------------------------------------------------------------------
// Executable parsing.
// ---------------------------------------------------------------------

/// Position of the first occurrence of `c` in `s`, if any.
fn find_char(s: &str, c: char) -> (r: Option<usize>)
    ensures
        match r {
            Some(i) => first_index_of(s@, c) == Some(i as int),
            None => first_index_of(s@, c) is None,
        },
{
    let n = s.unicode_len();
    let mut i: usize = 0;
    while i < n
        invariant
            n == s@.len(),
            i <= n,
            forall|j: int| 0 <= j < i ==> s@[j] != c,
        decreases n - i,
    {
        if s.get_char(i) == c {
            proof {
                lemma_first_index_of_found(s@, c, i as int);
            }
            return Some(i);
        }
        i += 1;
    }
    proof {
        lemma_first_index_of_none(s@, c);
    }
    None
}

/// Read one `key=value` pair.
fn parse_pair(p: &str) -> (r: Result<(String, String), InputError>)
    ensures
        match r {
            Ok(kv) => spec_pair(p@) == Ok::<_, InputError>((kv.0@, kv.1@)),
            Err(e) => spec_pair(p@) == Err::<(Seq<char>, Seq<char>), _>(e),
        },
{
    let n = p.unicode_len();
    match find_char(p, '=') {
        None => Err(InputError::MissingValue),
        Some(i) => {
            proof {
                lemma_first_index_of_in_range(p@, '=');
            }
            if i == 0 {
                Err(InputError::MissingKey)
            } else if i + 1 == n {
                Err(InputError::MissingValue)
            } else {
                let key = p.substring_char(0, i);
                let value = p.substring_char(i + 1, n);
                Ok((String::from_str(key), String::from_str(value)))
            }
        }
    }
}

/// The view of a vector of owned pairs.
pub open spec fn pairs_view(v: Seq<(String, String)>) -> Seq<(Seq<char>, Seq<char>)> {
    Seq::new(v.len(), |i: int| (v[i].0@, v[i].1@))
}

/// Read all `&`-separated pairs of a non-empty fragment.
fn parse_pairs(s: &str) -> (r: Result<Vec<(String, String)>, InputError>)
    ensures
        match r {
            Ok(v) => spec_pairs(s@) == Ok::<_, InputError>(pairs_view(v@)),
            Err(e) => spec_pairs(s@) == Err::<Seq<(Seq<char>, Seq<char>)>, _>(e),
        },
    decreases s@.len(),
{
    let n = s.unicode_len();
    match find_char(s, '&') {
        None => match parse_pair(s) {
            Ok(kv) => {
                let ghost kvv = (kv.0@, kv.1@);
                let mut v: Vec<(String, String)> = Vec::new();
                v.push(kv);
                proof {
                    assert(pairs_view(v@) =~~= seq![kvv]);
                }
                Ok(v)
            }
            Err(e) => Err(e),
        },
        Some(i) => {
            proof {
                lemma_first_index_of_in_range(s@, '&');
            }
            let head = s.substring_char(0, i);
            let tail = s.substring_char(i + 1, n);
            match parse_pair(head) {
                Err(e) => Err(e),
                Ok(kv) => match parse_pairs(tail) {
                    Err(e) => Err(e),
                    Ok(mut rest) => {
                        let ghost kvv = (kv.0@, kv.1@);
                        let ghost rest0 = rest@;
                        rest.insert(0, kv);
                        proof {
                            assert(pairs_view(rest@) =~~= seq![kvv] + pairs_view(rest0));
                        }
                        Ok(rest)
                    }
                },
            }
        }
    }
}

/// Parse a whole fragment into a mapping: the empty fragment gives the
/// empty mapping; otherwise every pair must be well formed, and
/// duplicate keys resolve to the last written value.
pub(crate) fn parse_fragment(s: &str) -> (r: Result<FragmentMap, InputError>)
    ensures
        match r {
            Ok(m) => m.wf() && spec_fragments(s@) == Ok::<_, InputError>(m@),
            Err(e) => spec_fragments(s@) == Err::<Seq<(Seq<char>, Seq<char>)>, _>(e),
        },
{
    if s.unicode_len() == 0 {
        return Ok(FragmentMap::new());
    }
    match parse_pairs(s) {
        Err(e) => Err(e),
        Ok(pairs) => {
            let mut m = FragmentMap::new();
            let n = pairs.len();
            let mut idx: usize = 0;
            proof {
                assert(pairs_view(pairs@).subrange(0, 0) =~~= Seq::<(Seq<char>, Seq<char>)>::empty());
            }
            while idx < n
                invariant
                    n == pairs@.len(),
                    idx <= n,
                    m.wf(),
                    m@ == spec_dedup(pairs_view(pairs@).subrange(0, idx as int)),
                decreases n - idx,
            {
                let key = pairs[idx].0.clone();
                let value = pairs[idx].1.clone();
                let ghost prefix = pairs_view(pairs@).subrange(0, idx as int);
                m.insert(key, value);
                proof {
                    let longer = pairs_view(pairs@).subrange(0, idx + 1);
                    assert(longer.drop_last() =~~= prefix);
                    assert(longer.last() == (pairs@[idx as int].0@, pairs@[idx as int].1@));
                }
                idx += 1;
            }
            proof {
                assert(pairs_view(pairs@).subrange(0, n as int) =~~= pairs_view(pairs@));
            }
            Ok(m)
        }
    }
}

/// Extract the key-value pairs carried by the fragment of a redirect
/// URL, if the URL has one; a URL without a fragment yields the empty
/// mapping.
pub fn extract_query_fragments(hash: Option<&str>) -> (r: Result<FragmentMap, InputError>)
    ensures
        match r {
            Ok(m) => m.wf() && match hash {
                Some(h) => spec_fragments(h@) == Ok::<_, InputError>(m@),
                None => m@ == Seq::<(Seq<char>, Seq<char>)>::empty(),
            },
            Err(e) => hash matches Some(h) && spec_fragments(h@) == Err::<
                Seq<(Seq<char>, Seq<char>)>,
                _,
            >(e),
        },
{
    match hash {
        Some(h) => parse_fragment(h),
        None => Ok(FragmentMap::new()),
    }
}

} // verus!

