//! The video API endpoint: completes the endpoint URL from the
//! client's template and composes the request URL for one call.  The
//! network exchange itself is the host application's business; the
//! endpoint only computes URLs.

pub mod data;
pub mod query;

use vstd::prelude::*;
use vstd::string::*;

verus! {

// ---------------------------------------------------------------------
// Substring search and replacement, specified and verified.
// ---------------------------------------------------------------------

/// `p` occurs in `s` at position `i`.
pub open spec fn occurs_at(s: Seq<char>, p: Seq<char>, i: int) -> bool {
    0 <= i && i + p.len() <= s.len() && s.subrange(i, i + p.len() as int) == p
}

/// Position of the leftmost occurrence of `p` in `s`, if any.
pub open spec fn spec_find_sub(s: Seq<char>, p: Seq<char>) -> Option<int>
    decreases s.len(),
{
    if occurs_at(s, p, 0) {
        Some(0int)
    } else if s.len() == 0 {
        None
    } else {
        match spec_find_sub(s.drop_first(), p) {
            Some(i) => Some(i + 1),
            None => None,
        }
    }
}

proof fn lemma_occurs_shift(s: Seq<char>, p: Seq<char>, i: int)
    requires
        s.len() > 0,
        i >= 0,
    ensures
        occurs_at(s.drop_first(), p, i) <==> occurs_at(s, p, i + 1),
{
    if 0 <= i && i + p.len() <= s.len() - 1 {
        assert(s.drop_first().subrange(i, i + p.len() as int) =~= s.subrange(
            i + 1,
            i + 1 + p.len() as int,
        ));
    }
}

pub proof fn lemma_find_sub_props(s: Seq<char>, p: Seq<char>)
    ensures
        match spec_find_sub(s, p) {
            Some(i) => occurs_at(s, p, i) && (forall|j: int| 0 <= j < i ==> !occurs_at(s, p, j)),
            None => forall|j: int| !occurs_at(s, p, j),
        },
    decreases s.len(),
{
    if !occurs_at(s, p, 0) && s.len() > 0 {
        lemma_find_sub_props(s.drop_first(), p);
        match spec_find_sub(s.drop_first(), p) {
            Some(i) => {
                lemma_occurs_shift(s, p, i);
                assert forall|j: int| 0 <= j < i + 1 implies !occurs_at(s, p, j) by {
                    if j > 0 {
                        lemma_occurs_shift(s, p, j - 1);
                    }
                }
            }
            None => {
                assert forall|j: int| !occurs_at(s, p, j) by {
                    if j > 0 {
                        lemma_occurs_shift(s, p, j - 1);
                    }
                }
            }
        }
    }
}

proof fn lemma_find_sub_found(s: Seq<char>, p: Seq<char>, i: int)
    requires
        occurs_at(s, p, i),
        forall|j: int| 0 <= j < i ==> !occurs_at(s, p, j),
    ensures
        spec_find_sub(s, p) == Some(i),
    decreases i,
{
    if i > 0 {
        assert(!occurs_at(s, p, 0));
        assert(s.len() > 0);
        lemma_occurs_shift(s, p, i - 1);
        assert forall|j: int| 0 <= j < i - 1 implies !occurs_at(s.drop_first(), p, j) by {
            lemma_occurs_shift(s, p, j);
        }
        lemma_find_sub_found(s.drop_first(), p, i - 1);
    }
}

proof fn lemma_find_sub_none(s: Seq<char>, p: Seq<char>)
    requires
        forall|j: int| !occurs_at(s, p, j),
    ensures
        spec_find_sub(s, p) is None,
{
    lemma_find_sub_props(s, p);
}

/// `s` with every occurrence of `from` replaced by `to`, leftmost
/// first and without revisiting replaced text.
pub open spec fn spec_replace(s: Seq<char>, from: Seq<char>, to: Seq<char>) -> Seq<char>
    decreases s.len(),
    via spec_replace_decreases
{
    if from.len() == 0 {
        s
    } else {
        match spec_find_sub(s, from) {
            None => s,
            Some(i) => s.subrange(0, i) + to + spec_replace(
                s.subrange(i + from.len() as int, s.len() as int),
                from,
                to,
            ),
        }
    }
}

#[via_fn]
proof fn spec_replace_decreases(s: Seq<char>, from: Seq<char>, to: Seq<char>) {
    lemma_find_sub_props(s, from);
}

/// `p` matches the text of `s` starting at position `i`.
fn matches_at(s: &str, p: &str, i: usize) -> (b: bool)
    requires
        s@.len() <= usize::MAX,
        i + p@.len() <= s@.len(),
    ensures
        b == occurs_at(s@, p@, i as int),
{
    let m = p.unicode_len();
    let mut j: usize = 0;
    while j < m
        invariant
            s@.len() <= usize::MAX,
            m == p@.len(),
            i + m <= s@.len(),
            j <= m,
            forall|k: int| 0 <= k < j ==> s@[i + k] == p@[k],
        decreases m - j,
    {
        if s.get_char(i + j) != p.get_char(j) {
            proof {
                assert(s@.subrange(i as int, i as int + m as int)[j as int] == s@[i + j]);
            }
            return false;
        }
        j += 1;
    }
    proof {
        assert(s@.subrange(i as int, i as int + m as int) =~= p@);
    }
    true
}

/// Position of the leftmost occurrence of `p` in `s`, if any.
fn find_sub(s: &str, p: &str) -> (r: Option<usize>)
    requires
        p@.len() > 0,
    ensures
        match r {
            Some(i) => spec_find_sub(s@, p@) == Some(i as int),
            None => spec_find_sub(s@, p@) is None,
        },
{
    let n = s.unicode_len();
    let m = p.unicode_len();
    if m > n {
        proof {
            lemma_find_sub_none(s@, p@);
        }
        return None;
    }
    let mut i: usize = 0;
    while i <= n - m
        invariant
            n == s@.len(),
            m == p@.len(),
            1 <= m <= n,
            i <= n - m + 1,
            forall|j: int| 0 <= j < i ==> !occurs_at(s@, p@, j),
        decreases n - m - i + 1,
    {
        if matches_at(s, p, i) {
            proof {
                lemma_find_sub_found(s@, p@, i as int);
            }
            return Some(i);
        }
        i += 1;
    }
    proof {
        lemma_find_sub_none(s@, p@);
    }
    None
}

/// `s` with every occurrence of `from` replaced by `to`.
fn replace(s: &str, from: &str, to: &str) -> (r: String)
    requires
        from@.len() > 0,
    ensures
        r@ == spec_replace(s@, from@, to@),
    decreases s@.len(),
{
    let n = s.unicode_len();
    let m = from.unicode_len();
    match find_sub(s, from) {
        None => String::from_str(s),
        Some(i) => {
            proof {
                lemma_find_sub_props(s@, from@);
            }
            let mut r = String::from_str(s.substring_char(0, i));
            r.append(to);
            let rest = replace(s.substring_char(i + m, n), from, to);
            r.append(rest.as_str());
            r
        }
    }
}

// ---------------------------------------------------------------------
// The endpoint.
// ---------------------------------------------------------------------

/// The video API endpoint, holding the completed request-URL template.
#[derive(Debug)]
pub struct VideoEndPoint {
    pub url: String,
}

impl VideoEndPoint {
    /// Complete the URL: the API placeholder of the client's template
    /// becomes the concrete videos resource.
    pub fn new(url: String) -> (r: Self)
        ensures
            r.url@ == spec_replace(url@, "API"@, "videos"@),
    {
        proof {
            reveal_strlit("API");
            assert("API"@.len() == 3);
        }
        let url = replace(url.as_str(), "API", "videos");
        VideoEndPoint { url }
    }

    /// The full URL of one call: the endpoint URL followed by the
    /// operation's query-parameter string.  The network exchange on
    /// this URL is the host application's business.
    pub fn request_url(&self, query_search: &str) -> (r: String)
        ensures
            r@ == self.url@ + "&"@ + query_search@,
    {
        let mut r = self.url.clone();
        r.append("&");
        r.append(query_search);
        r
    }
}

} // verus!
