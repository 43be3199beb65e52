//! The query parser: turns the raw query-string portion of a URL into a
//! validated thumbnail request.

use vstd::prelude::*;

verus! {

use crate::ThumbError;
use vstd::string::*;

/// The target width used when the query string carries no `width` pair.
pub const DEFAULT_WIDTH: u32 = 180;

/// The characters of the recognized `url` key.
pub open spec fn url_key() -> Seq<char> {
    seq!['u', 'r', 'l']
}

/// The characters of the recognized `width` key.
pub open spec fn width_key() -> Seq<char> {
    seq!['w', 'i', 'd', 't', 'h']
}

/// The recognized query parameters, each holding the value of the last
/// pair of its key, verbatim and undecoded.
pub struct QueryParams {
    pub url: Option<String>,
    pub width: Option<String>,
}

/// The mathematical model of `QueryParams`: each recognized key's last
/// value, as characters.
#[verifier::ext_equal]
pub ghost struct QueryParamsView {
    pub url: Option<Seq<char>>,
    pub width: Option<Seq<char>>,
}

impl View for QueryParams {
    type V = QueryParamsView;

    open spec fn view(&self) -> QueryParamsView {
        QueryParamsView {
            url: match self.url {
                Some(s) => Some(s@),
                None => None,
            },
            width: match self.width {
                Some(s) => Some(s@),
                None => None,
            },
        }
    }
}

/// Query parameters with neither key seen yet.
pub open spec fn empty_params() -> QueryParamsView {
    QueryParamsView { url: None, width: None }
}

/// The index of the first occurrence of `c` in `s`, or `s.len()` when `c`
/// does not occur.
pub open spec fn find_char(s: Seq<char>, c: char) -> int
    decreases s.len(),
{
    if s.len() == 0 {
        0
    } else if s[0] == c {
        0
    } else {
        1 + find_char(s.skip(1), c)
    }
}

/// `find_char` is the first occurrence: it is within bounds, it points at
/// `c` when `c` occurs, and everything before it differs from `c`.
pub proof fn lemma_find_char(s: Seq<char>, c: char)
    ensures
        0 <= find_char(s, c) <= s.len(),
        find_char(s, c) < s.len() ==> s[find_char(s, c)] == c,
        forall|j: int| 0 <= j < find_char(s, c) ==> s[j] != c,
    decreases s.len(),
{
    if s.len() == 0 {
    } else if s[0] == c {
    } else {
        lemma_find_char(s.skip(1), c);
        let i = find_char(s, c);
        if i < s.len() {
            assert(s.skip(1)[i - 1] == s[i]);
        }
        assert forall|j: int| 0 <= j < i implies s[j] != c by {
            if j > 0 {
                assert(s.skip(1)[j - 1] == s[j]);
            }
        }
    }
}

/// One `key=value` pair read from a segment: the part before the first
/// `=` and everything after it (later `=` characters stay in the value),
/// or nothing for a segment without `=`.
pub open spec fn segment_entry(seg: Seq<char>) -> Option<(Seq<char>, Seq<char>)> {
    let j = find_char(seg, '=');
    if j == seg.len() {
        None
    } else {
        Some((seg.take(j), seg.skip(j + 1)))
    }
}

/// Folds one segment into the accumulated parameters: a `url` or `width`
/// pair overwrites that field; a segment without `=` or with any other
/// key is ignored.
pub open spec fn apply_segment(acc: QueryParamsView, seg: Seq<char>) -> QueryParamsView {
    match segment_entry(seg) {
        None => acc,
        Some(kv) => if kv.0 == url_key() {
            QueryParamsView { url: Some(kv.1), width: acc.width }
        } else if kv.0 == width_key() {
            QueryParamsView { url: acc.url, width: Some(kv.1) }
        } else {
            acc
        },
    }
}

/// The parameters read from `s` starting from `acc`: the segments between
/// `&` separators, folded left to right.
pub open spec fn fold_query(acc: QueryParamsView, s: Seq<char>) -> QueryParamsView
    decreases s.len(),
    via fold_query_decreases
{
    let i = find_char(s, '&');
    if i == s.len() {
        apply_segment(acc, s)
    } else {
        fold_query(apply_segment(acc, s.take(i)), s.skip(i + 1))
    }
}

#[via_fn]
proof fn fold_query_decreases(acc: QueryParamsView, s: Seq<char>) {
    lemma_find_char(s, '&');
}

/// The parameters denoted by a whole raw query string.
pub open spec fn spec_querify(s: Seq<char>) -> QueryParamsView {
    fold_query(empty_params(), s)
}

/// Finds the first occurrence of `c` in `s`, as `find_char` counts it.
fn find_char_exec(s: &str, c: char) -> (i: usize)
    ensures
        i == find_char(s@, c),
{
    proof {
        lemma_find_char(s@, c);
    }
    let n = s.unicode_len();
    let mut i: usize = 0;
    while i < n
        invariant
            n == s@.len(),
            i <= n,
            forall|j: int| 0 <= j < i ==> s@[j] != c,
        decreases n - i,
    {
        if s.get_char(i) == c {
            proof {
                lemma_find_char(s@, c);
            }
            return i;
        }
        i = i + 1;
    }
    i
}

/// True exactly when `s` is the key `url`.
fn is_url_key(s: &str) -> (b: bool)
    ensures
        b == (s@ == url_key()),
{
    let n = s.unicode_len();
    if n != 3 {
        false
    } else {
        let b = s.get_char(0) == 'u' && s.get_char(1) == 'r' && s.get_char(2) == 'l';
        proof {
            if b {
                assert(s@ =~= url_key());
            }
        }
        b
    }
}

/// True exactly when `s` is the key `width`.
fn is_width_key(s: &str) -> (b: bool)
    ensures
        b == (s@ == width_key()),
{
    let n = s.unicode_len();
    if n != 5 {
        false
    } else {
        let b = s.get_char(0) == 'w' && s.get_char(1) == 'i' && s.get_char(2) == 'd' && s.get_char(
            3,
        ) == 't' && s.get_char(4) == 'h';
        proof {
            if b {
                assert(s@ =~= width_key());
            }
        }
        b
    }
}

/// Folds one `key=value` segment into the accumulated parameters.
fn apply_segment_exec(acc: QueryParams, seg: &str) -> (r: QueryParams)
    ensures
        r@ == apply_segment(acc@, seg@),
{
    proof {
        lemma_find_char(seg@, '=');
    }
    let n = seg.unicode_len();
    let j = find_char_exec(seg, '=');
    if j == n {
        acc
    } else {
        let key = seg.substring_char(0, j);
        let value = seg.substring_char(j + 1, n);
        proof {
            assert(key@ =~= seg@.take(j as int));
            assert(value@ =~= seg@.skip(j as int + 1));
        }
        if is_url_key(key) {
            QueryParams { url: Some(String::from_str(value)), width: acc.width }
        } else if is_width_key(key) {
            QueryParams { url: acc.url, width: Some(String::from_str(value)) }
        } else {
            acc
        }
    }
}

/// Folds every `&`-separated segment of `s` into the accumulated
/// parameters, left to right.
fn fold_query_exec(acc: QueryParams, s: &str) -> (r: QueryParams)
    ensures
        r@ == fold_query(acc@, s@),
    decreases s@.len(),
{
    proof {
        lemma_find_char(s@, '&');
    }
    let n = s.unicode_len();
    let i = find_char_exec(s, '&');
    if i == n {
        apply_segment_exec(acc, s)
    } else {
        let head = s.substring_char(0, i);
        let tail = s.substring_char(i + 1, n);
        proof {
            assert(head@ =~= s@.take(i as int));
            assert(tail@ =~= s@.skip(i as int + 1));
        }
        let acc2 = apply_segment_exec(acc, head);
        fold_query_exec(acc2, tail)
    }
}

/// Splits the raw query string on `&` into segments, splits each segment
/// on its first `=`, and keeps the last `url` and `width` values; any
/// other segment is ignored. No percent-decoding is performed.
pub fn querify(string: &str) -> (r: QueryParams)
    ensures
        r@ == spec_querify(string@),
{
    fold_query_exec(QueryParams { url: None, width: None }, string)
}

} // verus!
