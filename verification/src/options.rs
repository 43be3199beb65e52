//! The validated request options, and the unsigned-integer parsing of the
//! `width` parameter.

use vstd::prelude::*;

verus! {

use crate::ThumbError;
use crate::query::{spec_querify, querify, QueryParams, QueryParamsView, DEFAULT_WIDTH};
use vstd::string::*;

/// True of a decimal digit character.
pub open spec fn is_digit(c: char) -> bool {
    48 <= c as u32 <= 57
}

/// The numeric value of a decimal digit character.
pub open spec fn digit_value(c: char) -> int {
    c as u32 - 48
}

/// True when every character of `s` is a decimal digit.
pub open spec fn all_digits(s: Seq<char>) -> bool {
    forall|i: int| 0 <= i < s.len() ==> is_digit(s[i])
}

/// The number denoted by a sequence of digit characters, most significant
/// first.
pub open spec fn digits_value(s: Seq<char>) -> int
    decreases s.len(),
{
    if s.len() == 0 {
        0
    } else {
        digits_value(s.drop_last()) * 10 + digit_value(s.last())
    }
}

/// A digit string denotes a nonnegative number.
pub proof fn lemma_digits_value_nonneg(s: Seq<char>)
    requires
        all_digits(s),
    ensures
        digits_value(s) >= 0,
    decreases s.len(),
{
    if s.len() > 0 {
        assert(all_digits(s.drop_last())) by {
            assert(forall|i: int| 0 <= i < s.len() - 1 ==> s.drop_last()[i] == s[i]);
        }
        lemma_digits_value_nonneg(s.drop_last());
    }
}

/// Reading more digits can only keep or grow the denoted number.
pub proof fn lemma_digits_value_prefix_le(s: Seq<char>, i: int)
    requires
        0 <= i <= s.len(),
        all_digits(s),
    ensures
        digits_value(s.take(i)) <= digits_value(s),
    decreases s.len() - i,
{
    if i == s.len() {
        assert(s.take(i) =~= s);
    } else {
        lemma_digits_value_prefix_le(s, i + 1);
        assert(s.take(i + 1).drop_last() =~= s.take(i));
        assert(s.take(i + 1).last() == s[i]);
        assert(all_digits(s.take(i))) by {
            assert(forall|j: int| 0 <= j < i ==> s.take(i)[j] == s[j]);
        }
        lemma_digits_value_nonneg(s.take(i));
    }
}

/// What `str::parse::<u32>` accepts: an optional leading `+`, then one or
/// more decimal digits, denoting a value that fits in `u32`.
pub open spec fn parsed_width(s: Seq<char>) -> Option<u32> {
    let digits = if s.len() > 0 && s[0] == '+' {
        s.skip(1)
    } else {
        s
    };
    if digits.len() > 0 && all_digits(digits) && digits_value(digits) <= u32::MAX {
        Some(digits_value(digits) as u32)
    } else {
        None
    }
}

/// Parses `s` as an unsigned integer the way `str::parse::<u32>` does: an
/// optional leading `+`, then one or more decimal digits; anything else,
/// and any value beyond `u32::MAX`, is rejected.
pub fn parse_width(s: &str) -> (r: Option<u32>)
    ensures
        r == parsed_width(s@),
{
    let n = s.unicode_len();
    let mut start: usize = 0;
    if n > 0 && s.get_char(0) == '+' {
        start = 1;
    }
    let ghost digits = if s@.len() > 0 && s@[0] == '+' {
        s@.skip(1)
    } else {
        s@
    };
    if start == n {
        return None;
    }
    let mut acc: u64 = 0;
    let mut i: usize = start;
    while i < n
        invariant
            n == s@.len(),
            start <= i <= n,
            start <= 1,
            start == 1 ==> s@.len() > 0 && s@[0] == '+',
            start == 0 ==> !(s@.len() > 0 && s@[0] == '+'),
            digits == s@.skip(start as int),
            all_digits(s@.subrange(start as int, i as int)),
            acc == digits_value(s@.subrange(start as int, i as int)),
            acc <= u32::MAX,
        decreases n - i,
    {
        let c = s.get_char(i);
        let cv = c as u32;
        proof {
            assert(s@.subrange(start as int, i as int + 1).drop_last() =~= s@.subrange(
                start as int,
                i as int,
            ));
            assert(s@.subrange(start as int, i as int + 1).last() == s@[i as int]);
        }
        if cv < 48 || cv > 57 {
            proof {
                assert(digits[i - start] == s@[i as int]);
                assert(!all_digits(digits));
            }
            return None;
        }
        let d = cv - 48;
        acc = acc * 10 + d as u64;
        i = i + 1;
        proof {
            assert(acc == digits_value(s@.subrange(start as int, i as int)));
            assert(all_digits(s@.subrange(start as int, i as int)));
        }
        if acc > 0xFFFF_FFFF {
            proof {
                assert(s@.skip(0) =~= s@);
                assert(s@.subrange(start as int, i as int) =~= digits.take(i - start));
                if all_digits(digits) {
                    lemma_digits_value_prefix_le(digits, i - start);
                }
            }
            return None;
        }
    }
    proof {
        assert(s@.subrange(start as int, i as int) =~= digits);
    }
    Some(acc as u32)
}

/// A validated thumbnail request: the source URL and the target width.
#[derive(Debug)]
pub struct ThumbOptions {
    pub url: String,
    pub width: u32,
}

/// The mathematical model of `ThumbOptions`.
#[verifier::ext_equal]
pub ghost struct ThumbOptionsView {
    pub url: Seq<char>,
    pub width: u32,
}

impl View for ThumbOptions {
    type V = ThumbOptionsView;

    open spec fn view(&self) -> ThumbOptionsView {
        ThumbOptionsView { url: self.url@, width: self.width }
    }
}

/// The request that parsed query parameters denote: the `url` value
/// verbatim (empty when absent) and the `width` value as an unsigned
/// integer (`DEFAULT_WIDTH` when absent); `InvalidWidth` exactly when a
/// `width` value is present but does not parse.
pub open spec fn spec_options(q: QueryParamsView) -> Result<ThumbOptionsView, ThumbError> {
    let url = match q.url {
        Some(u) => u,
        None => Seq::<char>::empty(),
    };
    match q.width {
        None => Ok(ThumbOptionsView { url, width: DEFAULT_WIDTH }),
        Some(w) => match parsed_width(w) {
            Some(n) => Ok(ThumbOptionsView { url, width: n }),
            None => Err(ThumbError::InvalidWidth),
        },
    }
}

impl ThumbOptions {
    /// Builds the request options from parsed query parameters: the `url`
    /// value is taken verbatim and defaults to the empty string; the
    /// `width` value is parsed as an unsigned integer and defaults to
    /// `DEFAULT_WIDTH`. A `width` that does not parse is rejected as
    /// `InvalidWidth` instead of faulting.
    pub fn new(opts: QueryParams) -> (r: Result<ThumbOptions, ThumbError>)
        ensures
            spec_options(opts@) matches Ok(v) ==> r matches Ok(o) && o@ == v,
            spec_options(opts@) matches Err(e) ==> r == Err::<ThumbOptions, ThumbError>(e),
    {
        let QueryParams { url: url_opt, width: width_opt } = opts;
        let url: String = match url_opt {
            Some(val) => val,
            None => {
                let empty = String::from_str("");
                proof {
                    reveal_strlit("");
                    assert(empty@ =~= Seq::<char>::empty());
                }
                empty
            },
        };
        let width: u32 = match width_opt {
            Some(val) => {
                match parse_width(val.as_str()) {
                    Some(w) => w,
                    None => {
                        return Err(ThumbError::InvalidWidth);
                    },
                }
            },
            None => DEFAULT_WIDTH,
        };
        let r = ThumbOptions { url, width };
        proof {
            assert(spec_options(opts@) matches Ok(v) ==> r@ =~= v);
        }
        Ok(r)
    }

    /// Builds the options straight from a raw query string, as the router
    /// does: `querify`, then `ThumbOptions::new`.
    pub fn from_query(query_params: &str) -> (r: Result<ThumbOptions, ThumbError>)
        ensures
            spec_options(spec_querify(query_params@)) matches Ok(v) ==> r matches Ok(o) && o@ == v,
            spec_options(spec_querify(query_params@)) matches Err(e) ==> r == Err::<
                ThumbOptions,
                ThumbError,
            >(e),
    {
        let qs = querify(query_params);
        ThumbOptions::new(qs)
    }
}

} // verus!
