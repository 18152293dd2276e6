//! Content negotiation for the administrative endpoint: whether a request's
//! `Accept` header admits a JSON response.

use vstd::prelude::*;

verus! {

use vstd::string::StrSliceExecFns;

/// `needle` occurs contiguously somewhere in `hay`.
pub open spec fn contains_seq(hay: Seq<char>, needle: Seq<char>) -> bool {
    exists|i: int|
        0 <= i && i + needle.len() <= hay.len() && #[trigger] hay.subrange(i, i + needle.len())
            == needle
}

/// Finds whether `needle` occurs contiguously in `hay`.
pub fn contains_str(hay: &str, needle: &str) -> (r: bool)
    ensures
        r == contains_seq(hay@, needle@),
{
    let n = hay.unicode_len();
    let m = needle.unicode_len();
    if m > n {
        proof {
            if contains_seq(hay@, needle@) {
                let i = choose|i: int|
                    0 <= i && i + needle@.len() <= hay@.len() && #[trigger] hay@.subrange(
                        i,
                        i + needle@.len(),
                    ) == needle@;
                assert(false);
            }
        }
        return false;
    }
    if m == 0 {
        proof {
            assert(hay@.subrange(0, 0 + needle@.len() as int) =~= needle@);
        }
        return true;
    }
    let mut i: usize = 0;
    while i <= n - m
        invariant
            n == hay@.len(),
            m == needle@.len(),
            1 <= m <= n,
            i <= n - m + 1,
            forall|p: int|
                0 <= p < i ==> #[trigger] hay@.subrange(p, p + needle@.len()) != needle@,
        decreases n - i,
    {
        let mut j: usize = 0;
        let mut matches = true;
        while j < m && matches
            invariant
                n == hay@.len(),
                m == needle@.len(),
                i + m <= n,
                j <= m,
                matches ==> forall|q: int| 0 <= q < j ==> hay@[i + q] == needle@[q],
                !matches ==> hay@.subrange(i as int, i + needle@.len()) != needle@,
            decreases m - j,
        {
            if hay.get_char(i + j) != needle.get_char(j) {
                matches = false;
                proof {
                    if hay@.subrange(i as int, i + needle@.len()) == needle@ {
                        assert(hay@.subrange(i as int, i + needle@.len())[j as int] == hay@[i
                            + j]);
                        assert(false);
                    }
                }
            }
            j = j + 1;
        }
        if matches {
            proof {
                assert(hay@.subrange(i as int, i + needle@.len()) =~= needle@);
            }
            return true;
        }
        i = i + 1;
    }
    proof {
        if contains_seq(hay@, needle@) {
            let p = choose|p: int|
                0 <= p && p + needle@.len() <= hay@.len() && #[trigger] hay@.subrange(
                    p,
                    p + needle@.len(),
                ) == needle@;
            assert(hay@.subrange(p, p + needle@.len()) != needle@);
        }
    }
    false
}

/// An `Accept` header value admits a JSON response when it names the JSON
/// MIME type or a wildcard that covers it.
pub open spec fn accept_allows_json(a: Seq<char>) -> bool {
    ||| contains_seq(a, "application/json"@)
    ||| contains_seq(a, "application/*"@)
    ||| contains_seq(a, "*/*"@)
}

/// Decides whether a request accepts a JSON response: a request without an
/// `Accept` header does; one with an `Accept` header does exactly when that
/// header admits the JSON MIME type.
pub fn accepts_json(accept: Option<&str>) -> (r: bool)
    ensures
        r == (match accept {
            Some(a) => accept_allows_json(a@),
            None => true,
        }),
{
    match accept {
        None => true,
        Some(a) => {
            let json = contains_str(a, "application/json");
            let app_any = contains_str(a, "application/*");
            let any = contains_str(a, "*/*");
            json || app_any || any
        },
    }
}

} // verus!
