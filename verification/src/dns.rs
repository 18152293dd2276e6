//! DNS hostname validation.
//!
//! A request is attributed to a hostname label only when its authority's
//! host component is a valid DNS name: dot-separated labels of at most 63
//! ASCII letters, digits and hyphens each, not starting or ending with a
//! hyphen, at most 253 characters in all. The final label must not be purely
//! numeric, which is what tells a hostname from an IPv4 literal; an IPv6
//! literal contains colons (and brackets) and is likewise no DNS name.

use vstd::prelude::*;

verus! {

use vstd::string::StrSliceExecFns;

/// `'0'` through `'9'`.
pub open spec fn is_digit_char(c: char) -> bool {
    '0' <= c && c <= '9'
}

/// A character allowed inside a DNS label: an ASCII letter, a digit, or a
/// hyphen.
pub open spec fn is_label_char(c: char) -> bool {
    ('a' <= c && c <= 'z') || ('A' <= c && c <= 'Z') || is_digit_char(c) || c == '-'
}

/// A valid DNS label: 1 to 63 label characters, neither starting nor ending
/// with a hyphen.
pub open spec fn is_dns_label(s: Seq<char>) -> bool {
    &&& 1 <= s.len() <= 63
    &&& (forall|i: int| 0 <= i < s.len() ==> is_label_char(#[trigger] s[i]))
    &&& s[0] != '-'
    &&& s[s.len() - 1] != '-'
}

/// Every character is a decimal digit.
pub open spec fn all_digits(s: Seq<char>) -> bool {
    forall|i: int| 0 <= i < s.len() ==> is_digit_char(#[trigger] s[i])
}

/// The dot-separated labels are each valid, and the final one is not purely
/// numeric.
pub open spec fn dns_labels_ok(s: Seq<char>) -> bool
    decreases s.len(),
{
    match s.index_of_first('.') {
        Some(i) => {
            proof {
                s.index_of_first_ensures('.');
            }
            is_dns_label(s.take(i)) && dns_labels_ok(s.skip(i + 1))
        },
        None => is_dns_label(s) && !all_digits(s),
    }
}

/// A valid DNS name: at most 253 characters of valid dot-separated labels.
pub open spec fn is_dns_name(s: Seq<char>) -> bool {
    s.len() <= 253 && dns_labels_ok(s)
}

/// The first `'.'` of `s` stands at `i` exactly when `s[i]` is a dot and no
/// earlier character is.
proof fn lemma_first_dot(s: Seq<char>, i: int)
    requires
        0 <= i < s.len(),
        s[i] == '.',
        forall|k: int| 0 <= k < i ==> s[k] != '.',
    ensures
        s.index_of_first('.') == Some(i),
{
    s.index_of_first_ensures('.');
    assert(s.contains('.'));
    match s.index_of_first('.') {
        Some(idx) => {
            if idx < i {
                assert(s[idx] == '.');
                assert(false);
            }
            if idx > i {
                assert(s[i] != '.');
                assert(false);
            }
        },
        None => {
            assert(false);
        },
    }
}

/// A sequence without dots has no first dot.
proof fn lemma_no_dot(s: Seq<char>)
    requires
        forall|k: int| 0 <= k < s.len() ==> s[k] != '.',
    ensures
        s.index_of_first('.') == None::<int>,
{
    s.index_of_first_ensures('.');
    match s.index_of_first('.') {
        Some(idx) => {
            assert(s[idx] == '.');
            assert(false);
        },
        None => {},
    }
}

/// If the first label of `s` (the prefix up to the first dot, or all of `s`
/// when it has none) is not a valid DNS label, `s` is not a valid name.
proof fn lemma_first_label_invalid(s: Seq<char>, m: int)
    requires
        0 <= m <= s.len(),
        forall|k: int| 0 <= k < m ==> s[k] != '.',
        m == s.len() || s[m] == '.',
        !is_dns_label(s.take(m)),
    ensures
        !dns_labels_ok(s),
{
    if m == s.len() {
        lemma_no_dot(s);
        assert(s.take(m) =~= s);
    } else {
        lemma_first_dot(s, m);
    }
}

/// A character that is neither a dot nor a label character makes the whole
/// of `s` invalid, wherever the first label ends.
proof fn lemma_bad_char(s: Seq<char>, p: int)
    requires
        0 <= p < s.len(),
        forall|k: int| 0 <= k <= p ==> s[k] != '.',
        !is_label_char(s[p]),
    ensures
        !dns_labels_ok(s),
{
    s.index_of_first_ensures('.');
    match s.index_of_first('.') {
        Some(idx) => {
            assert(idx > p) by {
                if idx <= p {
                    assert(s[idx] == '.');
                }
            }
            assert(s.take(idx)[p] == s[p]);
            assert(!is_dns_label(s.take(idx)));
        },
        None => {
            assert(!is_dns_label(s)) by {
                if is_dns_label(s) {
                    assert(is_label_char(s[p]));
                }
            }
        },
    }
}

/// Unfolds one valid label followed by a dot: the rest decides.
proof fn lemma_first_label_valid(s: Seq<char>, m: int)
    requires
        0 <= m < s.len(),
        forall|k: int| 0 <= k < m ==> s[k] != '.',
        s[m] == '.',
        is_dns_label(s.take(m)),
    ensures
        dns_labels_ok(s) == dns_labels_ok(s.skip(m + 1)),
{
    lemma_first_dot(s, m);
}

/// Checks whether `host` is a valid DNS name, returning an owned copy of it
/// when it is. IP literals (v4 or v6) and anything else that does not parse
/// are rejected with `None`.
pub fn dns_hostname(host: &str) -> (r: Option<String>)
    ensures
        match r {
            Some(h) => h@ == host@ && is_dns_name(host@),
            None => !is_dns_name(host@),
        },
{
    let ghost s = host@;
    let n = host.unicode_len();
    if n == 0 {
        proof {
            lemma_no_dot(s);
        }
        return None;
    }
    if n > 253 {
        return None;
    }
    let mut pos: usize = 0;
    proof {
        assert(s.skip(0) =~= s);
    }
    loop
        invariant
            s == host@,
            n == s.len(),
            1 <= n <= 253,
            pos <= n,
            dns_labels_ok(s) == dns_labels_ok(s.skip(pos as int)),
        decreases n - pos,
    {
        let ghost rem = s.skip(pos as int);
        proof {
            assert(forall|k: int| 0 <= k < rem.len() ==> rem[k] == s[pos + k]);
        }
        // Scan the label that starts at `pos`.
        let mut j: usize = pos;
        let mut saw_nondigit = false;
        loop
            invariant
                s == host@,
                n == s.len(),
                pos <= j <= n,
                rem == s.skip(pos as int),
                dns_labels_ok(s) == dns_labels_ok(rem),
                forall|k: int| pos <= k < j ==> s[k] != '.' && is_label_char(#[trigger] s[k]),
                saw_nondigit == exists|k: int|
                    pos <= k < j && !is_digit_char(#[trigger] s[k]),
            ensures
                pos <= j <= n,
                j == n || s[j as int] == '.',
                forall|k: int| pos <= k < j ==> s[k] != '.' && is_label_char(#[trigger] s[k]),
                saw_nondigit == exists|k: int|
                    pos <= k < j && !is_digit_char(#[trigger] s[k]),
            decreases n - j,
        {
            if j == n {
                break;
            }
            let c = host.get_char(j);
            let u = c as u32;
            if u == 46 {
                proof {
                    assert(c == '.');
                }
                break;
            }
            let is_digit = 48 <= u && u <= 57;
            let ok = (97 <= u && u <= 122) || (65 <= u && u <= 90) || is_digit || u == 45;
            if !ok {
                proof {
                    assert(c == s[j as int]);
                    assert(s[j as int] != '.') by {
                        if c == '.' {
                            assert(c as u32 == 46);
                        }
                    }
                    assert(!is_label_char(s[j as int]));
                    assert(forall|k: int| 0 <= k < rem.len() ==> rem[k] == s[pos + k]);
                    assert(forall|k: int| 0 <= k <= j - pos ==> rem[k] != '.');
                    assert(!is_label_char(rem[j - pos]));
                    lemma_bad_char(rem, j - pos);
                }
                return None;
            }
            if !is_digit {
                proof {
                    assert(!is_digit_char(s[j as int]));
                }
                saw_nondigit = true;
            }
            j = j + 1;
        }
        // The label spans [pos, j); it is followed by a dot or by the end.
        let len = j - pos;
        let ghost m = j - pos;
        proof {
            assert(forall|k: int| 0 <= k < m ==> rem[k] == s[pos + k] && rem[k] != '.');
            assert(m == rem.len() || rem[m] == '.');
            assert(rem.take(m) =~= s.subrange(pos as int, j as int));
        }
        if len == 0 || len > 63 {
            proof {
                assert(!is_dns_label(rem.take(m)));
                lemma_first_label_invalid(rem, m);
            }
            return None;
        }
        let first = host.get_char(pos);
        let last = host.get_char(j - 1);
        if first as u32 == 45 || last as u32 == 45 {
            proof {
                if first as u32 == 45 {
                    assert(s[pos as int] == '-');
                    assert(rem.take(m)[0] == '-');
                } else {
                    assert(s[j - 1] == '-');
                    assert(rem.take(m)[m - 1] == '-');
                }
                assert(!is_dns_label(rem.take(m)));
                lemma_first_label_invalid(rem, m);
            }
            return None;
        }
        proof {
            assert(rem.take(m)[0] == s[pos as int]);
            assert(rem.take(m)[m - 1] == s[j - 1]);
            assert(first as u32 != 45 ==> s[pos as int] != '-');
            assert(is_dns_label(rem.take(m))) by {
                assert(forall|k: int|
                    0 <= k < m ==> is_label_char(#[trigger] rem.take(m)[k]));
            }
        }
        if j == n {
            // Final label: reject a purely numeric name (an IPv4 literal).
            if !saw_nondigit {
                proof {
                    lemma_no_dot(rem);
                    assert(forall|k: int| 0 <= k < rem.len() ==> is_digit_char(#[trigger] rem[k]));
                    assert(all_digits(rem));
                }
                return None;
            }
            proof {
                lemma_no_dot(rem);
                assert(rem.take(m) =~= rem);
                let w = choose|k: int| pos <= k < j && !is_digit_char(#[trigger] s[k]);
                assert(!is_digit_char(rem[w - pos]));
                assert(!all_digits(rem));
                assert(dns_labels_ok(rem));
            }
            return Some(host.to_owned());
        }
        proof {
            assert(s[j as int] == '.');
            assert(rem[m] == '.');
            lemma_first_label_valid(rem, m);
            assert(rem.skip(m + 1) =~= s.skip(j + 1));
        }
        pos = j + 1;
    }
}

} // verus!
