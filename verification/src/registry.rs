//! Metric registry: keyed, lazily-grown families of counters and of
//! frame-size observations.
//!
//! Entries are created on first observation and never removed; counters are
//! monotonic for the registry's lifetime. A counter saturates at `u64::MAX`
//! instead of wrapping.

use vstd::prelude::*;

verus! {

use crate::labels::{Rsp, RspV, RouteLabels, RouteLabelsV, rsp_eq, route_labels_eq};

/// One observation more than `n`, saturating at `u64::MAX`.
pub open spec fn sat_inc(n: nat) -> nat {
    if n < u64::MAX {
        n + 1
    } else {
        n
    }
}

/// `n` grown by `len`, saturating at `u64::MAX`.
pub open spec fn sat_add(n: nat, len: nat) -> nat {
    if n + len <= u64::MAX {
        n + len
    } else {
        u64::MAX as nat
    }
}

/// The value stored under `k` in an association list, or `d` when absent.
pub open spec fn lookup_or<K, V>(s: Seq<(K, V)>, k: K, d: V) -> V
    decreases s.len(),
{
    if s.len() == 0 {
        d
    } else if s[0].0 == k {
        s[0].1
    } else {
        lookup_or(s.drop_first(), k, d)
    }
}

/// Whether an association list holds an entry for `k`.
pub open spec fn has_key<K, V>(s: Seq<(K, V)>, k: K) -> bool {
    exists|i: int| 0 <= i < s.len() && s[i].0 == k
}

proof fn lemma_lookup_absent<K, V>(s: Seq<(K, V)>, k: K, d: V)
    requires
        !has_key(s, k),
    ensures
        lookup_or(s, k, d) == d,
    decreases s.len(),
{
    if s.len() > 0 {
        assert(s[0].0 != k);
        assert(forall|i: int|
            0 <= i < s.drop_first().len() ==> s.drop_first()[i] == s[i + 1]);
        lemma_lookup_absent(s.drop_first(), k, d);
    }
}

proof fn lemma_lookup_push<K, V>(s: Seq<(K, V)>, e: (K, V), k: K, d: V)
    ensures
        k != e.0 ==> lookup_or(s.push(e), k, d) == lookup_or(s, k, d),
        k == e.0 && !has_key(s, k) ==> lookup_or(s.push(e), k, d) == e.1,
    decreases s.len(),
{
    if s.len() == 0 {
        assert(s.push(e)[0] == e);
        assert(s.push(e).drop_first() =~= Seq::<(K, V)>::empty());
        assert(lookup_or(Seq::<(K, V)>::empty(), k, d) == d);
        if k != e.0 {
            assert(lookup_or(s.push(e), k, d) == d);
            assert(lookup_or(s, k, d) == d);
        }
    } else {
        assert(s.push(e)[0] == s[0]);
        assert(s.push(e).drop_first() =~= s.drop_first().push(e));
        if s[0].0 != k {
            assert(!has_key(s, k) ==> !has_key(s.drop_first(), k)) by {
                if has_key(s.drop_first(), k) {
                    let i = choose|i: int|
                        0 <= i < s.drop_first().len() && s.drop_first()[i].0 == k;
                    assert(s[i + 1].0 == k);
                }
            }
            lemma_lookup_push(s.drop_first(), e, k, d);
            assert(lookup_or(s.push(e), k, d) == lookup_or(s.drop_first().push(e), k, d));
        } else {
            assert(lookup_or(s.push(e), k, d) == s[0].1);
            assert(lookup_or(s, k, d) == s[0].1);
        }
    }
}

proof fn lemma_lookup_update<K, V>(s: Seq<(K, V)>, i: int, v: V, k: K, d: V)
    requires
        0 <= i < s.len(),
        forall|j: int| 0 <= j < i ==> s[j].0 != s[i].0,
    ensures
        lookup_or(s.update(i, (s[i].0, v)), s[i].0, d) == v,
        k != s[i].0 ==> lookup_or(s.update(i, (s[i].0, v)), k, d) == lookup_or(s, k, d),
    decreases i,
{
    let t = s.update(i, (s[i].0, v));
    if i == 0 {
        assert(t[0] == (s[i].0, v));
        assert(t.drop_first() =~= s.drop_first());
    } else {
        assert(t[0] == s[0]);
        assert(t.drop_first() =~= s.drop_first().update(i - 1, (s[i].0, v)));
        assert(forall|j: int|
            0 <= j < i - 1 ==> s.drop_first()[j] == s[j + 1]);
        assert(s.drop_first()[i - 1] == s[i]);
        lemma_lookup_update(s.drop_first(), i - 1, v, k, d);
    }
}

/// Outcome-counter families: one monotonic counter per [`Rsp`] key,
/// created lazily on first use.
pub struct RequestMetrics {
    entries: Vec<(Rsp, u64)>,
}

impl RequestMetrics {
    /// The stored entries, as model values.
    pub closed spec fn entries_seq(self) -> Seq<(RspV, u64)> {
        Seq::new(self.entries@.len(), |i: int| (self.entries@[i].0@, self.entries@[i].1))
    }

    /// Keys are stored at most once.
    pub closed spec fn wf(self) -> bool {
        forall|i: int, j: int|
            0 <= i < j < self.entries_seq().len()
                ==> self.entries_seq()[i].0 != self.entries_seq()[j].0
    }

    /// The current value of the counter keyed by `k`; 0 before the first
    /// observation.
    pub closed spec fn count(self, k: RspV) -> nat {
        lookup_or(self.entries_seq(), k, 0u64) as nat
    }

    /// A fresh registry: every counter reads 0.
    pub fn new() -> (m: Self)
        ensures
            m.wf(),
            forall|k: RspV| m.count(k) == 0,
    {
        let m = RequestMetrics { entries: Vec::new() };
        proof {
            assert(m.entries_seq() =~= Seq::<(RspV, u64)>::empty());
        }
        m
    }

    /// Looks up the counter keyed by `key`, creating a zero-valued entry if
    /// none exists yet, and returns its current value. No counter changes.
    pub fn get_statuses(&mut self, key: &Rsp) -> (c: u64)
        requires
            old(self).wf(),
        ensures
            final(self).wf(),
            c as nat == old(self).count(key@),
            forall|k: RspV| final(self).count(k) == old(self).count(k),
    {
        let ghost s0 = self.entries_seq();
        proof {
            assert(s0.skip(0) =~= s0);
        }
        let n = self.entries.len();
        let mut i: usize = 0;
        while i < n
            invariant
                n == self.entries.len(),
                i <= n,
                old(self).wf(),
                self.entries_seq() == s0,
                s0 == old(self).entries_seq(),
                forall|j: int| 0 <= j < i ==> s0[j].0 != key@,
                lookup_or(s0, key@, 0u64) == lookup_or(s0.skip(i as int), key@, 0u64),
            decreases n - i,
        {
            if rsp_eq(&self.entries[i].0, key) {
                proof {
                    assert(s0.skip(i as int)[0] == s0[i as int]);
                }
                return self.entries[i].1;
            }
            proof {
                assert(s0.skip(i as int)[0] == s0[i as int]);
                assert(s0.skip(i as int).drop_first() =~= s0.skip(i + 1));
            }
            i = i + 1;
        }
        proof {
            assert(s0.skip(n as int) =~= Seq::<(RspV, u64)>::empty());
            assert(!has_key(s0, key@)) by {
                if has_key(s0, key@) {
                    let j = choose|j: int| 0 <= j < s0.len() && s0[j].0 == key@;
                    assert(s0[j].0 != key@);
                }
            }
        }
        let entry = (key.clone_value(), 0u64);
        self.entries.push(entry);
        proof {
            assert(self.entries_seq() =~= s0.push((key@, 0u64)));
            lemma_lookup_absent(s0, key@, 0u64);
            assert forall|k: RspV| #[trigger] lookup_or(self.entries_seq(), k, 0u64)
                == lookup_or(s0, k, 0u64) by {
                lemma_lookup_push(s0, (key@, 0u64), k, 0u64);
                if k == key@ {
                    lemma_lookup_absent(s0, k, 0u64);
                }
            }
        }
        0
    }

    /// Increments the counter keyed by `key` by one (saturating), creating
    /// the entry if none exists yet. No other counter changes.
    pub fn record(&mut self, key: &Rsp)
        requires
            old(self).wf(),
        ensures
            final(self).wf(),
            final(self).count(key@) == sat_inc(old(self).count(key@)),
            forall|k: RspV| k != key@ ==> final(self).count(k) == old(self).count(k),
    {
        let ghost s0 = self.entries_seq();
        proof {
            assert(s0.skip(0) =~= s0);
        }
        let n = self.entries.len();
        let mut i: usize = 0;
        while i < n
            invariant
                n == self.entries.len(),
                i <= n,
                self.entries_seq() == s0,
                old(self).wf(),
                self.entries_seq() == old(self).entries_seq(),
                forall|j: int| 0 <= j < i ==> s0[j].0 != key@,
                lookup_or(s0, key@, 0u64) == lookup_or(s0.skip(i as int), key@, 0u64),
            decreases n - i,
        {
            if rsp_eq(&self.entries[i].0, key) {
                proof {
                    assert(s0.skip(i as int)[0] == s0[i as int]);
                }
                let v = self.entries[i].1;
                let bumped: u64 = if v < u64::MAX {
                    v + 1
                } else {
                    v
                };
                let k_copy = self.entries[i].0.clone_value();
                proof {
                    assert(k_copy@ == s0[i as int].0);
                }
                self.entries.set(i, (k_copy, bumped));
                proof {
                    assert(self.entries_seq() =~= s0.update(i as int, (key@, bumped)));
                    assert(s0[i as int].0 == key@);
                    lemma_lookup_update(s0, i as int, bumped, key@, 0u64);
                    assert forall|k: RspV| k != key@ implies #[trigger] lookup_or(
                        self.entries_seq(),
                        k,
                        0u64,
                    ) == lookup_or(s0, k, 0u64) by {
                        lemma_lookup_update(s0, i as int, bumped, k, 0u64);
                    }
                }
                return;
            }
            proof {
                assert(s0.skip(i as int)[0] == s0[i as int]);
                assert(s0.skip(i as int).drop_first() =~= s0.skip(i + 1));
            }
            i = i + 1;
        }
        proof {
            assert(s0.skip(n as int) =~= Seq::<(RspV, u64)>::empty());
            assert(!has_key(s0, key@)) by {
                if has_key(s0, key@) {
                    let j = choose|j: int| 0 <= j < s0.len() && s0[j].0 == key@;
                    assert(s0[j].0 != key@);
                }
            }
            lemma_lookup_absent(s0, key@, 0u64);
        }
        let entry = (key.clone_value(), 1u64);
        self.entries.push(entry);
        proof {
            assert(self.entries_seq() =~= s0.push((key@, 1u64)));
            lemma_lookup_push(s0, (key@, 1u64), key@, 0u64);
            assert forall|k: RspV| k != key@ implies #[trigger] lookup_or(
                self.entries_seq(),
                k,
                0u64,
            ) == lookup_or(s0, k, 0u64) by {
                lemma_lookup_push(s0, (key@, 1u64), k, 0u64);
            }
        }
    }
}

/// Frame-size observations for one route: how many data frames have been
/// observed and how many bytes they carried in total.
#[derive(Clone, Copy, Debug, PartialEq, Eq, Structural)]
pub struct BodyDataMetrics {
    pub frames_total: u64,
    pub frames_bytes: u64,
}

/// Frame-size observation families, one per route-label set, created lazily
/// on first use.
pub struct RequestBodyFamilies {
    entries: Vec<(RouteLabels, BodyDataMetrics)>,
}

pub open spec fn zero_body_data() -> BodyDataMetrics {
    BodyDataMetrics { frames_total: 0, frames_bytes: 0 }
}

/// `h` grown by one frame of `len` bytes, each sum saturating at `u64::MAX`.
pub open spec fn observe_frame(h: BodyDataMetrics, len: nat) -> BodyDataMetrics {
    BodyDataMetrics {
        frames_total: sat_inc(h.frames_total as nat) as u64,
        frames_bytes: sat_add(h.frames_bytes as nat, len) as u64,
    }
}

impl RequestBodyFamilies {
    /// The stored entries, as model values.
    pub closed spec fn entries_seq(self) -> Seq<(RouteLabelsV, BodyDataMetrics)> {
        Seq::new(self.entries@.len(), |i: int| (self.entries@[i].0@, self.entries@[i].1))
    }

    /// Keys are stored at most once.
    pub closed spec fn wf(self) -> bool {
        forall|i: int, j: int|
            0 <= i < j < self.entries_seq().len()
                ==> self.entries_seq()[i].0 != self.entries_seq()[j].0
    }

    /// The observations recorded for the route labeled `k`; zero before the
    /// first observation.
    pub closed spec fn data(self, k: RouteLabelsV) -> BodyDataMetrics {
        lookup_or(self.entries_seq(), k, zero_body_data())
    }

    /// A fresh family: every route reads zero observations.
    pub fn new() -> (m: Self)
        ensures
            m.wf(),
            forall|k: RouteLabelsV| m.data(k) == zero_body_data(),
    {
        let m = RequestBodyFamilies { entries: Vec::new() };
        proof {
            assert(m.entries_seq() =~= Seq::<(RouteLabelsV, BodyDataMetrics)>::empty());
        }
        m
    }

    /// Looks up the observations for `labels`, creating a zero-valued entry
    /// if none exists yet, and returns the current values. Nothing changes.
    pub fn metrics(&mut self, labels: &RouteLabels) -> (d: BodyDataMetrics)
        requires
            old(self).wf(),
        ensures
            final(self).wf(),
            d == old(self).data(labels@),
            forall|k: RouteLabelsV| final(self).data(k) == old(self).data(k),
    {
        let ghost s0 = self.entries_seq();
        let ghost z = zero_body_data();
        proof {
            assert(s0.skip(0) =~= s0);
        }
        let n = self.entries.len();
        let mut i: usize = 0;
        while i < n
            invariant
                n == self.entries.len(),
                i <= n,
                old(self).wf(),
                self.entries_seq() == s0,
                s0 == old(self).entries_seq(),
                forall|j: int| 0 <= j < i ==> s0[j].0 != labels@,
                lookup_or(s0, labels@, z) == lookup_or(s0.skip(i as int), labels@, z),
                z == zero_body_data(),
            decreases n - i,
        {
            if route_labels_eq(&self.entries[i].0, labels) {
                proof {
                    assert(s0.skip(i as int)[0] == s0[i as int]);
                }
                return self.entries[i].1;
            }
            proof {
                assert(s0.skip(i as int)[0] == s0[i as int]);
                assert(s0.skip(i as int).drop_first() =~= s0.skip(i + 1));
            }
            i = i + 1;
        }
        proof {
            assert(s0.skip(n as int) =~= Seq::<(RouteLabelsV, BodyDataMetrics)>::empty());
            assert(!has_key(s0, labels@)) by {
                if has_key(s0, labels@) {
                    let j = choose|j: int| 0 <= j < s0.len() && s0[j].0 == labels@;
                    assert(s0[j].0 != labels@);
                }
            }
        }
        let d = BodyDataMetrics { frames_total: 0, frames_bytes: 0 };
        let entry = (labels.clone_value(), d);
        self.entries.push(entry);
        proof {
            assert(self.entries_seq() =~= s0.push((labels@, z)));
            lemma_lookup_absent(s0, labels@, z);
            assert forall|k: RouteLabelsV| #[trigger] lookup_or(self.entries_seq(), k, z)
                == lookup_or(s0, k, z) by {
                lemma_lookup_push(s0, (labels@, z), k, z);
                if k == labels@ {
                    lemma_lookup_absent(s0, k, z);
                }
            }
        }
        d
    }

    /// Records one data frame of `len` bytes against `labels`, creating the
    /// entry if none exists yet. No other route's observations change.
    pub fn observe(&mut self, labels: &RouteLabels, len: u64)
        requires
            old(self).wf(),
        ensures
            final(self).wf(),
            final(self).data(labels@) == observe_frame(old(self).data(labels@), len as nat),
            forall|k: RouteLabelsV| k != labels@ ==> final(self).data(k) == old(self).data(k),
    {
        let ghost s0 = self.entries_seq();
        let ghost z = zero_body_data();
        proof {
            assert(s0.skip(0) =~= s0);
        }
        let n = self.entries.len();
        let mut i: usize = 0;
        while i < n
            invariant
                n == self.entries.len(),
                i <= n,
                self.entries_seq() == s0,
                old(self).wf(),
                s0 == old(self).entries_seq(),
                forall|j: int| 0 <= j < i ==> s0[j].0 != labels@,
                lookup_or(s0, labels@, z) == lookup_or(s0.skip(i as int), labels@, z),
                z == zero_body_data(),
            decreases n - i,
        {
            if route_labels_eq(&self.entries[i].0, labels) {
                proof {
                    assert(s0.skip(i as int)[0] == s0[i as int]);
                }
                let h = self.entries[i].1;
                let total: u64 = if h.frames_total < u64::MAX {
                    h.frames_total + 1
                } else {
                    h.frames_total
                };
                let bytes: u64 = if len <= u64::MAX - h.frames_bytes {
                    h.frames_bytes + len
                } else {
                    u64::MAX
                };
                let updated = BodyDataMetrics { frames_total: total, frames_bytes: bytes };
                let k_copy = self.entries[i].0.clone_value();
                proof {
                    assert(k_copy@ == s0[i as int].0);
                    assert(updated == observe_frame(s0[i as int].1, len as nat));
                }
                self.entries.set(i, (k_copy, updated));
                proof {
                    assert(self.entries_seq() =~= s0.update(i as int, (labels@, updated)));
                    assert(s0[i as int].0 == labels@);
                    lemma_lookup_update(s0, i as int, updated, labels@, z);
                    assert forall|k: RouteLabelsV| k != labels@ implies #[trigger] lookup_or(
                        self.entries_seq(),
                        k,
                        z,
                    ) == lookup_or(s0, k, z) by {
                        lemma_lookup_update(s0, i as int, updated, k, z);
                    }
                }
                return;
            }
            proof {
                assert(s0.skip(i as int)[0] == s0[i as int]);
                assert(s0.skip(i as int).drop_first() =~= s0.skip(i + 1));
            }
            i = i + 1;
        }
        proof {
            assert(s0.skip(n as int) =~= Seq::<(RouteLabelsV, BodyDataMetrics)>::empty());
            assert(!has_key(s0, labels@)) by {
                if has_key(s0, labels@) {
                    let j = choose|j: int| 0 <= j < s0.len() && s0[j].0 == labels@;
                    assert(s0[j].0 != labels@);
                }
            }
            lemma_lookup_absent(s0, labels@, z);
        }
        let first = BodyDataMetrics {
            frames_total: 1,
            frames_bytes: len,
        };
        let entry = (labels.clone_value(), first);
        self.entries.push(entry);
        proof {
            assert(self.entries_seq() =~= s0.push((labels@, first)));
            lemma_lookup_push(s0, (labels@, first), labels@, z);
            assert(first == observe_frame(z, len as nat));
            assert forall|k: RouteLabelsV| k != labels@ implies #[trigger] lookup_or(
                self.entries_seq(),
                k,
                z,
            ) == lookup_or(s0, k, z) by {
                lemma_lookup_push(s0, (labels@, first), k, z);
            }
        }
    }
}

} // verus!
