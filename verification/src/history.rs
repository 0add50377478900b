//! The history ledger: an ordered, bounded store of snapshots.
//!
//! Each newly accepted snapshot is merged by an hour-bucket rule — when the
//! latest retained entry shares the new snapshot's hour of day, it is
//! superseded and dropped, otherwise the snapshot is appended — and entries
//! older than a three-day retention window are then pruned. The hour bucket
//! compares hour-of-day only, not the full date, so two samples exactly a
//! day apart collide too; that is deliberate and kept as it stands.

use vstd::prelude::*;
use crate::snapshot::Snapshot;

verus! {

/// Retention window: three days, in milliseconds.
pub const RETENTION_MILLIS: i64 = 259_200_000;

/// An entry is retained at `now` while strictly younger than the window.
pub open spec fn retained(s: Snapshot, now: int) -> bool {
    s.timestamp > now - RETENTION_MILLIS as int
}

/// The replace-or-append step: a snapshot sharing the latest entry's hour of
/// day supersedes it; otherwise the snapshot goes on the end.
pub open spec fn bucketed(h: Seq<Snapshot>, s: Snapshot) -> Seq<Snapshot> {
    if h.len() > 0 && h.last().hour == s.hour {
        h.drop_last().push(s)
    } else {
        h.push(s)
    }
}

/// The prune step: the retained entries, in order.
pub open spec fn pruned(h: Seq<Snapshot>, now: int) -> Seq<Snapshot>
    decreases h.len(),
{
    if h.len() == 0 {
        Seq::<Snapshot>::empty()
    } else {
        let rest = pruned(h.drop_last(), now);
        if retained(h.last(), now) {
            rest.push(h.last())
        } else {
            rest
        }
    }
}

/// One whole append: replace-or-append by hour bucket, then prune at `now`.
pub open spec fn appended(h: Seq<Snapshot>, s: Snapshot, now: int) -> Seq<Snapshot> {
    pruned(bucketed(h, s), now)
}

/// Well-formed history: every entry has a valid hour of day, timestamps are
/// non-decreasing, and no two adjacent entries share an hour of day.
pub open spec fn wf_seq(h: Seq<Snapshot>) -> bool {
    &&& forall|i: int| 0 <= i < h.len() ==> (#[trigger] h[i]).wf()
    &&& forall|i: int, j: int|
        #![trigger h[i].timestamp, h[j].timestamp]
        0 <= i <= j < h.len() ==> h[i].timestamp <= h[j].timestamp
    &&& forall|i: int| #![trigger h[i].hour] 0 <= i && i + 1 < h.len() ==> h[i].hour != h[i + 1].hour
}

/// Every entry that the prune step keeps is within the retention window.
proof fn lemma_pruned_retained(h: Seq<Snapshot>, now: int)
    ensures
        forall|i: int|
            0 <= i < pruned(h, now).len() ==> retained(#[trigger] pruned(h, now)[i], now),
    decreases h.len(),
{
    if h.len() > 0 {
        lemma_pruned_retained(h.drop_last(), now);
        let rest = pruned(h.drop_last(), now);
        if retained(h.last(), now) {
            assert(pruned(h, now) == rest.push(h.last()));
            assert forall|i: int|
                0 <= i < pruned(h, now).len() implies retained(
                #[trigger] pruned(h, now)[i],
                now,
            ) by {
                if i < rest.len() {
                    assert(pruned(h, now)[i] == rest[i]);
                } else {
                    assert(pruned(h, now)[i] == h.last());
                }
            }
        } else {
            assert(pruned(h, now) == rest);
        }
    }
}

/// Pruning keeps a sequence of retained entries unchanged.
proof fn lemma_pruned_identity(h: Seq<Snapshot>, now: int)
    requires
        forall|i: int| 0 <= i < h.len() ==> retained(#[trigger] h[i], now),
    ensures
        pruned(h, now) == h,
    decreases h.len(),
{
    if h.len() > 0 {
        assert(forall|i: int|
            0 <= i < h.drop_last().len() ==> retained(#[trigger] h.drop_last()[i], now));
        lemma_pruned_identity(h.drop_last(), now);
        assert(pruned(h, now) =~= h);
    } else {
        assert(pruned(h, now) =~= h);
    }
}

/// Pruning a sequence with no retained entry leaves nothing.
proof fn lemma_pruned_empty(h: Seq<Snapshot>, now: int)
    requires
        forall|i: int| 0 <= i < h.len() ==> !retained(#[trigger] h[i], now),
    ensures
        pruned(h, now) =~= Seq::<Snapshot>::empty(),
    decreases h.len(),
{
    if h.len() > 0 {
        assert(forall|i: int|
            0 <= i < h.drop_last().len() ==> !retained(#[trigger] h.drop_last()[i], now));
        lemma_pruned_empty(h.drop_last(), now);
    }
}

/// On a time-sorted sequence the prune step removes exactly a prefix: what
/// remains is a suffix of the input sequence.
proof fn lemma_pruned_suffix(h: Seq<Snapshot>, now: int)
    requires
        forall|i: int, j: int|
            #![trigger h[i].timestamp, h[j].timestamp]
            0 <= i <= j < h.len() ==> h[i].timestamp <= h[j].timestamp,
    ensures
        exists|k: int| 0 <= k <= h.len() && pruned(h, now) =~= h.subrange(k, h.len() as int),
    decreases h.len(),
{
    if h.len() == 0 {
        assert(pruned(h, now) =~= h.subrange(0, 0));
    } else if retained(h.last(), now) {
        let d = h.drop_last();
        assert(forall|i: int, j: int|
            #![trigger d[i].timestamp, d[j].timestamp]
            0 <= i <= j < d.len() ==> d[i].timestamp <= d[j].timestamp);
        lemma_pruned_suffix(d, now);
        let k = choose|k: int| 0 <= k <= d.len() && pruned(d, now) =~= d.subrange(k, d.len() as int);
        assert(pruned(h, now) =~= h.subrange(k, h.len() as int));
    } else {
        assert(forall|i: int| 0 <= i < h.len() ==> !retained(#[trigger] h[i], now)) by {
            assert(forall|i: int| 0 <= i < h.len() ==> #[trigger] h[i].timestamp <= h.last().timestamp);
        }
        lemma_pruned_empty(h, now);
        assert(pruned(h, now) =~= h.subrange(h.len() as int, h.len() as int));
    }
}

/// A snapshot within the retention window always ends up as the last entry
/// of the append it was handed to: a read of the latest entry right after an
/// accepted refresh serves that refresh's snapshot.
pub proof fn lemma_appended_last(h: Seq<Snapshot>, s: Snapshot, now: int)
    requires
        retained(s, now),
    ensures
        appended(h, s, now).len() > 0,
        appended(h, s, now).last() == s,
{
    let b = bucketed(h, s);
    if h.len() > 0 && h.last().hour == s.hour {
        assert(h.drop_last().push(s).last() == s);
    } else {
        assert(h.push(s).last() == s);
    }
    assert(b.last() == s);
    assert(pruned(b, now) == pruned(b.drop_last(), now).push(b.last()));
    assert(pruned(b.drop_last(), now).push(b.last()).last() == b.last());
}

/// The replace-or-append step preserves well-formedness, provided the
/// snapshot is valid and not older than the latest entry.
proof fn lemma_bucketed_wf(h: Seq<Snapshot>, s: Snapshot)
    requires
        wf_seq(h),
        s.wf(),
        h.len() > 0 ==> s.timestamp >= h.last().timestamp,
    ensures
        wf_seq(bucketed(h, s)),
{
    let b = bucketed(h, s);
    let n = h.len() as int;
    if h.len() > 0 && h.last().hour == s.hour {
        assert(b == h.drop_last().push(s));
        assert(b.len() == n);
        assert(forall|i: int| 0 <= i < n - 1 ==> b[i] == h[i]);
        assert(b[n - 1] == s);
        assert forall|i: int| 0 <= i < b.len() implies (#[trigger] b[i]).wf() by {
            if i < n - 1 {
                assert(b[i] == h[i]);
            }
        }
        assert forall|i: int, j: int|
            #![trigger b[i].timestamp, b[j].timestamp]
            0 <= i <= j < b.len() implies b[i].timestamp <= b[j].timestamp by {
            if j < n - 1 {
                assert(h[i].timestamp <= h[j].timestamp);
            } else if i < n - 1 {
                assert(h[i].timestamp <= h[n - 1].timestamp);
                assert(h[n - 1] == h.last());
            }
        }
        assert forall|i: int| #![trigger b[i].hour] 0 <= i && i + 1 < b.len() implies b[i].hour
            != b[i + 1].hour by {
            if i + 1 < n - 1 {
                assert(b[i] == h[i] && b[i + 1] == h[i + 1]);
            } else {
                assert(b[i] == h[i] && b[i + 1] == s);
                assert(h[i].hour != h[i + 1].hour);
                assert(h[i + 1] == h.last());
            }
        }
    } else {
        assert(b == h.push(s));
        assert forall|i: int, j: int|
            #![trigger b[i].timestamp, b[j].timestamp]
            0 <= i <= j < b.len() implies b[i].timestamp <= b[j].timestamp by {
            if j < n {
                assert(h[i].timestamp <= h[j].timestamp);
            } else if i < n {
                assert(h[i].timestamp <= h[n - 1].timestamp);
                assert(h[n - 1] == h.last());
            }
        }
        assert forall|i: int| #![trigger b[i].hour] 0 <= i && i + 1 < b.len() implies b[i].hour
            != b[i + 1].hour by {
            if i + 1 < n {
                assert(b[i] == h[i] && b[i + 1] == h[i + 1]);
            } else if n > 0 {
                assert(b[i] == h[i] && b[i + 1] == s);
                assert(h[i] == h.last());
            }
        }
    }
}

/// An append preserves well-formedness, provided the snapshot is valid and
/// not older than the latest entry.
proof fn lemma_appended_wf(h: Seq<Snapshot>, s: Snapshot, now: int)
    requires
        wf_seq(h),
        s.wf(),
        h.len() > 0 ==> s.timestamp >= h.last().timestamp,
    ensures
        wf_seq(appended(h, s, now)),
{
    let b = bucketed(h, s);
    lemma_bucketed_wf(h, s);
    lemma_pruned_suffix(b, now);
    let k = choose|k: int|
        0 <= k <= b.len() && pruned(b, now) =~= b.subrange(k, b.len() as int);
    let g = b.subrange(k, b.len() as int);
    assert forall|i: int| 0 <= i < g.len() implies (#[trigger] g[i]).wf() by {
        assert(g[i] == b[i + k]);
    }
    assert forall|i: int, j: int|
        #![trigger g[i].timestamp, g[j].timestamp]
        0 <= i <= j < g.len() implies g[i].timestamp <= g[j].timestamp by {
        assert(g[i] == b[i + k] && g[j] == b[j + k]);
        assert(b[i + k].timestamp <= b[j + k].timestamp);
    }
    assert forall|i: int| #![trigger g[i].hour] 0 <= i && i + 1 < g.len() implies g[i].hour
        != g[i + 1].hour by {
        assert(g[i] == b[i + k] && g[i + 1] == b[i + k + 1]);
        assert(b[i + k].hour != b[i + k + 1].hour);
    }
    assert(wf_seq(g));
}

/// A history of snapshots, ascending by acceptance time.
pub struct History {
    entries: Vec<Snapshot>,
}

impl View for History {
    type V = Seq<Snapshot>;

    closed spec fn view(&self) -> Seq<Snapshot> {
        self.entries@
    }
}

impl History {
    pub open spec fn wf(&self) -> bool {
        wf_seq(self@)
    }

    pub fn new() -> (r: Self)
        ensures
            r@ =~= Seq::<Snapshot>::empty(),
            r.wf(),
    {
        History { entries: Vec::new() }
    }

    pub fn len(&self) -> (r: usize)
        ensures
            r == self@.len(),
    {
        self.entries.len()
    }

    /// The entry at ordinal `i`, cloned out; `None` when `i` is out of range.
    pub fn get_cloned(&self, i: usize) -> (r: Option<Snapshot>)
        ensures
            i < self@.len() ==> (r matches Some(s) && s == self@[i as int]),
            i >= self@.len() ==> r is None,
    {
        if i < self.entries.len() {
            Some(self.entries[i].clone())
        } else {
            None
        }
    }

    /// Accept one snapshot: supersede a same-hour latest entry, append, then
    /// prune everything older than the retention window. The whole step is
    /// one mutation; no reader of `self` can observe a half-appended state.
    pub fn append(&mut self, s: Snapshot, now: i64)
        requires
            old(self).wf(),
            s.wf(),
            old(self)@.len() > 0 ==> s.timestamp >= old(self)@.last().timestamp,
        ensures
            final(self)@ == appended(old(self)@, s, now as int),
            final(self).wf(),
            forall|i: int|
                0 <= i < final(self)@.len() ==> retained(#[trigger] final(self)@[i], now as int),
            retained(s, now as int) ==> final(self)@.len() > 0 && final(self)@.last() == s,
    {
        proof {
            if retained(s, now as int) {
                lemma_appended_last(old(self)@, s, now as int);
            }
        }
        if self.entries.len() > 0 {
            let last_idx = self.entries.len() - 1;
            if self.entries[last_idx].hour == s.hour {
                self.entries.pop();
            }
        }
        self.entries.push(s);
        assert(self.entries@ =~= bucketed(old(self)@, s));
        let ghost b = self.entries@;
        let mut kept: Vec<Snapshot> = Vec::new();
        let mut i: usize = 0;
        while i < self.entries.len()
            invariant
                i <= self.entries@.len(),
                self.entries@ == b,
                kept@ == pruned(b.subrange(0, i as int), now as int),
            decreases self.entries@.len() - i,
        {
            let e = &self.entries[i];
            if (e.timestamp as i128) > (now as i128) - (RETENTION_MILLIS as i128) {
                kept.push(self.entries[i].clone());
            }
            proof {
                assert(b.subrange(0, (i + 1) as int).drop_last() =~= b.subrange(0, i as int));
                assert(b.subrange(0, (i + 1) as int).last() == b[i as int]);
            }
            i = i + 1;
        }
        proof {
            assert(b.subrange(0, b.len() as int) =~= b);
            lemma_pruned_retained(b, now as int);
            lemma_appended_wf(old(self)@, s, now as int);
        }
        self.entries = kept;
    }
}

/// Appending a second snapshot with the same hour of day replaces the first:
/// the history's length does not change. Both snapshots must still be within
/// the retention window at `now`.
pub proof fn lemma_append_same_hour_replaces(h: Seq<Snapshot>, s1: Snapshot, s2: Snapshot, now: int)
    requires
        retained(s1, now),
        retained(s2, now),
        s1.hour == s2.hour,
    ensures
        appended(appended(h, s1, now), s2, now).len() == appended(h, s1, now).len(),
        appended(appended(h, s1, now), s2, now).last() == s2,
{
    let a = appended(h, s1, now);
    let b1 = bucketed(h, s1);
    assert(b1.last() == s1);
    assert(a == pruned(b1.drop_last(), now).push(s1));
    assert(a.last() == s1);
    lemma_pruned_retained(b1, now);
    let b2 = bucketed(a, s2);
    assert(b2 =~= a.drop_last().push(s2));
    assert(forall|i: int| 0 <= i < b2.len() ==> retained(#[trigger] b2[i], now));
    lemma_pruned_identity(b2, now);
    lemma_appended_last(a, s2, now);
}

/// Appending a second snapshot with a different hour of day appends beside
/// the first: the history's length grows by exactly one. Both snapshots must
/// still be within the retention window at `now`.
pub proof fn lemma_append_new_hour_appends(h: Seq<Snapshot>, s1: Snapshot, s2: Snapshot, now: int)
    requires
        retained(s1, now),
        retained(s2, now),
        s1.hour != s2.hour,
    ensures
        appended(appended(h, s1, now), s2, now).len() == appended(h, s1, now).len() + 1,
        appended(appended(h, s1, now), s2, now).last() == s2,
{
    lemma_appended_last(appended(h, s1, now), s2, now);
    let a = appended(h, s1, now);
    let b1 = bucketed(h, s1);
    assert(b1.last() == s1);
    assert(a == pruned(b1.drop_last(), now).push(s1));
    assert(a.last() == s1);
    lemma_pruned_retained(b1, now);
    let b2 = bucketed(a, s2);
    assert(b2 =~= a.push(s2));
    assert(forall|i: int| 0 <= i < b2.len() ==> retained(#[trigger] b2[i], now));
    lemma_pruned_identity(b2, now);
}

/// After any append, every retained entry is within the retention window.
pub proof fn lemma_append_retains_recent(h: Seq<Snapshot>, s: Snapshot, now: int)
    ensures
        forall|i: int|
            0 <= i < appended(h, s, now).len() ==> retained(
                #[trigger] appended(h, s, now)[i],
                now,
            ),
{
    lemma_pruned_retained(bucketed(h, s), now);
}

/// Pruning twice at the same instant changes nothing the second time.
pub proof fn lemma_prune_idempotent(h: Seq<Snapshot>, now: int)
    ensures
        pruned(pruned(h, now), now) == pruned(h, now),
{
    lemma_pruned_retained(h, now);
    lemma_pruned_identity(pruned(h, now), now);
}

} // verus!

