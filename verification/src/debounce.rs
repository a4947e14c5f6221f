//! The per-root debounce gate.
//!
//! A `DebounceTracker` maps each watched-root identity to the timestamp of
//! its last accepted trigger. The window is anchored to the last *accepted*
//! trigger: a suppressed event leaves the stored timestamp unchanged, so a
//! continuous stream of sub-window events never pushes the next allowed
//! trigger further into the future. Entries are never cleared.

use vstd::prelude::*;

use crate::paths::{path_eq, SegmentPath};

verus! {

/// Whether the tracker state `m` suppresses an event for `key` at time `now`
/// under the window `period`: a prior accepted trigger exists and `now` falls
/// strictly inside its window.
pub open spec fn spec_suppress(
    m: Map<Seq<Seq<u8>>, u64>,
    key: Seq<Seq<u8>>,
    now: u64,
    period: u64,
) -> bool {
    m.contains_key(key) && now < m[key] + period
}

/// The table of last-accepted-trigger timestamps, keyed by watched root.
pub struct DebounceTracker {
    entries: Vec<(SegmentPath, u64)>,
}

/// No key occurs twice in the association list.
spec fn unique_keys(s: Seq<(SegmentPath, u64)>) -> bool {
    forall|i: int, j: int| 0 <= i < j < s.len() ==> s[i].0@ != s[j].0@
}

/// The map that an association list denotes (later entries win; with unique
/// keys the order is immaterial).
spec fn map_of(s: Seq<(SegmentPath, u64)>) -> Map<Seq<Seq<u8>>, u64>
    decreases s.len(),
{
    if s.len() == 0 {
        Map::empty()
    } else {
        map_of(s.drop_last()).insert(s.last().0@, s.last().1)
    }
}

proof fn lemma_map_of_contains(s: Seq<(SegmentPath, u64)>, k: Seq<Seq<u8>>)
    ensures
        map_of(s).contains_key(k) <==> exists|i: int| 0 <= i < s.len() && s[i].0@ == k,
    decreases s.len(),
{
    if s.len() > 0 {
        lemma_map_of_contains(s.drop_last(), k);
        if map_of(s).contains_key(k) {
            if s.last().0@ == k {
                assert(s[s.len() - 1].0@ == k);
            } else {
                let i = choose|i: int| 0 <= i < s.drop_last().len() && s.drop_last()[i].0@ == k;
                assert(s[i].0@ == k);
            }
        }
        if exists|i: int| 0 <= i < s.len() && s[i].0@ == k {
            let i = choose|i: int| 0 <= i < s.len() && s[i].0@ == k;
            if i < s.len() - 1 {
                assert(s.drop_last()[i].0@ == k);
            }
        }
    }
}

proof fn lemma_map_of_value(s: Seq<(SegmentPath, u64)>, i: int)
    requires
        unique_keys(s),
        0 <= i < s.len(),
    ensures
        map_of(s).contains_key(s[i].0@),
        map_of(s)[s[i].0@] == s[i].1,
    decreases s.len(),
{
    if i == s.len() - 1 {
    } else {
        assert(unique_keys(s.drop_last()));
        assert(s.drop_last()[i] == s[i]);
        lemma_map_of_value(s.drop_last(), i);
        assert(s[i].0@ != s.last().0@);
    }
}

proof fn lemma_map_of_update(s: Seq<(SegmentPath, u64)>, i: int, e: (SegmentPath, u64))
    requires
        unique_keys(s),
        0 <= i < s.len(),
        e.0@ == s[i].0@,
    ensures
        unique_keys(s.update(i, e)),
        map_of(s.update(i, e)) == map_of(s).insert(e.0@, e.1),
    decreases s.len(),
{
    let t = s.update(i, e);
    assert(unique_keys(t));
    if i == s.len() - 1 {
        assert(t.drop_last() =~= s.drop_last());
        assert(t.last() == e);
        assert(map_of(t) == map_of(s.drop_last()).insert(e.0@, e.1));
        assert(map_of(s.drop_last()).insert(s.last().0@, s.last().1).insert(e.0@, e.1)
            =~= map_of(s.drop_last()).insert(e.0@, e.1));
    } else {
        assert(unique_keys(s.drop_last()));
        assert(s.drop_last()[i] == s[i]);
        lemma_map_of_update(s.drop_last(), i, e);
        assert(t.drop_last() =~= s.drop_last().update(i, e));
        assert(t.last() == s.last());
        assert(s[i].0@ != s.last().0@);
        assert(map_of(t) == map_of(s.drop_last()).insert(e.0@, e.1).insert(
            s.last().0@,
            s.last().1,
        ));
        assert(map_of(s.drop_last()).insert(e.0@, e.1).insert(s.last().0@, s.last().1)
            =~= map_of(s.drop_last()).insert(s.last().0@, s.last().1).insert(e.0@, e.1));
    }
}

impl DebounceTracker {
    /// The tracker as a mathematical map from root identity to the timestamp
    /// of the root's last accepted trigger.
    pub closed spec fn view(&self) -> Map<Seq<Seq<u8>>, u64> {
        map_of(self.entries@)
    }

    /// Internal invariant: the association list has no duplicate keys.
    pub closed spec fn wf(&self) -> bool {
        unique_keys(self.entries@)
    }

    /// An empty table: no key has ever triggered.
    pub fn new() -> (t: Self)
        ensures
            t.wf(),
            t@ == Map::<Seq<Seq<u8>>, u64>::empty(),
    {
        DebounceTracker { entries: Vec::new() }
    }

    /// The debounce rule: suppress when a prior accepted trigger for `key`
    /// lies less than `period` before `now`, leaving the table unchanged;
    /// otherwise allow and record `now` as the last accepted trigger.
    pub fn should_suppress(&mut self, key: &SegmentPath, now: u64, period: u64) -> (r: bool)
        requires
            old(self).wf(),
        ensures
            final(self).wf(),
            r == spec_suppress(old(self)@, key@, now, period),
            final(self)@ == if r {
                old(self)@
            } else {
                old(self)@.insert(key@, now)
            },
    {
        let n = self.entries.len();
        let mut i: usize = 0;
        while i < n
            invariant
                old(self).wf(),
                self == old(self),
                n == self.entries.len(),
                i <= n,
                forall|j: int| 0 <= j < i ==> self.entries@[j].0@ != key@,
            decreases n - i,
        {
            let (hit, prior) = {
                let e = &self.entries[i];
                (path_eq(&e.0, key), e.1)
            };
            if hit {
                proof {
                    lemma_map_of_value(self.entries@, i as int);
                }
                let suppress = if now >= prior {
                    now - prior < period
                } else {
                    true
                };
                if suppress {
                    return true;
                }
                let entry = (key.clone(), now);
                proof {
                    lemma_map_of_update(self.entries@, i as int, entry);
                }
                self.entries.set(i, entry);
                return false;
            }
            i += 1;
        }
        proof {
            lemma_map_of_contains(self.entries@, key@);
            assert(!old(self)@.contains_key(key@));
        }
        let entry = (key.clone(), now);
        proof {
            assert(self.entries@.push(entry).drop_last() =~= self.entries@);
            assert(unique_keys(self.entries@.push(entry)));
        }
        self.entries.push(entry);
        false
    }
}

} // verus!
