//! The watcher's guarantees, stated and proved over the spec-level model that
//! the executable functions' contracts are written in: `change_triggers` and
//! `tracker_after_change` describe one run of the change handler
//! (`RepoWatcher::handle_change`), and `spec_suppress` the debounce gate.

use vstd::prelude::*;

use crate::debounce::spec_suppress;
use crate::paths::{git_filtered, git_segment, rel_of, under_root};
use crate::watch::{change_triggers, tracker_after_change};

verus! {

/// For any configured root, a change under the root that is not
/// version-control metadata and is not debounced triggers exactly one
/// snapshot, and anchors the root's debounce window at its own time.
pub proof fn law_clean_change_triggers(
    root: Seq<Seq<u8>>,
    changed: Seq<Seq<u8>>,
    m: Map<Seq<Seq<u8>>, u64>,
    now: u64,
    period: u64,
)
    requires
        under_root(root, changed),
        !git_filtered(root, changed),
        !spec_suppress(m, root, now, period),
    ensures
        change_triggers(root, changed, m, now, period),
        tracker_after_change(root, changed, m, now, period) == m.insert(root, now),
{
}

/// Two accepted-candidate changes to the same root: when they are separated
/// by less than the debounce window, only the first triggers, and the stored
/// timestamp is left anchored at the first (so a burst collapses into one
/// trigger); when they are separated by the window or more, both trigger.
pub proof fn law_debounce_window(
    root: Seq<Seq<u8>>,
    first: Seq<Seq<u8>>,
    second: Seq<Seq<u8>>,
    m: Map<Seq<Seq<u8>>, u64>,
    t1: u64,
    t2: u64,
    period: u64,
)
    requires
        under_root(root, first),
        !git_filtered(root, first),
        under_root(root, second),
        !git_filtered(root, second),
        change_triggers(root, first, m, t1, period),
        t1 <= t2,
    ensures
        ({
            let m1 = tracker_after_change(root, first, m, t1, period);
            &&& (t2 - t1 < period ==> !change_triggers(root, second, m1, t2, period)
                && tracker_after_change(root, second, m1, t2, period) == m1)
            &&& (t2 - t1 >= period ==> change_triggers(root, second, m1, t2, period))
        }),
{
}

/// A change under a root's version-control metadata subtree never triggers a
/// snapshot and never updates that root's debounce timestamp: the snapshot
/// engine's own writes cannot re-trigger it.
pub proof fn law_git_change_inert(
    root: Seq<Seq<u8>>,
    changed: Seq<Seq<u8>>,
    m: Map<Seq<Seq<u8>>, u64>,
    now: u64,
    period: u64,
)
    requires
        under_root(root, changed),
        rel_of(root, changed).len() > 0,
        rel_of(root, changed)[0] == git_segment(),
    ensures
        git_filtered(root, changed),
        !change_triggers(root, changed, m, now, period),
        tracker_after_change(root, changed, m, now, period) == m,
{
}

/// After a reload swaps the watched set from root `old_root` to root
/// `new_root` alone, no registered root is `old_root` any more (so changes
/// under it reach no handler), while a clean, undebounced change under
/// `new_root` triggers — even against the debounce history carried over from
/// before the swap.
pub proof fn law_reload_switches_roots(
    old_root: Seq<Seq<u8>>,
    new_root: Seq<Seq<u8>>,
    new_roots: Seq<Seq<Seq<u8>>>,
    changed: Seq<Seq<u8>>,
    m: Map<Seq<Seq<u8>>, u64>,
    now: u64,
    period: u64,
)
    requires
        new_roots == seq![new_root],
        old_root != new_root,
        under_root(new_root, changed),
        !git_filtered(new_root, changed),
        !spec_suppress(m, new_root, now, period),
    ensures
        forall|i: int| 0 <= i < new_roots.len() ==> new_roots[i] != old_root,
        change_triggers(new_root, changed, m, now, period),
{
}

/// A suppressed change leaves the whole table untouched — in particular the
/// window stays anchored at the last accepted trigger, so a continuous
/// sub-window stream never pushes the next allowed trigger into the future:
/// once the window has elapsed since the last *accepted* trigger, the next
/// change triggers, however many suppressed changes arrived in between.
pub proof fn law_window_anchored_at_accepted(
    root: Seq<Seq<u8>>,
    burst: Seq<Seq<u8>>,
    late: Seq<Seq<u8>>,
    m: Map<Seq<Seq<u8>>, u64>,
    t_accept: u64,
    t_burst: u64,
    t_late: u64,
    period: u64,
)
    requires
        m.contains_key(root),
        m[root] == t_accept,
        under_root(root, burst),
        !git_filtered(root, burst),
        under_root(root, late),
        !git_filtered(root, late),
        t_burst < t_accept + period,
        t_late >= t_accept + period,
    ensures
        !change_triggers(root, burst, m, t_burst, period),
        tracker_after_change(root, burst, m, t_burst, period) == m,
        change_triggers(root, late, tracker_after_change(root, burst, m, t_burst, period), t_late, period),
{
}

} // verus!
