//! The watch-set lifecycle: generations, the per-root change handler, and the
//! hot-reload state machine.
//!
//! A generation is one complete, internally consistent set of watch
//! registrations built from one configuration. The `RepoWatcher` facade owns
//! the single live generation and the long-lived debounce tracker; replacing
//! the generation (hot reload) never recreates the tracker, so reload churn
//! never erases debounce history.

use vstd::prelude::*;

use crate::config::{Error, WatchConfig, WatchMode};
use crate::debounce::{spec_suppress, DebounceTracker};
use crate::paths::{git_filtered, is_git_segment, rel_of, strip_prefix, under_root, SegmentPath};

verus! {

/// Every configured repository path resolved to a canonical root.
pub open spec fn all_resolved(rs: Seq<Option<SegmentPath>>) -> bool {
    forall|i: int| 0 <= i < rs.len() ==> rs[i].is_some()
}

/// A change event for `changed` under the watched root `root` leads to a
/// snapshot trigger in tracker state `m` at time `now`: the event lies under
/// the root, is not version-control metadata, and is not debounced.
pub open spec fn change_triggers(
    root: Seq<Seq<u8>>,
    changed: Seq<Seq<u8>>,
    m: Map<Seq<Seq<u8>>, u64>,
    now: u64,
    period: u64,
) -> bool {
    &&& under_root(root, changed)
    &&& !git_filtered(root, changed)
    &&& !spec_suppress(m, root, now, period)
}

/// The tracker state after one change event: the root's timestamp is set to
/// `now` exactly when the event triggers, and is left untouched otherwise.
pub open spec fn tracker_after_change(
    root: Seq<Seq<u8>>,
    changed: Seq<Seq<u8>>,
    m: Map<Seq<Seq<u8>>, u64>,
    now: u64,
    period: u64,
) -> Map<Seq<Seq<u8>>, u64> {
    if change_triggers(root, changed, m, now, period) {
        m.insert(root, now)
    } else {
        m
    }
}

/// What the change handler decided for one observed event.
pub enum ChangeDecision {
    /// The changed path does not lie under the registered root: an internal
    /// invariant violation; the event is logged and dropped.
    Invalid,
    /// The change is under the root's version-control metadata subtree; it is
    /// dropped without consulting the debounce gate.
    GitFiltered,
    /// A prior accepted trigger for this root is less than the debounce
    /// window away; the event is dropped.
    Suppressed,
    /// A snapshot of the root is due; the payload is the changed path
    /// relative to the root.
    Triggered(SegmentPath),
}

/// One complete set of active watch registrations built from one
/// configuration.
pub struct Generation {
    /// The canonical roots registered with the notification engine, in
    /// configured order.
    pub roots: Vec<SegmentPath>,
    /// Passed through to the notification engine unmodified.
    pub mode: WatchMode,
    /// The debounce window, in the same time ticks as event timestamps.
    pub debounce_period: u64,
    /// When present, the canonical path of the backing configuration file:
    /// this generation monitors it and hot reload is armed.
    pub config_path: Option<SegmentPath>,
}

impl Generation {
    /// Builds a generation from a configuration and the resolution outcome of
    /// each configured repository path, in order. Construction is
    /// all-or-nothing: one unresolved entry fails the whole build, and no
    /// partially-watched generation ever exists.
    pub fn build(config: &WatchConfig, resolved: Vec<Option<SegmentPath>>) -> (r: Result<
        Generation,
        Error,
    >)
        requires
            resolved@.len() == config.repos@.len(),
        ensures
            match r {
                Ok(g) => {
                    &&& all_resolved(resolved@)
                    &&& g.roots@.len() == resolved@.len()
                    &&& forall|i: int|
                        0 <= i < resolved@.len() ==> g.roots@[i]@ == resolved@[i].unwrap()@
                    &&& g.mode == config.mode
                    &&& g.debounce_period == config.debounce_period
                    &&& g.config_path.is_none()
                },
                Err(e) => {
                    &&& !all_resolved(resolved@)
                    &&& e matches Error::Path { index } && resolved@[index as int].is_none()
                        && (forall|j: int| 0 <= j < index ==> resolved@[j].is_some())
                },
            },
    {
        let n = resolved.len();
        let mut roots: Vec<SegmentPath> = Vec::new();
        let mut i: usize = 0;
        while i < n
            invariant
                n == resolved@.len(),
                i <= n,
                roots@.len() == i,
                forall|j: int| 0 <= j < i ==> resolved@[j].is_some(),
                forall|j: int| 0 <= j < i ==> roots@[j]@ == resolved@[j].unwrap()@,
            decreases n - i,
        {
            match &resolved[i] {
                Some(p) => {
                    roots.push(p.clone());
                },
                None => {
                    return Err(Error::Path { index: i });
                },
            }
            i += 1;
        }
        Ok(
            Generation {
                roots,
                mode: config.mode,
                debounce_period: config.debounce_period,
                config_path: None,
            },
        )
    }
}

/// The top-level facade: owner of the single live generation and of the
/// long-lived debounce tracker.
pub struct RepoWatcher {
    /// The currently live generation; the only place one is installed or
    /// replaced.
    pub gen: Generation,
    /// Shared across every rebuilt generation; never recreated on reload.
    pub tracker: DebounceTracker,
}

impl RepoWatcher {
    /// The facade's invariant: the tracker's table is well formed.
    pub open spec fn wf(&self) -> bool {
        self.tracker.wf()
    }

    /// Builds the initial generation from an in-memory configuration.
    /// `resolved` holds the resolution outcome of each configured repository
    /// path, in order. No reload handler is armed: there is no backing file
    /// to observe.
    pub fn new(config: WatchConfig, resolved: Vec<Option<SegmentPath>>) -> (r: Result<
        RepoWatcher,
        Error,
    >)
        requires
            resolved@.len() == config.repos@.len(),
        ensures
            match r {
                Ok(w) => {
                    &&& w.wf()
                    &&& w.tracker@ == Map::<Seq<Seq<u8>>, u64>::empty()
                    &&& all_resolved(resolved@)
                    &&& w.gen.roots@.len() == resolved@.len()
                    &&& forall|i: int|
                        0 <= i < resolved@.len() ==> w.gen.roots@[i]@ == resolved@[i].unwrap()@
                    &&& w.gen.mode == config.mode
                    &&& w.gen.debounce_period == config.debounce_period
                    &&& w.gen.config_path.is_none()
                },
                Err(e) => {
                    &&& !all_resolved(resolved@)
                    &&& e matches Error::Path { index } && resolved@[index as int].is_none()
                        && (forall|j: int| 0 <= j < index ==> resolved@[j].is_some())
                },
            },
    {
        let gen = Generation::build(&config, resolved)?;
        Ok(RepoWatcher { gen, tracker: DebounceTracker::new() })
    }

    /// Arms hot reload: the live generation additionally monitors the
    /// backing configuration file at `config_path`.
    pub fn watch_config(&mut self, config_path: SegmentPath)
        ensures
            final(self).wf() == old(self).wf(),
            final(self).tracker == old(self).tracker,
            final(self).gen.roots == old(self).gen.roots,
            final(self).gen.mode == old(self).gen.mode,
            final(self).gen.debounce_period == old(self).gen.debounce_period,
            final(self).gen.config_path == Some(config_path),
    {
        self.gen.config_path = Some(config_path);
    }

    /// Builds the initial generation from a configuration loaded out of the
    /// file at `config_path` and arms hot reload on that file. `parsed` is
    /// the outcome of reading and parsing the file (`None` when either
    /// failed, which is fatal here, unlike at reload time), and `resolved`
    /// the resolution outcome of each parsed repository path, in order.
    pub fn with_config(
        config_path: SegmentPath,
        parsed: Option<WatchConfig>,
        resolved: Vec<Option<SegmentPath>>,
    ) -> (r: Result<RepoWatcher, Error>)
        requires
            parsed matches Some(c) ==> resolved@.len() == c.repos@.len(),
        ensures
            match r {
                Ok(w) => {
                    &&& parsed.is_some()
                    &&& all_resolved(resolved@)
                    &&& w.wf()
                    &&& w.tracker@ == Map::<Seq<Seq<u8>>, u64>::empty()
                    &&& w.gen.roots@.len() == resolved@.len()
                    &&& forall|i: int|
                        0 <= i < resolved@.len() ==> w.gen.roots@[i]@ == resolved@[i].unwrap()@
                    &&& w.gen.mode == parsed.unwrap().mode
                    &&& w.gen.debounce_period == parsed.unwrap().debounce_period
                    &&& w.gen.config_path == Some(config_path)
                },
                Err(e) => {
                    &&& (parsed.is_none() ==> e is Config)
                    &&& (parsed.is_some() ==> {
                        &&& !all_resolved(resolved@)
                        &&& e matches Error::Path { index } && resolved@[index as int].is_none()
                            && (forall|j: int| 0 <= j < index ==> resolved@[j].is_some())
                    })
                },
            },
    {
        match parsed {
            None => Err(Error::Config),
            Some(c) => {
                let mut w = RepoWatcher::new(c, resolved)?;
                w.watch_config(config_path);
                Ok(w)
            },
        }
    }

    /// The per-root change handler: called with the index of the registered
    /// root and the changed absolute path. Computes the path relative to the
    /// root, drops version-control metadata changes without touching the
    /// debounce state, consults the debounce rule otherwise, and calls for a
    /// snapshot exactly when that rule allows.
    pub fn handle_change(&mut self, root_index: usize, changed: &SegmentPath, now: u64) -> (r:
        ChangeDecision)
        requires
            old(self).wf(),
            root_index < old(self).gen.roots@.len(),
        ensures
            ({
                let root = old(self).gen.roots@[root_index as int]@;
                let m = old(self).tracker@;
                let period = old(self).gen.debounce_period;
                &&& final(self).wf()
                &&& final(self).gen == old(self).gen
                &&& final(self).tracker@ == tracker_after_change(root, changed@, m, now, period)
                &&& (r is Invalid <==> !under_root(root, changed@))
                &&& (r is GitFiltered <==> git_filtered(root, changed@))
                &&& (r is Suppressed <==> under_root(root, changed@) && !git_filtered(
                    root,
                    changed@,
                ) && spec_suppress(m, root, now, period))
                &&& (r is Triggered <==> change_triggers(root, changed@, m, now, period))
                &&& (r matches ChangeDecision::Triggered(rel) ==> rel@ == rel_of(root, changed@))
            }),
    {
        let period = self.gen.debounce_period;
        let rel_opt = strip_prefix(&self.gen.roots[root_index], changed);
        match rel_opt {
            None => ChangeDecision::Invalid,
            Some(rel) => {
                let is_git = rel.segments.len() > 0 && is_git_segment(&rel.segments[0]);
                if is_git {
                    ChangeDecision::GitFiltered
                } else {
                    let suppressed = self.tracker.should_suppress(
                        &self.gen.roots[root_index],
                        now,
                        period,
                    );
                    if suppressed {
                        ChangeDecision::Suppressed
                    } else {
                        ChangeDecision::Triggered(rel)
                    }
                }
            },
        }
    }

    /// The debounce gate for changes to the backing configuration file
    /// itself, keyed by the file's canonical path in the same long-lived
    /// tracker, so that rapid rewrites collapse into one reload.
    pub fn config_change_gate(&mut self, now: u64) -> (suppressed: bool)
        requires
            old(self).wf(),
            old(self).gen.config_path.is_some(),
        ensures
            ({
                let key = old(self).gen.config_path.unwrap()@;
                let m = old(self).tracker@;
                let period = old(self).gen.debounce_period;
                &&& final(self).wf()
                &&& final(self).gen == old(self).gen
                &&& suppressed == spec_suppress(m, key, now, period)
                &&& final(self).tracker@ == if suppressed {
                    m
                } else {
                    m.insert(key, now)
                }
            }),
    {
        let period = self.gen.debounce_period;
        match &self.gen.config_path {
            Some(p) => self.tracker.should_suppress(p, now, period),
            None => false,
        }
    }

    /// The hot-reload transition, to be run once `config_change_gate` has
    /// allowed it. `parsed` is the outcome of re-reading and re-parsing the
    /// configuration file, `resolved` the resolution outcome of each parsed
    /// repository path. Parse and build failures are soft: the current
    /// generation is retained unchanged. On success the new generation is
    /// installed atomically, stays armed on the same configuration file, and
    /// the debounce history survives untouched.
    pub fn apply_reload(&mut self, parsed: Option<WatchConfig>, resolved: Vec<
        Option<SegmentPath>,
    >) -> (r: ReloadOutcome)
        requires
            old(self).wf(),
            old(self).gen.config_path.is_some(),
            parsed matches Some(c) ==> resolved@.len() == c.repos@.len(),
        ensures
            final(self).wf(),
            final(self).tracker == old(self).tracker,
            (r is ParseFailed <==> parsed.is_none()),
            parsed.is_none() ==> final(self).gen == old(self).gen,
            parsed.is_some() && !all_resolved(resolved@) ==> r is BuildFailed && final(self).gen
                == old(self).gen,
            parsed.is_some() && all_resolved(resolved@) ==> ({
                &&& r is Swapped
                &&& final(self).gen.roots@.len() == resolved@.len()
                &&& forall|i: int|
                    0 <= i < resolved@.len() ==> final(self).gen.roots@[i]@
                        == resolved@[i].unwrap()@
                &&& final(self).gen.mode == parsed.unwrap().mode
                &&& final(self).gen.debounce_period == parsed.unwrap().debounce_period
                &&& final(self).gen.config_path.is_some()
                &&& final(self).gen.config_path.unwrap()@ == old(
                    self,
                ).gen.config_path.unwrap()@
            }),
    {
        match parsed {
            None => ReloadOutcome::ParseFailed,
            Some(c) => {
                match Generation::build(&c, resolved) {
                    Err(_) => ReloadOutcome::BuildFailed,
                    Ok(mut g) => {
                        // Re-arm self-monitoring on the new generation, or
                        // hot reload would silently stop after one cycle.
                        let cp = match &self.gen.config_path {
                            Some(p) => Some(p.clone()),
                            None => None,
                        };
                        g.config_path = cp;
                        self.gen = g;
                        ReloadOutcome::Swapped
                    },
                }
            },
        }
    }
}

/// What one run of the hot-reload transition did.
#[derive(Clone, Copy, PartialEq, Eq, Structural, Debug)]
pub enum ReloadOutcome {
    /// The rewritten configuration file did not parse; the prior generation
    /// is retained unchanged.
    ParseFailed,
    /// A repository path of the new configuration did not resolve; the prior
    /// generation is retained unchanged.
    BuildFailed,
    /// The new generation was installed and the prior one released.
    Swapped,
}

/// The tail of the change handler, after a trigger was accepted: whether the
/// snapshot operation is actually invoked. `repo_found` is whether a
/// repository handle resolved for the root (a soft failure when it did not),
/// and `ignore_check` the outcome of the repository's ignore query for the
/// relative path (`None` when the query itself failed, which is treated as
/// not ignored).
pub fn snapshot_permitted(repo_found: bool, ignore_check: Option<bool>) -> (r: bool)
    ensures
        r == (repo_found && ignore_check != Some(true)),
{
    repo_found && !(match ignore_check {
        Some(b) => b,
        None => false,
    })
}

} // verus!
