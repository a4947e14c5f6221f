use repo_watcher::paths::SegmentPath;
use repo_watcher::watch::ChangeDecision;
use repo_watcher::{RepoConfig, RepoWatcher, WatchConfig, WatchMode};

fn path(segs: &[&str]) -> SegmentPath {
    SegmentPath { segments: segs.iter().map(|s| s.as_bytes().to_vec()).collect() }
}

fn watcher_for(root: &[&str], period: u64) -> RepoWatcher {
    let config = WatchConfig {
        repos: vec![RepoConfig { path: path(root) }],
        mode: WatchMode::Event,
        debounce_period: period,
    };
    RepoWatcher::new(config, vec![Some(path(root))]).unwrap()
}

#[test]
fn single_root_burst_counts() {
    // Root r1, mode Event, debounce window 10. A change triggers, a second
    // change 5 ticks later is absorbed, a third past the window triggers.
    let mut w = watcher_for(&["tmp", "r1"], 10);
    let mut snapshots = 0;

    let d = w.handle_change(0, &path(&["tmp", "r1", "a.txt"]), 0);
    if matches!(d, ChangeDecision::Triggered(_)) {
        snapshots += 1;
    }
    assert_eq!(snapshots, 1);

    let d = w.handle_change(0, &path(&["tmp", "r1", "b.txt"]), 5);
    assert!(matches!(d, ChangeDecision::Suppressed));
    assert_eq!(snapshots, 1);

    let d = w.handle_change(0, &path(&["tmp", "r1", "c.txt"]), 15);
    if matches!(d, ChangeDecision::Triggered(_)) {
        snapshots += 1;
    }
    assert_eq!(snapshots, 2);
}

#[test]
fn close_changes_collapse_far_changes_do_not() {
    let mut w = watcher_for(&["r"], 50);
    assert!(matches!(w.handle_change(0, &path(&["r", "x"]), 100), ChangeDecision::Triggered(_)));
    assert!(matches!(w.handle_change(0, &path(&["r", "y"]), 149), ChangeDecision::Suppressed));

    let mut w = watcher_for(&["r"], 50);
    assert!(matches!(w.handle_change(0, &path(&["r", "x"]), 100), ChangeDecision::Triggered(_)));
    assert!(matches!(w.handle_change(0, &path(&["r", "y"]), 151), ChangeDecision::Triggered(_)));
}

#[test]
fn suppressed_change_does_not_move_window() {
    // The window is anchored at the last accepted trigger: a stream of
    // sub-window events never postpones the next allowed trigger.
    let mut w = watcher_for(&["r"], 10);
    assert!(matches!(w.handle_change(0, &path(&["r", "a"]), 0), ChangeDecision::Triggered(_)));
    assert!(matches!(w.handle_change(0, &path(&["r", "b"]), 4), ChangeDecision::Suppressed));
    assert!(matches!(w.handle_change(0, &path(&["r", "c"]), 8), ChangeDecision::Suppressed));
    assert!(matches!(w.handle_change(0, &path(&["r", "d"]), 10), ChangeDecision::Triggered(_)));
}

#[test]
fn git_change_never_snapshots() {
    let mut w = watcher_for(&["tmp", "r1"], 10);
    let d = w.handle_change(0, &path(&["tmp", "r1", ".git", "index"]), 0);
    assert!(matches!(d, ChangeDecision::GitFiltered));

    // The debounce timestamp was not touched: an immediate ordinary change
    // still triggers.
    let d = w.handle_change(0, &path(&["tmp", "r1", "a.txt"]), 0);
    assert!(matches!(d, ChangeDecision::Triggered(_)));
}

#[test]
fn git_named_file_deeper_down_still_snapshots() {
    // Only a leading ".git" component is metadata; a ".git" further down the
    // relative path is an ordinary change.
    let mut w = watcher_for(&["r"], 10);
    let d = w.handle_change(0, &path(&["r", "sub", ".git", "f"]), 0);
    assert!(matches!(d, ChangeDecision::Triggered(_)));
}

#[test]
fn change_outside_root_is_dropped() {
    let mut w = watcher_for(&["tmp", "r1"], 10);
    let d = w.handle_change(0, &path(&["tmp", "other", "a.txt"]), 0);
    assert!(matches!(d, ChangeDecision::Invalid));

    // Dropped events leave the debounce state untouched.
    let d = w.handle_change(0, &path(&["tmp", "r1", "a.txt"]), 0);
    assert!(matches!(d, ChangeDecision::Triggered(_)));
}

#[test]
fn trigger_reports_root_relative_path() {
    let mut w = watcher_for(&["tmp", "r1"], 10);
    let d = w.handle_change(0, &path(&["tmp", "r1", "sub", "a.txt"]), 0);
    match d {
        ChangeDecision::Triggered(rel) => {
            assert_eq!(rel.segments, vec![b"sub".to_vec(), b"a.txt".to_vec()]);
        }
        _ => panic!("expected a trigger"),
    }
}

#[test]
fn roots_debounce_independently() {
    let config = WatchConfig {
        repos: vec![RepoConfig { path: path(&["r1"]) }, RepoConfig { path: path(&["r2"]) }],
        mode: WatchMode::Poll,
        debounce_period: 10,
    };
    let mut w =
        RepoWatcher::new(config, vec![Some(path(&["r1"])), Some(path(&["r2"]))]).unwrap();
    assert!(matches!(w.handle_change(0, &path(&["r1", "a"]), 0), ChangeDecision::Triggered(_)));
    // A fresh trigger on r1 does not gate r2.
    assert!(matches!(w.handle_change(1, &path(&["r2", "b"]), 1), ChangeDecision::Triggered(_)));
    assert!(matches!(w.handle_change(0, &path(&["r1", "c"]), 2), ChangeDecision::Suppressed));
}
