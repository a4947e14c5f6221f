use repo_watcher::paths::SegmentPath;
use repo_watcher::watch::{ChangeDecision, ReloadOutcome};
use repo_watcher::{RepoConfig, RepoWatcher, WatchConfig, WatchMode};

fn path(segs: &[&str]) -> SegmentPath {
    SegmentPath { segments: segs.iter().map(|s| s.as_bytes().to_vec()).collect() }
}

fn config_for(root: &[&str], period: u64) -> WatchConfig {
    WatchConfig {
        repos: vec![RepoConfig { path: path(root) }],
        mode: WatchMode::Event,
        debounce_period: period,
    }
}

fn file_watcher(root: &[&str], period: u64) -> RepoWatcher {
    RepoWatcher::with_config(
        path(&["etc", "watch.conf"]),
        Some(config_for(root, period)),
        vec![Some(path(root))],
    )
    .unwrap()
}

#[test]
fn config_file_switch() {
    // The config file first names r1, then is rewritten to name r2: after the
    // reload settles, r1 is no longer registered and a change under r2
    // triggers.
    let mut w = file_watcher(&["r1"], 10);
    assert!(matches!(w.handle_change(0, &path(&["r1", "a"]), 0), ChangeDecision::Triggered(_)));

    let suppressed = w.config_change_gate(1000);
    assert!(!suppressed);
    let outcome = w.apply_reload(Some(config_for(&["r2"], 10)), vec![Some(path(&["r2"]))]);
    assert_eq!(outcome, ReloadOutcome::Swapped);

    assert_eq!(w.gen.roots.len(), 1);
    assert_eq!(w.gen.roots[0].segments, vec![b"r2".to_vec()]);
    assert!(matches!(w.handle_change(0, &path(&["r2", "b"]), 2000), ChangeDecision::Triggered(_)));
    // A change under the old root no longer lies under any registered root.
    assert!(matches!(w.handle_change(0, &path(&["r1", "c"]), 2000), ChangeDecision::Invalid));
}

#[test]
fn unparsable_rewrite_retains_generation() {
    // A rewrite that does not parse is soft: the prior generation keeps
    // working unchanged.
    let mut w = file_watcher(&["r1"], 10);
    let suppressed = w.config_change_gate(0);
    assert!(!suppressed);
    let outcome = w.apply_reload(None, vec![]);
    assert_eq!(outcome, ReloadOutcome::ParseFailed);

    assert_eq!(w.gen.roots.len(), 1);
    assert_eq!(w.gen.roots[0].segments, vec![b"r1".to_vec()]);
    assert!(matches!(w.handle_change(0, &path(&["r1", "a"]), 1), ChangeDecision::Triggered(_)));
}

#[test]
fn failed_build_retains_generation() {
    // A new config whose repo path no longer resolves is soft at reload time.
    let mut w = file_watcher(&["r1"], 10);
    let outcome = w.apply_reload(Some(config_for(&["gone"], 10)), vec![None]);
    assert_eq!(outcome, ReloadOutcome::BuildFailed);
    assert_eq!(w.gen.roots[0].segments, vec![b"r1".to_vec()]);
    assert!(matches!(w.handle_change(0, &path(&["r1", "a"]), 1), ChangeDecision::Triggered(_)));
}

#[test]
fn rapid_rewrites_collapse_into_one_reload() {
    let mut w = file_watcher(&["r1"], 10);
    assert!(!w.config_change_gate(100));
    // A truncate-then-write double event inside the window reloads once.
    assert!(w.config_change_gate(101));
    // Past the window, reloads are allowed again.
    assert!(!w.config_change_gate(111));
}

#[test]
fn swap_keeps_reload_armed() {
    // Each new generation must keep monitoring the config file, or hot
    // reload would silently stop after one cycle.
    let mut w = file_watcher(&["r1"], 10);
    let outcome = w.apply_reload(Some(config_for(&["r2"], 10)), vec![Some(path(&["r2"]))]);
    assert_eq!(outcome, ReloadOutcome::Swapped);
    let armed = w.gen.config_path.as_ref().expect("reload must stay armed");
    assert_eq!(armed.segments, vec![b"etc".to_vec(), b"watch.conf".to_vec()]);

    // And the swapped-in generation reloads again.
    let outcome = w.apply_reload(Some(config_for(&["r3"], 10)), vec![Some(path(&["r3"]))]);
    assert_eq!(outcome, ReloadOutcome::Swapped);
    assert_eq!(w.gen.roots[0].segments, vec![b"r3".to_vec()]);
}

#[test]
fn swap_preserves_debounce_history() {
    // The tracker outlives generations: a root that triggered just before a
    // reload is still inside its window just after, even though the
    // generation was replaced.
    let mut w = file_watcher(&["r1"], 100);
    assert!(matches!(w.handle_change(0, &path(&["r1", "a"]), 0), ChangeDecision::Triggered(_)));

    let outcome = w.apply_reload(Some(config_for(&["r1"], 100)), vec![Some(path(&["r1"]))]);
    assert_eq!(outcome, ReloadOutcome::Swapped);

    assert!(matches!(w.handle_change(0, &path(&["r1", "b"]), 50), ChangeDecision::Suppressed));
    assert!(matches!(w.handle_change(0, &path(&["r1", "c"]), 150), ChangeDecision::Triggered(_)));
}

#[test]
fn reload_applies_new_debounce_period() {
    let mut w = file_watcher(&["r1"], 10);
    let outcome = w.apply_reload(Some(config_for(&["r1"], 1000)), vec![Some(path(&["r1"]))]);
    assert_eq!(outcome, ReloadOutcome::Swapped);
    assert_eq!(w.gen.debounce_period, 1000);
    assert!(matches!(w.handle_change(0, &path(&["r1", "a"]), 0), ChangeDecision::Triggered(_)));
    // 50 ticks would have cleared the old window, but not the new one.
    assert!(matches!(w.handle_change(0, &path(&["r1", "b"]), 50), ChangeDecision::Suppressed));
}
