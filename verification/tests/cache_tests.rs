use dsh_desktop::cache::{
    clear_plan, fast_removal_report, final_progress, parse_clear_mode, retry_after_failure,
    ClearMode, ClearReport, ClearStep, RemovalOutcome, StoreRemoval,
};

fn removed_dirs(mode: ClearMode) -> Vec<Vec<String>> {
    clear_plan(mode)
        .into_iter()
        .filter_map(|s| match s {
            ClearStep::Remove { parts, .. } | ClearStep::RemoveStore { parts, .. } => Some(parts),
            ClearStep::Progress { .. } => None,
        })
        .collect()
}

#[test]
fn modes_are_read_trimmed() {
    assert_eq!(parse_clear_mode(" deps "), Ok(ClearMode::Deps));
    assert_eq!(parse_clear_mode("all"), Ok(ClearMode::All));
    assert_eq!(parse_clear_mode("everything"), Err("mode must be \"deps\" or \"all\"".to_string()));
}

#[test]
fn deps_mode_removes_only_dependency_caches() {
    let dirs = removed_dirs(ClearMode::Deps);
    assert_eq!(
        dirs,
        vec![
            vec!["dsh-home", "profiles", "web", "node_modules"],
            vec!["store"],
            vec!["cache"],
            vec!["pnpm"],
        ]
    );
}

#[test]
fn all_mode_also_removes_the_plugin_profile() {
    let dirs = removed_dirs(ClearMode::All);
    assert_eq!(dirs[0], vec!["dsh-home", "profiles", "web"]);
    assert_eq!(dirs[1], vec!["dsh-home", "profiles", "node_modules"]);
    assert_eq!(dirs.len(), 5);
    for d in dirs {
        if d[0] == "dsh-home" {
            assert_eq!(d[1], "profiles");
        }
    }
}

#[test]
fn progress_steps_in_order() {
    let pcts: Vec<u32> = clear_plan(ClearMode::Deps)
        .into_iter()
        .filter_map(|s| match s {
            ClearStep::Progress { pct, .. } => Some(pct),
            _ => None,
        })
        .collect();
    assert_eq!(pcts, vec![30, 60, 75, 85]);
}

#[test]
fn removal_outcomes_are_recorded() {
    let mut r = ClearReport::new();
    r.record_removal("下载缓存 (cache)", RemovalOutcome::Missing);
    r.record_removal("pnpm dlx 缓存", RemovalOutcome::Removed);
    assert_eq!(r.finish(), Ok(()));
    r.record_removal("x", RemovalOutcome::Failed("denied".to_string()));
    assert_eq!(r.removed, vec!["下载缓存 (cache)(不存在)", "pnpm dlx 缓存"]);
    assert_eq!(r.failed, vec!["x: denied"]);
    assert_eq!(r.finish(), Err("部分清除失败:\nx: denied".to_string()));
}

#[test]
fn store_reports() {
    let l = "pnpm 依赖缓存 (store)";
    assert_eq!(fast_removal_report(l, StoreRemoval::Missing), format!("{l}(不存在)"));
    assert_eq!(fast_removal_report(l, StoreRemoval::Removed), l);
    assert_eq!(
        fast_removal_report(l, StoreRemoval::RenamedNotRemoved("\"/d/store.deleting\"".to_string())),
        format!("{l}: 删除 \"/d/store.deleting\" 失败")
    );
    assert_eq!(fast_removal_report(l, StoreRemoval::Failed), format!("{l}: 删除失败"));
}

#[test]
fn store_failures_fail_the_clearing() {
    let mut r = ClearReport::new();
    r.record_store(fast_removal_report("s", StoreRemoval::Failed));
    r.record_store(fast_removal_report("t", StoreRemoval::Removed));
    r.record_store(String::new());
    assert_eq!(r.failed, vec!["s: 删除失败"]);
    assert_eq!(r.removed, vec!["t"]);
    let e = r.finish();
    assert_eq!(final_progress(&e).1, "清除失败");
    assert_eq!(final_progress(&Ok(())).0, 100);
}

#[test]
fn three_attempts_at_most() {
    assert!(retry_after_failure(0));
    assert!(retry_after_failure(1));
    assert!(!retry_after_failure(2));
}
