use dsh_desktop::supervisor::{
    probe_verdict, Command, Effect, Event, Probe, Stage, Supervisor, LEGACY_READY_ITERATIONS,
    MAX_BOOT_RETRIES, WATCHDOG_UNHEALTHY_LIMIT,
};

fn logs(effects: &[Effect]) -> Vec<String> {
    effects
        .iter()
        .filter_map(|e| match e {
            Effect::Log(s) => Some(s.clone()),
            _ => None,
        })
        .collect()
}

fn alive() -> Event {
    Event::ChildPolled { exited: false, plugin_missing: false, plugin_conflict: false }
}

fn died(missing: bool, conflict: bool) -> Event {
    Event::ChildPolled { exited: true, plugin_missing: missing, plugin_conflict: conflict }
}

#[test]
fn probe_verdict_needs_upgrade_required() {
    assert_eq!(probe_verdict(Some(426)), Probe::Ready);
    assert_eq!(probe_verdict(Some(200)), Probe::NotReady);
    assert_eq!(probe_verdict(Some(404)), Probe::NotReady);
    assert_eq!(probe_verdict(None), Probe::NoAnswer);
}

#[test]
fn ready_probe_starts_watching() {
    let mut s = Supervisor::new();
    assert_eq!(s.command(), Command::PollChild);
    assert!(s.step(alive()).is_empty());
    assert_eq!(s.command(), Command::Probe);
    let out = s.step(Event::Probed { probe: Probe::Ready, port: 4321, elapsed_secs: 3 });
    assert!(matches!(out[0], Effect::MarkReady));
    assert_eq!(logs(&out), vec!["[ready] DSH web server is up at http://127.0.0.1:4321".to_string()]);
    assert!(matches!(out[2], Effect::EmitReady));
    assert_eq!(s.stage, Stage::Watching);
    assert_eq!(s.command(), Command::Watch);
}

#[test]
fn boot_retries_are_bounded_with_growing_delay() {
    let mut s = Supervisor::new();
    for n in 1..=MAX_BOOT_RETRIES {
        let out = s.step(died(false, false));
        assert_eq!(s.command(), Command::Respawn { delay_secs: 5 * n as u64 });
        assert_eq!(
            logs(&out),
            vec![format!("[warn] DSH 启动过程中退出,{} 秒后自动重试(第 {}/{} 次)…", 5 * n, n, MAX_BOOT_RETRIES)]
        );
        let out = s.step(Event::Respawned { error: None });
        assert!(matches!(out[0], Effect::RestartBootClock));
        assert_eq!(s.command(), Command::PollChild);
    }
    let out = s.step(died(false, false));
    assert_eq!(s.command(), Command::Stop);
    assert_eq!(
        logs(&out),
        vec!["[error] DSH 进程已退出,自动重试均失败。可点击下方「重试启动」再次尝试。".to_string()]
    );
    assert!(matches!(out[1], Effect::LaunchFailed));
    assert!(matches!(out[2], Effect::ShowLoadingWindow));
}

#[test]
fn missing_package_is_not_retried() {
    let mut s = Supervisor::new();
    let out = s.step(died(true, true));
    assert_eq!(s.command(), Command::Stop);
    assert_eq!(s.boot_retries, 0);
    assert_eq!(out.len(), 4);
    assert!(!out.iter().any(|e| matches!(e, Effect::OpenPluginList)));
    assert!(logs(&out)[1].starts_with("[hint] 检测到插件包缺失"));
}

#[test]
fn conflict_with_third_party_plugin_opens_the_list() {
    let mut s = Supervisor::new();
    let out = s.step(died(false, true));
    assert_eq!(logs(&out), vec!["[error] DSH 进程已退出,启动失败。".to_string()]);
    assert_eq!(s.command(), Command::ListPlugins);
    let out = s.step(Event::PluginsListed { has_third_party: true });
    assert!(out.iter().any(|e| matches!(e, Effect::OpenPluginList)));
    assert_eq!(s.command(), Command::Stop);
}

#[test]
fn conflict_without_third_party_plugin_suggests_clearing() {
    let mut s = Supervisor::new();
    s.step(died(false, true));
    let out = s.step(Event::PluginsListed { has_third_party: false });
    assert!(!out.iter().any(|e| matches!(e, Effect::OpenPluginList)));
    assert!(logs(&out)[0].starts_with("[hint] 日志中出现插件加载告警"));
    assert_eq!(s.command(), Command::Stop);
}

#[test]
fn failed_respawn_ends_supervision() {
    let mut s = Supervisor::new();
    s.step(died(false, false));
    let out = s.step(Event::Respawned { error: Some("no such file".to_string()) });
    assert_eq!(logs(&out), vec!["[error] failed to spawn DSH: no such file".to_string()]);
    assert_eq!(s.command(), Command::Stop);
}

#[test]
fn legacy_root_page_readiness_needs_a_long_streak() {
    let mut s = Supervisor::new();
    for i in 1..LEGACY_READY_ITERATIONS {
        s.step(alive());
        s.step(Event::Probed { probe: Probe::NoAnswer, port: 9, elapsed_secs: 1 });
        assert_eq!(s.command(), Command::CheckRoot);
        let out = s.step(Event::RootChecked { ok: true, port: 9, elapsed_secs: 1 });
        assert!(!out.iter().any(|e| matches!(e, Effect::EmitReady)));
        assert_eq!(s.root_ok_streak, i);
    }
    s.step(alive());
    s.step(Event::Probed { probe: Probe::NoAnswer, port: 9, elapsed_secs: 1 });
    let out = s.step(Event::RootChecked { ok: true, port: 9, elapsed_secs: 1 });
    assert!(out.iter().any(|e| matches!(e, Effect::EmitReady)));
    assert_eq!(s.stage, Stage::Watching);
}

#[test]
fn a_failed_root_check_resets_the_streak() {
    let mut s = Supervisor::new();
    s.step(alive());
    s.step(Event::Probed { probe: Probe::NoAnswer, port: 9, elapsed_secs: 1 });
    s.step(Event::RootChecked { ok: true, port: 9, elapsed_secs: 1 });
    assert_eq!(s.root_ok_streak, 1);
    s.step(alive());
    s.step(Event::Probed { probe: Probe::NoAnswer, port: 9, elapsed_secs: 1 });
    s.step(Event::RootChecked { ok: false, port: 9, elapsed_secs: 1 });
    assert_eq!(s.root_ok_streak, 0);
}

#[test]
fn heartbeat_lines_are_rare() {
    let mut s = Supervisor::new();
    let mut beats = Vec::new();
    for _ in 0..100 {
        s.step(alive());
        let out = s.step(Event::Probed { probe: Probe::NotReady, port: 80, elapsed_secs: 10 });
        beats.extend(logs(&out));
    }
    assert_eq!(
        beats,
        vec![
            "[waiting] http://127.0.0.1:80 not ready yet,正在下载依赖,请稍候…".to_string(),
            "[waiting] http://127.0.0.1:80 仍在等待,请耐心等待…".to_string(),
            "[waiting] http://127.0.0.1:80 仍在等待,请耐心等待…".to_string(),
        ]
    );
}

#[test]
fn boot_times_out_after_twenty_minutes() {
    let mut s = Supervisor::new();
    s.step(alive());
    let out = s.step(Event::Probed { probe: Probe::NotReady, port: 80, elapsed_secs: 1200 });
    assert!(out.is_empty());
    s.step(alive());
    let out = s.step(Event::Probed { probe: Probe::NotReady, port: 80, elapsed_secs: 1201 });
    assert_eq!(
        logs(&out),
        vec!["[error] 启动超时(20 分钟),已停止等待。可点击下方「重试启动」再次尝试。".to_string()]
    );
    assert_eq!(s.command(), Command::Stop);
}

fn watching() -> Supervisor {
    let mut s = Supervisor::new();
    s.step(alive());
    s.step(Event::Probed { probe: Probe::Ready, port: 1, elapsed_secs: 0 });
    s
}

fn unanswered() -> Event {
    Event::Watched { exited: false, probe: Some(Probe::NoAnswer) }
}

fn answered() -> Event {
    Event::Watched { exited: false, probe: Some(Probe::Ready) }
}

fn exited() -> Event {
    Event::Watched { exited: true, probe: None }
}

fn restart_line(n: u32) -> String {
    format!("[warn] 正在自动重启 DSH(第 {n}/3 次)…")
}

#[test]
fn watchdog_tolerates_short_unresponsiveness() {
    let mut s = watching();
    let out = s.step(unanswered());
    assert_eq!(logs(&out), vec!["[warn] DSH 服务暂时无响应,正在观察…".to_string()]);
    for _ in 2..WATCHDOG_UNHEALTHY_LIMIT {
        assert!(s.step(unanswered()).is_empty());
    }
    assert_eq!(s.command(), Command::Watch);
    let out = s.step(unanswered());
    assert_eq!(
        logs(&out),
        vec!["[warn] DSH 服务持续无响应,视为异常。".to_string(), restart_line(1)]
    );
    assert!(matches!(out[1], Effect::ClearReady));
    assert!(matches!(out[2], Effect::CountAutoRestarts(1)));
    assert!(matches!(out[4], Effect::ShowLoadingWindow));
    assert_eq!(out.len(), 5);
    assert_eq!(s.stage, Stage::AwaitRestart);
    assert_eq!(s.command(), Command::Restart);
}

#[test]
fn watchdog_restarts_when_the_server_dies() {
    let mut s = watching();
    let out = s.step(exited());
    assert_eq!(logs(&out), vec!["[error] DSH 进程意外退出。".to_string(), restart_line(1)]);
    assert!(matches!(out[1], Effect::ClearReady));
    assert!(matches!(out[2], Effect::CountAutoRestarts(1)));
    assert!(matches!(out[4], Effect::ShowLoadingWindow));
    assert_eq!(s.auto_restarts, 1);
    assert_eq!(s.command(), Command::Restart);
}

#[test]
fn restarted_server_is_ready_again() {
    let mut s = watching();
    s.step(exited());
    let out = s.step(Event::Respawned { error: None });
    assert!(matches!(out[..], [Effect::RestartBootClock]));
    assert_eq!(s.stage, Stage::AwaitChild);
    assert_eq!(s.command(), Command::PollChild);
    s.step(alive());
    assert_eq!(s.command(), Command::Probe);
    let out = s.step(Event::Probed { probe: Probe::Ready, port: 5555, elapsed_secs: 2 });
    assert!(matches!(out[0], Effect::MarkReady));
    assert_eq!(logs(&out), vec!["[ready] DSH web server is up at http://127.0.0.1:5555".to_string()]);
    assert!(matches!(out[2], Effect::EmitReady));
    assert_eq!(s.command(), Command::Watch);
    assert_eq!(s.auto_restarts, 1);
}

#[test]
fn failed_restart_ends_supervision() {
    let mut s = watching();
    s.step(exited());
    let out = s.step(Event::Respawned { error: Some("no port".to_string()) });
    assert_eq!(logs(&out), vec!["[error] failed to spawn DSH: no port".to_string()]);
    assert!(matches!(out[1], Effect::LaunchFailed));
    assert_eq!(s.command(), Command::Stop);
}

#[test]
fn restart_budget_runs_out() {
    let mut s = watching();
    for n in 1..=3u32 {
        let out = s.step(exited());
        assert_eq!(logs(&out)[1], restart_line(n));
        assert!(matches!(out[2], Effect::CountAutoRestarts(k) if k == n));
        s.step(Event::Respawned { error: None });
        s.step(alive());
        s.step(Event::Probed { probe: Probe::Ready, port: 1, elapsed_secs: 0 });
        assert_eq!(s.command(), Command::Watch);
    }
    let out = s.step(exited());
    assert_eq!(
        logs(&out),
        vec![
            "[error] DSH 进程意外退出。".to_string(),
            "[error] 已停止自动重启以保留 DSH 错误页面。请根据主窗口中的错误信息排查,或重启应用重新尝试。".to_string(),
        ]
    );
    assert!(matches!(out[1], Effect::ClearReady));
    assert!(matches!(out[3], Effect::LaunchFailed));
    assert_eq!(s.command(), Command::Stop);
}

#[test]
fn healthy_server_rearms_restart_budget_every_five_minutes() {
    let mut s = watching();
    s.step(exited());
    s.step(Event::Respawned { error: None });
    s.step(alive());
    s.step(Event::Probed { probe: Probe::Ready, port: 1, elapsed_secs: 0 });
    assert_eq!(s.auto_restarts, 1);
    s.step(unanswered());
    for _ in 0..59 {
        assert!(s.step(answered()).is_empty());
        assert_eq!(s.unhealthy_streak, 0);
    }
    let out = s.step(answered());
    assert!(matches!(out[..], [Effect::ResetAutoRestarts]));
    assert_eq!(s.healthy_secs, 0);
    assert_eq!(s.auto_restarts, 0);
}

#[test]
fn superseded_session_stops_without_a_word() {
    let mut s = watching();
    let out = s.step(Event::Superseded);
    assert!(out.is_empty());
    assert_eq!(s.command(), Command::Stop);
    let mut b = Supervisor::new();
    b.step(alive());
    assert!(b.step(Event::Superseded).is_empty());
    assert_eq!(b.stage, Stage::Finished);
}

#[test]
fn finished_supervisor_ignores_events() {
    let mut s = Supervisor::new();
    s.step(died(true, false));
    let before = s;
    assert!(s.step(alive()).is_empty());
    assert_eq!(s, before);
}

#[test]
fn unexpected_events_change_nothing() {
    let mut s = Supervisor::new();
    let before = s;
    assert!(s.step(exited()).is_empty());
    assert_eq!(s, before);
}
