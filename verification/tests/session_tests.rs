use dsh_desktop::session::{child_exited, dsh_url, get_dsh_url, ChildPoll, SessionState};

#[test]
fn url_uses_loopback_and_port() {
    assert_eq!(dsh_url(5173), "http://127.0.0.1:5173");
    assert_eq!(dsh_url(0), "http://127.0.0.1:0");
    let mut s = SessionState::new();
    assert_eq!(get_dsh_url(&s), "http://127.0.0.1:0");
    s.set_port(41234);
    assert_eq!(get_dsh_url(&s), "http://127.0.0.1:41234");
    s.kill();
    assert_eq!(get_dsh_url(&s), "http://127.0.0.1:0");
}

#[test]
fn only_an_observed_exit_counts() {
    assert!(child_exited(ChildPoll::Exited));
    assert!(!child_exited(ChildPoll::Running));
    assert!(!child_exited(ChildPoll::NoChild));
    assert!(!child_exited(ChildPoll::PollFailed));
}

#[test]
fn new_sessions_supersede_old_supervisors() {
    let mut s = SessionState::new();
    let g1 = s.begin_session();
    assert!(s.is_current(g1));
    let g2 = s.begin_session();
    assert!(!s.is_current(g1));
    assert!(s.is_current(g2));
    s.kill();
    assert!(!s.is_current(g2));
}

#[test]
fn generation_wraps_around() {
    let mut s = SessionState::new();
    s.generation = u64::MAX;
    assert_eq!(s.begin_session(), 0);
}

#[test]
fn begin_session_clears_readiness_and_flags() {
    let mut s = SessionState::new();
    s.set_ready(true);
    s.flags.plugin_conflict = true;
    s.auto_restarts = 2;
    s.begin_session();
    assert!(!s.ready);
    assert!(!s.flags.plugin_conflict);
    assert_eq!(s.auto_restarts, 0);
    s.set_port(80);
    s.flags.plugin_missing = true;
    s.clear_log_flags();
    assert!(!s.flags.plugin_missing);
    s.record_auto_restarts(2);
    assert_eq!(s.auto_restarts, 2);
    s.child_stopped();
    assert_eq!(s.port, None);
}
