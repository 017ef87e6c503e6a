use dsh_desktop::logs::{
    classify_lowered, detect_plugin_conflict, get_log_history, has_third_party_plugin, LineSignal,
    LogHistory, LOG_HISTORY_CAP,
};
use dsh_desktop::session::LaunchFlags;

fn no_flags() -> LaunchFlags {
    LaunchFlags { plugin_conflict: false, plugin_missing: false }
}

#[test]
fn history_trims_and_keeps_order() {
    let mut h = LogHistory::new();
    assert_eq!(h.push("first  \r\n"), "first");
    h.push("  second");
    assert_eq!(get_log_history(&h), vec!["first".to_string(), "  second".to_string()]);
}

#[test]
fn history_keeps_the_most_recent_lines() {
    let mut h = LogHistory::new();
    for i in 0..(LOG_HISTORY_CAP + 3) {
        h.push(&format!("line {i}"));
    }
    let lines = h.lines();
    assert_eq!(lines.len(), LOG_HISTORY_CAP);
    assert_eq!(h.len(), LOG_HISTORY_CAP);
    assert_eq!(lines[0], "line 3");
    assert_eq!(lines[LOG_HISTORY_CAP - 1], format!("line {}", LOG_HISTORY_CAP + 2));
}

#[test]
fn missing_package_lines_raise_the_missing_flag() {
    let mut f = no_flags();
    detect_plugin_conflict(&mut f, "Error [ERR_MODULE_NOT_FOUND]: Cannot find package 'x'");
    assert!(f.plugin_missing);
    assert!(!f.plugin_conflict);
}

#[test]
fn missing_wins_over_conflict_in_one_line() {
    let mut f = no_flags();
    detect_plugin_conflict(&mut f, "Plugin tree failed to load: ENOENT");
    assert_eq!(f, LaunchFlags { plugin_conflict: false, plugin_missing: true });
}

#[test]
fn conflict_lines_raise_the_conflict_flag() {
    let mut f = no_flags();
    detect_plugin_conflict(&mut f, "SyntaxError: The requested module does NOT provide an export named 'h'");
    assert_eq!(f, LaunchFlags { plugin_conflict: true, plugin_missing: false });
    detect_plugin_conflict(&mut f, "all good");
    assert_eq!(f, LaunchFlags { plugin_conflict: true, plugin_missing: false });
}

#[test]
fn regex_like_marker_is_plain_text() {
    assert_eq!(classify_lowered("plugin foo load failed"), LineSignal::Quiet);
    assert_eq!(classify_lowered("plugin.*load failed"), LineSignal::PluginConflict);
    assert_eq!(classify_lowered("failed to import loader entry"), LineSignal::PluginConflict);
    assert_eq!(classify_lowered("cannot find module 'a'"), LineSignal::PackageMissing);
    assert_eq!(classify_lowered("package not found"), LineSignal::PackageMissing);
    assert_eq!(classify_lowered("ready"), LineSignal::Quiet);
}

#[test]
fn lowercase_is_applied_before_matching() {
    let mut f = no_flags();
    detect_plugin_conflict(&mut f, "FAILED TO APPLY LOADER ENTRY");
    assert!(f.plugin_conflict);
}

#[test]
fn third_party_plugin_is_found() {
    let out = "web\n├── @deepseek-ai/dsh-core@1.2.0\n└── cool-plugin@0.3.1\n";
    assert!(has_third_party_plugin(out));
}

#[test]
fn system_plugins_only() {
    let out = "web\r\n├── @deepseek-ai/dsh-core@1.2.0\r\n└── @deepseek-ai/cosmokit@4.0.0\r\n";
    assert!(!has_third_party_plugin(out));
    assert!(!has_third_party_plugin(""));
}

#[test]
fn scoped_third_party_plugin_is_found() {
    assert!(has_third_party_plugin("  └──   @acme/tool@2.0.0  "));
}

#[test]
fn entries_without_a_numeric_version_are_ignored() {
    assert!(!has_third_party_plugin("├── plugin@latest\n└── other"));
    assert!(!has_third_party_plugin("cool-plugin@1.0.0"));
    assert!(!has_third_party_plugin("├── cool-plugin@"));
    assert!(has_third_party_plugin("├── a@b@1"));
}

#[test]
fn third_party_check_of_joined_text_is_either_part() {
    let parts = [
        "web\n├── @deepseek-ai/dsh-core@1.2.0",
        "└── cool-plugin@0.3.1",
        "",
        "├── cool-plugin@",
        "1.0.0",
    ];
    for a in parts {
        for b in parts {
            let joined = format!("{a}\n{b}");
            assert_eq!(
                has_third_party_plugin(&joined),
                has_third_party_plugin(a) || has_third_party_plugin(b),
                "{a:?} + {b:?}"
            );
        }
    }
}
