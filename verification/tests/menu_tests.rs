use dsh_desktop::menu::{
    config_dialog, kills_dsh, menu_action, menu_groups, tools_page_name, tools_url, update_prompt,
    AppEvent, MenuAction, MenuEntry, ToolsPage, UpdateIndicator,
};

#[test]
fn menu_items_map_to_actions() {
    assert_eq!(menu_action("run_export_config"), MenuAction::ExportConfig);
    assert_eq!(menu_action("run_import_config"), MenuAction::ImportConfig);
    assert_eq!(menu_action("view_devtools"), MenuAction::ToggleDevtools);
    assert_eq!(menu_action("about_update_available"), MenuAction::OpenAboutAndUpdate);
    assert_eq!(menu_action("tray_quit"), MenuAction::Quit);
    assert_eq!(menu_action("run_install_plugin"), MenuAction::OpenPage(ToolsPage::InstallPlugin));
    assert_eq!(menu_action("view_list_plugins"), MenuAction::OpenPage(ToolsPage::ListPlugins));
    assert_eq!(menu_action("settings"), MenuAction::OpenPage(ToolsPage::Settings));
    assert_eq!(menu_action("about_dsh_version"), MenuAction::OpenPage(ToolsPage::DshVersion));
    assert_eq!(menu_action("about_changelog"), MenuAction::OpenPage(ToolsPage::Changelog));
    assert_eq!(menu_action("about_desktop"), MenuAction::OpenPage(ToolsPage::About));
    assert_eq!(menu_action("unknown"), MenuAction::Ignore);
}

#[test]
fn tools_urls() {
    assert_eq!(tools_url(tools_page_name(ToolsPage::ListPlugins)), "tools.html?page=list-plugins");
    assert_eq!(tools_page_name(ToolsPage::DshVersion), "dsh-version");
}

#[test]
fn update_indicator_states() {
    let mut u = UpdateIndicator::new();
    assert_eq!(u.text, "正在检查新版本…");
    assert!(!u.enabled);
    u.set_update_available(Some("0.2.3".to_string()));
    assert_eq!(u.text, "发现新版本 v0.2.3 — 点击更新");
    assert!(u.enabled);
    u.set_update_available(None);
    assert_eq!(u.text, "已是最新版本");
    assert!(!u.enabled);
}

#[test]
fn update_question() {
    assert_eq!(
        update_prompt("1.0.0"),
        "发现新版本 v1.0.0,是否立即前往「关于 DeepSeek Harness Desktop」界面并更新?"
    );
}

#[test]
fn config_dialogs() {
    assert_eq!(config_dialog(Ok("done".to_string())), ("done".to_string(), false));
    assert_eq!(config_dialog(Err("已取消".to_string())), ("已取消".to_string(), true));
}

#[test]
fn exits_and_main_window_closing_stop_dsh() {
    assert!(kills_dsh(&AppEvent::ExitRequested));
    assert!(kills_dsh(&AppEvent::Exit));
    assert!(kills_dsh(&AppEvent::CloseRequested { label: "main".to_string() }));
    assert!(kills_dsh(&AppEvent::Destroyed { label: "main".to_string() }));
    assert!(!kills_dsh(&AppEvent::CloseRequested { label: "tools".to_string() }));
    assert!(!kills_dsh(&AppEvent::Other));
}

#[test]
fn menu_bar_layout() {
    let groups = menu_groups();
    let shown: Vec<(&str, Vec<Option<(&str, &str)>>)> = groups
        .iter()
        .map(|g| {
            let entries = g
                .entries
                .iter()
                .map(|e| match *e {
                    MenuEntry::Item { id, label } => Some((id, label)),
                    MenuEntry::Separator => None,
                })
                .collect();
            (g.title, entries)
        })
        .collect();
    assert_eq!(
        shown,
        vec![
            (
                "运行",
                vec![
                    Some(("run_install_plugin", "安装插件…")),
                    None,
                    Some(("run_export_config", "导出配置…")),
                    Some(("run_import_config", "导入配置…")),
                ]
            ),
            (
                "查看",
                vec![Some(("view_list_plugins", "已安装插件")), None, Some(("view_devtools", "调试工具"))]
            ),
            (
                "关于",
                vec![
                    Some(("settings", "设置…")),
                    None,
                    Some(("about_changelog", "更新日志…")),
                    Some(("about_dsh_version", "DeepSeek Harness 版本")),
                    Some(("about_desktop", "关于 DeepSeek Harness Desktop")),
                ]
            ),
        ]
    );
    for g in &groups {
        for e in &g.entries {
            if let MenuEntry::Item { id, .. } = *e {
                assert_ne!(menu_action(id), MenuAction::Ignore, "{id}");
            }
        }
    }
}
