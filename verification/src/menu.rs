//! Menu and tray decisions: which action a menu item triggers, which tools
//! page it opens, the "new version" indicator, and which application events
//! stop DSH.
use vstd::prelude::*;
use crate::text::{concat, concat3, owned, str_eq};

verus! {

pub const MENU_RUN_INSTALL_PLUGIN: &'static str = "run_install_plugin";
pub const MENU_RUN_EXPORT_CONFIG: &'static str = "run_export_config";
pub const MENU_RUN_IMPORT_CONFIG: &'static str = "run_import_config";
pub const MENU_VIEW_LIST_PLUGINS: &'static str = "view_list_plugins";
pub const MENU_VIEW_DEVTOOLS: &'static str = "view_devtools";
pub const MENU_SETTINGS: &'static str = "settings";
pub const MENU_ABOUT_DSH_VERSION: &'static str = "about_dsh_version";
pub const MENU_ABOUT_DESKTOP: &'static str = "about_desktop";
pub const MENU_ABOUT_CHANGELOG: &'static str = "about_changelog";
/// The item that lights up when a new desktop version is available.
pub const MENU_ABOUT_UPDATE_AVAILABLE: &'static str = "about_update_available";
/// The tray's quit item: stops DSH and exits.
pub const MENU_QUIT: &'static str = "tray_quit";

/// A page of the tools window.
#[derive(PartialEq, Eq, Structural, Clone, Copy, Debug)]
pub enum ToolsPage {
    InstallPlugin,
    ListPlugins,
    Settings,
    DshVersion,
    Changelog,
    About,
}

/// The name of a tools page, as the tools window's `page` parameter.
pub open spec fn page_name(p: ToolsPage) -> Seq<char> {
    match p {
        ToolsPage::InstallPlugin => "install-plugin"@,
        ToolsPage::ListPlugins => "list-plugins"@,
        ToolsPage::Settings => "settings"@,
        ToolsPage::DshVersion => "dsh-version"@,
        ToolsPage::Changelog => "changelog"@,
        ToolsPage::About => "about"@,
    }
}

/// The name of a tools page.
pub fn tools_page_name(p: ToolsPage) -> (s: &'static str)
    ensures
        s@ == page_name(p),
{
    match p {
        ToolsPage::InstallPlugin => "install-plugin",
        ToolsPage::ListPlugins => "list-plugins",
        ToolsPage::Settings => "settings",
        ToolsPage::DshVersion => "dsh-version",
        ToolsPage::Changelog => "changelog",
        ToolsPage::About => "about",
    }
}

/// The URL that opens the tools window on a page.
pub fn tools_url(page: &str) -> (s: String)
    ensures
        s@ == "tools.html?page="@ + page@,
{
    concat("tools.html?page=", page)
}

/// What a menu click does.
#[derive(PartialEq, Eq, Structural, Clone, Copy, Debug)]
pub enum MenuAction {
    /// Export the configuration (file dialog, then archive).
    ExportConfig,
    /// Import a configuration archive.
    ImportConfig,
    /// Toggle the inspector of the main window.
    ToggleDevtools,
    /// Open the about page and start the update there.
    OpenAboutAndUpdate,
    /// Stop DSH and quit.
    Quit,
    /// Open the tools window on a page.
    OpenPage(ToolsPage),
    /// An unknown item: nothing happens.
    Ignore,
}

/// The action of each menu item.
pub open spec fn action_of(id: Seq<char>) -> MenuAction {
    if id == "run_export_config"@ {
        MenuAction::ExportConfig
    } else if id == "run_import_config"@ {
        MenuAction::ImportConfig
    } else if id == "view_devtools"@ {
        MenuAction::ToggleDevtools
    } else if id == "about_update_available"@ {
        MenuAction::OpenAboutAndUpdate
    } else if id == "tray_quit"@ {
        MenuAction::Quit
    } else if id == "run_install_plugin"@ {
        MenuAction::OpenPage(ToolsPage::InstallPlugin)
    } else if id == "view_list_plugins"@ {
        MenuAction::OpenPage(ToolsPage::ListPlugins)
    } else if id == "settings"@ {
        MenuAction::OpenPage(ToolsPage::Settings)
    } else if id == "about_dsh_version"@ {
        MenuAction::OpenPage(ToolsPage::DshVersion)
    } else if id == "about_changelog"@ {
        MenuAction::OpenPage(ToolsPage::Changelog)
    } else if id == "about_desktop"@ {
        MenuAction::OpenPage(ToolsPage::About)
    } else {
        MenuAction::Ignore
    }
}

/// The action of a menu item, by its id.
pub fn menu_action(id: &str) -> (a: MenuAction)
    ensures
        a == action_of(id@),
{
    if str_eq(id, MENU_RUN_EXPORT_CONFIG) {
        MenuAction::ExportConfig
    } else if str_eq(id, MENU_RUN_IMPORT_CONFIG) {
        MenuAction::ImportConfig
    } else if str_eq(id, MENU_VIEW_DEVTOOLS) {
        MenuAction::ToggleDevtools
    } else if str_eq(id, MENU_ABOUT_UPDATE_AVAILABLE) {
        MenuAction::OpenAboutAndUpdate
    } else if str_eq(id, MENU_QUIT) {
        MenuAction::Quit
    } else if str_eq(id, MENU_RUN_INSTALL_PLUGIN) {
        MenuAction::OpenPage(ToolsPage::InstallPlugin)
    } else if str_eq(id, MENU_VIEW_LIST_PLUGINS) {
        MenuAction::OpenPage(ToolsPage::ListPlugins)
    } else if str_eq(id, MENU_SETTINGS) {
        MenuAction::OpenPage(ToolsPage::Settings)
    } else if str_eq(id, MENU_ABOUT_DSH_VERSION) {
        MenuAction::OpenPage(ToolsPage::DshVersion)
    } else if str_eq(id, MENU_ABOUT_CHANGELOG) {
        MenuAction::OpenPage(ToolsPage::Changelog)
    } else if str_eq(id, MENU_ABOUT_DESKTOP) {
        MenuAction::OpenPage(ToolsPage::About)
    } else {
        MenuAction::Ignore
    }
}

/// An entry of a submenu of the menu bar.
#[derive(Clone, Copy, Debug)]
pub enum MenuEntry {
    /// A clickable item, with its id and its label.
    Item { id: &'static str, label: &'static str },
    /// A separator line.
    Separator,
}

/// A submenu of the menu bar: its title and its entries, in order.
pub struct MenuGroup {
    pub title: &'static str,
    pub entries: Vec<MenuEntry>,
}

/// An entry as plain text: `Some((id, label))` for an item, `None` for a
/// separator.
pub open spec fn entry_view(e: MenuEntry) -> Option<(Seq<char>, Seq<char>)> {
    match e {
        MenuEntry::Item { id, label } => Some((id@, label@)),
        MenuEntry::Separator => None,
    }
}

pub open spec fn item(id: &'static str, label: Seq<char>) -> Option<(Seq<char>, Seq<char>)> {
    Some((id@, label))
}

/// The submenus of the menu bar, left to right, each with its entries. The
/// update indicator stands after them, on its own.
pub open spec fn menu_bar() -> Seq<(Seq<char>, Seq<Option<(Seq<char>, Seq<char>)>>)> {
    seq![
        ("运行"@, seq![
            item(MENU_RUN_INSTALL_PLUGIN, "安装插件…"@),
            None,
            item(MENU_RUN_EXPORT_CONFIG, "导出配置…"@),
            item(MENU_RUN_IMPORT_CONFIG, "导入配置…"@),
        ]),
        ("查看"@, seq![
            item(MENU_VIEW_LIST_PLUGINS, "已安装插件"@),
            None,
            item(MENU_VIEW_DEVTOOLS, "调试工具"@),
        ]),
        ("关于"@, seq![
            item(MENU_SETTINGS, "设置…"@),
            None,
            item(MENU_ABOUT_CHANGELOG, "更新日志…"@),
            item(MENU_ABOUT_DSH_VERSION, "DeepSeek Harness 版本"@),
            item(MENU_ABOUT_DESKTOP, "关于 DeepSeek Harness Desktop"@),
        ]),
    ]
}

fn group(title: &'static str, entries: Vec<MenuEntry>) -> (g: MenuGroup)
    ensures
        g.title == title,
        g.entries@ == entries@,
{
    MenuGroup { title, entries }
}

/// The submenus of the menu bar, as [`menu_bar`] lists them.
pub fn menu_groups() -> (groups: Vec<MenuGroup>)
    ensures
        groups@.len() == menu_bar().len(),
        forall|i: int|
            0 <= i < groups@.len() ==> (#[trigger] groups@[i]).title@ == menu_bar()[i].0
                && groups@[i].entries@.map_values(|e: MenuEntry| entry_view(e)) == menu_bar()[i].1,
{
    let run = vec![
        MenuEntry::Item { id: MENU_RUN_INSTALL_PLUGIN, label: "安装插件…" },
        MenuEntry::Separator,
        MenuEntry::Item { id: MENU_RUN_EXPORT_CONFIG, label: "导出配置…" },
        MenuEntry::Item { id: MENU_RUN_IMPORT_CONFIG, label: "导入配置…" },
    ];
    let view = vec![
        MenuEntry::Item { id: MENU_VIEW_LIST_PLUGINS, label: "已安装插件" },
        MenuEntry::Separator,
        MenuEntry::Item { id: MENU_VIEW_DEVTOOLS, label: "调试工具" },
    ];
    let about = vec![
        MenuEntry::Item { id: MENU_SETTINGS, label: "设置…" },
        MenuEntry::Separator,
        MenuEntry::Item { id: MENU_ABOUT_CHANGELOG, label: "更新日志…" },
        MenuEntry::Item { id: MENU_ABOUT_DSH_VERSION, label: "DeepSeek Harness 版本" },
        MenuEntry::Item { id: MENU_ABOUT_DESKTOP, label: "关于 DeepSeek Harness Desktop" },
    ];
    assert(run@.map_values(|e: MenuEntry| entry_view(e)) =~= menu_bar()[0].1);
    assert(view@.map_values(|e: MenuEntry| entry_view(e)) =~= menu_bar()[1].1);
    assert(about@.map_values(|e: MenuEntry| entry_view(e)) =~= menu_bar()[2].1);
    let groups = vec![
        group("运行", run),
        group("查看", view),
        group("关于", about),
    ];
    groups
}

/// The "new version" indicator of the menu bar.
pub struct UpdateIndicator {
    pub text: String,
    pub enabled: bool,
}

/// The indicator's text while no check has finished.
pub open spec fn checking_text() -> Seq<char> {
    "正在检查新版本…"@
}

/// The indicator's text when version `v` is available.
pub open spec fn available_text(v: Seq<char>) -> Seq<char> {
    "发现新版本 v"@ + v + " — 点击更新"@
}

/// The indicator's text when the desktop app is up to date.
pub open spec fn up_to_date_text() -> Seq<char> {
    "已是最新版本"@
}

impl UpdateIndicator {
    /// Created disabled, announcing the check.
    pub fn new() -> (u: UpdateIndicator)
        ensures
            u.text@ == checking_text(),
            !u.enabled,
    {
        UpdateIndicator { text: owned("正在检查新版本…"), enabled: false }
    }

    /// Sets the indicator once the update check knows whether a newer version
    /// exists: enabled and relabeled when one does, disabled otherwise.
    pub fn set_update_available(&mut self, latest: Option<String>)
        ensures
            match latest {
                Some(v) => final(self).text@ == available_text(v@) && final(self).enabled,
                None => final(self).text@ == up_to_date_text() && !final(self).enabled,
            },
    {
        match latest {
            Some(v) => {
                self.text = concat3("发现新版本 v", v.as_str(), " — 点击更新");
                self.enabled = true;
            },
            None => {
                self.text = owned("已是最新版本");
                self.enabled = false;
            },
        }
    }
}

/// The question asked when version `v` is available.
pub fn update_prompt(version: &str) -> (s: String)
    ensures
        s@ == "发现新版本 v"@ + version@ + ",是否立即前往「关于 DeepSeek Harness Desktop」界面并更新?"@,
{
    concat3("发现新版本 v", version, ",是否立即前往「关于 DeepSeek Harness Desktop」界面并更新?")
}

/// The message of a configuration export or import, and whether it reports
/// an error.
pub fn config_dialog(result: Result<String, String>) -> (r: (String, bool))
    ensures
        match result {
            Ok(m) => r.0@ == m@ && !r.1,
            Err(e) => r.0@ == e@ && r.1,
        },
{
    match result {
        Ok(m) => (m, false),
        Err(e) => (e, true),
    }
}

/// An application event that may concern DSH.
pub enum AppEvent {
    /// The application was asked to exit.
    ExitRequested,
    /// The application is exiting.
    Exit,
    /// A window was asked to close.
    CloseRequested { label: String },
    /// A window was destroyed.
    Destroyed { label: String },
    /// Anything else.
    Other,
}

/// The events on which DSH is stopped: any exit, and the main window
/// closing or being destroyed.
pub open spec fn stops_dsh(e: AppEvent) -> bool {
    match e {
        AppEvent::ExitRequested => true,
        AppEvent::Exit => true,
        AppEvent::CloseRequested { label } => label@ == "main"@,
        AppEvent::Destroyed { label } => label@ == "main"@,
        AppEvent::Other => false,
    }
}

/// Whether an event stops DSH, so that its process tree never leaks.
pub fn kills_dsh(e: &AppEvent) -> (b: bool)
    ensures
        b == stops_dsh(*e),
{
    match e {
        AppEvent::ExitRequested => true,
        AppEvent::Exit => true,
        AppEvent::CloseRequested { label } => str_eq(label.as_str(), "main"),
        AppEvent::Destroyed { label } => str_eq(label.as_str(), "main"),
        AppEvent::Other => false,
    }
}

} // verus!
