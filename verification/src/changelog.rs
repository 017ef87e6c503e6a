//! The built-in changelog shown on the about page, so that it ships with the
//! binary. Each entry lists a version and the user-facing changes of that
//! release; newer versions come first.
use vstd::prelude::*;
use crate::text::{decimal, owned, views};

verus! {

/// One release of the changelog.
#[derive(Debug, Clone)]
pub struct ChangelogEntry {
    /// Semver version without the leading `v`.
    pub version: String,
    /// Short human-readable label.
    pub title: String,
    /// The user-facing changes of this release.
    pub changes: Vec<String>,
}

/// A changelog entry as character sequences.
pub struct EntryView {
    pub version: Seq<char>,
    pub title: Seq<char>,
    pub changes: Seq<Seq<char>>,
}

impl View for ChangelogEntry {
    type V = EntryView;

    open spec fn view(&self) -> EntryView {
        EntryView { version: self.version@, title: self.title@, changes: views(self.changes@) }
    }
}

/// The views of a list of entries.
pub open spec fn entry_views(v: Seq<ChangelogEntry>) -> Seq<EntryView> {
    v.map_values(|e: ChangelogEntry| e@)
}

/// The text of version `major.minor.patch`.
pub open spec fn version_text(n: (nat, nat, nat)) -> Seq<char> {
    decimal(n.0) + "."@ + decimal(n.1) + "."@ + decimal(n.2)
}

/// Version `a` is newer than version `b`.
pub open spec fn newer(a: (nat, nat, nat), b: (nat, nat, nat)) -> bool {
    a.0 > b.0 || (a.0 == b.0 && a.1 > b.1) || (a.0 == b.0 && a.1 == b.1 && a.2 > b.2)
}
/// The version numbers of the releases, in changelog order.
pub open spec fn release_numbers() -> Seq<(nat, nat, nat)> {
    seq![
        (0, 2, 2),
        (0, 2, 1),
        (0, 2, 0),
        (0, 1, 5),
        (0, 1, 4),
        (0, 1, 3),
        (0, 1, 2),
        (0, 1, 1),
    ]
}
/// Every release, newest first.
pub open spec fn changelog() -> Seq<EntryView> {
    seq![
        EntryView {
            version: "0.2.2"@,
            title: "0.2.2"@,
            changes: seq![
                "「运行」菜单新增「清除 DSH 缓存」:可选择清除依赖还是完整清除(保留用户数据),自动结束并重启 DSH。"@,
                "清除缓存时显示带进度条的加载窗口,后台线程执行删除不再卡住界面;完整清除也清理 profiles/node_modules 等真实目录。"@,
                "修复清除缓存进度条卡在 30% 的问题(改为重命名+异步删除,1.2GB 数据不再阻塞进度)。"@,
                "插件列表新增「更新」按钮,可一键把插件升级到最新版本。"@,
                "修复插件冲突误报:缺少包不再被误判为插件冲突,clear-cache 改为同步且可靠。"@,
                "通过命名互斥量强制单实例运行,避免出现重复托盘图标。"@,
                "工具窗口打开时通过 URL ?page= 参数显示正确页面(启动失败后进入插件列表而非安装页)。"@,
            ],
        },
        EntryView {
            version: "0.2.1"@,
            title: "0.2.1"@,
            changes: seq![
                "修复 macOS/无系统 Node 环境启动失败:内置 Node 目录加入 PATH,DSH 依赖的 postinstall 脚本不再报「node: command not found」。"@,
                "修复 DSH 异步启动失败后「重试启动」按钮仍禁用的问题。"@,
                "更新安装器:覆盖 exe 前等待旧进程完全退出释放文件句柄,避免更新时「Error opening file for writing」。"@,
                "正在下载/安装新版本时禁用「检查更新」按钮,防止重复触发更新。"@,
                "关于页 GitHub 链接改为品牌橙配色,hover 显示下划线。"@,
            ],
        },
        EntryView {
            version: "0.2.0"@,
            title: "0.2.0"@,
            changes: seq![
                "新增系统托盘:左键单击显示主窗口,右键菜单含设置/查看版本/安装插件/插件列表/导出数据/导入数据/退出。"@,
                "设置新增「关闭主窗口时」:可选择退出程序或隐藏到托盘继续运行(默认隐藏到托盘)。"@,
                "loading 页新增「复制日志」按钮,可一键复制界面显示的日志。"@,
                "修复等待日志刷屏把真实错误信息顶没的问题,错误信息自动置顶可见。"@,
                "DSH 启动因插件冲突失败时自动弹出插件列表页,便于手动卸载问题插件。"@,
                "修复 macOS 全新安装时数据目录不存在导致 DSH 启动失败的问题。"@,
            ],
        },
        EntryView {
            version: "0.1.5"@,
            title: "0.1.5"@,
            changes: seq![
                "修复 macOS 打包后找不到内置 pnpm/npx 导致 DSH 启动失败的问题。"@,
                "修复 pnpm 启动时因 build scripts 审批交互提示而卡住的问题(改为非交互自动批准)。"@,
                "设置改为 pnpm dlx 启动 + latest 版本通道。"@,
            ],
        },
        EntryView {
            version: "0.1.4"@,
            title: "0.1.4"@,
            changes: seq![
                "新增「设置」:可选择使用 npx 还是 pnpm dlx 启动,并选择 DSH 版本通道(latest / next / alpha)。"@,
                "插件安装失败时自动卸载失败的插件,避免残留损坏的半安装。"@,
                "「关于」新增「更新日志」,可查看当前及历史版本的更新记录。"@,
                "进入主窗口后异步检查新版本,发现新版本时在菜单栏提示并支持一键进入关于页更新。"@,
                "loading 页退出会彻底结束 DSH 进程并退出应用,不再后台残留。"@,
            ],
        },
        EntryView {
            version: "0.1.3"@,
            title: "0.1.3"@,
            changes: seq![
                "新增「调试工具」菜单(打开 DevTools)。"@,
                "非主窗口禁止最大化。"@,
                "菜单重命名整理。"@,
            ],
        },
        EntryView {
            version: "0.1.2"@,
            title: "0.1.2"@,
            changes: seq![
                "修复插件列表作用域包名(@scope/name)解析。"@,
                "进程关闭时通过 Job Object 结束整个子进程树,并在 NSIS 预安装钩子中避免更新时 node.exe 被占用。"@,
            ],
        },
        EntryView {
            version: "0.1.1"@,
            title: "0.1.1"@,
            changes: seq![
                "桌面启动器:内置 Node + pnpm dlx 启动 DeepSeek Harness。"@,
                "插件管理:安装 / 卸载 / 列表(工具窗口)。"@,
                "配置导出 / 导入(zip 打包 DSH 数据目录)。"@,
                "原生菜单(运行 / 查看 / 关于)与自动更新。"@,
                "使用 npmmirror 源以加速下载,并隔离 DSH_HOME 数据目录。"@,
            ],
        },
    ]
}

fn push_line(v: &mut Vec<String>, s: &str)
    ensures
        views(final(v)@) == views(old(v)@).push(s@),
{
    v.push(owned(s));
    assert(views(v@) =~= views(old(v)@).push(s@));
}

fn push_entry(v: &mut Vec<ChangelogEntry>, e: ChangelogEntry)
    ensures
        entry_views(final(v)@) == entry_views(old(v)@).push(e@),
{
    v.push(e);
    assert(entry_views(v@) =~= entry_views(old(v)@).push(e@));
}

/// All known release entries, newest first.
pub fn entries() -> (v: Vec<ChangelogEntry>)
    ensures
        entry_views(v@) == changelog(),
{
    let mut v: Vec<ChangelogEntry> = Vec::new();
    let mut changes: Vec<String> = Vec::new();
    push_line(&mut changes, "「运行」菜单新增「清除 DSH 缓存」:可选择清除依赖还是完整清除(保留用户数据),自动结束并重启 DSH。");
    push_line(&mut changes, "清除缓存时显示带进度条的加载窗口,后台线程执行删除不再卡住界面;完整清除也清理 profiles/node_modules 等真实目录。");
    push_line(&mut changes, "修复清除缓存进度条卡在 30% 的问题(改为重命名+异步删除,1.2GB 数据不再阻塞进度)。");
    push_line(&mut changes, "插件列表新增「更新」按钮,可一键把插件升级到最新版本。");
    push_line(&mut changes, "修复插件冲突误报:缺少包不再被误判为插件冲突,clear-cache 改为同步且可靠。");
    push_line(&mut changes, "通过命名互斥量强制单实例运行,避免出现重复托盘图标。");
    push_line(&mut changes, "工具窗口打开时通过 URL ?page= 参数显示正确页面(启动失败后进入插件列表而非安装页)。");
    assert(views(changes@) =~= changelog()[0].changes);
    push_entry(&mut v, ChangelogEntry { version: owned("0.2.2"), title: owned("0.2.2"), changes });
    let mut changes: Vec<String> = Vec::new();
    push_line(&mut changes, "修复 macOS/无系统 Node 环境启动失败:内置 Node 目录加入 PATH,DSH 依赖的 postinstall 脚本不再报「node: command not found」。");
    push_line(&mut changes, "修复 DSH 异步启动失败后「重试启动」按钮仍禁用的问题。");
    push_line(&mut changes, "更新安装器:覆盖 exe 前等待旧进程完全退出释放文件句柄,避免更新时「Error opening file for writing」。");
    push_line(&mut changes, "正在下载/安装新版本时禁用「检查更新」按钮,防止重复触发更新。");
    push_line(&mut changes, "关于页 GitHub 链接改为品牌橙配色,hover 显示下划线。");
    assert(views(changes@) =~= changelog()[1].changes);
    push_entry(&mut v, ChangelogEntry { version: owned("0.2.1"), title: owned("0.2.1"), changes });
    let mut changes: Vec<String> = Vec::new();
    push_line(&mut changes, "新增系统托盘:左键单击显示主窗口,右键菜单含设置/查看版本/安装插件/插件列表/导出数据/导入数据/退出。");
    push_line(&mut changes, "设置新增「关闭主窗口时」:可选择退出程序或隐藏到托盘继续运行(默认隐藏到托盘)。");
    push_line(&mut changes, "loading 页新增「复制日志」按钮,可一键复制界面显示的日志。");
    push_line(&mut changes, "修复等待日志刷屏把真实错误信息顶没的问题,错误信息自动置顶可见。");
    push_line(&mut changes, "DSH 启动因插件冲突失败时自动弹出插件列表页,便于手动卸载问题插件。");
    push_line(&mut changes, "修复 macOS 全新安装时数据目录不存在导致 DSH 启动失败的问题。");
    assert(views(changes@) =~= changelog()[2].changes);
    push_entry(&mut v, ChangelogEntry { version: owned("0.2.0"), title: owned("0.2.0"), changes });
    let mut changes: Vec<String> = Vec::new();
    push_line(&mut changes, "修复 macOS 打包后找不到内置 pnpm/npx 导致 DSH 启动失败的问题。");
    push_line(&mut changes, "修复 pnpm 启动时因 build scripts 审批交互提示而卡住的问题(改为非交互自动批准)。");
    push_line(&mut changes, "设置改为 pnpm dlx 启动 + latest 版本通道。");
    assert(views(changes@) =~= changelog()[3].changes);
    push_entry(&mut v, ChangelogEntry { version: owned("0.1.5"), title: owned("0.1.5"), changes });
    let mut changes: Vec<String> = Vec::new();
    push_line(&mut changes, "新增「设置」:可选择使用 npx 还是 pnpm dlx 启动,并选择 DSH 版本通道(latest / next / alpha)。");
    push_line(&mut changes, "插件安装失败时自动卸载失败的插件,避免残留损坏的半安装。");
    push_line(&mut changes, "「关于」新增「更新日志」,可查看当前及历史版本的更新记录。");
    push_line(&mut changes, "进入主窗口后异步检查新版本,发现新版本时在菜单栏提示并支持一键进入关于页更新。");
    push_line(&mut changes, "loading 页退出会彻底结束 DSH 进程并退出应用,不再后台残留。");
    assert(views(changes@) =~= changelog()[4].changes);
    push_entry(&mut v, ChangelogEntry { version: owned("0.1.4"), title: owned("0.1.4"), changes });
    let mut changes: Vec<String> = Vec::new();
    push_line(&mut changes, "新增「调试工具」菜单(打开 DevTools)。");
    push_line(&mut changes, "非主窗口禁止最大化。");
    push_line(&mut changes, "菜单重命名整理。");
    assert(views(changes@) =~= changelog()[5].changes);
    push_entry(&mut v, ChangelogEntry { version: owned("0.1.3"), title: owned("0.1.3"), changes });
    let mut changes: Vec<String> = Vec::new();
    push_line(&mut changes, "修复插件列表作用域包名(@scope/name)解析。");
    push_line(&mut changes, "进程关闭时通过 Job Object 结束整个子进程树,并在 NSIS 预安装钩子中避免更新时 node.exe 被占用。");
    assert(views(changes@) =~= changelog()[6].changes);
    push_entry(&mut v, ChangelogEntry { version: owned("0.1.2"), title: owned("0.1.2"), changes });
    let mut changes: Vec<String> = Vec::new();
    push_line(&mut changes, "桌面启动器:内置 Node + pnpm dlx 启动 DeepSeek Harness。");
    push_line(&mut changes, "插件管理:安装 / 卸载 / 列表(工具窗口)。");
    push_line(&mut changes, "配置导出 / 导入(zip 打包 DSH 数据目录)。");
    push_line(&mut changes, "原生菜单(运行 / 查看 / 关于)与自动更新。");
    push_line(&mut changes, "使用 npmmirror 源以加速下载,并隔离 DSH_HOME 数据目录。");
    assert(views(changes@) =~= changelog()[7].changes);
    push_entry(&mut v, ChangelogEntry { version: owned("0.1.1"), title: owned("0.1.1"), changes });
    assert(entry_views(v@) =~= changelog());
    v
}

/// Newer versions come first: each entry's version is `major.minor.patch` of
/// its release numbers, and those strictly decrease down the list; every
/// entry is titled by its version and lists at least one change.
pub proof fn lemma_changelog_newest_first()
    ensures
        changelog().len() == release_numbers().len(),
        forall|i: int| 0 <= i < changelog().len() ==> changelog()[i].version == version_text(
            #[trigger] release_numbers()[i],
        ),
        forall|i: int, j: int|
            0 <= i < j < release_numbers().len() ==> newer(
                #[trigger] release_numbers()[i],
                #[trigger] release_numbers()[j],
            ),
        forall|i: int| 0 <= i < changelog().len() ==> #[trigger] changelog()[i].title == changelog()[i].version,
        forall|i: int| 0 <= i < changelog().len() ==> #[trigger] changelog()[i].changes.len() > 0,
{
    reveal_strlit("0.2.2");
    reveal_strlit("0.2.1");
    reveal_strlit("0.2.0");
    reveal_strlit("0.1.5");
    reveal_strlit("0.1.4");
    reveal_strlit("0.1.3");
    reveal_strlit("0.1.2");
    reveal_strlit("0.1.1");
    reveal_strlit(".");
    assert(decimal(0) =~= seq!['0']);
    assert(decimal(1) =~= seq!['1']);
    assert(decimal(2) =~= seq!['2']);
    assert(decimal(3) =~= seq!['3']);
    assert(decimal(4) =~= seq!['4']);
    assert(decimal(5) =~= seq!['5']);
    assert(changelog()[0].version =~= version_text(release_numbers()[0]));
    assert(changelog()[1].version =~= version_text(release_numbers()[1]));
    assert(changelog()[2].version =~= version_text(release_numbers()[2]));
    assert(changelog()[3].version =~= version_text(release_numbers()[3]));
    assert(changelog()[4].version =~= version_text(release_numbers()[4]));
    assert(changelog()[5].version =~= version_text(release_numbers()[5]));
    assert(changelog()[6].version =~= version_text(release_numbers()[6]));
    assert(changelog()[7].version =~= version_text(release_numbers()[7]));
}

} // verus!
