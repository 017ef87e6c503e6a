//! Supervision of one launch session, as a state machine.
//!
//! The caller performs the outside work that `Supervisor::command` asks for
//! (polling the child, probing the web server, listing plugins, re-spawning,
//! watching the running server), reports what it saw as an `Event`, and
//! carries out the `Effect`s that `Supervisor::step` returns, in order.
//!
//! Boot phase: wait until the `/api` route answers, or until the root page has
//! answered `LEGACY_READY_ITERATIONS` times in a row; a child that dies while
//! booting is re-spawned at most `MAX_BOOT_RETRIES` times, unless its logs
//! showed a missing package or a plugin conflict. Watch phase: a server that
//! dies, or stays unresponsive for `WATCHDOG_UNHEALTHY_LIMIT` checks in a row,
//! is restarted automatically (the loading window is shown again, and the
//! boot phase starts over, so that readiness is announced again once the
//! server answers) as long as fewer than `MAX_AUTO_RESTARTS` restarts have
//! been made since the server was last healthy for `HEALTHY_RESET_SECS`;
//! otherwise supervision ends. A newer launch session supersedes this one
//! at any point, and supervision then ends silently.
use vstd::prelude::*;
use crate::text::{decimal, decimal_string, concat, concat3, owned};
use crate::session::{url_of, dsh_url};

verus! {

/// Automatic re-spawns allowed while DSH is still booting.
pub const MAX_BOOT_RETRIES: u32 = 3;

/// Consecutive successful root-page answers that count as readiness when the
/// `/api` probe never answers.
pub const LEGACY_READY_ITERATIONS: u32 = 225;

/// Consecutive unresponsive watchdog checks after which the server is treated
/// as broken.
pub const WATCHDOG_UNHEALTHY_LIMIT: u32 = 12;

/// Seconds of booting after which supervision gives up.
pub const BOOT_TIMEOUT_SECS: u64 = 1200;

/// Seconds between two watchdog checks.
pub const WATCH_INTERVAL_SECS: u32 = 5;

/// Healthy seconds after which the automatic-restart budget is re-armed.
pub const HEALTHY_RESET_SECS: u32 = 300;

/// Automatic restarts of a server that had been ready and then died or
/// stopped answering, before the budget is re-armed by a healthy period.
pub const MAX_AUTO_RESTARTS: u32 = 3;

/// Outcome of one readiness probe against the DSH web server.
#[derive(PartialEq, Eq, Structural, Clone, Copy, Debug)]
pub enum Probe {
    /// The API transport route answered: DSH is fully ready.
    Ready,
    /// The server answered, but the API layer is not up yet.
    NotReady,
    /// No answer at all.
    NoAnswer,
}

/// The readiness verdict for the HTTP status that `GET /api/events.mux`
/// answered with (`None`: the request failed or no client could be built).
/// Only `426 Upgrade Required` proves that the API layer is mounted.
pub fn probe_verdict(status: Option<u16>) -> (p: Probe)
    ensures
        p == (match status {
            Some(code) => if code == 426 { Probe::Ready } else { Probe::NotReady },
            None => Probe::NoAnswer,
        }),
{
    match status {
        Some(code) => if code == 426 { Probe::Ready } else { Probe::NotReady },
        None => Probe::NoAnswer,
    }
}

/// What the supervisor waits for.
#[derive(PartialEq, Eq, Structural, Clone, Copy, Debug)]
pub enum Stage {
    /// Booting: whether the child has exited.
    AwaitChild,
    /// Booting: the result of the `/api` probe.
    AwaitProbe,
    /// Booting: whether the root page answered with success.
    AwaitRoot,
    /// The child died after a plugin-loading warning: whether a third-party
    /// plugin is installed.
    AwaitPluginList,
    /// The child died while booting: the result of re-spawning it.
    AwaitRespawn,
    /// The ready server died or stopped answering: the result of stopping it
    /// and spawning it again.
    AwaitRestart,
    /// DSH is ready: the result of the next watchdog check.
    Watching,
    /// Supervision is over.
    Finished,
}

/// The state of one supervision session.
#[derive(PartialEq, Eq, Structural, Clone, Copy, Debug)]
pub struct Supervisor {
    pub stage: Stage,
    /// Automatic re-spawns performed so far in this session.
    pub boot_retries: u32,
    /// Probe rounds since the child was last spawned.
    pub attempts: u32,
    /// Consecutive successful root-page answers.
    pub root_ok_streak: u32,
    /// Healthy seconds since the restart budget was last re-armed.
    pub healthy_secs: u32,
    /// Consecutive unresponsive watchdog checks.
    pub unhealthy_streak: u32,
    /// Automatic restarts since the server was last healthy long enough.
    pub auto_restarts: u32,
}

/// What the caller observed, in answer to the pending command.
pub enum Event {
    /// Whether the child has exited, with the log flags of this run.
    ChildPolled { exited: bool, plugin_missing: bool, plugin_conflict: bool },
    /// The `/api` probe's verdict, the current port, and the seconds since boot began.
    Probed { probe: Probe, port: u16, elapsed_secs: u64 },
    /// Whether the root page answered with success, the current port, and the
    /// seconds since boot began.
    RootChecked { ok: bool, port: u16, elapsed_secs: u64 },
    /// Whether the installed-plugin list names a third-party plugin.
    PluginsListed { has_third_party: bool },
    /// The outcome of re-spawning the child (`Some(message)` on failure).
    Respawned { error: Option<String> },
    /// Whether the child has exited, and the verdict of the `/api` probe
    /// (`None` when the child had exited and was not probed).
    Watched { exited: bool, probe: Option<Probe> },
    /// A newer launch session has taken over.
    Superseded,
}

/// The outside work the supervisor asks for next.
#[derive(PartialEq, Eq, Structural, Clone, Copy, Debug)]
pub enum Command {
    /// Check whether the child has exited.
    PollChild,
    /// Wait 800 ms, then probe `/api/events.mux`.
    Probe,
    /// Request the root page.
    CheckRoot,
    /// Run `plugin --profile web list`.
    ListPlugins,
    /// Wait this many seconds, then spawn the child again.
    Respawn { delay_secs: u64 },
    /// Stop the child and wait until it has exited, then spawn it again.
    Restart,
    /// Wait `WATCH_INTERVAL_SECS`, then check the child and probe `/api`.
    Watch,
    /// Supervision is over.
    Stop,
}

/// Something the caller must do, in order, after a step.
pub enum Effect {
    /// Append a line to the launch log.
    Log(String),
    /// Mark DSH as ready.
    MarkReady,
    /// Mark DSH as no longer ready.
    ClearReady,
    /// Show the main window on the DSH page.
    EmitReady,
    /// Tell the frontend that the launch failed.
    LaunchFailed,
    /// Show the loading window again.
    ShowLoadingWindow,
    /// Open the installed-plugin list.
    OpenPluginList,
    /// Re-arm the automatic-restart budget.
    ResetAutoRestarts,
    /// Record that this many automatic restarts have been made.
    CountAutoRestarts(u32),
    /// Start measuring boot time afresh.
    RestartBootClock,
}

/// An effect, with its log line as a character sequence.
pub enum Act {
    Log(Seq<char>),
    MarkReady,
    ClearReady,
    EmitReady,
    LaunchFailed,
    ShowLoadingWindow,
    OpenPluginList,
    ResetAutoRestarts,
    CountAutoRestarts(u32),
    RestartBootClock,
}

impl View for Effect {
    type V = Act;

    open spec fn view(&self) -> Act {
        match self {
            Effect::Log(s) => Act::Log(s@),
            Effect::MarkReady => Act::MarkReady,
            Effect::ClearReady => Act::ClearReady,
            Effect::EmitReady => Act::EmitReady,
            Effect::LaunchFailed => Act::LaunchFailed,
            Effect::ShowLoadingWindow => Act::ShowLoadingWindow,
            Effect::OpenPluginList => Act::OpenPluginList,
            Effect::ResetAutoRestarts => Act::ResetAutoRestarts,
            Effect::CountAutoRestarts(n) => Act::CountAutoRestarts(*n),
            Effect::RestartBootClock => Act::RestartBootClock,
        }
    }
}

/// The views of a list of effects.
pub open spec fn acts(v: Seq<Effect>) -> Seq<Act> {
    v.map_values(|e: Effect| e@)
}

// ---- log lines ----

pub open spec fn exited_note() -> Seq<char> {
    "[error] DSH 进程已退出,启动失败。"@
}

pub open spec fn missing_hint() -> Seq<char> {
    "[hint] 检测到插件包缺失(缓存不完整)。请点击菜单「关于 → 清除 DSH 缓存」后重试,或重启应用重新安装。"@
}

pub open spec fn conflict_hint() -> Seq<char> {
    "[hint] 检测到插件冲突。已为你打开「已安装插件」页面,请卸载有问题的第三方插件后点击「重试启动」。"@
}

pub open spec fn not_conflict_hint() -> Seq<char> {
    "[hint] 日志中出现插件加载告警,但未检测到第三方插件。这通常是 DSH 包(当前版本通道)自身加载异常或缓存损坏,而非插件冲突。请点击菜单「关于 → 清除 DSH 缓存」后重试,或在「设置」中切换版本通道(如切回 latest)。"@
}

pub open spec fn retries_exhausted_note() -> Seq<char> {
    "[error] DSH 进程已退出,自动重试均失败。可点击下方「重试启动」再次尝试。"@
}

pub open spec fn legacy_ready_note() -> Seq<char> {
    "[warn] 未能探测到 /api 就绪信号,按旧版兼容方式判定就绪。"@
}

pub open spec fn timeout_note() -> Seq<char> {
    "[error] 启动超时(20 分钟),已停止等待。可点击下方「重试启动」再次尝试。"@
}

pub open spec fn unresponsive_note() -> Seq<char> {
    "[warn] DSH 服务暂时无响应,正在观察…"@
}

pub open spec fn persistently_unresponsive_note() -> Seq<char> {
    "[warn] DSH 服务持续无响应,视为异常。"@
}

pub open spec fn died_note() -> Seq<char> {
    "[error] DSH 进程意外退出。"@
}

pub open spec fn stopped_note() -> Seq<char> {
    "[error] 已停止自动重启以保留 DSH 错误页面。请根据主窗口中的错误信息排查,或重启应用重新尝试。"@
}

/// The warning before re-spawn number `n`, which waits `5 * n` seconds.
pub open spec fn retry_note(n: nat) -> Seq<char> {
    "[warn] DSH 启动过程中退出,"@ + decimal(5 * n) + " 秒后自动重试(第 "@ + decimal(n) + "/"@
        + decimal(MAX_BOOT_RETRIES as nat) + " 次)…"@
}

/// The line announcing automatic restart number `n`.
pub open spec fn restart_note(n: nat) -> Seq<char> {
    "[warn] 正在自动重启 DSH(第 "@ + decimal(n) + "/"@ + decimal(MAX_AUTO_RESTARTS as nat)
        + " 次)…"@
}

pub open spec fn spawn_failed_note(e: Seq<char>) -> Seq<char> {
    "[error] failed to spawn DSH: "@ + e
}

pub open spec fn ready_note(port: u16) -> Seq<char> {
    "[ready] DSH web server is up at "@ + url_of(port)
}

pub open spec fn first_wait_note(port: u16) -> Seq<char> {
    "[waiting] "@ + url_of(port) + " not ready yet,正在下载依赖,请稍候…"@
}

pub open spec fn long_wait_note(port: u16) -> Seq<char> {
    "[waiting] "@ + url_of(port) + " 仍在等待,请耐心等待…"@
}

// ---- the transition function ----

/// Bounds that every reachable state keeps.
pub open spec fn wf(s: Supervisor) -> bool {
    &&& s.boot_retries <= MAX_BOOT_RETRIES
    &&& s.root_ok_streak < LEGACY_READY_ITERATIONS
    &&& s.healthy_secs < HEALTHY_RESET_SECS
    &&& s.unhealthy_streak < WATCHDOG_UNHEALTHY_LIMIT
    &&& (s.stage == Stage::AwaitRespawn ==> s.boot_retries >= 1)
    &&& s.auto_restarts <= MAX_AUTO_RESTARTS
    &&& (s.stage == Stage::AwaitRestart ==> s.auto_restarts >= 1)
}

/// The state in which supervision of a freshly spawned child begins.
pub open spec fn initial() -> Supervisor {
    Supervisor {
        stage: Stage::AwaitChild,
        boot_retries: 0,
        attempts: 0,
        root_ok_streak: 0,
        healthy_secs: 0,
        unhealthy_streak: 0,
        auto_restarts: 0,
    }
}

/// The command the caller owes in state `s`.
pub open spec fn pending(s: Supervisor) -> Command {
    match s.stage {
        Stage::AwaitChild => Command::PollChild,
        Stage::AwaitProbe => Command::Probe,
        Stage::AwaitRoot => Command::CheckRoot,
        Stage::AwaitPluginList => Command::ListPlugins,
        Stage::AwaitRespawn => Command::Respawn { delay_secs: (5 * s.boot_retries) as u64 },
        Stage::AwaitRestart => Command::Restart,
        Stage::Watching => Command::Watch,
        Stage::Finished => Command::Stop,
    }
}

/// Booting ends in failure with the given log line.
pub open spec fn boot_failed(s: Supervisor, note: Seq<char>) -> (Supervisor, Seq<Act>) {
    (
        Supervisor { stage: Stage::Finished, ..s },
        seq![Act::Log(note), Act::LaunchFailed, Act::ShowLoadingWindow],
    )
}

/// DSH became ready: the watch phase begins.
pub open spec fn watching(s: Supervisor) -> Supervisor {
    Supervisor {
        stage: Stage::Watching,
        attempts: 0,
        root_ok_streak: 0,
        healthy_secs: 0,
        unhealthy_streak: 0,
        ..s
    }
}

/// After a probe round that did not find DSH ready: a rare heartbeat line,
/// then the boot timeout check.
pub open spec fn round_over(s: Supervisor, port: u16, elapsed_secs: u64) -> (Supervisor, Seq<Act>) {
    let beat = if s.attempts == 5 {
        seq![Act::Log(first_wait_note(port))]
    } else if s.attempts % 50 == 0 {
        seq![Act::Log(long_wait_note(port))]
    } else {
        Seq::empty()
    };
    if elapsed_secs > BOOT_TIMEOUT_SECS {
        (
            Supervisor { stage: Stage::Finished, ..s },
            beat + seq![Act::Log(timeout_note()), Act::LaunchFailed, Act::ShowLoadingWindow],
        )
    } else {
        (Supervisor { stage: Stage::AwaitChild, ..s }, beat)
    }
}

/// The child was spawned again (or could not be): booting starts over.
pub open spec fn respawned(s: Supervisor, error: Option<String>) -> (Supervisor, Seq<Act>) {
    match error {
        None => (
            Supervisor { stage: Stage::AwaitChild, attempts: 0, root_ok_streak: 0, ..s },
            seq![Act::RestartBootClock],
        ),
        Some(msg) => boot_failed(s, spawn_failed_note(msg@)),
    }
}

/// The watch phase ends with the given log line.
pub open spec fn watch_failed(s: Supervisor, note: Seq<char>) -> (Supervisor, Seq<Act>) {
    (
        Supervisor { stage: Stage::Finished, ..s },
        seq![Act::Log(note), Act::ClearReady, Act::Log(stopped_note()), Act::LaunchFailed],
    )
}

/// The ready server is lost (it died, or stopped answering): it is restarted
/// while the budget lasts, otherwise the watch phase ends.
pub open spec fn server_lost(s: Supervisor, note: Seq<char>) -> (Supervisor, Seq<Act>) {
    if s.auto_restarts < MAX_AUTO_RESTARTS {
        let n = (s.auto_restarts + 1) as u32;
        (
            Supervisor {
                stage: Stage::AwaitRestart,
                auto_restarts: n,
                healthy_secs: 0,
                unhealthy_streak: 0,
                ..s
            },
            seq![
                Act::Log(note),
                Act::ClearReady,
                Act::CountAutoRestarts(n),
                Act::Log(restart_note(n as nat)),
                Act::ShowLoadingWindow,
            ],
        )
    } else {
        watch_failed(s, note)
    }
}

/// The next state and the effects, for event `e` in state `s`. An event that
/// does not answer the pending command changes nothing.
pub open spec fn next(s: Supervisor, e: Event) -> (Supervisor, Seq<Act>) {
    match (s.stage, e) {
        (_, Event::Superseded) => (Supervisor { stage: Stage::Finished, ..s }, Seq::empty()),
        (Stage::AwaitChild, Event::ChildPolled { exited, plugin_missing, plugin_conflict }) => {
            if !exited {
                (Supervisor { stage: Stage::AwaitProbe, attempts: (s.attempts + 1) as u32, ..s }, Seq::empty())
            } else if plugin_missing {
                (
                    Supervisor { stage: Stage::Finished, ..s },
                    seq![
                        Act::Log(exited_note()),
                        Act::Log(missing_hint()),
                        Act::LaunchFailed,
                        Act::ShowLoadingWindow,
                    ],
                )
            } else if plugin_conflict {
                (Supervisor { stage: Stage::AwaitPluginList, ..s }, seq![Act::Log(exited_note())])
            } else if s.boot_retries < MAX_BOOT_RETRIES {
                (
                    Supervisor { stage: Stage::AwaitRespawn, boot_retries: (s.boot_retries + 1) as u32, ..s },
                    seq![Act::Log(retry_note((s.boot_retries + 1) as nat))],
                )
            } else {
                boot_failed(s, retries_exhausted_note())
            }
        },
        (Stage::AwaitPluginList, Event::PluginsListed { has_third_party }) => {
            if has_third_party {
                (
                    Supervisor { stage: Stage::Finished, ..s },
                    seq![
                        Act::Log(conflict_hint()),
                        Act::LaunchFailed,
                        Act::OpenPluginList,
                        Act::ShowLoadingWindow,
                    ],
                )
            } else {
                boot_failed(s, not_conflict_hint())
            }
        },
        (Stage::AwaitRespawn, Event::Respawned { error }) => respawned(s, error),
        (Stage::AwaitRestart, Event::Respawned { error }) => respawned(s, error),
        (Stage::AwaitProbe, Event::Probed { probe, port, elapsed_secs }) => match probe {
            Probe::Ready => (
                watching(s),
                seq![Act::MarkReady, Act::Log(ready_note(port)), Act::EmitReady],
            ),
            Probe::NotReady => round_over(Supervisor { root_ok_streak: 0, ..s }, port, elapsed_secs),
            Probe::NoAnswer => (Supervisor { stage: Stage::AwaitRoot, ..s }, Seq::empty()),
        },
        (Stage::AwaitRoot, Event::RootChecked { ok, port, elapsed_secs }) => {
            if ok && s.root_ok_streak + 1 >= LEGACY_READY_ITERATIONS {
                (watching(s), seq![Act::Log(legacy_ready_note()), Act::MarkReady, Act::EmitReady])
            } else if ok {
                round_over(
                    Supervisor { root_ok_streak: (s.root_ok_streak + 1) as u32, ..s },
                    port,
                    elapsed_secs,
                )
            } else {
                round_over(Supervisor { root_ok_streak: 0, ..s }, port, elapsed_secs)
            }
        },
        (Stage::Watching, Event::Watched { exited, probe }) => {
            if !exited && probe == Some(Probe::Ready) {
                if s.healthy_secs + WATCH_INTERVAL_SECS >= HEALTHY_RESET_SECS {
                    (
                        Supervisor { healthy_secs: 0, unhealthy_streak: 0, auto_restarts: 0, ..s },
                        seq![Act::ResetAutoRestarts],
                    )
                } else {
                    (
                        Supervisor {
                            healthy_secs: (s.healthy_secs + WATCH_INTERVAL_SECS) as u32,
                            unhealthy_streak: 0,
                            ..s
                        },
                        Seq::empty(),
                    )
                }
            } else if !exited {
                if s.unhealthy_streak + 1 < WATCHDOG_UNHEALTHY_LIMIT {
                    (
                        Supervisor { unhealthy_streak: (s.unhealthy_streak + 1) as u32, ..s },
                        if s.unhealthy_streak == 0 {
                            seq![Act::Log(unresponsive_note())]
                        } else {
                            Seq::empty()
                        },
                    )
                } else {
                    server_lost(s, persistently_unresponsive_note())
                }
            } else {
                server_lost(s, died_note())
            }
        },
        _ => (s, Seq::empty()),
    }
}

// ---- executable side ----

fn push_effect(v: &mut Vec<Effect>, e: Effect)
    ensures
        acts(final(v)@) == acts(old(v)@).push(e@),
{
    v.push(e);
    assert(acts(v@) =~= acts(old(v)@).push(e@));
}

fn push_log(v: &mut Vec<Effect>, line: String)
    ensures
        acts(final(v)@) == acts(old(v)@).push(Act::Log(line@)),
{
    push_effect(v, Effect::Log(line));
}

fn retry_message(n: u32) -> (s: String)
    requires
        1 <= n <= MAX_BOOT_RETRIES,
    ensures
        s@ == retry_note(n as nat),
{
    let delay = 5 * (n as u64);
    let mut s = concat3("[warn] DSH 启动过程中退出,", decimal_string(delay).as_str(), " 秒后自动重试(第 ");
    crate::text::append(&mut s, decimal_string(n as u64).as_str());
    crate::text::append(&mut s, "/");
    crate::text::append(&mut s, decimal_string(MAX_BOOT_RETRIES as u64).as_str());
    crate::text::append(&mut s, " 次)…");
    s
}

fn restart_message(n: u32) -> (s: String)
    requires
        1 <= n <= MAX_AUTO_RESTARTS,
    ensures
        s@ == restart_note(n as nat),
{
    let mut s = concat3("[warn] 正在自动重启 DSH(第 ", decimal_string(n as u64).as_str(), "/");
    crate::text::append(&mut s, decimal_string(MAX_AUTO_RESTARTS as u64).as_str());
    crate::text::append(&mut s, " 次)…");
    s
}

fn with_url(before: &str, port: u16, after: &str) -> (s: String)
    ensures
        s@ == before@ + url_of(port) + after@,
{
    let url = dsh_url(port);
    concat3(before, url.as_str(), after)
}

impl Supervisor {
    /// Supervision of a freshly spawned child begins: the caller polls it first.
    pub fn new() -> (s: Supervisor)
        ensures
            s == initial(),
            wf(s),
    {
        Supervisor {
            stage: Stage::AwaitChild,
            boot_retries: 0,
            attempts: 0,
            root_ok_streak: 0,
            healthy_secs: 0,
            unhealthy_streak: 0,
            auto_restarts: 0,
        }
    }

    /// The outside work the caller owes next.
    pub fn command(&self) -> (c: Command)
        requires
            wf(*self),
        ensures
            c == pending(*self),
    {
        match self.stage {
            Stage::AwaitChild => Command::PollChild,
            Stage::AwaitProbe => Command::Probe,
            Stage::AwaitRoot => Command::CheckRoot,
            Stage::AwaitPluginList => Command::ListPlugins,
            Stage::AwaitRespawn => Command::Respawn { delay_secs: 5 * (self.boot_retries as u64) },
            Stage::AwaitRestart => Command::Restart,
            Stage::Watching => Command::Watch,
            Stage::Finished => Command::Stop,
        }
    }

    fn round_over(&mut self, port: u16, elapsed_secs: u64, out: &mut Vec<Effect>)
        requires
            old(out)@.len() == 0,
        ensures
            (*final(self), acts(final(out)@)) == round_over(*old(self), port, elapsed_secs),
    {
        let ghost s0 = *self;
        if self.attempts == 5 {
            push_log(
                out,
                with_url("[waiting] ", port, " not ready yet,正在下载依赖,请稍候…"),
            );
        } else if self.attempts % 50 == 0 {
            push_log(out, with_url("[waiting] ", port, " 仍在等待,请耐心等待…"));
        }
        let ghost beat = acts(out@);
        if elapsed_secs > BOOT_TIMEOUT_SECS {
            self.stage = Stage::Finished;
            push_log(out, owned("[error] 启动超时(20 分钟),已停止等待。可点击下方「重试启动」再次尝试。"));
            push_effect(out, Effect::LaunchFailed);
            push_effect(out, Effect::ShowLoadingWindow);
            assert(acts(out@) =~= beat + seq![
                Act::Log(timeout_note()),
                Act::LaunchFailed,
                Act::ShowLoadingWindow,
            ]);
        } else {
            self.stage = Stage::AwaitChild;
        }
        assert(acts(Seq::<Effect>::empty()) =~= Seq::<Act>::empty());
    }

    fn watch_failed(&mut self, note: String, out: &mut Vec<Effect>)
        requires
            old(out)@.len() == 0,
        ensures
            (*final(self), acts(final(out)@)) == watch_failed(*old(self), note@),
    {
        self.stage = Stage::Finished;
        push_log(out, note);
        push_effect(out, Effect::ClearReady);
        push_log(out, owned("[error] 已停止自动重启以保留 DSH 错误页面。请根据主窗口中的错误信息排查,或重启应用重新尝试。"));
        push_effect(out, Effect::LaunchFailed);
        assert(acts(out@) =~= seq![
            Act::Log(note@),
            Act::ClearReady,
            Act::Log(stopped_note()),
            Act::LaunchFailed,
        ]);
    }

    fn server_lost(&mut self, note: String, out: &mut Vec<Effect>)
        requires
            old(out)@.len() == 0,
            old(self).auto_restarts <= MAX_AUTO_RESTARTS,
        ensures
            (*final(self), acts(final(out)@)) == server_lost(*old(self), note@),
    {
        if self.auto_restarts < MAX_AUTO_RESTARTS {
            let n = self.auto_restarts + 1;
            self.stage = Stage::AwaitRestart;
            self.auto_restarts = n;
            self.healthy_secs = 0;
            self.unhealthy_streak = 0;
            push_log(out, note);
            push_effect(out, Effect::ClearReady);
            push_effect(out, Effect::CountAutoRestarts(n));
            push_log(out, restart_message(n));
            push_effect(out, Effect::ShowLoadingWindow);
            assert(acts(out@) =~= seq![
                Act::Log(note@),
                Act::ClearReady,
                Act::CountAutoRestarts(n),
                Act::Log(restart_note(n as nat)),
                Act::ShowLoadingWindow,
            ]);
        } else {
            self.watch_failed(note, out);
        }
    }

    fn respawned(&mut self, error: Option<String>, out: &mut Vec<Effect>)
        requires
            old(out)@.len() == 0,
        ensures
            (*final(self), acts(final(out)@)) == respawned(*old(self), error),
    {
        match error {
            None => {
                self.stage = Stage::AwaitChild;
                self.attempts = 0;
                self.root_ok_streak = 0;
                push_effect(out, Effect::RestartBootClock);
                assert(acts(out@) =~= seq![Act::RestartBootClock]);
            },
            Some(msg) => {
                self.boot_failed(concat("[error] failed to spawn DSH: ", msg.as_str()), out);
            },
        }
    }

    fn boot_failed(&mut self, note: String, out: &mut Vec<Effect>)
        requires
            old(out)@.len() == 0,
        ensures
            (*final(self), acts(final(out)@)) == boot_failed(*old(self), note@),
    {
        self.stage = Stage::Finished;
        push_log(out, note);
        push_effect(out, Effect::LaunchFailed);
        push_effect(out, Effect::ShowLoadingWindow);
        assert(acts(out@) =~= seq![Act::Log(note@), Act::LaunchFailed, Act::ShowLoadingWindow]);
    }

    /// Takes in what the caller observed and returns the effects to carry out,
    /// in order.
    pub fn step(&mut self, e: Event) -> (out: Vec<Effect>)
        requires
            wf(*old(self)),
            old(self).attempts < u32::MAX,
        ensures
            (*final(self), acts(out@)) == next(*old(self), e),
            wf(*final(self)),
    {
        let ghost s0 = *self;
        let ghost e0 = e;
        let mut out: Vec<Effect> = Vec::new();
        assert(acts(out@) =~= Seq::<Act>::empty());
        match (self.stage, e) {
            (_, Event::Superseded) => {
                self.stage = Stage::Finished;
            },
            (Stage::AwaitChild, Event::ChildPolled { exited, plugin_missing, plugin_conflict }) => {
                if !exited {
                    self.stage = Stage::AwaitProbe;
                    self.attempts = self.attempts + 1;
                } else if plugin_missing {
                    self.stage = Stage::Finished;
                    push_log(&mut out, owned("[error] DSH 进程已退出,启动失败。"));
                    push_log(&mut out, owned("[hint] 检测到插件包缺失(缓存不完整)。请点击菜单「关于 → 清除 DSH 缓存」后重试,或重启应用重新安装。"));
                    push_effect(&mut out, Effect::LaunchFailed);
                    push_effect(&mut out, Effect::ShowLoadingWindow);
                    assert(acts(out@) =~= seq![
                        Act::Log(exited_note()),
                        Act::Log(missing_hint()),
                        Act::LaunchFailed,
                        Act::ShowLoadingWindow,
                    ]);
                } else if plugin_conflict {
                    self.stage = Stage::AwaitPluginList;
                    push_log(&mut out, owned("[error] DSH 进程已退出,启动失败。"));
                    assert(acts(out@) =~= seq![Act::Log(exited_note())]);
                } else if self.boot_retries < MAX_BOOT_RETRIES {
                    self.boot_retries = self.boot_retries + 1;
                    self.stage = Stage::AwaitRespawn;
                    push_log(&mut out, retry_message(self.boot_retries));
                    assert(acts(out@) =~= seq![Act::Log(retry_note(self.boot_retries as nat))]);
                } else {
                    self.boot_failed(owned("[error] DSH 进程已退出,自动重试均失败。可点击下方「重试启动」再次尝试。"), &mut out);
                }
            },
            (Stage::AwaitPluginList, Event::PluginsListed { has_third_party }) => {
                if has_third_party {
                    self.stage = Stage::Finished;
                    push_log(&mut out, owned("[hint] 检测到插件冲突。已为你打开「已安装插件」页面,请卸载有问题的第三方插件后点击「重试启动」。"));
                    push_effect(&mut out, Effect::LaunchFailed);
                    push_effect(&mut out, Effect::OpenPluginList);
                    push_effect(&mut out, Effect::ShowLoadingWindow);
                    assert(acts(out@) =~= seq![
                        Act::Log(conflict_hint()),
                        Act::LaunchFailed,
                        Act::OpenPluginList,
                        Act::ShowLoadingWindow,
                    ]);
                } else {
                    self.boot_failed(owned("[hint] 日志中出现插件加载告警,但未检测到第三方插件。这通常是 DSH 包(当前版本通道)自身加载异常或缓存损坏,而非插件冲突。请点击菜单「关于 → 清除 DSH 缓存」后重试,或在「设置」中切换版本通道(如切回 latest)。"), &mut out);
                }
            },
            (Stage::AwaitRespawn, Event::Respawned { error }) => {
                self.respawned(error, &mut out);
            },
            (Stage::AwaitRestart, Event::Respawned { error }) => {
                self.respawned(error, &mut out);
            },
            (Stage::AwaitProbe, Event::Probed { probe, port, elapsed_secs }) => match probe {
                Probe::Ready => {
                    self.stage = Stage::Watching;
                    self.attempts = 0;
                    self.root_ok_streak = 0;
                    self.healthy_secs = 0;
                    self.unhealthy_streak = 0;
                    push_effect(&mut out, Effect::MarkReady);
                    push_log(&mut out, concat("[ready] DSH web server is up at ", dsh_url(port).as_str()));
                    push_effect(&mut out, Effect::EmitReady);
                    assert(acts(out@) =~= seq![
                        Act::MarkReady,
                        Act::Log(ready_note(port)),
                        Act::EmitReady,
                    ]);
                },
                Probe::NotReady => {
                    self.root_ok_streak = 0;
                    self.round_over(port, elapsed_secs, &mut out);
                },
                Probe::NoAnswer => {
                    self.stage = Stage::AwaitRoot;
                },
            },
            (Stage::AwaitRoot, Event::RootChecked { ok, port, elapsed_secs }) => {
                if ok && self.root_ok_streak + 1 >= LEGACY_READY_ITERATIONS {
                    self.stage = Stage::Watching;
                    self.attempts = 0;
                    self.root_ok_streak = 0;
                    self.healthy_secs = 0;
                    self.unhealthy_streak = 0;
                    push_log(&mut out, owned("[warn] 未能探测到 /api 就绪信号,按旧版兼容方式判定就绪。"));
                    push_effect(&mut out, Effect::MarkReady);
                    push_effect(&mut out, Effect::EmitReady);
                    assert(acts(out@) =~= seq![
                        Act::Log(legacy_ready_note()),
                        Act::MarkReady,
                        Act::EmitReady,
                    ]);
                } else if ok {
                    self.root_ok_streak = self.root_ok_streak + 1;
                    self.round_over(port, elapsed_secs, &mut out);
                } else {
                    self.root_ok_streak = 0;
                    self.round_over(port, elapsed_secs, &mut out);
                }
            },
            (Stage::Watching, Event::Watched { exited, probe }) => {
                let ready = match probe {
                    Some(Probe::Ready) => true,
                    _ => false,
                };
                if !exited && ready {
                    if self.healthy_secs + WATCH_INTERVAL_SECS >= HEALTHY_RESET_SECS {
                        self.healthy_secs = 0;
                        self.unhealthy_streak = 0;
                        self.auto_restarts = 0;
                        push_effect(&mut out, Effect::ResetAutoRestarts);
                        assert(acts(out@) =~= seq![Act::ResetAutoRestarts]);
                    } else {
                        self.healthy_secs = self.healthy_secs + WATCH_INTERVAL_SECS;
                        self.unhealthy_streak = 0;
                    }
                } else if !exited {
                    if self.unhealthy_streak + 1 < WATCHDOG_UNHEALTHY_LIMIT {
                        if self.unhealthy_streak == 0 {
                            push_log(&mut out, owned("[warn] DSH 服务暂时无响应,正在观察…"));
                            assert(acts(out@) =~= seq![Act::Log(unresponsive_note())]);
                        }
                        self.unhealthy_streak = self.unhealthy_streak + 1;
                    } else {
                        self.server_lost(owned("[warn] DSH 服务持续无响应,视为异常。"), &mut out);
                    }
                } else {
                    self.server_lost(owned("[error] DSH 进程意外退出。"), &mut out);
                }
            },
            _ => {},
        }
        out
    }
}

// ---- laws ----

/// Every step keeps the bounds of a reachable state.
pub proof fn lemma_step_keeps_bounds(s: Supervisor, e: Event)
    requires
        wf(s),
        s.attempts < u32::MAX,
    ensures
        wf(next(s, e).0),
{
}

/// Once supervision is over, no event changes the state or asks for anything.
pub proof fn lemma_finished_is_final(s: Supervisor, e: Event)
    requires
        s.stage == Stage::Finished,
    ensures
        next(s, e).0 == s,
        next(s, e).1.len() == 0,
        pending(s) == Command::Stop,
{
}

/// The re-spawn budget: the retry count never decreases, grows by one exactly
/// when a re-spawn is requested, never exceeds `MAX_BOOT_RETRIES`, and the
/// n-th re-spawn waits `5 * n` seconds.
pub proof fn lemma_respawn_budget(s: Supervisor, e: Event)
    requires
        wf(s),
        s.attempts < u32::MAX,
    ensures
        s.boot_retries <= next(s, e).0.boot_retries <= MAX_BOOT_RETRIES,
        next(s, e).0.boot_retries <= s.boot_retries + 1,
        (next(s, e).0.boot_retries == s.boot_retries + 1) <==> (s.stage != Stage::AwaitRespawn
            && next(s, e).0.stage == Stage::AwaitRespawn),
        next(s, e).0.stage == Stage::AwaitRespawn ==> pending(next(s, e).0) == (Command::Respawn {
            delay_secs: (5 * next(s, e).0.boot_retries) as u64,
        }),
{
}

/// The evidence on which DSH may be declared ready: the `/api` probe answered
/// `426`, or the root page answered for the `LEGACY_READY_ITERATIONS`-th time
/// in a row.
pub open spec fn ready_evidence(s: Supervisor, e: Event) -> bool {
    match e {
        Event::Probed { probe, .. } => s.stage == Stage::AwaitProbe && probe == Probe::Ready,
        Event::RootChecked { ok, .. } => s.stage == Stage::AwaitRoot && ok && s.root_ok_streak + 1
            >= LEGACY_READY_ITERATIONS,
        _ => false,
    }
}

/// DSH is declared ready only on `ready_evidence`, and always on it.
pub proof fn lemma_ready_needs_evidence(s: Supervisor, e: Event)
    ensures
        (next(s, e).1.contains(Act::EmitReady) || next(s, e).1.contains(Act::MarkReady))
            <==> ready_evidence(s, e),
        ready_evidence(s, e) ==> next(s, e).0.stage == Stage::Watching,
{
    let r = next(s, e);
    if ready_evidence(s, e) {
        if r.1[0] == Act::MarkReady {
        } else {
            assert(r.1[1] == Act::MarkReady);
        }
    } else {
        assert forall|i: int| 0 <= i < r.1.len() implies r.1[i] != Act::EmitReady && r.1[i]
            != Act::MarkReady by {}
    }
}

/// A child that died for want of a package is neither re-spawned nor sent to
/// the plugin list: supervision ends with the cache hint.
pub proof fn lemma_missing_package_is_final(s: Supervisor, conflict: bool)
    requires
        s.stage == Stage::AwaitChild,
    ensures
        ({
            let r = next(
                s,
                Event::ChildPolled { exited: true, plugin_missing: true, plugin_conflict: conflict },
            );
            &&& r.0.stage == Stage::Finished
            &&& r.0.boot_retries == s.boot_retries
            &&& r.1 == seq![
                Act::Log(exited_note()),
                Act::Log(missing_hint()),
                Act::LaunchFailed,
                Act::ShowLoadingWindow,
            ]
        }),
{
}

/// A failed boot is always reported, and the loading window is shown again.
pub proof fn lemma_boot_failure_is_visible(s: Supervisor, e: Event)
    requires
        s.stage != Stage::Finished,
        s.stage != Stage::Watching,
        !(e is Superseded),
        next(s, e).0.stage == Stage::Finished,
    ensures
        next(s, e).1.contains(Act::LaunchFailed),
        next(s, e).1.contains(Act::ShowLoadingWindow),
{
    let r = next(s, e);
    let n = r.1.len();
    assert(r.1[n - 1] == Act::ShowLoadingWindow);
    if r.1[n - 2] == Act::LaunchFailed {
    } else {
        assert(r.1[n - 3] == Act::LaunchFailed);
    }
}

/// The outcome of a probe round that ended the boot by its timeout: finished,
/// with the timeout reported last, then the launch failure and the loading
/// window.
pub open spec fn timed_out(r: (Supervisor, Seq<Act>)) -> bool {
    &&& r.0.stage == Stage::Finished
    &&& r.1.len() >= 3
    &&& r.1.subrange(r.1.len() - 3, r.1.len() as int) == seq![
        Act::Log("[error] 启动超时(20 分钟),已停止等待。可点击下方「重试启动」再次尝试。"@),
        Act::LaunchFailed,
        Act::ShowLoadingWindow,
    ]
}

/// The boot timeout: every probe round that brings no evidence of readiness
/// (`/api` not ready, or a root-page check that fails or does not yet
/// complete the legacy streak) ends the boot once more than
/// `BOOT_TIMEOUT_SECS` have passed since it began, whether or not DSH
/// answers; before that, the next round starts by polling the child.
pub proof fn lemma_boot_timeout(s: Supervisor, port: u16, elapsed_secs: u64, ok: bool)
    ensures
        s.stage == Stage::AwaitProbe && elapsed_secs > BOOT_TIMEOUT_SECS ==> timed_out(
            next(s, (Event::Probed { probe: Probe::NotReady, port, elapsed_secs })),
        ),
        s.stage == Stage::AwaitRoot && !(ok && s.root_ok_streak + 1 >= LEGACY_READY_ITERATIONS)
            && elapsed_secs > BOOT_TIMEOUT_SECS ==> timed_out(
            next(s, (Event::RootChecked { ok, port, elapsed_secs })),
        ),
        s.stage == Stage::AwaitProbe && elapsed_secs <= BOOT_TIMEOUT_SECS ==> next(
            s,
            (Event::Probed { probe: Probe::NotReady, port, elapsed_secs }),
        ).0.stage == Stage::AwaitChild,
        s.stage == Stage::AwaitRoot && !(ok && s.root_ok_streak + 1 >= LEGACY_READY_ITERATIONS)
            && elapsed_secs <= BOOT_TIMEOUT_SECS ==> next(
            s,
            (Event::RootChecked { ok, port, elapsed_secs }),
        ).0.stage == Stage::AwaitChild,
{
    let e1 = Event::Probed { probe: Probe::NotReady, port, elapsed_secs };
    let e2 = Event::RootChecked { ok, port, elapsed_secs };
    let r1 = next(s, e1);
    let r2 = next(s, e2);
    if s.stage == Stage::AwaitProbe && elapsed_secs > BOOT_TIMEOUT_SECS {
        let n = r1.1.len();
        assert(r1.1.subrange(n - 3, n as int) =~= seq![
            Act::Log(timeout_note()),
            Act::LaunchFailed,
            Act::ShowLoadingWindow,
        ]);
    }
    if s.stage == Stage::AwaitRoot && !(ok && s.root_ok_streak + 1 >= LEGACY_READY_ITERATIONS)
        && elapsed_secs > BOOT_TIMEOUT_SECS {
        let n = r2.1.len();
        assert(r2.1.subrange(n - 3, n as int) =~= seq![
            Act::Log(timeout_note()),
            Act::LaunchFailed,
            Act::ShowLoadingWindow,
        ]);
    }
}

/// The server is lost on a watchdog check: it has died, or it has now been
/// unresponsive for `WATCHDOG_UNHEALTHY_LIMIT` checks in a row.
pub open spec fn lost_on(s: Supervisor, exited: bool, probe: Option<Probe>) -> bool {
    exited || (probe != Some(Probe::Ready) && s.unhealthy_streak + 1 >= WATCHDOG_UNHEALTHY_LIMIT)
}

/// The watchdog: a healthy check keeps watching and resets the unresponsive
/// count; a lost server is restarted (loading window shown, restart counted,
/// readiness cleared) while fewer than `MAX_AUTO_RESTARTS` restarts have been
/// made, and otherwise supervision ends with a launch failure; a server that
/// is unresponsive for fewer checks is kept watching.
pub proof fn lemma_watchdog(s: Supervisor, exited: bool, probe: Option<Probe>)
    requires
        wf(s),
        s.stage == Stage::Watching,
    ensures
        ({
            let r = next(s, Event::Watched { exited, probe });
            &&& (!exited && probe == Some(Probe::Ready)) ==> r.0.stage == Stage::Watching
                && r.0.unhealthy_streak == 0
            &&& !lost_on(s, exited, probe) ==> r.0.stage == Stage::Watching
            &&& (lost_on(s, exited, probe) && s.auto_restarts < MAX_AUTO_RESTARTS) ==> {
                &&& r.0.stage == Stage::AwaitRestart
                &&& pending(r.0) == Command::Restart
                &&& r.0.auto_restarts == s.auto_restarts + 1
                &&& r.1.contains(Act::ShowLoadingWindow)
                &&& r.1.contains(Act::ClearReady)
                &&& r.1.contains(Act::CountAutoRestarts(r.0.auto_restarts))
                &&& !r.1.contains(Act::LaunchFailed)
            }
            &&& (lost_on(s, exited, probe) && s.auto_restarts >= MAX_AUTO_RESTARTS) ==> {
                &&& r.0.stage == Stage::Finished
                &&& r.1.contains(Act::LaunchFailed)
                &&& r.1.contains(Act::ClearReady)
            }
        }),
{
    let r = next(s, Event::Watched { exited, probe });
    if lost_on(s, exited, probe) {
        if s.auto_restarts < MAX_AUTO_RESTARTS {
            assert(r.1[4] == Act::ShowLoadingWindow);
            assert(r.1[1] == Act::ClearReady);
            assert(r.1[2] == Act::CountAutoRestarts(r.0.auto_restarts));
            assert forall|i: int| 0 <= i < r.1.len() implies r.1[i] != Act::LaunchFailed by {}
        } else {
            assert(r.1[3] == Act::LaunchFailed);
            assert(r.1[1] == Act::ClearReady);
        }
    }
}

/// The automatic-restart budget: the count never exceeds
/// `MAX_AUTO_RESTARTS`, grows by one exactly when a restart is requested,
/// and falls only when a healthy period re-arms the budget (to zero).
pub proof fn lemma_auto_restart_budget(s: Supervisor, e: Event)
    requires
        wf(s),
        s.attempts < u32::MAX,
    ensures
        next(s, e).0.auto_restarts <= MAX_AUTO_RESTARTS,
        (next(s, e).0.auto_restarts == s.auto_restarts + 1) <==> (s.stage != Stage::AwaitRestart
            && next(s, e).0.stage == Stage::AwaitRestart),
        next(s, e).0.auto_restarts < s.auto_restarts ==> next(s, e).0.auto_restarts == 0
            && next(s, e).1 == seq![Act::ResetAutoRestarts],
{
}

/// After a restart, booting starts over: the next ready server is announced
/// again (by `lemma_ready_needs_evidence`), and a failed spawn is reported.
pub proof fn lemma_restart_boots_again(s: Supervisor, error: Option<String>)
    requires
        s.stage == Stage::AwaitRestart,
    ensures
        error is None ==> next(s, Event::Respawned { error }).0.stage == Stage::AwaitChild
            && next(s, Event::Respawned { error }).0.auto_restarts == s.auto_restarts,
        error is Some ==> next(s, Event::Respawned { error }).0.stage == Stage::Finished
            && next(s, Event::Respawned { error }).1.contains(Act::LaunchFailed),
{
    if error is Some {
        assert(next(s, Event::Respawned { error }).1[1] == Act::LaunchFailed);
    }
}

/// A superseded session ends at once and silently.
pub proof fn lemma_superseded_stops_silently(s: Supervisor)
    ensures
        next(s, Event::Superseded).0.stage == Stage::Finished,
        next(s, Event::Superseded).1.len() == 0,
{
}

} // verus!
