//! The command lines of the DSH child process and of its one-shot
//! subcommands (version, plugin management), and the reading of their output.
//!
//! DSH runs as `@deepseek-ai/dsh@<channel>` through the bundled node binary,
//! either with the bundled pnpm (`pnpm dlx`, the default) or with the bundled
//! npm's npx, in an isolated store, cache and home.
use vstd::prelude::*;
use crate::text::{
    concat, concat3, decimal, decimal_string, owned, trim, trim_str, views, chars_of,
};

verus! {

/// The npm registry DSH is fetched from.
pub const NPM_REGISTRY: &'static str = "https://registry.npmmirror.com";

fn push_str(v: &mut Vec<String>, s: &str)
    ensures
        views(final(v)@) == views(old(v)@).push(s@),
{
    v.push(owned(s));
    assert(views(v@) =~= views(old(v)@).push(s@));
}

fn push_pair(v: &mut Vec<(String, String)>, k: &str, val: &str)
    ensures
        pair_views(final(v)@) == pair_views(old(v)@).push((k@, val@)),
{
    v.push((owned(k), owned(val)));
    assert(pair_views(v@) =~= pair_views(old(v)@).push((k@, val@)));
}

/// The views of a list of name/value pairs.
pub open spec fn pair_views(v: Seq<(String, String)>) -> Seq<(Seq<char>, Seq<char>)> {
    v.map_values(|p: (String, String)| (p.0@, p.1@))
}

/// The package DSH is run as: `@deepseek-ai/dsh@<channel>`.
pub open spec fn package_spec(channel: Seq<char>) -> Seq<char> {
    "@deepseek-ai/dsh@"@ + channel
}

/// The package DSH is run as, for a version channel.
pub fn dsh_package(channel: &str) -> (s: String)
    ensures
        s@ == package_spec(channel@),
{
    concat("@deepseek-ai/dsh@", channel)
}

/// The arguments of the bundled node binary that run DSH with `extra`:
/// `<npx-cli.js> -y <package> ...` with npx, otherwise
/// `<pnpm.mjs> --reporter=append-only --config.dangerouslyAllowAllBuilds=true
/// dlx <package> ...` (line-based output, build scripts approved without an
/// interactive prompt).
pub open spec fn runner_args(
    uses_npx: bool,
    script: Seq<char>,
    channel: Seq<char>,
    extra: Seq<Seq<char>>,
) -> Seq<Seq<char>> {
    if uses_npx {
        seq![script, "-y"@, package_spec(channel)] + extra
    } else {
        seq![
            script,
            "--reporter=append-only"@,
            "--config.dangerouslyAllowAllBuilds=true"@,
            "dlx"@,
            package_spec(channel),
        ] + extra
    }
}

/// The arguments of the bundled node binary that run DSH with `extra`.
pub fn runner_arguments(uses_npx: bool, script: &str, channel: &str, extra: &Vec<String>) -> (v:
    Vec<String>)
    ensures
        views(v@) == runner_args(uses_npx, script@, channel@, views(extra@)),
{
    let mut v: Vec<String> = Vec::new();
    let pkg = dsh_package(channel);
    push_str(&mut v, script);
    if uses_npx {
        push_str(&mut v, "-y");
        push_str(&mut v, pkg.as_str());
    } else {
        push_str(&mut v, "--reporter=append-only");
        push_str(&mut v, "--config.dangerouslyAllowAllBuilds=true");
        push_str(&mut v, "dlx");
        push_str(&mut v, pkg.as_str());
    }
    let ghost head = views(v@);
    let mut i: usize = 0;
    while i < extra.len()
        invariant
            i <= extra.len(),
            views(v@) == head + views(extra@).take(i as int),
        decreases extra.len() - i,
    {
        push_str(&mut v, extra[i].as_str());
        assert(views(extra@).take(i + 1) =~= views(extra@).take(i as int).push(extra@[i as int]@));
        assert(views(v@) =~= head + views(extra@).take(i + 1));
        i = i + 1;
    }
    assert(views(extra@).take(extra.len() as int) =~= views(extra@));
    assert(head =~= (if uses_npx {
        seq![script@, "-y"@, package_spec(channel@)]
    } else {
        seq![
            script@,
            "--reporter=append-only"@,
            "--config.dangerouslyAllowAllBuilds=true"@,
            "dlx"@,
            package_spec(channel@),
        ]
    }));
    v
}

/// The DSH arguments that start the web UI on a port, without opening a browser.
pub open spec fn web_args(port: u16) -> Seq<Seq<char>> {
    seq!["web"@, "--port"@, decimal(port as nat), "--no-open"@]
}

/// The DSH arguments that start the web UI on a port.
pub fn web_arguments(port: u16) -> (v: Vec<String>)
    ensures
        views(v@) == web_args(port),
{
    let mut v: Vec<String> = Vec::new();
    push_str(&mut v, "web");
    push_str(&mut v, "--port");
    push_str(&mut v, decimal_string(port as u64).as_str());
    push_str(&mut v, "--no-open");
    assert(views(v@) =~= web_args(port));
    v
}

/// The first log line of a launch: the command being run and the node binary.
pub open spec fn banner(uses_npx: bool, channel: Seq<char>, port: u16, node: Seq<char>) -> Seq<char> {
    "$ "@ + (if uses_npx {
        "npx"@
    } else {
        "pnpm"@
    }) + " dlx "@ + package_spec(channel) + " web --port "@ + decimal(port as nat)
        + " --no-open\n   (node: "@ + node + ")"@
}

/// The first log line of a launch.
pub fn launch_banner(uses_npx: bool, channel: &str, port: u16, node: &str) -> (s: String)
    ensures
        s@ == banner(uses_npx, channel@, port, node@),
{
    let runner = if uses_npx {
        "npx"
    } else {
        "pnpm"
    };
    let mut s = concat3("$ ", runner, " dlx ");
    crate::text::append(&mut s, dsh_package(channel).as_str());
    crate::text::append(&mut s, " web --port ");
    crate::text::append(&mut s, decimal_string(port as u64).as_str());
    crate::text::append(&mut s, " --no-open\n   (node: ");
    crate::text::append(&mut s, node);
    crate::text::append(&mut s, ")");
    s
}

/// The environment of the child (besides `PATH`): pnpm's home, store and
/// cache and the XDG directories under the launcher's data directory, an
/// isolated DSH home, the registry, production mode, and patient network
/// retries.
pub open spec fn child_env(dsh_dir: Seq<char>, store: Seq<char>, cache: Seq<char>, home: Seq<char>) -> Seq<
    (Seq<char>, Seq<char>),
> {
    seq![
        ("PNPM_HOME"@, dsh_dir),
        ("npm_config_store_dir"@, store),
        ("npm_config_cache"@, cache),
        ("XDG_CACHE_HOME"@, dsh_dir),
        ("XDG_DATA_HOME"@, dsh_dir),
        ("XDG_STATE_HOME"@, dsh_dir),
        ("DSH_HOME"@, home),
        ("HOME"@, home),
        ("npm_config_registry"@, "https://registry.npmmirror.com"@),
        ("NODE_ENV"@, "production"@),
        ("npm_config_fetch_retries"@, "5"@),
        ("npm_config_fetch_retry_mintimeout"@, "2000"@),
        ("npm_config_fetch_retry_maxtimeout"@, "30000"@),
        ("npm_config_fetch_timeout"@, "120000"@),
    ]
}

/// The environment of the child, in the order it is set.
pub fn child_environment(dsh_dir: &str, store: &str, cache: &str, home: &str) -> (v: Vec<
    (String, String),
>)
    ensures
        pair_views(v@) == child_env(dsh_dir@, store@, cache@, home@),
{
    let mut v: Vec<(String, String)> = Vec::new();
    push_pair(&mut v, "PNPM_HOME", dsh_dir);
    push_pair(&mut v, "npm_config_store_dir", store);
    push_pair(&mut v, "npm_config_cache", cache);
    push_pair(&mut v, "XDG_CACHE_HOME", dsh_dir);
    push_pair(&mut v, "XDG_DATA_HOME", dsh_dir);
    push_pair(&mut v, "XDG_STATE_HOME", dsh_dir);
    push_pair(&mut v, "DSH_HOME", home);
    push_pair(&mut v, "HOME", home);
    push_pair(&mut v, "npm_config_registry", NPM_REGISTRY);
    push_pair(&mut v, "NODE_ENV", "production");
    push_pair(&mut v, "npm_config_fetch_retries", "5");
    push_pair(&mut v, "npm_config_fetch_retry_mintimeout", "2000");
    push_pair(&mut v, "npm_config_fetch_retry_maxtimeout", "30000");
    push_pair(&mut v, "npm_config_fetch_timeout", "120000");
    assert(pair_views(v@) =~= child_env(dsh_dir@, store@, cache@, home@));
    v
}

// ---- one-shot subcommands ----

/// The result of a subcommand from its output: stdout and stderr together on
/// success; on failure their trimmed text, or the exit status when they are
/// blank.
pub open spec fn outcome(stdout: Seq<char>, stderr: Seq<char>, success: bool, status: Seq<char>) -> Result<
    Seq<char>,
    Seq<char>,
> {
    let combined = stdout + stderr;
    if success {
        Ok(combined)
    } else if trim(combined).len() == 0 {
        Err("command exited with status "@ + status)
    } else {
        Err(trim(combined))
    }
}

/// The views of a string result.
pub open spec fn result_view(r: Result<String, String>) -> Result<Seq<char>, Seq<char>> {
    match r {
        Ok(s) => Ok(s@),
        Err(e) => Err(e@),
    }
}

/// Reads the result of a subcommand from its decoded output, whether it
/// exited successfully, and how its exit status is displayed.
pub fn command_outcome(stdout: &str, stderr: &str, success: bool, status: &str) -> (r: Result<
    String,
    String,
>)
    ensures
        result_view(r) == outcome(stdout@, stderr@, success, status@),
        success ==> result_view(r) == Ok::<Seq<char>, Seq<char>>(stdout@ + stderr@),
        !success && trim(stdout@ + stderr@).len() > 0 ==> result_view(r) == Err::<Seq<char>, Seq<char>>(
            trim(stdout@ + stderr@),
        ),
        !success && trim(stdout@ + stderr@).len() == 0 ==> result_view(r) == Err::<
            Seq<char>,
            Seq<char>,
        >("command exited with status "@ + status@),
{
    proof {
        lemma_outcome_reports_all_output(stdout@, stderr@, success, status@);
    }
    let combined = concat(stdout, stderr);
    if success {
        return Ok(combined);
    }
    let t = trim_str(combined.as_str());
    if chars_of(t.as_str()).len() == 0 {
        Err(concat("command exited with status ", status))
    } else {
        Err(t)
    }
}

/// The DSH version from the output of `--version`: the output trimmed; an
/// error stays as it is.
pub fn get_dsh_version(output: Result<String, String>) -> (r: Result<String, String>)
    ensures
        result_view(r) == (match result_view(output) {
            Ok(s) => Ok(trim(s)),
            Err(e) => Err(e),
        }),
{
    match output {
        Ok(s) => Ok(trim_str(s.as_str())),
        Err(e) => Err(e),
    }
}

/// What to do with a plugin.
#[derive(PartialEq, Eq, Structural, Clone, Copy, Debug)]
pub enum PluginAction {
    /// List the installed plugins.
    List,
    /// Install a plugin.
    Install,
    /// Remove a plugin.
    Remove,
    /// Update a plugin to its latest version.
    Update,
}

/// A package name as typed, trimmed; refused when nothing is left.
pub fn plugin_package(package: &str) -> (r: Result<String, String>)
    ensures
        match r {
            Ok(p) => trim(package@).len() > 0 && p@ == trim(package@),
            Err(e) => trim(package@).len() == 0 && e@ == "package name is empty"@,
        },
{
    let p = trim_str(package);
    if chars_of(p.as_str()).len() == 0 {
        Err(owned("package name is empty"))
    } else {
        Ok(p)
    }
}

/// The DSH arguments of a plugin action on the `web` profile. An update
/// installs `<package>@latest` (after the full name, so that `@scope/name`
/// works).
pub open spec fn plugin_args(action: PluginAction, package: Seq<char>) -> Seq<Seq<char>> {
    let base = seq!["plugin"@, "--profile"@, "web"@];
    match action {
        PluginAction::List => base.push("list"@),
        PluginAction::Install => base + seq!["add"@, package],
        PluginAction::Remove => base + seq!["remove"@, package],
        PluginAction::Update => base + seq!["add"@, package + "@latest"@],
    }
}

/// The DSH arguments of a plugin action.
pub fn plugin_arguments(action: PluginAction, package: &str) -> (v: Vec<String>)
    ensures
        views(v@) == plugin_args(action, package@),
{
    let mut v: Vec<String> = Vec::new();
    push_str(&mut v, "plugin");
    push_str(&mut v, "--profile");
    push_str(&mut v, "web");
    match action {
        PluginAction::List => {
            push_str(&mut v, "list");
        },
        PluginAction::Install => {
            push_str(&mut v, "add");
            push_str(&mut v, package);
        },
        PluginAction::Remove => {
            push_str(&mut v, "remove");
            push_str(&mut v, package);
        },
        PluginAction::Update => {
            push_str(&mut v, "add");
            push_str(&mut v, concat(package, "@latest").as_str());
        },
    }
    assert(views(v@) =~= plugin_args(action, package@));
    v
}

/// After an install: a failed install is followed by the removal of the
/// half-installed plugin (whose own outcome does not matter). Returns the
/// removal's arguments, if one is due.
pub fn install_cleanup(package: &str, install: &Result<String, String>) -> (r: Option<Vec<String>>)
    ensures
        match r {
            Some(v) => install is Err && views(v@) == plugin_args(PluginAction::Remove, package@),
            None => install is Ok,
        },
{
    match install {
        Ok(_) => None,
        Err(_) => Some(plugin_arguments(PluginAction::Remove, package)),
    }
}

/// What a subcommand reports: on success all of its output, stdout then
/// stderr; on failure that output trimmed, so that an error written to stderr
/// alone is the error reported; and only when the output is blank, the exit
/// status.
pub proof fn lemma_outcome_reports_all_output(
    stdout: Seq<char>,
    stderr: Seq<char>,
    success: bool,
    status: Seq<char>,
)
    ensures
        success ==> outcome(stdout, stderr, success, status) == Ok::<Seq<char>, Seq<char>>(
            stdout + stderr,
        ),
        !success && trim(stdout + stderr).len() > 0 ==> outcome(stdout, stderr, success, status)
            == Err::<Seq<char>, Seq<char>>(trim(stdout + stderr)),
        !success && stdout.len() == 0 && trim(stderr).len() > 0 ==> outcome(
            stdout,
            stderr,
            success,
            status,
        ) == Err::<Seq<char>, Seq<char>>(trim(stderr)),
        !success && trim(stdout + stderr).len() == 0 ==> outcome(stdout, stderr, success, status)
            == Err::<Seq<char>, Seq<char>>("command exited with status "@ + status),
{
    if stdout.len() == 0 {
        assert(stdout + stderr =~= stderr);
    }
}

} // verus!
