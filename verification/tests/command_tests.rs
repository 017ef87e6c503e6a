use dsh_desktop::command::{
    child_environment, command_outcome, dsh_package, get_dsh_version, install_cleanup,
    launch_banner, plugin_arguments, plugin_package, runner_arguments, web_arguments,
    PluginAction,
};

#[test]
fn package_follows_the_channel() {
    assert_eq!(dsh_package("latest"), "@deepseek-ai/dsh@latest");
    assert_eq!(dsh_package("next"), "@deepseek-ai/dsh@next");
}

#[test]
fn pnpm_runner_arguments() {
    let extra = web_arguments(5000);
    assert_eq!(extra, vec!["web", "--port", "5000", "--no-open"]);
    let v = runner_arguments(false, "/n/pnpm/bin/pnpm.mjs", "latest", &extra);
    assert_eq!(
        v,
        vec![
            "/n/pnpm/bin/pnpm.mjs",
            "--reporter=append-only",
            "--config.dangerouslyAllowAllBuilds=true",
            "dlx",
            "@deepseek-ai/dsh@latest",
            "web",
            "--port",
            "5000",
            "--no-open",
        ]
    );
}

#[test]
fn npx_runner_arguments() {
    let v = runner_arguments(true, "npx-cli.js", "alpha", &vec!["--version".to_string()]);
    assert_eq!(v, vec!["npx-cli.js", "-y", "@deepseek-ai/dsh@alpha", "--version"]);
}

#[test]
fn banner_names_runner_port_and_node() {
    assert_eq!(
        launch_banner(false, "latest", 8080, "/n/bin/node"),
        "$ pnpm dlx @deepseek-ai/dsh@latest web --port 8080 --no-open\n   (node: /n/bin/node)"
    );
    assert!(launch_banner(true, "next", 1, "x").starts_with("$ npx dlx @deepseek-ai/dsh@next"));
}

#[test]
fn environment_is_isolated() {
    let env = child_environment("/d", "/d/store", "/d/cache", "/d/dsh-home");
    assert_eq!(env.len(), 14);
    assert_eq!(env[0], ("PNPM_HOME".to_string(), "/d".to_string()));
    assert_eq!(env[6], ("DSH_HOME".to_string(), "/d/dsh-home".to_string()));
    assert_eq!(env[7], ("HOME".to_string(), "/d/dsh-home".to_string()));
    assert_eq!(env[8].1, "https://registry.npmmirror.com");
    assert_eq!(env[13], ("npm_config_fetch_timeout".to_string(), "120000".to_string()));
}

#[test]
fn subcommand_outcomes() {
    assert_eq!(command_outcome("out\n", "warn\n", true, "0"), Ok("out\nwarn\n".to_string()));
    assert_eq!(command_outcome(" boom \n", "", false, "exit status: 1"), Err("boom".to_string()));
    assert_eq!(
        command_outcome("  ", "\n", false, "exit status: 2"),
        Err("command exited with status exit status: 2".to_string())
    );
}

#[test]
fn version_is_trimmed() {
    assert_eq!(get_dsh_version(Ok("1.4.2\n".to_string())), Ok("1.4.2".to_string()));
    assert_eq!(get_dsh_version(Err("x".to_string())), Err("x".to_string()));
}

#[test]
fn plugin_package_names() {
    assert_eq!(plugin_package("  @acme/p \n"), Ok("@acme/p".to_string()));
    assert_eq!(plugin_package("   "), Err("package name is empty".to_string()));
}

#[test]
fn plugin_command_lines() {
    assert_eq!(plugin_arguments(PluginAction::List, ""), vec!["plugin", "--profile", "web", "list"]);
    assert_eq!(plugin_arguments(PluginAction::Install, "p"), vec!["plugin", "--profile", "web", "add", "p"]);
    assert_eq!(plugin_arguments(PluginAction::Remove, "p"), vec!["plugin", "--profile", "web", "remove", "p"]);
    assert_eq!(
        plugin_arguments(PluginAction::Update, "@s/p"),
        vec!["plugin", "--profile", "web", "add", "@s/p@latest"]
    );
}

#[test]
fn failed_install_is_cleaned_up() {
    assert_eq!(install_cleanup("p", &Ok("done".to_string())), None);
    assert_eq!(
        install_cleanup("p", &Err("network".to_string())),
        Some(vec!["plugin".to_string(), "--profile".to_string(), "web".to_string(), "remove".to_string(), "p".to_string()])
    );
}
