use dsh_desktop::paths::{
    bundled_node_dir, bundled_npx_path, data_layout, dsh_desktop_dir, npx_cli_path, pnpm_script_path, bundled_pnpm_path, dsh_home_path, import_target,
    is_skipped_in_export, node_binary_candidates, pick_node_binary, settings_path,
    strip_extended_length_path, zip_entry_name, FsPath,
};

fn path(prefix: &str, parts: &[&str]) -> FsPath {
    FsPath { prefix: prefix.to_string(), parts: parts.iter().map(|s| s.to_string()).collect() }
}

fn parts(p: &FsPath) -> Vec<&str> {
    p.parts.iter().map(|s| s.as_str()).collect()
}

#[test]
fn strips_extended_length_prefix_on_windows() {
    assert_eq!(strip_extended_length_path(r"\\?\C:\Program Files\dsh", true), r"C:\Program Files\dsh");
    assert_eq!(strip_extended_length_path(r"\\?\UNC\server\share\x", true), r"\\server\share\x");
    assert_eq!(strip_extended_length_path(r"C:\plain", true), r"C:\plain");
    assert_eq!(strip_extended_length_path(r"\\?\C:\x", false), r"\\?\C:\x");
    assert_eq!(strip_extended_length_path("/usr/lib", false), "/usr/lib");
}

#[test]
fn node_dist_root_on_unix_and_windows() {
    let unix = path("/", &["opt", "app", "node", "bin", "node"]);
    assert_eq!(parts(&bundled_node_dir(&unix)), vec!["opt", "app", "node"]);
    let win = path(r"C:\", &["app", "node", "node.exe"]);
    assert_eq!(parts(&bundled_node_dir(&win)), vec!["app", "node"]);
    let single = path("", &["node"]);
    assert_eq!(parts(&bundled_node_dir(&single)), Vec::<&str>::new());
}

#[test]
fn pnpm_and_npx_sit_beside_node() {
    let unix = path("/", &["r", "node", "bin", "node"]);
    assert_eq!(parts(&pnpm_script_path(&unix)), vec!["r", "node", "pnpm", "bin", "pnpm.mjs"]);
    assert_eq!(
        parts(&npx_cli_path(&unix)),
        vec!["r", "node", "lib", "node_modules", "npm", "bin", "npx-cli.js"]
    );
    assert_eq!(npx_cli_path(&unix).prefix, "/");
    let win = path(r"C:\", &["r", "node", "node.exe"]);
    assert_eq!(parts(&pnpm_script_path(&win)), vec!["r", "node", "pnpm", "bin", "pnpm.mjs"]);
    assert_eq!(
        parts(&npx_cli_path(&win)),
        vec!["r", "node", "node_modules", "npm", "bin", "npx-cli.js"]
    );
}

#[test]
fn runner_scripts_must_exist() {
    let unix = path("/", &["r", "node", "bin", "node"]);
    let p = bundled_pnpm_path(&unix, true, "/r/node/pnpm/bin/pnpm.mjs").unwrap();
    assert_eq!(parts(&p), vec!["r", "node", "pnpm", "bin", "pnpm.mjs"]);
    assert_eq!(
        bundled_pnpm_path(&unix, false, "/r/node/pnpm/bin/pnpm.mjs").unwrap_err(),
        "bundled pnpm not found at /r/node/pnpm/bin/pnpm.mjs"
    );
    let p = bundled_npx_path(&unix, true, "x").unwrap();
    assert_eq!(parts(&p)[2], "lib");
    assert_eq!(bundled_npx_path(&unix, false, "/n").unwrap_err(), "bundled npx not found at /n");
}

#[test]
fn node_candidates_in_order() {
    let res = path("/", &["res"]);
    let c = node_binary_candidates(&res, false);
    assert_eq!(parts(&c[0]), vec!["res", "node", "bin", "node"]);
    assert_eq!(parts(&c[1]), vec!["res", "resources", "node", "bin", "node"]);
    let c = node_binary_candidates(&res, true);
    assert_eq!(parts(&c[0]), vec!["res", "node", "node.exe"]);
    assert_eq!(parts(&c[1]), vec!["res", "resources", "node", "node.exe"]);
}

#[test]
fn picks_first_existing_node_or_lists_tried() {
    let tried = vec!["/a/node".to_string(), "/b/node".to_string()];
    assert_eq!(pick_node_binary(&tried, &vec![false, true]), Ok(1));
    assert_eq!(pick_node_binary(&tried, &vec![true, true]), Ok(0));
    assert_eq!(
        pick_node_binary(&tried, &vec![false, false]),
        Err("bundled node not found. Tried:\n  /a/node\n  /b/node".to_string())
    );
}

#[test]
fn data_directory_layout() {
    let data = path("/", &["home", "u", ".local", "share", "com.dsh.desktop"]);
    assert_eq!(
        parts(&dsh_home_path(&data)),
        vec!["home", "u", ".local", "share", "com.dsh.desktop", "dsh-desktop", "dsh-home"]
    );
    assert_eq!(parts(&settings_path(&data))[6], "settings.json");
}

#[test]
fn import_keeps_relative_entries_inside_home() {
    let home = path("/", &["h"]);
    let t = import_target(&home, &path("", &["sessions", "a.json"]), "sessions/a.json").unwrap();
    assert_eq!(parts(&t), vec!["h", "sessions", "a.json"]);
    let t = import_target(&home, &path("", &[".", "x"]), "./x").unwrap();
    assert_eq!(parts(&t), vec!["h", "x"]);
}

#[test]
fn import_refuses_absolute_entries_outside_home() {
    let home = path("/", &["h"]);
    assert_eq!(
        import_target(&home, &path("/", &["etc", "passwd"]), "/etc/passwd").unwrap_err(),
        "非法路径: /etc/passwd"
    );
    assert!(import_target(&home, &path("/", &["h", "ok"]), "/h/ok").is_ok());
}

#[test]
fn import_refuses_entries_that_climb_out() {
    let home = path("/", &["h"]);
    assert_eq!(
        import_target(&home, &path("", &["..", "evil.txt"]), "../evil.txt").unwrap_err(),
        "非法路径: ../evil.txt"
    );
    assert!(import_target(&home, &path("", &["a", "..", "..", "x"]), "a/../../x").is_err());
    assert!(import_target(&home, &path("/", &["h", "..", "x"]), "/h/../x").is_err());
    assert!(import_target(&home, &path("", &["a", ".", "..", "..", "x"]), "a/./../../x").is_err());
}

#[test]
fn import_keeps_entries_that_stay_inside_home() {
    let home = path("/", &["h"]);
    let t = import_target(&home, &path("", &["a", "..", "b"]), "a/../b").unwrap();
    assert_eq!(t.prefix, "/");
    assert_eq!(parts(&t), vec!["h", "a", "..", "b"]);
    let t = import_target(&home, &path("/", &["h", "a", "..", "c"]), "/h/a/../c").unwrap();
    assert_eq!(parts(&t), vec!["h", "a", "..", "c"]);
    assert!(import_target(&home, &path("", &["a", "b", "..", "..", "c"]), "a/b/../../c").is_ok());
}

#[test]
fn archive_names_use_forward_slashes() {
    assert_eq!(zip_entry_name(r"profiles\web\config.yml"), "profiles/web/config.yml");
    assert_eq!(zip_entry_name("a/b"), "a/b");
}

#[test]
fn dependency_trees_are_not_exported() {
    assert!(is_skipped_in_export("node_modules"));
    assert!(is_skipped_in_export(".pnpm"));
    assert!(!is_skipped_in_export("sessions"));
}

#[test]
fn launch_directories_inside_dsh_desktop() {
    let d = dsh_desktop_dir(&path("/", &["data"]));
    assert_eq!(parts(&d), vec!["data", "dsh-desktop"]);
    let l = data_layout(&d);
    assert_eq!(parts(&l.home), vec!["data", "dsh-desktop", "dsh-home"]);
    assert_eq!(parts(&l.store), vec!["data", "dsh-desktop", "store"]);
    assert_eq!(parts(&l.cache), vec!["data", "dsh-desktop", "cache"]);
}
