//! File-system paths of the bundled runtime and of the launcher's data
//! directory, as component lists.
//!
//! A path is its prefix (empty for a relative path; the root, or a Windows
//! drive or UNC prefix with its root, for an absolute one) and its components
//! in order, `.` and `..` included as they stand. `parent` drops the last
//! component; `file_name` is the last component unless it is `.` or `..`.
use vstd::prelude::*;
use crate::text::{
    chars_of, concat, has_prefix, has_prefix_vec, join, joined, owned, segment, str_eq,
    string_of, views,
};

verus! {

/// A path: prefix and components.
#[derive(Debug, Clone)]
pub struct FsPath {
    /// Empty for a relative path; `/`, `C:\` or `\\server\share\` for an
    /// absolute one.
    pub prefix: String,
    /// The components after the prefix, in order.
    pub parts: Vec<String>,
}

/// A path as character sequences.
pub struct PathView {
    pub prefix: Seq<char>,
    pub parts: Seq<Seq<char>>,
}

impl View for FsPath {
    type V = PathView;

    open spec fn view(&self) -> PathView {
        PathView { prefix: self.prefix@, parts: views(self.parts@) }
    }
}

/// `p` with the given components appended.
pub open spec fn pushed(p: PathView, more: Seq<Seq<char>>) -> PathView {
    PathView { prefix: p.prefix, parts: p.parts + more }
}

/// The parent of `p`, if it has one.
pub open spec fn parent(p: PathView) -> Option<PathView> {
    if p.parts.len() > 0 {
        Some(PathView { prefix: p.prefix, parts: p.parts.drop_last() })
    } else {
        None
    }
}

/// The file name of `p`, if it has one.
pub open spec fn file_name(p: PathView) -> Option<Seq<char>> {
    if p.parts.len() > 0 && p.parts.last() != "."@ && p.parts.last() != ".."@ {
        Some(p.parts.last())
    } else {
        None
    }
}

/// Copies a path.
pub fn copy_path(p: &FsPath) -> (r: FsPath)
    ensures
        r@ == p@,
{
    let mut parts: Vec<String> = Vec::new();
    let mut i: usize = 0;
    while i < p.parts.len()
        invariant
            i <= p.parts.len(),
            parts@.len() == i,
            forall|j: int| 0 <= j < i ==> parts@[j]@ == p.parts@[j]@,
        decreases p.parts.len() - i,
    {
        parts.push(p.parts[i].clone());
        i = i + 1;
    }
    let r = FsPath { prefix: p.prefix.clone(), parts };
    assert(r@.parts =~= p@.parts);
    r
}

/// `p` with the components `more` appended (`PathBuf::push` of each).
pub fn with_parts(p: &FsPath, more: &[&str]) -> (r: FsPath)
    ensures
        r@ == pushed(p@, more@.map_values(|s: &str| s@)),
{
    let mut r = copy_path(p);
    let mut i: usize = 0;
    while i < more.len()
        invariant
            i <= more.len(),
            r@ == pushed(p@, more@.map_values(|s: &str| s@).take(i as int)),
        decreases more.len() - i,
    {
        let ghost before = r@;
        r.parts.push(owned(more[i]));
        assert(r@.parts =~= before.parts.push(more@[i as int]@));
        assert(more@.map_values(|s: &str| s@).take(i + 1) =~= more@.map_values(|s: &str| s@).take(
            i as int,
        ).push(more@[i as int]@));
        i = i + 1;
    }
    assert(more@.map_values(|s: &str| s@).take(more.len() as int) == more@.map_values(
        |s: &str| s@,
    ));
    r
}

/// `p` without its last component.
fn drop_last_part(p: &FsPath) -> (r: FsPath)
    requires
        p.parts.len() > 0,
    ensures
        r@ == (PathView { prefix: p@.prefix, parts: p@.parts.drop_last() }),
{
    let mut r = copy_path(p);
    r.parts.pop();
    assert(r@.parts =~= p@.parts.drop_last());
    r
}

// ---- the bundled Node distribution ----

/// The node binary sits at `<dist>/bin/node` (the macOS and Linux layout)
/// rather than at `<dist>/node.exe` (the Windows layout). A path of one
/// component only counts as the Windows layout.
pub open spec fn unix_layout(node_path: PathView) -> bool {
    !(file_name(node_path) == Some("node.exe"@) || node_path.parts.len() < 2)
}

/// The Node distribution root for the bundled node binary: two levels up in
/// the `bin/node` layout, one level up otherwise.
pub open spec fn node_dist_root(node_path: PathView) -> PathView {
    if unix_layout(node_path) {
        PathView { prefix: node_path.prefix, parts: node_path.parts.take(node_path.parts.len() - 2) }
    } else {
        PathView { prefix: node_path.prefix, parts: node_path.parts.drop_last() }
    }
}

/// The bundled pnpm entry script: `<dist>/pnpm/bin/pnpm.mjs`.
pub open spec fn pnpm_script(node_path: PathView) -> PathView {
    pushed(node_dist_root(node_path), seq!["pnpm"@, "bin"@, "pnpm.mjs"@])
}

/// The bundled npx CLI: `<dist>/lib/node_modules/npm/bin/npx-cli.js` in the
/// `bin/node` layout, `<dist>/node_modules/npm/bin/npx-cli.js` in the Windows
/// layout.
pub open spec fn npx_cli(node_path: PathView) -> PathView {
    if unix_layout(node_path) {
        pushed(
            node_dist_root(node_path),
            seq!["lib"@, "node_modules"@, "npm"@, "bin"@, "npx-cli.js"@],
        )
    } else {
        pushed(node_dist_root(node_path), seq!["node_modules"@, "npm"@, "bin"@, "npx-cli.js"@])
    }
}

/// Whether the node binary sits in the `bin/node` layout.
pub fn is_unix_layout(node_path: &FsPath) -> (b: bool)
    requires
        node_path.parts.len() > 0,
    ensures
        b == unix_layout(node_path@),
{
    let n = node_path.parts.len();
    let last = node_path.parts[n - 1].as_str();
    let is_named_node_exe = !str_eq(last, ".") && !str_eq(last, "..") && str_eq(last, "node.exe");
    !(is_named_node_exe || n < 2)
}

/// The Node distribution root (which holds `pnpm/` and npm) of the bundled
/// node binary.
pub fn bundled_node_dir(node_path: &FsPath) -> (r: FsPath)
    requires
        node_path.parts.len() > 0,
    ensures
        r@ == node_dist_root(node_path@),
{
    let n = node_path.parts.len();
    if !is_unix_layout(node_path) {
        drop_last_part(node_path)
    } else {
        let parent = drop_last_part(node_path);
        assert(parent@.parts.len() == parent.parts@.len());
        let r = drop_last_part(&parent);
        assert(r@.parts =~= node_path@.parts.take(n - 2));
        r
    }
}

/// Where the bundled pnpm entry script should be.
pub fn pnpm_script_path(node_path: &FsPath) -> (r: FsPath)
    requires
        node_path.parts.len() > 0,
    ensures
        r@ == pnpm_script(node_path@),
{
    let dir = bundled_node_dir(node_path);
    let r = with_parts(&dir, &["pnpm", "bin", "pnpm.mjs"]);
    assert(r@.parts =~= pnpm_script(node_path@).parts);
    r
}

/// Where the bundled npx CLI should be.
pub fn npx_cli_path(node_path: &FsPath) -> (r: FsPath)
    requires
        node_path.parts.len() > 0,
    ensures
        r@ == npx_cli(node_path@),
{
    let dir = bundled_node_dir(node_path);
    if is_unix_layout(node_path) {
        let r = with_parts(&dir, &["lib", "node_modules", "npm", "bin", "npx-cli.js"]);
        assert(r@.parts =~= npx_cli(node_path@).parts);
        r
    } else {
        let r = with_parts(&dir, &["node_modules", "npm", "bin", "npx-cli.js"]);
        assert(r@.parts =~= npx_cli(node_path@).parts);
        r
    }
}

/// The views of a path result.
pub open spec fn path_result(r: Result<FsPath, String>) -> Result<PathView, Seq<char>> {
    match r {
        Ok(p) => Ok(p@),
        Err(e) => Err(e@),
    }
}

/// The bundled pnpm entry script, given whether a file exists at
/// `pnpm_script_path(node_path)` and how that path is displayed; an error
/// names the path when it does not exist.
pub fn bundled_pnpm_path(node_path: &FsPath, exists: bool, shown: &str) -> (r: Result<FsPath, String>)
    requires
        node_path.parts.len() > 0,
    ensures
        path_result(r) == (if exists {
            Ok(pnpm_script(node_path@))
        } else {
            Err("bundled pnpm not found at "@ + shown@)
        }),
{
    if exists {
        Ok(pnpm_script_path(node_path))
    } else {
        Err(concat("bundled pnpm not found at ", shown))
    }
}

/// The bundled npx CLI, given whether a file exists at
/// `npx_cli_path(node_path)` and how that path is displayed; an error names
/// the path when it does not exist.
pub fn bundled_npx_path(node_path: &FsPath, exists: bool, shown: &str) -> (r: Result<FsPath, String>)
    requires
        node_path.parts.len() > 0,
    ensures
        path_result(r) == (if exists {
            Ok(npx_cli(node_path@))
        } else {
            Err("bundled npx not found at "@ + shown@)
        }),
{
    if exists {
        Ok(npx_cli_path(node_path))
    } else {
        Err(concat("bundled npx not found at ", shown))
    }
}

/// The node binary below a Node distribution root.
pub open spec fn node_binary_parts(windows: bool) -> Seq<Seq<char>> {
    if windows {
        seq!["node.exe"@]
    } else {
        seq!["bin"@, "node"@]
    }
}

/// Where the bundled node binary may be, in the order tried: the packaged
/// layout `<resources>/node/...`, then the development layout
/// `<resources>/resources/node/...`.
pub fn node_binary_candidates(resource_dir: &FsPath, windows: bool) -> (v: Vec<FsPath>)
    ensures
        v@.len() == 2,
        v@[0]@ == pushed(resource_dir@, seq!["node"@] + node_binary_parts(windows)),
        v@[1]@ == pushed(resource_dir@, seq!["resources"@, "node"@] + node_binary_parts(windows)),
{
    let mut v: Vec<FsPath> = Vec::new();
    if windows {
        let a = with_parts(resource_dir, &["node", "node.exe"]);
        let b = with_parts(resource_dir, &["resources", "node", "node.exe"]);
        assert(a@.parts =~= pushed(resource_dir@, seq!["node"@] + node_binary_parts(windows)).parts);
        assert(b@.parts =~= pushed(
            resource_dir@,
            seq!["resources"@, "node"@] + node_binary_parts(windows),
        ).parts);
        v.push(a);
        v.push(b);
    } else {
        let a = with_parts(resource_dir, &["node", "bin", "node"]);
        let b = with_parts(resource_dir, &["resources", "node", "bin", "node"]);
        assert(a@.parts =~= pushed(resource_dir@, seq!["node"@] + node_binary_parts(windows)).parts);
        assert(b@.parts =~= pushed(
            resource_dir@,
            seq!["resources"@, "node"@] + node_binary_parts(windows),
        ).parts);
        v.push(a);
        v.push(b);
    }
    v
}

/// Picks the bundled node binary among the candidates, given how each one is
/// displayed and whether it exists.
pub fn pick_node_binary(tried: &Vec<String>, exists: &Vec<bool>) -> (r: Result<usize, String>)
    requires
        tried.len() == exists.len(),
    ensures
        match r {
            Ok(i) => i < exists.len() && exists@[i as int] && forall|k: int|
                0 <= k < i ==> !exists@[k],
            Err(msg) => (forall|k: int| 0 <= k < exists.len() ==> !exists@[k]) && msg@
                == "bundled node not found. Tried:\n  "@ + joined(views(tried@), "\n  "@),
        },
{
    let mut i: usize = 0;
    while i < exists.len()
        invariant
            i <= exists.len(),
            forall|k: int| 0 <= k < i ==> !exists@[k],
        decreases exists.len() - i,
    {
        if exists[i] {
            return Ok(i);
        }
        i = i + 1;
    }
    let list = join(tried, "\n  ");
    Err(concat("bundled node not found. Tried:\n  ", list.as_str()))
}

/// A path without the Windows extended-length prefix: `\\?\UNC\server\share`
/// becomes `\\server\share`, `\\?\C:\x` becomes `C:\x`; other paths, and every
/// path off Windows, stay as they are.
pub open spec fn without_extended_prefix(p: Seq<char>, windows: bool) -> Seq<char> {
    if windows && has_prefix(p, "\\\\?\\UNC\\"@) {
        "\\\\"@ + p.skip(8)
    } else if windows && has_prefix(p, "\\\\?\\"@) {
        p.skip(4)
    } else {
        p
    }
}

/// Strips the Windows extended-length prefix from a path, so that child
/// processes that do not tolerate it can be given the path.
pub fn strip_extended_length_path(p: &str, windows: bool) -> (r: String)
    ensures
        r@ == without_extended_prefix(p@, windows),
{
    if !windows {
        return owned(p);
    }
    let v = chars_of(p);
    let unc = chars_of("\\\\?\\UNC\\");
    let plain = chars_of("\\\\?\\");
    proof {
        reveal_strlit("\\\\?\\UNC\\");
        reveal_strlit("\\\\?\\");
    }
    if has_prefix_vec(&v, &unc) {
        let rest = segment(&v, 8, v.len());
        assert(rest@ == v@.skip(8));
        concat("\\\\", string_of(&rest).as_str())
    } else if has_prefix_vec(&v, &plain) {
        let rest = segment(&v, 4, v.len());
        assert(rest@ == v@.skip(4));
        string_of(&rest)
    } else {
        owned(p)
    }
}

// ---- the data directory ----

/// `<data>/dsh-desktop`: the launcher's own data directory.
pub fn dsh_desktop_dir(data_dir: &FsPath) -> (r: FsPath)
    ensures
        r@ == pushed(data_dir@, seq!["dsh-desktop"@]),
{
    let r = with_parts(data_dir, &["dsh-desktop"]);
    assert(r@.parts =~= pushed(data_dir@, seq!["dsh-desktop"@]).parts);
    r
}

/// The directories inside `dsh-desktop` that a launch needs.
pub struct DataLayout {
    /// `dsh-home`: the isolated DSH home.
    pub home: FsPath,
    /// `store`: pnpm's content-addressable store.
    pub store: FsPath,
    /// `cache`: pnpm's download cache.
    pub cache: FsPath,
}

/// The directories inside a `dsh-desktop` directory, created before every
/// launch and subcommand.
pub fn data_layout(dsh_dir: &FsPath) -> (l: DataLayout)
    ensures
        l.home@ == pushed(dsh_dir@, seq!["dsh-home"@]),
        l.store@ == pushed(dsh_dir@, seq!["store"@]),
        l.cache@ == pushed(dsh_dir@, seq!["cache"@]),
{
    let home = with_parts(dsh_dir, &["dsh-home"]);
    let store = with_parts(dsh_dir, &["store"]);
    let cache = with_parts(dsh_dir, &["cache"]);
    assert(home@.parts =~= pushed(dsh_dir@, seq!["dsh-home"@]).parts);
    assert(store@.parts =~= pushed(dsh_dir@, seq!["store"@]).parts);
    assert(cache@.parts =~= pushed(dsh_dir@, seq!["cache"@]).parts);
    DataLayout { home, store, cache }
}

/// `<data>/dsh-desktop/dsh-home`: the isolated DSH home (config, plugins,
/// sessions).
pub fn dsh_home_path(data_dir: &FsPath) -> (r: FsPath)
    ensures
        r@ == pushed(data_dir@, seq!["dsh-desktop"@, "dsh-home"@]),
{
    let r = with_parts(data_dir, &["dsh-desktop", "dsh-home"]);
    assert(r@.parts =~= pushed(data_dir@, seq!["dsh-desktop"@, "dsh-home"@]).parts);
    r
}

/// `<data>/dsh-desktop/settings.json`.
pub fn settings_path(data_dir: &FsPath) -> (r: FsPath)
    ensures
        r@ == pushed(data_dir@, seq!["dsh-desktop"@, "settings.json"@]),
{
    let r = with_parts(data_dir, &["dsh-desktop", "settings.json"]);
    assert(r@.parts =~= pushed(data_dir@, seq!["dsh-desktop"@, "settings.json"@]).parts);
    r
}

// ---- configuration archives ----

/// `p` begins with `base`, component by component.
pub open spec fn starts_with_path(p: PathView, base: PathView) -> bool {
    p.prefix == base.prefix && base.parts.len() <= p.parts.len() && p.parts.take(
        base.parts.len() as int,
    ) == base.parts
}

/// Where an archive entry lands below `home`: an absolute entry replaces
/// `home` (as `Path::join` does), a relative one is appended to it (a leading
/// `.` component disappears).
pub open spec fn joined_entry(home: PathView, entry: PathView) -> PathView {
    if entry.prefix.len() > 0 {
        entry
    } else if entry.parts.len() > 0 && entry.parts[0] == "."@ {
        pushed(home, entry.parts.drop_first())
    } else {
        pushed(home, entry.parts)
    }
}

fn same_parts_prefix(p: &FsPath, base: &FsPath) -> (b: bool)
    ensures
        b == (base@.parts.len() <= p@.parts.len() && p@.parts.take(base@.parts.len() as int)
            == base@.parts),
{
    if base.parts.len() > p.parts.len() {
        return false;
    }
    let mut i: usize = 0;
    while i < base.parts.len()
        invariant
            base.parts.len() <= p.parts.len(),
            i <= base.parts.len(),
            forall|k: int| 0 <= k < i ==> p@.parts[k] == base@.parts[k],
        decreases base.parts.len() - i,
    {
        if !str_eq(p.parts[i].as_str(), base.parts[i].as_str()) {
            assert(p@.parts.take(base@.parts.len() as int)[i as int] != base@.parts[i as int]);
            return false;
        }
        i = i + 1;
    }
    assert(p@.parts.take(base@.parts.len() as int) =~= base@.parts);
    true
}

/// How many levels below its start a walk through path components ends: a
/// `..` goes one level up, a `.` stays, any other component one level down.
pub open spec fn level(parts: Seq<Seq<char>>) -> int
    decreases parts.len(),
{
    if parts.len() == 0 {
        0
    } else {
        level(parts.drop_last()) + (if parts.last() == ".."@ {
            -1int
        } else if parts.last() == "."@ {
            0int
        } else {
            1int
        })
    }
}

/// A walk through `parts` never climbs above the directory it starts in.
pub open spec fn stays_below(parts: Seq<Seq<char>>) -> bool {
    forall|i: int| 0 <= i <= parts.len() ==> level(#[trigger] parts.take(i)) >= 0
}

/// An archive entry may be extracted into `home`: joined to `home` it begins
/// with `home`, and past `home` its components never climb above it (so
/// `a/../b` lands in `home/b`, while `../x` or `a/../../x` would leave it).
pub open spec fn entry_allowed(home: PathView, entry: PathView) -> bool {
    let p = joined_entry(home, entry);
    starts_with_path(p, home) && stays_below(p.parts.skip(home.parts.len() as int))
}

fn stays_below_from(p: &FsPath, start: usize) -> (b: bool)
    requires
        start <= p.parts.len(),
    ensures
        b == stays_below(p@.parts.skip(start as int)),
{
    let ghost ps = p@.parts;
    let mut depth: usize = 0;
    let mut i: usize = start;
    assert(ps.subrange(start as int, start as int) =~= Seq::<Seq<char>>::empty());
    while i < p.parts.len()
        invariant
            start <= i <= p.parts.len(),
            ps == p@.parts,
            depth <= i - start,
            depth == level(ps.subrange(start as int, i as int)),
            forall|k: int| start <= k <= i ==> level(#[trigger] ps.subrange(start as int, k)) >= 0,
        decreases p.parts.len() - i,
    {
        let ghost next = ps.subrange(start as int, i + 1);
        assert(next.drop_last() =~= ps.subrange(start as int, i as int));
        assert(next.last() == ps[i as int]);
        if str_eq(p.parts[i].as_str(), "..") {
            if depth == 0 {
                assert(level(next) == -1);
                assert(ps.skip(start as int).take(i + 1 - start) =~= next);
                return false;
            }
            depth = depth - 1;
        } else if !str_eq(p.parts[i].as_str(), ".") {
            depth = depth + 1;
        }
        i = i + 1;
    }
    assert forall|j: int| 0 <= j <= ps.skip(start as int).len() implies level(
        #[trigger] ps.skip(start as int).take(j),
    ) >= 0 by {
        assert(ps.skip(start as int).take(j) =~= ps.subrange(start as int, start + j));
    }
    true
}

/// The destination of an archive entry when a configuration is imported into
/// `home`; refused, with the entry's name in the message, when it would land
/// outside `home` (path traversal).
pub fn import_target(home: &FsPath, entry: &FsPath, name: &str) -> (r: Result<FsPath, String>)
    ensures
        match r {
            Ok(p) => entry_allowed(home@, entry@) && p@ == joined_entry(home@, entry@),
            Err(msg) => !entry_allowed(home@, entry@) && msg@ == "非法路径: "@ + name@,
        },
{
    let target = if chars_of(entry.prefix.as_str()).len() > 0 {
        copy_path(entry)
    } else {
        let mut t = copy_path(home);
        let mut i: usize = 0;
        if entry.parts.len() > 0 && str_eq(entry.parts[0].as_str(), ".") {
            i = 1;
        }
        let ghost start = i;
        let ghost base = t@;
        while i < entry.parts.len()
            invariant
                start <= i <= entry.parts.len(),
                start == 0 || start == 1,
                t@ == pushed(base, entry@.parts.subrange(start as int, i as int)),
            decreases entry.parts.len() - i,
        {
            let ghost before = t@;
            t.parts.push(entry.parts[i].clone());
            assert(t@.parts =~= before.parts.push(entry@.parts[i as int]));
            assert(entry@.parts.subrange(start as int, i + 1) =~= entry@.parts.subrange(
                start as int,
                i as int,
            ).push(entry@.parts[i as int]));
            i = i + 1;
        }
        assert(entry@.parts.subrange(0, entry.parts.len() as int) =~= entry@.parts);
        assert(entry@.parts.subrange(1, entry.parts.len() as int) =~= entry@.parts.drop_first());
        t
    };
    if str_eq(target.prefix.as_str(), home.prefix.as_str()) && same_parts_prefix(&target, home)
        && stays_below_from(&target, home.parts.len()) {
        Ok(target)
    } else {
        Err(concat("非法路径: ", name))
    }
}

/// An archive entry name: the relative path with every `\` turned into `/`.
pub open spec fn entry_name(rel: Seq<char>) -> Seq<char> {
    rel.map_values(|c: char| if c == '\\' { '/' } else { c })
}

/// The archive entry name for a file, from its path relative to the DSH home.
pub fn zip_entry_name(rel: &str) -> (r: String)
    ensures
        r@ == entry_name(rel@),
{
    let v = chars_of(rel);
    let mut w: Vec<char> = Vec::new();
    let mut i: usize = 0;
    while i < v.len()
        invariant
            i <= v.len(),
            v@ == rel@,
            w@ == entry_name(v@.take(i as int)),
        decreases v.len() - i,
    {
        let c = if v[i] == '\\' {
            '/'
        } else {
            v[i]
        };
        w.push(c);
        assert(entry_name(v@.take(i + 1)) =~= entry_name(v@.take(i as int)).push(c));
        i = i + 1;
    }
    assert(v@.take(v.len() as int) == v@);
    string_of(&w)
}

/// Directory entries left out of an exported archive: dependency trees,
/// which pnpm can rebuild.
pub open spec fn skipped_in_export(name: Seq<char>) -> bool {
    name == "node_modules"@ || name == ".pnpm"@
}

/// Whether a directory entry is left out of an exported archive.
pub fn is_skipped_in_export(name: &str) -> (b: bool)
    ensures
        b == skipped_in_export(name@),
{
    str_eq(name, "node_modules") || str_eq(name, ".pnpm")
}

} // verus!
