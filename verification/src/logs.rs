//! The DSH log stream: the replay buffer, plugin-failure detection in log
//! lines, and the reading of the installed-plugin list.
use vstd::prelude::*;
use crate::text::{
    chars_of, has_infix, has_infix_vec, has_prefix, has_prefix_vec, last_index_of, segment, trim,
    trim_end, trim_end_str, trimmed, views,
};
use crate::session::LaunchFlags;

verus! {

// ---- replay buffer ----

/// Most log lines kept for a late-arriving frontend.
pub const LOG_HISTORY_CAP: usize = 5000;

/// The lines that a buffer of capacity `LOG_HISTORY_CAP` keeps of `all`: the
/// most recent ones, in order.
pub open spec fn most_recent(all: Seq<Seq<char>>) -> Seq<Seq<char>> {
    if all.len() > LOG_HISTORY_CAP {
        all.skip(all.len() - LOG_HISTORY_CAP)
    } else {
        all
    }
}

/// Rolling buffer of log lines, so that a late-arriving frontend can replay
/// history.
pub struct LogHistory {
    lines: Vec<String>,
}

impl View for LogHistory {
    type V = Seq<Seq<char>>;

    closed spec fn view(&self) -> Seq<Seq<char>> {
        views(self.lines@)
    }
}

impl LogHistory {
    #[verifier::type_invariant]
    spec fn bounded(&self) -> bool {
        self.lines.len() <= LOG_HISTORY_CAP
    }

    /// An empty buffer.
    pub fn new() -> (h: LogHistory)
        ensures
            h@ == Seq::<Seq<char>>::empty(),
    {
        let h = LogHistory { lines: Vec::new() };
        assert(h@ =~= Seq::<Seq<char>>::empty());
        h
    }

    /// The number of buffered lines.
    pub fn len(&self) -> (n: usize)
        ensures
            n == self@.len(),
            n <= LOG_HISTORY_CAP,
    {
        proof {
            use_type_invariant(self);
        }
        self.lines.len()
    }

    /// Buffers a log line without its trailing whitespace, dropping the oldest
    /// line when the buffer is full. Returns the line as buffered.
    pub fn push(&mut self, line: &str) -> (kept: String)
        ensures
            kept@ == trim_end(line@),
            final(self)@ == most_recent(old(self)@.push(trim_end(line@))),
            final(self)@.len() <= LOG_HISTORY_CAP,
    {
        proof {
            use_type_invariant(&*self);
        }
        let line = trim_end_str(line);
        let mut lines: Vec<String> = Vec::new();
        std::mem::swap(&mut lines, &mut self.lines);
        let ghost before = views(lines@);
        lines.push(line.clone());
        assert(views(lines@) =~= before.push(line@));
        if lines.len() > LOG_HISTORY_CAP {
            lines.remove(0);
            assert(views(lines@) =~= before.push(line@).skip(1));
        }
        self.lines = lines;
        line
    }

    /// All buffered lines, oldest first.
    pub fn lines(&self) -> (v: Vec<String>)
        ensures
            views(v@) == self@,
    {
        let mut v: Vec<String> = Vec::new();
        let mut i: usize = 0;
        while i < self.lines.len()
            invariant
                i <= self.lines.len(),
                v@.len() == i,
                forall|j: int| 0 <= j < i ==> v@[j]@ == self.lines@[j]@,
            decreases self.lines.len() - i,
        {
            let line: String = self.lines[i].clone();
            v.push(line);
            i = i + 1;
        }
        assert(views(v@) =~= views(self.lines@));
        v
    }
}

/// All buffered log lines, oldest first (for replay by a late frontend).
pub fn get_log_history(history: &LogHistory) -> (v: Vec<String>)
    ensures
        views(v@) == history@,
{
    history.lines()
}

/// The buffer always holds the most recent lines of everything pushed: if it
/// held the most recent lines of `all` before a push of `line`, it holds the
/// most recent lines of `all` followed by `line` after it.
pub proof fn lemma_history_keeps_most_recent(all: Seq<Seq<char>>, line: Seq<char>)
    ensures
        most_recent(most_recent(all).push(line)) == most_recent(all.push(line)),
        most_recent(all.push(line)).last() == line,
        most_recent(all.push(line)).len() <= LOG_HISTORY_CAP,
{
    let h = most_recent(all);
    if all.len() > LOG_HISTORY_CAP {
        assert(most_recent(h.push(line)) =~= most_recent(all.push(line)));
    } else {
        assert(h == all);
    }
}

// ---- plugin failures in log lines ----

/// `str::to_lowercase`, Unicode's full lowercase mapping of each character.
pub uninterp spec fn lowercase(s: Seq<char>) -> Seq<char>;

/// Lowercases a string with `str::to_lowercase`; the result is named
/// `lowercase` of the input, and nothing more is stated of it.
#[verifier::external_body]
fn to_lowercase(s: &str) -> (r: String)
    ensures
        r@ == lowercase(s@),
{
    s.to_lowercase()
}

/// What a log line tells about the plugin environment.
#[derive(PartialEq, Eq, Structural, Clone, Copy, Debug)]
pub enum LineSignal {
    /// A package could not be resolved at all.
    PackageMissing,
    /// A plugin failed to load.
    PluginConflict,
    /// Neither.
    Quiet,
}

/// A lowercased line that reports a missing package.
pub open spec fn reports_missing(lower: Seq<char>) -> bool {
    ||| has_infix(lower, "err_module_not_found"@)
    ||| has_infix(lower, "cannot find package"@)
    ||| has_infix(lower, "cannot find module"@)
    ||| has_infix(lower, "package not found"@)
    ||| has_infix(lower, "enoent"@)
}

/// A lowercased line that reports a plugin-loading failure. The last marker
/// is matched as plain text.
pub open spec fn reports_conflict(lower: Seq<char>) -> bool {
    ||| has_infix(lower, "plugin tree failed to load"@)
    ||| has_infix(lower, "failed to apply loader entry"@)
    ||| has_infix(lower, "failed to import loader entry"@)
    ||| has_infix(lower, "does not provide an export named"@)
    ||| has_infix(lower, "plugin.*load failed"@)
}

/// The signal of a lowercased line: a missing package wins over a conflict.
pub open spec fn signal_of(lower: Seq<char>) -> LineSignal {
    if reports_missing(lower) {
        LineSignal::PackageMissing
    } else if reports_conflict(lower) {
        LineSignal::PluginConflict
    } else {
        LineSignal::Quiet
    }
}

/// The flags after a line with the given signal: flags are only ever raised.
pub open spec fn raised(flags: LaunchFlags, signal: LineSignal) -> LaunchFlags {
    match signal {
        LineSignal::PackageMissing => LaunchFlags { plugin_missing: true, ..flags },
        LineSignal::PluginConflict => LaunchFlags { plugin_conflict: true, ..flags },
        LineSignal::Quiet => flags,
    }
}

/// Classifies an already lowercased log line.
pub fn classify_lowered(lower: &str) -> (s: LineSignal)
    ensures
        s == signal_of(lower@),
        (has_infix(lower@, "err_module_not_found"@)
            || has_infix(lower@, "cannot find package"@)
            || has_infix(lower@, "cannot find module"@)
            || has_infix(lower@, "package not found"@)
            || has_infix(lower@, "enoent"@)) ==> s == LineSignal::PackageMissing,
        !(has_infix(lower@, "err_module_not_found"@)
            || has_infix(lower@, "cannot find package"@)
            || has_infix(lower@, "cannot find module"@)
            || has_infix(lower@, "package not found"@)
            || has_infix(lower@, "enoent"@)) && (has_infix(lower@, "plugin tree failed to load"@)
            || has_infix(lower@, "failed to apply loader entry"@)
            || has_infix(lower@, "failed to import loader entry"@)
            || has_infix(lower@, "does not provide an export named"@)
            || has_infix(lower@, "plugin.*load failed"@)) ==> s == LineSignal::PluginConflict,
        !(has_infix(lower@, "err_module_not_found"@)
            || has_infix(lower@, "cannot find package"@)
            || has_infix(lower@, "cannot find module"@)
            || has_infix(lower@, "package not found"@)
            || has_infix(lower@, "enoent"@)) && !(has_infix(lower@, "plugin tree failed to load"@)
            || has_infix(lower@, "failed to apply loader entry"@)
            || has_infix(lower@, "failed to import loader entry"@)
            || has_infix(lower@, "does not provide an export named"@)
            || has_infix(lower@, "plugin.*load failed"@)) ==> s == LineSignal::Quiet,
{
    proof {
        lemma_markers_decide_the_signal(lower@);
    }
    let v = chars_of(lower);
    if has_infix_vec(&v, &chars_of("err_module_not_found")) || has_infix_vec(
        &v,
        &chars_of("cannot find package"),
    ) || has_infix_vec(&v, &chars_of("cannot find module")) || has_infix_vec(
        &v,
        &chars_of("package not found"),
    ) || has_infix_vec(&v, &chars_of("enoent")) {
        return LineSignal::PackageMissing;
    }
    if has_infix_vec(&v, &chars_of("plugin tree failed to load")) || has_infix_vec(
        &v,
        &chars_of("failed to apply loader entry"),
    ) || has_infix_vec(&v, &chars_of("failed to import loader entry")) || has_infix_vec(
        &v,
        &chars_of("does not provide an export named"),
    ) || has_infix_vec(&v, &chars_of("plugin.*load failed")) {
        return LineSignal::PluginConflict;
    }
    LineSignal::Quiet
}

/// Raises the flag that a line's signal calls for.
pub fn raise_flag(flags: &mut LaunchFlags, signal: LineSignal)
    ensures
        *final(flags) == raised(*old(flags), signal),
{
    match signal {
        LineSignal::PackageMissing => flags.plugin_missing = true,
        LineSignal::PluginConflict => flags.plugin_conflict = true,
        LineSignal::Quiet => {},
    }
}

/// Detects plugin-loading trouble in one log line (compared in lowercase)
/// and raises the matching flag.
pub fn detect_plugin_conflict(flags: &mut LaunchFlags, line: &str)
    ensures
        *final(flags) == raised(*old(flags), signal_of(lowercase(line@))),
        (has_infix(lowercase(line@), "err_module_not_found"@)
            || has_infix(lowercase(line@), "cannot find package"@)
            || has_infix(lowercase(line@), "cannot find module"@)
            || has_infix(lowercase(line@), "package not found"@)
            || has_infix(lowercase(line@), "enoent"@)) ==> *final(flags) == (LaunchFlags { plugin_missing: true, ..*old(flags) }),
        !(has_infix(lowercase(line@), "err_module_not_found"@)
            || has_infix(lowercase(line@), "cannot find package"@)
            || has_infix(lowercase(line@), "cannot find module"@)
            || has_infix(lowercase(line@), "package not found"@)
            || has_infix(lowercase(line@), "enoent"@)) && (has_infix(lowercase(line@), "plugin tree failed to load"@)
            || has_infix(lowercase(line@), "failed to apply loader entry"@)
            || has_infix(lowercase(line@), "failed to import loader entry"@)
            || has_infix(lowercase(line@), "does not provide an export named"@)
            || has_infix(lowercase(line@), "plugin.*load failed"@)) ==> *final(flags) == (LaunchFlags {
            plugin_conflict: true,
            ..*old(flags)
        }),
        !(has_infix(lowercase(line@), "err_module_not_found"@)
            || has_infix(lowercase(line@), "cannot find package"@)
            || has_infix(lowercase(line@), "cannot find module"@)
            || has_infix(lowercase(line@), "package not found"@)
            || has_infix(lowercase(line@), "enoent"@)) && !(has_infix(lowercase(line@), "plugin tree failed to load"@)
            || has_infix(lowercase(line@), "failed to apply loader entry"@)
            || has_infix(lowercase(line@), "failed to import loader entry"@)
            || has_infix(lowercase(line@), "does not provide an export named"@)
            || has_infix(lowercase(line@), "plugin.*load failed"@)) ==> *final(flags) == *old(flags),
{
    proof {
        lemma_markers_decide_the_signal(lowercase(line@));
    }
    let lower = to_lowercase(line);
    let signal = classify_lowered(lower.as_str());
    raise_flag(flags, signal);
}

/// Detection never clears a flag, and a line reporting a missing package never
/// raises the conflict flag.
pub proof fn lemma_flags_only_rise(flags: LaunchFlags, lower: Seq<char>)
    ensures
        flags.plugin_missing ==> raised(flags, signal_of(lower)).plugin_missing,
        flags.plugin_conflict ==> raised(flags, signal_of(lower)).plugin_conflict,
        reports_missing(lower) ==> raised(flags, signal_of(lower)).plugin_conflict
            == flags.plugin_conflict,
{
}

// ---- the installed-plugin list ----

/// `s[a..b]` is a whole line of `s` (lines end at `'\n'`).
pub open spec fn is_line(s: Seq<char>, a: int, b: int) -> bool {
    &&& 0 <= a <= b <= s.len()
    &&& (a == 0 || s[a - 1] == '\n')
    &&& (b == s.len() || s[b] == '\n')
    &&& forall|k: int| a <= k < b ==> s[k] != '\n'
}

/// The list entry on a line of the tree that `plugin list` prints: the text
/// after a `├── ` or `└── ` branch, trimmed; empty on other lines.
pub open spec fn entry_text(line: Seq<char>) -> Seq<char> {
    let t = trim(line);
    if has_prefix(t, "├── "@) {
        trim(t.skip("├── "@.len() as int))
    } else if has_prefix(t, "└── "@) {
        trim(t.skip("└── "@.len() as int))
    } else {
        Seq::empty()
    }
}

pub open spec fn is_ascii_digit(c: char) -> bool {
    '0' <= c <= '9'
}

/// An entry `name@version` (the version after the last `@` starts with a
/// digit) whose name is outside the `@deepseek-ai/` scope.
pub open spec fn names_third_party(entry: Seq<char>) -> bool {
    exists|i: int|
        #![trigger entry[i]]
        0 <= i && i + 1 < entry.len() && entry[i] == '@' && (forall|k: int|
            i < k < entry.len() ==> entry[k] != '@') && is_ascii_digit(entry[i + 1])
            && !has_prefix(entry.take(i), "@deepseek-ai/"@)
}

/// Some line of `out` lists a third-party plugin.
pub open spec fn lists_third_party(out: Seq<char>) -> bool {
    exists|a: int, b: int| is_line(out, a, b) && names_third_party(entry_text(out.subrange(a, b)))
}

fn entry_of(line: &Vec<char>) -> (e: Vec<char>)
    ensures
        e@ == entry_text(line@),
{
    let t = trimmed(line);
    let first = chars_of("├── ");
    let last = chars_of("└── ");
    if has_prefix_vec(&t, &first) {
        let rest = segment(&t, first.len(), t.len());
        assert(rest@ == t@.skip(first.len() as int));
        trimmed(&rest)
    } else if has_prefix_vec(&t, &last) {
        let rest = segment(&t, last.len(), t.len());
        assert(rest@ == t@.skip(last.len() as int));
        trimmed(&rest)
    } else {
        Vec::new()
    }
}

fn names_third_party_vec(e: &Vec<char>) -> (b: bool)
    ensures
        b == names_third_party(e@),
{
    match last_index_of(e, '@') {
        None => false,
        Some(i) => {
            if i + 1 < e.len() && '0' <= e[i + 1] && e[i + 1] <= '9' {
                let name = segment(e, 0, i);
                assert(name@ == e@.take(i as int));
                let r = !has_prefix_vec(&name, &chars_of("@deepseek-ai/"));
                if r {
                    assert(e@[i as int] == '@');
                } else {
                    assert forall|j: int|
                        0 <= j && j + 1 < e@.len() && e@[j] == '@' && (forall|k: int|
                            j < k < e@.len() ==> e@[k] != '@') implies j == i by {
                        if j < i {
                            assert(e@[i as int] == '@');
                        }
                    }
                }
                r
            } else {
                assert forall|j: int|
                    0 <= j && j + 1 < e@.len() && e@[j] == '@' && (forall|k: int|
                        j < k < e@.len() ==> e@[k] != '@') implies j == i by {
                    if j < i {
                        assert(e@[i as int] == '@');
                    }
                }
                false
            }
        },
    }
}

/// The end of the line that starts at `a`.
fn line_end(v: &Vec<char>, a: usize) -> (b: usize)
    requires
        a <= v.len(),
    ensures
        a <= b <= v.len(),
        b == v.len() || v@[b as int] == '\n',
        forall|k: int| a <= k < b ==> v@[k] != '\n',
{
    let mut b = a;
    while b < v.len() && v[b] != '\n'
        invariant
            a <= b <= v.len(),
            forall|k: int| a <= k < b ==> v@[k] != '\n',
        decreases v.len() - b,
    {
        b = b + 1;
    }
    b
}

/// Whether the output of `plugin --profile web list` names a plugin outside
/// the `@deepseek-ai/` scope (system plugins all live there).
pub fn has_third_party_plugin(list_output: &str) -> (found: bool)
    ensures
        found == lists_third_party(list_output@),
{
    let v = chars_of(list_output);
    let mut a: usize = 0;
    loop
        invariant
            v@ == list_output@,
            a <= v.len(),
            a == 0 || v@[a - 1] == '\n',
            forall|a2: int, b2: int|
                is_line(v@, a2, b2) && a2 < a ==> !names_third_party(
                    entry_text(v@.subrange(a2, b2)),
                ),
        decreases v.len() - a,
    {
        let b = line_end(&v, a);
        let line = segment(&v, a, b);
        if names_third_party_vec(&entry_of(&line)) {
            assert(is_line(v@, a as int, b as int));
            return true;
        }
        assert forall|a2: int, b2: int| is_line(v@, a2, b2) && a2 <= b implies !names_third_party(
            entry_text(v@.subrange(a2, b2)),
        ) by {
            if a2 >= a {
                if a2 > a {
                    assert(v@[a2 - 1] != '\n');
                }
                if b2 < b {
                    assert(v@[b2] != '\n');
                }
                if b2 > b {
                    assert(v@[b as int] != '\n');
                }
            }
        }
        if b == v.len() {
            assert forall|a2: int, b2: int| is_line(v@, a2, b2) implies !names_third_party(
                entry_text(v@.subrange(a2, b2)),
            ) by {}
            return false;
        }
        a = b + 1;
    }
}

/// The plugin list printed as two parts joined by a line break lists a
/// third-party plugin exactly when one of the parts does.
pub proof fn lemma_third_party_of_joined_text(x: Seq<char>, y: Seq<char>)
    ensures
        lists_third_party(x + seq!['\n'] + y) == (lists_third_party(x) || lists_third_party(y)),
{
    let j: Seq<char> = x + seq!['\n'] + y;
    let n: int = x.len() as int;
    assert(j.len() == n + 1 + y.len());
    assert(j[n] == '\n');
    assert forall|k: int| 0 <= k < n implies j[k] == x[k] by {}
    assert forall|k: int| 0 <= k < y.len() implies j[n + 1 + k] == y[k] by {}
    if lists_third_party(x) {
        let (a, b): (int, int) = choose|a: int, b: int|
            is_line(x, a, b) && names_third_party(entry_text(x.subrange(a, b)));
        assert(j.subrange(a, b) =~= x.subrange(a, b));
        assert(is_line(j, a, b));
    }
    if lists_third_party(y) {
        let (a, b): (int, int) = choose|a: int, b: int|
            is_line(y, a, b) && names_third_party(entry_text(y.subrange(a, b)));
        assert(j.subrange(a + n + 1, b + n + 1) =~= y.subrange(a, b));
        assert forall|k: int| a + n + 1 <= k < b + n + 1 implies j[k] != '\n' by {
            assert(j[k] == y[k - n - 1]);
        }
        if a > 0 {
            assert(j[a + n] == y[a - 1]);
        }
        if b < y.len() {
            assert(j[b + n + 1] == y[b]);
        }
        assert(is_line(j, a + n + 1, b + n + 1));
    }
    if lists_third_party(j) {
        let (a, b): (int, int) = choose|a: int, b: int|
            is_line(j, a, b) && names_third_party(entry_text(j.subrange(a, b)));
        if b <= n {
            assert(x.subrange(a, b) =~= j.subrange(a, b));
            if b < n {
                assert(x[b] == j[b]);
            }
            if a > 0 {
                assert(x[a - 1] == j[a - 1]);
            }
            assert(is_line(x, a, b));
        } else {
            if a <= n {
                assert(j[n] == '\n');
                assert(false);
            }
            let a2: int = a - n - 1;
            let b2: int = b - n - 1;
            assert(y.subrange(a2, b2) =~= j.subrange(a, b));
            assert forall|k: int| a2 <= k < b2 implies y[k] != '\n' by {
                assert(j[k + n + 1] == y[k]);
            }
            if a2 > 0 {
                assert(y[a2 - 1] == j[a - 1]);
            }
            if b2 < y.len() {
                assert(y[b2] == j[b]);
            }
            assert(is_line(y, a2, b2));
        }
    }
}

/// How a lowercased log line is classified, by the markers it contains: any
/// missing-package marker makes it a missing package; otherwise any of the
/// five plugin-failure markers makes it a plugin conflict; a line with
/// neither kind of marker is quiet.
pub proof fn lemma_markers_decide_the_signal(lower: Seq<char>)
    ensures
        (has_infix(lower, "err_module_not_found"@)
            || has_infix(lower, "cannot find package"@)
            || has_infix(lower, "cannot find module"@)
            || has_infix(lower, "package not found"@)
            || has_infix(lower, "enoent"@)) ==> signal_of(lower) == LineSignal::PackageMissing,
        !(has_infix(lower, "err_module_not_found"@)
            || has_infix(lower, "cannot find package"@)
            || has_infix(lower, "cannot find module"@)
            || has_infix(lower, "package not found"@)
            || has_infix(lower, "enoent"@)) && (has_infix(lower, "plugin tree failed to load"@)
            || has_infix(lower, "failed to apply loader entry"@)
            || has_infix(lower, "failed to import loader entry"@)
            || has_infix(lower, "does not provide an export named"@)
            || has_infix(lower, "plugin.*load failed"@)) ==> signal_of(lower) == LineSignal::PluginConflict,
        !(has_infix(lower, "err_module_not_found"@)
            || has_infix(lower, "cannot find package"@)
            || has_infix(lower, "cannot find module"@)
            || has_infix(lower, "package not found"@)
            || has_infix(lower, "enoent"@)) && !(has_infix(lower, "plugin tree failed to load"@)
            || has_infix(lower, "failed to apply loader entry"@)
            || has_infix(lower, "failed to import loader entry"@)
            || has_infix(lower, "does not provide an export named"@)
            || has_infix(lower, "plugin.*load failed"@)) ==> signal_of(lower) == LineSignal::Quiet,
{
}

/// A log line whose lowercase holds a plugin-failure marker and no
/// missing-package marker raises the conflict flag and leaves the missing
/// flag as it was; one with a missing-package marker raises the missing flag
/// and leaves the conflict flag as it was.
pub proof fn lemma_marker_raises_its_flag(flags: LaunchFlags, lower: Seq<char>)
    ensures
        !(has_infix(lower, "err_module_not_found"@)
            || has_infix(lower, "cannot find package"@)
            || has_infix(lower, "cannot find module"@)
            || has_infix(lower, "package not found"@)
            || has_infix(lower, "enoent"@)) && (has_infix(lower, "plugin tree failed to load"@)
            || has_infix(lower, "failed to apply loader entry"@)
            || has_infix(lower, "failed to import loader entry"@)
            || has_infix(lower, "does not provide an export named"@)
            || has_infix(lower, "plugin.*load failed"@)) ==> raised(flags, signal_of(lower)) == (LaunchFlags {
            plugin_conflict: true,
            ..flags
        }),
        (has_infix(lower, "err_module_not_found"@)
            || has_infix(lower, "cannot find package"@)
            || has_infix(lower, "cannot find module"@)
            || has_infix(lower, "package not found"@)
            || has_infix(lower, "enoent"@)) ==> raised(flags, signal_of(lower)) == (LaunchFlags {
            plugin_missing: true,
            ..flags
        }),
{
    lemma_markers_decide_the_signal(lower);
}

} // verus!
