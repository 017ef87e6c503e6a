//! Clearing the DSH cache.
//!
//! Both modes preserve user data (sessions, credentials, settings, storages,
//! attachments): `deps` removes only dependency caches (the profile's
//! `node_modules`, the pnpm store, the download cache and pnpm's dlx cache);
//! `all` also removes the whole `profiles/web` profile (plugins and their
//! configuration) and the shared `profiles/node_modules`. Paths are relative
//! to the launcher's `dsh-desktop` data directory.
use vstd::prelude::*;
use crate::text::{concat, concat3, has_infix, join, joined, owned, str_eq, trim, trim_str, views, chars_of, contains};

verus! {

/// How much to clear.
#[derive(PartialEq, Eq, Structural, Clone, Copy, Debug)]
pub enum ClearMode {
    /// Dependency caches only.
    Deps,
    /// Dependency caches and the plugin profile.
    All,
}

/// Reads the requested mode (surrounding whitespace ignored).
pub fn parse_clear_mode(mode: &str) -> (r: Result<ClearMode, String>)
    ensures
        match r {
            Ok(ClearMode::Deps) => trim(mode@) == "deps"@,
            Ok(ClearMode::All) => trim(mode@) == "all"@,
            Err(e) => trim(mode@) != "deps"@ && trim(mode@) != "all"@ && e@
                == "mode must be \"deps\" or \"all\""@,
        },
{
    let m = trim_str(mode);
    if str_eq(m.as_str(), "deps") {
        Ok(ClearMode::Deps)
    } else if str_eq(m.as_str(), "all") {
        Ok(ClearMode::All)
    } else {
        Err(owned("mode must be \"deps\" or \"all\""))
    }
}

/// One step of clearing, in order.
pub enum ClearStep {
    /// Remove a directory tree, recording the outcome under the label.
    Remove { parts: Vec<String>, label: String },
    /// Remove the (large) pnpm store with retries and a rename fallback.
    RemoveStore { parts: Vec<String>, label: String },
    /// Report progress.
    Progress { pct: u32, label: String },
}

/// A clearing step as character sequences.
pub enum StepView {
    Remove { parts: Seq<Seq<char>>, label: Seq<char> },
    RemoveStore { parts: Seq<Seq<char>>, label: Seq<char> },
    Progress { pct: u32, label: Seq<char> },
}

impl View for ClearStep {
    type V = StepView;

    open spec fn view(&self) -> StepView {
        match self {
            ClearStep::Remove { parts, label } => StepView::Remove { parts: views(parts@), label: label@ },
            ClearStep::RemoveStore { parts, label } => StepView::RemoveStore {
                parts: views(parts@),
                label: label@,
            },
            ClearStep::Progress { pct, label } => StepView::Progress { pct: *pct, label: label@ },
        }
    }
}

/// The views of a list of steps.
pub open spec fn step_views(v: Seq<ClearStep>) -> Seq<StepView> {
    v.map_values(|s: ClearStep| s@)
}

/// The steps of clearing in a mode, once DSH has been stopped.
pub open spec fn plan(mode: ClearMode) -> Seq<StepView> {
    let profile_steps = match mode {
        ClearMode::All => seq![
            StepView::Remove {
                parts: seq!["dsh-home"@, "profiles"@, "web"@],
                label: "插件环境 (profiles/web)"@,
            },
            StepView::Remove {
                parts: seq!["dsh-home"@, "profiles"@, "node_modules"@],
                label: "共享模块目录 (profiles/node_modules)"@,
            },
        ],
        ClearMode::Deps => seq![
            StepView::Remove {
                parts: seq!["dsh-home"@, "profiles"@, "web"@, "node_modules"@],
                label: "插件依赖 (node_modules)"@,
            },
        ],
    };
    profile_steps + seq![
        StepView::Progress { pct: 30, label: "正在删除依赖缓存(文件较多,请耐心)…"@ },
        StepView::RemoveStore { parts: seq!["store"@], label: "pnpm 依赖缓存 (store)"@ },
        StepView::Progress { pct: 60, label: "已清除 pnpm 依赖缓存…"@ },
        StepView::Remove { parts: seq!["cache"@], label: "下载缓存 (cache)"@ },
        StepView::Progress { pct: 75, label: "已清除下载缓存…"@ },
        StepView::Remove { parts: seq!["pnpm"@], label: "pnpm dlx 缓存"@ },
        StepView::Progress { pct: 85, label: "已清除 dlx 缓存…"@ },
    ]
}

fn strings(items: &[&str]) -> (v: Vec<String>)
    ensures
        views(v@) == items@.map_values(|s: &str| s@),
{
    let mut v: Vec<String> = Vec::new();
    let mut i: usize = 0;
    while i < items.len()
        invariant
            i <= items.len(),
            v@.len() == i,
            forall|j: int| 0 <= j < i ==> v@[j]@ == items@[j]@,
        decreases items.len() - i,
    {
        v.push(owned(items[i]));
        i = i + 1;
    }
    assert(views(v@) =~= items@.map_values(|s: &str| s@));
    v
}

fn push_step(v: &mut Vec<ClearStep>, s: ClearStep)
    ensures
        step_views(final(v)@) == step_views(old(v)@).push(s@),
{
    v.push(s);
    assert(step_views(v@) =~= step_views(old(v)@).push(s@));
}

/// The steps of clearing in a mode, once DSH has been stopped.
pub fn clear_plan(mode: ClearMode) -> (v: Vec<ClearStep>)
    ensures
        step_views(v@) == plan(mode),
        removes_dir(step_views(v@), seq!["store"@], true),
        removes_dir(step_views(v@), seq!["cache"@], false),
        removes_dir(step_views(v@), seq!["pnpm"@], false),
{
    proof {
        lemma_both_modes_clear_shared_caches(mode);
    }
    let mut v: Vec<ClearStep> = Vec::new();
    match mode {
        ClearMode::All => {
            let a = strings(&["dsh-home", "profiles", "web"]);
            assert(views(a@) =~= seq!["dsh-home"@, "profiles"@, "web"@]);
            push_step(&mut v, ClearStep::Remove { parts: a, label: owned("插件环境 (profiles/web)") });
            let b = strings(&["dsh-home", "profiles", "node_modules"]);
            assert(views(b@) =~= seq!["dsh-home"@, "profiles"@, "node_modules"@]);
            push_step(&mut v, ClearStep::Remove { parts: b, label: owned("共享模块目录 (profiles/node_modules)") });
        },
        ClearMode::Deps => {
            let a = strings(&["dsh-home", "profiles", "web", "node_modules"]);
            assert(views(a@) =~= seq!["dsh-home"@, "profiles"@, "web"@, "node_modules"@]);
            push_step(&mut v, ClearStep::Remove { parts: a, label: owned("插件依赖 (node_modules)") });
        },
    }
    push_step(&mut v, ClearStep::Progress { pct: 30, label: owned("正在删除依赖缓存(文件较多,请耐心)…") });
    let s = strings(&["store"]);
    assert(views(s@) =~= seq!["store"@]);
    push_step(&mut v, ClearStep::RemoveStore { parts: s, label: owned("pnpm 依赖缓存 (store)") });
    push_step(&mut v, ClearStep::Progress { pct: 60, label: owned("已清除 pnpm 依赖缓存…") });
    let c = strings(&["cache"]);
    assert(views(c@) =~= seq!["cache"@]);
    push_step(&mut v, ClearStep::Remove { parts: c, label: owned("下载缓存 (cache)") });
    push_step(&mut v, ClearStep::Progress { pct: 75, label: owned("已清除下载缓存…") });
    let d = strings(&["pnpm"]);
    assert(views(d@) =~= seq!["pnpm"@]);
    push_step(&mut v, ClearStep::Remove { parts: d, label: owned("pnpm dlx 缓存") });
    push_step(&mut v, ClearStep::Progress { pct: 85, label: owned("已清除 dlx 缓存…") });
    assert(step_views(v@) =~= plan(mode));
    v
}

/// The directories a step removes, if any.
pub open spec fn removes(s: StepView) -> Option<Seq<Seq<char>>> {
    match s {
        StepView::Remove { parts, .. } => Some(parts),
        StepView::RemoveStore { parts, .. } => Some(parts),
        StepView::Progress { .. } => None,
    }
}

/// `p` lies inside the directory `dir` (or is it).
pub open spec fn inside(p: Seq<Seq<char>>, dir: Seq<Seq<char>>) -> bool {
    dir.len() <= p.len() && p.take(dir.len() as int) == dir
}

/// User data is preserved in both modes: inside the DSH home, only the
/// plugin profiles are touched; and `deps` keeps the plugin profile itself,
/// removing only its `node_modules`.
pub proof fn lemma_clearing_preserves_user_data(mode: ClearMode, i: int)
    requires
        0 <= i < plan(mode).len(),
        removes(plan(mode)[i]) is Some,
    ensures
        inside(removes(plan(mode)[i])->0, seq!["dsh-home"@]) ==> inside(
            removes(plan(mode)[i])->0,
            seq!["dsh-home"@, "profiles"@],
        ),
        mode == ClearMode::Deps && inside(
            removes(plan(mode)[i])->0,
            seq!["dsh-home"@, "profiles"@, "web"@],
        ) ==> inside(removes(plan(mode)[i])->0, seq!["dsh-home"@, "profiles"@, "web"@, "node_modules"@]),
{
    reveal_strlit("dsh-home");
    reveal_strlit("store");
    reveal_strlit("cache");
    reveal_strlit("pnpm");
    let p = removes(plan(mode)[i])->0;
    if i == 0 || (i == 1 && mode == ClearMode::All) {
        assert(p.take(2) =~= seq!["dsh-home"@, "profiles"@]);
        if mode == ClearMode::Deps {
            assert(p.take(4) =~= seq!["dsh-home"@, "profiles"@, "web"@, "node_modules"@]);
        }
    } else {
        assert(p == seq!["store"@] || p == seq!["cache"@] || p == seq!["pnpm"@]);
        assert("dsh-home"@.len() == 8);
        assert(p[0].len() < 8);
        assert(p.take(1)[0] == p[0]);
    }
}

/// Some step of the plan removes the directory `parts`; `store` says whether
/// that is the store removal, with its retries and rename fallback.
pub open spec fn removes_dir(steps: Seq<StepView>, parts: Seq<Seq<char>>, store: bool) -> bool {
    exists|i: int|
        0 <= i < steps.len() && match #[trigger] steps[i] {
            StepView::Remove { parts: p, .. } => !store && p == parts,
            StepView::RemoveStore { parts: p, .. } => store && p == parts,
            StepView::Progress { .. } => false,
        }
}

/// Both modes clear the pnpm store (as the store removal), the download
/// cache and the `pnpm dlx` cache; the two plans differ only in the profile
/// steps at their start: `all` removes the plugin profile and the shared
/// modules, `deps` only the profile's dependencies.
pub proof fn lemma_both_modes_clear_shared_caches(mode: ClearMode)
    ensures
        removes_dir(plan(mode), seq!["store"@], true),
        removes_dir(plan(mode), seq!["cache"@], false),
        removes_dir(plan(mode), seq!["pnpm"@], false),
        plan(ClearMode::All).skip(2) == plan(ClearMode::Deps).skip(1),
        plan(ClearMode::All).take(2) == seq![
            StepView::Remove {
                parts: seq!["dsh-home"@, "profiles"@, "web"@],
                label: "插件环境 (profiles/web)"@,
            },
            StepView::Remove {
                parts: seq!["dsh-home"@, "profiles"@, "node_modules"@],
                label: "共享模块目录 (profiles/node_modules)"@,
            },
        ],
        plan(ClearMode::Deps).take(1) == seq![
            StepView::Remove {
                parts: seq!["dsh-home"@, "profiles"@, "web"@, "node_modules"@],
                label: "插件依赖 (node_modules)"@,
            },
        ],
{
    let k: int = match mode {
        ClearMode::All => 2,
        ClearMode::Deps => 1,
    };
    let steps = plan(mode);
    assert(steps[k + 1] is RemoveStore);
    assert(steps[k + 3] is Remove);
    assert(steps[k + 5] is Remove);
    assert(plan(ClearMode::All).skip(2) =~= plan(ClearMode::Deps).skip(1));
    assert(plan(ClearMode::All).take(2) =~= seq![
        StepView::Remove {
            parts: seq!["dsh-home"@, "profiles"@, "web"@],
            label: "插件环境 (profiles/web)"@,
        },
        StepView::Remove {
            parts: seq!["dsh-home"@, "profiles"@, "node_modules"@],
            label: "共享模块目录 (profiles/node_modules)"@,
        },
    ]);
    assert(plan(ClearMode::Deps).take(1) =~= seq![
        StepView::Remove {
            parts: seq!["dsh-home"@, "profiles"@, "web"@, "node_modules"@],
            label: "插件依赖 (node_modules)"@,
        },
    ]);
}

// ---- outcomes ----

/// What removing one directory came to.
pub enum RemovalOutcome {
    /// It did not exist.
    Missing,
    /// It was removed.
    Removed,
    /// Removal failed with this error.
    Failed(String),
}

/// What removing the store came to.
pub enum StoreRemoval {
    /// It did not exist.
    Missing,
    /// It was removed, directly or after a rename.
    Removed,
    /// It was renamed to this path (as debug-printed) but could not be removed.
    RenamedNotRemoved(String),
    /// It could be neither removed nor renamed.
    Failed,
}

/// How many attempts at removing a directory tree have been made when the
/// `attempt`-th (from 0) failed, and whether to try again: three attempts in all.
pub fn retry_after_failure(attempt: u32) -> (again: bool)
    ensures
        again == (attempt < 2),
{
    attempt < 2
}

/// The report line of a store removal.
pub open spec fn store_report(label: Seq<char>, outcome: StoreRemoval) -> Seq<char> {
    match outcome {
        StoreRemoval::Missing => label + "(不存在)"@,
        StoreRemoval::Removed => label,
        StoreRemoval::RenamedNotRemoved(tmp) => label + ": 删除 "@ + tmp@ + " 失败"@,
        StoreRemoval::Failed => label + ": 删除失败"@,
    }
}

/// The report line of a store removal.
pub fn fast_removal_report(label: &str, outcome: StoreRemoval) -> (s: String)
    ensures
        s@ == store_report(label@, outcome),
{
    match outcome {
        StoreRemoval::Missing => concat(label, "(不存在)"),
        StoreRemoval::Removed => owned(label),
        StoreRemoval::RenamedNotRemoved(tmp) => {
            let mut s = concat3(label, ": 删除 ", tmp.as_str());
            crate::text::append(&mut s, " 失败");
            s
        },
        StoreRemoval::Failed => concat(label, ": 删除失败"),
    }
}

/// The removals made so far, and the ones that failed.
pub struct ClearReport {
    pub removed: Vec<String>,
    pub failed: Vec<String>,
}

/// The outcome of clearing: an error listing the failures, one per line,
/// when anything failed.
pub open spec fn clear_result(failed: Seq<Seq<char>>) -> Result<(), Seq<char>> {
    if failed.len() == 0 {
        Ok(())
    } else {
        Err("部分清除失败:\n"@ + joined(failed, "\n"@))
    }
}

impl ClearReport {
    /// Nothing recorded yet.
    pub fn new() -> (r: ClearReport)
        ensures
            r.removed@.len() == 0,
            r.failed@.len() == 0,
    {
        ClearReport { removed: Vec::new(), failed: Vec::new() }
    }

    /// Records the outcome of removing one directory under its label.
    pub fn record_removal(&mut self, label: &str, outcome: RemovalOutcome)
        ensures
            match outcome {
                RemovalOutcome::Missing => views(final(self).removed@) == views(old(self).removed@).push(
                    label@ + "(不存在)"@,
                ) && final(self).failed@ == old(self).failed@,
                RemovalOutcome::Removed => views(final(self).removed@) == views(old(self).removed@).push(
                    label@,
                ) && final(self).failed@ == old(self).failed@,
                RemovalOutcome::Failed(e) => views(final(self).failed@) == views(old(self).failed@).push(
                    label@ + ": "@ + e@,
                ) && final(self).removed@ == old(self).removed@,
            },
    {
        let ghost removed0 = self.removed@;
        let ghost failed0 = self.failed@;
        match outcome {
            RemovalOutcome::Missing => {
                self.removed.push(concat(label, "(不存在)"));
                assert(views(self.removed@) =~= views(removed0).push(label@ + "(不存在)"@));
            },
            RemovalOutcome::Removed => {
                self.removed.push(owned(label));
                assert(views(self.removed@) =~= views(removed0).push(label@));
            },
            RemovalOutcome::Failed(e) => {
                self.failed.push(concat3(label, ": ", e.as_str()));
                assert(views(self.failed@) =~= views(failed0).push(label@ + ": "@ + e@));
            },
        }
    }

    /// Records the report line of the store removal: a failure when it says
    /// so, a removal otherwise (unless it is empty).
    pub fn record_store(&mut self, report: String)
        ensures
            has_infix(report@, "失败"@) ==> views(final(self).failed@) == views(old(self).failed@).push(
                report@,
            ) && final(self).removed@ == old(self).removed@,
            !has_infix(report@, "失败"@) && report@.len() > 0 ==> views(final(self).removed@) == views(
                old(self).removed@,
            ).push(report@) && final(self).failed@ == old(self).failed@,
            !has_infix(report@, "失败"@) && report@.len() == 0 ==> final(self).removed@ == old(
                self,
            ).removed@ && final(self).failed@ == old(self).failed@,
    {
        let ghost removed0 = self.removed@;
        let ghost failed0 = self.failed@;
        if contains(report.as_str(), "失败") {
            self.failed.push(report);
            assert(views(self.failed@) =~= views(failed0).push(report@));
        } else if chars_of(report.as_str()).len() > 0 {
            self.removed.push(report);
            assert(views(self.removed@) =~= views(removed0).push(report@));
        }
    }

    /// The outcome of clearing.
    pub fn finish(&self) -> (r: Result<(), String>)
        ensures
            match r {
                Ok(()) => clear_result(views(self.failed@)) == Ok::<(), Seq<char>>(()),
                Err(e) => clear_result(views(self.failed@)) == Err::<(), Seq<char>>(e@),
            },
    {
        if self.failed.len() == 0 {
            Ok(())
        } else {
            let list = join(&self.failed, "\n");
            Err(concat("部分清除失败:\n", list.as_str()))
        }
    }
}

/// The progress label and whether clearing is over, for the final report.
pub fn final_progress(result: &Result<(), String>) -> (r: (u32, String, bool))
    ensures
        r.0 == 100,
        r.2,
        r.1@ == (if result is Ok {
            "清除完成,正在重启应用…"@
        } else {
            "清除失败"@
        }),
{
    match result {
        Ok(()) => (100, owned("清除完成,正在重启应用…"), true),
        Err(_) => (100, owned("清除失败"), true),
    }
}

} // verus!
