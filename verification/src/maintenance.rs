//! The maintenance tasks: which commands each task runs on each platform,
//! when a failed step stops the task, and how the outputs are reported.
use vstd::prelude::*;

use crate::runner::{
    request_cancel, CancelRegistry, CommandRunResult, RunResultView, RunSpec, RunSpecView,
};
use crate::text::{owned, push_str};

verus! {

/// The platform the application runs on.
#[derive(Clone, Copy)]
pub enum Platform {
    Windows,
    MacOs,
    Linux,
    Other,
}

/// The platform named as `std::env::consts::OS` names it.
pub open spec fn platform_named(os: Seq<char>) -> Platform {
    if os == "windows"@ {
        Platform::Windows
    } else if os == "macos"@ {
        Platform::MacOs
    } else if os == "linux"@ {
        Platform::Linux
    } else {
        Platform::Other
    }
}

/// The platform of an OS name.
pub fn platform_of(os: &str) -> (p: Platform)
    ensures
        p == platform_named(os@),
{
    if crate::text::text_eq(os, "windows") {
        Platform::Windows
    } else if crate::text::text_eq(os, "macos") {
        Platform::MacOs
    } else if crate::text::text_eq(os, "linux") {
        Platform::Linux
    } else {
        Platform::Other
    }
}

/// A maintenance task the user can start.
#[derive(Clone, Copy)]
pub enum MaintenanceTask {
    UpdateGit,
    UpdateApps,
    RepairSystem,
    CleanSystem,
}

/// The error of a task on a platform it does not support.
pub open spec fn unsupported_text() -> Seq<char> {
    "Plateforme non supportée"@
}

/// The commands a task runs on a platform, in order; `None` on a platform the
/// task does not support.
pub open spec fn maintenance_plan(t: MaintenanceTask, p: Platform) -> Option<Seq<RunSpecView>> {
    match (t, p) {
        (MaintenanceTask::UpdateGit, Platform::Windows) => Some(seq![RunSpecView { task: "update_git"@, action: "maintenance_update_git"@, step: "Mise à jour Git CLI"@, program: "git"@, args: seq!["update-git-for-windows"@, "-y"@], timeout_secs: 120, start_percent: 5, done_percent: 100 }]),
        (MaintenanceTask::UpdateGit, Platform::MacOs) => Some(seq![RunSpecView { task: "update_git"@, action: "maintenance_update_git"@, step: "Mise à jour Git CLI"@, program: "brew"@, args: seq!["upgrade"@, "git"@], timeout_secs: 300, start_percent: 5, done_percent: 100 }]),
        (MaintenanceTask::UpdateGit, Platform::Linux) => Some(seq![RunSpecView { task: "update_git"@, action: "maintenance_update_git"@, step: "Mise à jour Git CLI"@, program: "sudo"@, args: seq!["apt"@, "upgrade"@, "git"@, "-y"@], timeout_secs: 300, start_percent: 5, done_percent: 100 }]),
        (MaintenanceTask::UpdateApps, Platform::Windows) => Some(seq![RunSpecView { task: "update_apps"@, action: "maintenance_update_apps"@, step: "Mise à jour des applications"@, program: "winget"@, args: seq!["upgrade"@, "--all"@, "--force"@, "--include-unknown"@, "--accept-package-agreements"@, "--accept-source-agreements"@], timeout_secs: 120, start_percent: 5, done_percent: 100 }]),
        (MaintenanceTask::UpdateApps, Platform::MacOs) => Some(seq![RunSpecView { task: "update_apps"@, action: "maintenance_update_apps"@, step: "brew update"@, program: "brew"@, args: seq!["update"@], timeout_secs: 180, start_percent: 15, done_percent: 45 }, RunSpecView { task: "update_apps"@, action: "maintenance_update_apps"@, step: "brew upgrade"@, program: "brew"@, args: seq!["upgrade"@], timeout_secs: 300, start_percent: 55, done_percent: 100 }]),
        (MaintenanceTask::UpdateApps, Platform::Linux) => Some(seq![RunSpecView { task: "update_apps"@, action: "maintenance_update_apps"@, step: "apt update"@, program: "sudo"@, args: seq!["apt"@, "update"@], timeout_secs: 180, start_percent: 15, done_percent: 45 }, RunSpecView { task: "update_apps"@, action: "maintenance_update_apps"@, step: "apt full-upgrade"@, program: "sudo"@, args: seq!["apt"@, "full-upgrade"@, "-y"@], timeout_secs: 600, start_percent: 55, done_percent: 100 }]),
        (MaintenanceTask::RepairSystem, Platform::Windows) => Some(seq![RunSpecView { task: "repair_system"@, action: "maintenance_repair_system"@, step: "DISM RestoreHealth"@, program: "dism"@, args: seq!["/online"@, "/cleanup-image"@, "/restorehealth"@], timeout_secs: 1800, start_percent: 10, done_percent: 65 }, RunSpecView { task: "repair_system"@, action: "maintenance_repair_system"@, step: "SFC ScanNow"@, program: "sfc"@, args: seq!["/scannow"@], timeout_secs: 1800, start_percent: 70, done_percent: 100 }]),
        (MaintenanceTask::RepairSystem, Platform::MacOs) => Some(seq![RunSpecView { task: "repair_system"@, action: "maintenance_repair_system"@, step: "diskutil verifyVolume"@, program: "diskutil"@, args: seq!["verifyVolume"@, "/"@], timeout_secs: 1200, start_percent: 10, done_percent: 100 }]),
        (MaintenanceTask::RepairSystem, Platform::Linux) => Some(seq![RunSpecView { task: "repair_system"@, action: "maintenance_repair_system"@, step: "dpkg --configure -a"@, program: "sudo"@, args: seq!["dpkg"@, "--configure"@, "-a"@], timeout_secs: 900, start_percent: 10, done_percent: 100 }]),
        (MaintenanceTask::CleanSystem, Platform::Windows) => Some(seq![RunSpecView { task: "clean_system"@, action: "maintenance_clean_system"@, step: "cleanmgr sageset"@, program: "cleanmgr"@, args: seq!["/sageset:1"@], timeout_secs: 120, start_percent: 5, done_percent: 15 }, RunSpecView { task: "clean_system"@, action: "maintenance_clean_system"@, step: "cleanmgr sagerun"@, program: "cleanmgr"@, args: seq!["/sagerun:1"@], timeout_secs: 900, start_percent: 20, done_percent: 100 }]),
        (MaintenanceTask::CleanSystem, Platform::MacOs) => Some(seq![RunSpecView { task: "clean_system"@, action: "maintenance_clean_system"@, step: "brew cleanup"@, program: "brew"@, args: seq!["cleanup"@], timeout_secs: 300, start_percent: 15, done_percent: 100 }]),
        (MaintenanceTask::CleanSystem, Platform::Linux) => Some(seq![RunSpecView { task: "clean_system"@, action: "maintenance_clean_system"@, step: "apt autoremove"@, program: "sudo"@, args: seq!["apt"@, "autoremove"@, "-y"@], timeout_secs: 600, start_percent: 20, done_percent: 60 }, RunSpecView { task: "clean_system"@, action: "maintenance_clean_system"@, step: "apt clean"@, program: "sudo"@, args: seq!["apt"@, "clean"@], timeout_secs: 300, start_percent: 70, done_percent: 100 }]),
        _ => None,
    }
}

fn run_spec(
    task: &str,
    action: &str,
    step: &str,
    program: &str,
    args: Vec<String>,
    timeout_secs: u64,
    start_percent: u8,
    done_percent: u8,
) -> (r: RunSpec)
    ensures
        r@ == (RunSpecView {
            task: task@,
            action: action@,
            step: step@,
            program: program@,
            args: args@.map_values(|a: String| a@),
            timeout_secs,
            start_percent,
            done_percent,
        }),
{
    RunSpec {
        task: owned(task),
        action: owned(action),
        step: owned(step),
        program: owned(program),
        args,
        timeout_secs,
        start_percent,
        done_percent,
    }
}

/// The models of a list of run specifications.
pub open spec fn spec_views(v: Seq<RunSpec>) -> Seq<RunSpecView> {
    v.map_values(|s: RunSpec| s@)
}

/// The commands of a task on a platform, or the error for an unsupported platform.
#[verifier::spinoff_prover]
pub fn maintenance_steps(t: MaintenanceTask, p: Platform) -> (r: Result<Vec<RunSpec>, String>)
    ensures
        match maintenance_plan(t, p) {
            Some(plan) => r matches Ok(v) && spec_views(v@) == plan,
            None => r matches Err(e) && e@ == unsupported_text(),
        },
{
    let mut v: Vec<RunSpec> = Vec::new();
    match (t, p) {
            (MaintenanceTask::UpdateGit, Platform::Windows) => {
                let mut args: Vec<String> = Vec::new();
                args.push(owned("update-git-for-windows"));
                args.push(owned("-y"));
                assert(args@.map_values(|a: String| a@) =~= seq!["update-git-for-windows"@, "-y"@]);
                v.push(run_spec("update_git", "maintenance_update_git", "Mise à jour Git CLI", "git", args, 120, 5, 100));
            },
            (MaintenanceTask::UpdateGit, Platform::MacOs) => {
                let mut args: Vec<String> = Vec::new();
                args.push(owned("upgrade"));
                args.push(owned("git"));
                assert(args@.map_values(|a: String| a@) =~= seq!["upgrade"@, "git"@]);
                v.push(run_spec("update_git", "maintenance_update_git", "Mise à jour Git CLI", "brew", args, 300, 5, 100));
            },
            (MaintenanceTask::UpdateGit, Platform::Linux) => {
                let mut args: Vec<String> = Vec::new();
                args.push(owned("apt"));
                args.push(owned("upgrade"));
                args.push(owned("git"));
                args.push(owned("-y"));
                assert(args@.map_values(|a: String| a@) =~= seq!["apt"@, "upgrade"@, "git"@, "-y"@]);
                v.push(run_spec("update_git", "maintenance_update_git", "Mise à jour Git CLI", "sudo", args, 300, 5, 100));
            },
            (MaintenanceTask::UpdateApps, Platform::Windows) => {
                let mut args: Vec<String> = Vec::new();
                args.push(owned("upgrade"));
                args.push(owned("--all"));
                args.push(owned("--force"));
                args.push(owned("--include-unknown"));
                args.push(owned("--accept-package-agreements"));
                args.push(owned("--accept-source-agreements"));
                assert(args@.map_values(|a: String| a@) =~= seq!["upgrade"@, "--all"@, "--force"@, "--include-unknown"@, "--accept-package-agreements"@, "--accept-source-agreements"@]);
                v.push(run_spec("update_apps", "maintenance_update_apps", "Mise à jour des applications", "winget", args, 120, 5, 100));
            },
            (MaintenanceTask::UpdateApps, Platform::MacOs) => {
                let mut args: Vec<String> = Vec::new();
                args.push(owned("update"));
                assert(args@.map_values(|a: String| a@) =~= seq!["update"@]);
                v.push(run_spec("update_apps", "maintenance_update_apps", "brew update", "brew", args, 180, 15, 45));
                let mut args: Vec<String> = Vec::new();
                args.push(owned("upgrade"));
                assert(args@.map_values(|a: String| a@) =~= seq!["upgrade"@]);
                v.push(run_spec("update_apps", "maintenance_update_apps", "brew upgrade", "brew", args, 300, 55, 100));
            },
            (MaintenanceTask::UpdateApps, Platform::Linux) => {
                let mut args: Vec<String> = Vec::new();
                args.push(owned("apt"));
                args.push(owned("update"));
                assert(args@.map_values(|a: String| a@) =~= seq!["apt"@, "update"@]);
                v.push(run_spec("update_apps", "maintenance_update_apps", "apt update", "sudo", args, 180, 15, 45));
                let mut args: Vec<String> = Vec::new();
                args.push(owned("apt"));
                args.push(owned("full-upgrade"));
                args.push(owned("-y"));
                assert(args@.map_values(|a: String| a@) =~= seq!["apt"@, "full-upgrade"@, "-y"@]);
                v.push(run_spec("update_apps", "maintenance_update_apps", "apt full-upgrade", "sudo", args, 600, 55, 100));
            },
            (MaintenanceTask::RepairSystem, Platform::Windows) => {
                let mut args: Vec<String> = Vec::new();
                args.push(owned("/online"));
                args.push(owned("/cleanup-image"));
                args.push(owned("/restorehealth"));
                assert(args@.map_values(|a: String| a@) =~= seq!["/online"@, "/cleanup-image"@, "/restorehealth"@]);
                v.push(run_spec("repair_system", "maintenance_repair_system", "DISM RestoreHealth", "dism", args, 1800, 10, 65));
                let mut args: Vec<String> = Vec::new();
                args.push(owned("/scannow"));
                assert(args@.map_values(|a: String| a@) =~= seq!["/scannow"@]);
                v.push(run_spec("repair_system", "maintenance_repair_system", "SFC ScanNow", "sfc", args, 1800, 70, 100));
            },
            (MaintenanceTask::RepairSystem, Platform::MacOs) => {
                let mut args: Vec<String> = Vec::new();
                args.push(owned("verifyVolume"));
                args.push(owned("/"));
                assert(args@.map_values(|a: String| a@) =~= seq!["verifyVolume"@, "/"@]);
                v.push(run_spec("repair_system", "maintenance_repair_system", "diskutil verifyVolume", "diskutil", args, 1200, 10, 100));
            },
            (MaintenanceTask::RepairSystem, Platform::Linux) => {
                let mut args: Vec<String> = Vec::new();
                args.push(owned("dpkg"));
                args.push(owned("--configure"));
                args.push(owned("-a"));
                assert(args@.map_values(|a: String| a@) =~= seq!["dpkg"@, "--configure"@, "-a"@]);
                v.push(run_spec("repair_system", "maintenance_repair_system", "dpkg --configure -a", "sudo", args, 900, 10, 100));
            },
            (MaintenanceTask::CleanSystem, Platform::Windows) => {
                let mut args: Vec<String> = Vec::new();
                args.push(owned("/sageset:1"));
                assert(args@.map_values(|a: String| a@) =~= seq!["/sageset:1"@]);
                v.push(run_spec("clean_system", "maintenance_clean_system", "cleanmgr sageset", "cleanmgr", args, 120, 5, 15));
                let mut args: Vec<String> = Vec::new();
                args.push(owned("/sagerun:1"));
                assert(args@.map_values(|a: String| a@) =~= seq!["/sagerun:1"@]);
                v.push(run_spec("clean_system", "maintenance_clean_system", "cleanmgr sagerun", "cleanmgr", args, 900, 20, 100));
            },
            (MaintenanceTask::CleanSystem, Platform::MacOs) => {
                let mut args: Vec<String> = Vec::new();
                args.push(owned("cleanup"));
                assert(args@.map_values(|a: String| a@) =~= seq!["cleanup"@]);
                v.push(run_spec("clean_system", "maintenance_clean_system", "brew cleanup", "brew", args, 300, 15, 100));
            },
            (MaintenanceTask::CleanSystem, Platform::Linux) => {
                let mut args: Vec<String> = Vec::new();
                args.push(owned("apt"));
                args.push(owned("autoremove"));
                args.push(owned("-y"));
                assert(args@.map_values(|a: String| a@) =~= seq!["apt"@, "autoremove"@, "-y"@]);
                v.push(run_spec("clean_system", "maintenance_clean_system", "apt autoremove", "sudo", args, 600, 20, 60));
                let mut args: Vec<String> = Vec::new();
                args.push(owned("apt"));
                args.push(owned("clean"));
                assert(args@.map_values(|a: String| a@) =~= seq!["apt"@, "clean"@]);
                v.push(run_spec("clean_system", "maintenance_clean_system", "apt clean", "sudo", args, 300, 70, 100));
            },
            _ => {
                return Err(owned("Plateforme non supportée"));
            },
    }
    let r = v;
    assert(spec_views(r@) =~= maintenance_plan(t, p).unwrap());
    Ok(r)
}

/// Whether a failed step ends the task: every failure does, except that of the
/// first step of the Windows system cleanup, which is ignored.
pub open spec fn failure_stops(t: MaintenanceTask, p: Platform, index: int) -> bool {
    !((t is CleanSystem) && (p is Windows) && index == 0)
}

/// Whether the outputs of a task's steps are reported together.
pub open spec fn joins_outputs(t: MaintenanceTask, p: Platform) -> bool {
    ||| (t is UpdateApps) && (p is MacOs)
    ||| (t is UpdateApps) && (p is Linux)
    ||| (t is CleanSystem) && (p is Linux)
}

/// The text a finished task answers with, from the results of its steps that
/// succeeded.
pub open spec fn report_text(t: MaintenanceTask, p: Platform, r: Seq<RunResultView>) -> Seq<char> {
    if (t is RepairSystem) && (p is Windows) {
        "=== DISM (run_id: "@ + r[0].run_id + ") ===\n"@ + r[0].output + "\n\n=== SFC (run_id: "@
            + r[1].run_id + ") ===\n"@ + r[1].output
    } else if joins_outputs(t, p) {
        r[0].output + "\n---\n"@ + r[1].output
    } else {
        r.last().output
    }
}

/// The models of a list of results.
pub open spec fn result_views(v: Seq<CommandRunResult>) -> Seq<RunResultView> {
    v.map_values(|r: CommandRunResult| r@)
}

/// A task in progress: its steps, the next one to run, and the results of
/// those that succeeded.
pub struct MaintenanceRun {
    pub task: MaintenanceTask,
    pub platform: Platform,
    pub steps: Vec<RunSpec>,
    pub next: usize,
    pub results: Vec<CommandRunResult>,
}

impl MaintenanceRun {
    /// The run is consistent: it follows the task's plan, and every step
    /// before `next` either succeeded or was the one step whose failure is
    /// ignored.
    pub open spec fn wf(&self) -> bool {
        &&& maintenance_plan(self.task, self.platform) == Some(spec_views(self.steps@))
        &&& self.next <= self.steps@.len()
        &&& self.results@.len() <= self.next
        &&& (self.results@.len() < self.next ==> (self.task is CleanSystem) && (self.platform is Windows))
    }

    /// Whether every step has run.
    pub open spec fn done(&self) -> bool {
        self.next == self.steps@.len()
    }
}

/// The model of a step's outcome: its result, or the error it ended with.
pub open spec fn outcome_view(o: Result<CommandRunResult, String>) -> Result<RunResultView, Seq<char>> {
    match o {
        Ok(r) => Ok(r@),
        Err(e) => Err(e@),
    }
}

fn clone_args(v: &Vec<String>) -> (r: Vec<String>)
    ensures
        r@.map_values(|a: String| a@) == v@.map_values(|a: String| a@),
{
    let mut r: Vec<String> = Vec::new();
    let mut i: usize = 0;
    while i < v.len()
        invariant
            i <= v@.len(),
            r@.len() == i,
            forall|k: int| 0 <= k < i ==> (#[trigger] r@[k])@ == v@[k]@,
        decreases v@.len() - i,
    {
        let a = v[i].clone();
        r.push(a);
        i = i + 1;
    }
    assert(r@.map_values(|a: String| a@) =~= v@.map_values(|a: String| a@));
    r
}

fn clone_spec(s: &RunSpec) -> (r: RunSpec)
    ensures
        r@ == s@,
{
    RunSpec {
        task: s.task.clone(),
        action: s.action.clone(),
        step: s.step.clone(),
        program: s.program.clone(),
        args: clone_args(&s.args),
        timeout_secs: s.timeout_secs,
        start_percent: s.start_percent,
        done_percent: s.done_percent,
    }
}

/// Starts a task: its run, or the error for an unsupported platform.
pub fn start_maintenance(t: MaintenanceTask, p: Platform) -> (r: Result<MaintenanceRun, String>)
    ensures
        match r {
            Ok(run) => run.wf() && run.task == t && run.platform == p && run.next == 0,
            Err(e) => maintenance_plan(t, p) is None && e@ == unsupported_text(),
        },
{
    let tc = match t {
        MaintenanceTask::UpdateGit => MaintenanceTask::UpdateGit,
        MaintenanceTask::UpdateApps => MaintenanceTask::UpdateApps,
        MaintenanceTask::RepairSystem => MaintenanceTask::RepairSystem,
        MaintenanceTask::CleanSystem => MaintenanceTask::CleanSystem,
    };
    let pc = match p {
        Platform::Windows => Platform::Windows,
        Platform::MacOs => Platform::MacOs,
        Platform::Linux => Platform::Linux,
        Platform::Other => Platform::Other,
    };
    match maintenance_steps(t, p) {
        Ok(steps) => Ok(MaintenanceRun { task: tc, platform: pc, steps, next: 0, results: Vec::new() }),
        Err(e) => Err(e),
    }
}

impl MaintenanceRun {
    /// The next step to run, if any.
    pub fn next_step(&self) -> (r: Option<RunSpec>)
        requires
            self.wf(),
        ensures
            match r {
                Some(s) => !self.done() && s@ == self.steps@[self.next as int]@,
                None => self.done(),
            },
    {
        if self.next < self.steps.len() {
            Some(clone_spec(&self.steps[self.next]))
        } else {
            None
        }
    }

    /// Records how the next step ended. Returns the task's answer once it is
    /// over: the error of a step whose failure stops it, or the report of its
    /// outputs once every step has run.
    pub fn record(&mut self, outcome: Result<CommandRunResult, String>) -> (answer: Option<Result<String, String>>)
        requires
            old(self).wf(),
            !old(self).done(),
        ensures
            answer is None ==> final(self).wf(),
            final(self).steps@ == old(self).steps@,
            final(self).task == old(self).task,
            final(self).platform == old(self).platform,
            final(self).next == old(self).next + 1,
            result_views(final(self).results@) == match outcome_view(outcome) {
                Ok(r) => result_views(old(self).results@).push(r),
                Err(e) => result_views(old(self).results@),
            },
            match outcome_view(outcome) {
                Err(e) => if failure_stops(old(self).task, old(self).platform, old(self).next as int) {
                    answer matches Some(Err(x)) && x@ == e
                } else if final(self).done() {
                    answer matches Some(Ok(x)) && x@ == report_text(
                        old(self).task,
                        old(self).platform,
                        result_views(final(self).results@),
                    )
                } else {
                    answer is None
                },
                Ok(r) => if final(self).done() {
                    answer matches Some(Ok(x)) && x@ == report_text(
                        old(self).task,
                        old(self).platform,
                        result_views(final(self).results@),
                    )
                } else {
                    answer is None
                },
            },
    {
        let ghost r0 = self.results@;
        let n = self.steps.len();
        assert(self.next < n);
        let stops = match (&self.task, &self.platform) {
            (MaintenanceTask::CleanSystem, Platform::Windows) => self.next != 0,
            _ => true,
        };
        match outcome {
            Ok(r) => {
                self.results.push(r);
                assert(result_views(self.results@) =~= result_views(r0).push(outcome_view(outcome)->Ok_0));
            },
            Err(e) => {
                self.next = self.next + 1;
                if stops {
                    return Some(Err(e));
                }
                assert(spec_views(self.steps@).len() == self.steps@.len());
                if self.next == self.steps.len() {
                    return Some(Ok(self.report()));
                }
                return None;
            },
        }
        self.next = self.next + 1;
        if self.next == self.steps.len() {
            Some(Ok(self.report()))
        } else {
            None
        }
    }

    fn report(&self) -> (r: String)
        requires
            self.wf(),
            self.done(),
            self.results@.len() >= 1,
        ensures
            r@ == report_text(self.task, self.platform, result_views(self.results@)),
    {
        let rs = &self.results;
        assert(spec_views(self.steps@).len() == self.steps@.len());
        match (&self.task, &self.platform) {
            (MaintenanceTask::RepairSystem, Platform::Windows) => {
                let mut t = owned("=== DISM (run_id: ");
                push_str(&mut t, rs[0].run_id.as_str());
                push_str(&mut t, ") ===\n");
                push_str(&mut t, rs[0].output.as_str());
                push_str(&mut t, "\n\n=== SFC (run_id: ");
                push_str(&mut t, rs[1].run_id.as_str());
                push_str(&mut t, ") ===\n");
                push_str(&mut t, rs[1].output.as_str());
                t
            },
            (MaintenanceTask::UpdateApps, Platform::MacOs) | (MaintenanceTask::UpdateApps, Platform::Linux) | (
                MaintenanceTask::CleanSystem,
                Platform::Linux,
            ) => {
                let mut t = rs[0].output.clone();
                push_str(&mut t, "\n---\n");
                push_str(&mut t, rs[1].output.as_str());
                t
            },
            _ => rs[rs.len() - 1].output.clone(),
        }
    }
}

/// Asks a running maintenance task to stop.
pub fn maintenance_cancel_task(registry: &mut CancelRegistry, task: &str) -> (r: Result<bool, String>)
    ensures
        r matches Ok(b) && b == old(registry)@.contains_key(task@),
        old(registry)@.contains_key(task@) ==> final(registry)@ == old(registry)@.insert(task@, true),
        !old(registry)@.contains_key(task@) ==> final(registry)@ == old(registry)@,
{
    Ok(request_cancel(registry, task))
}

} // verus!
