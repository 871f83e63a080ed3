use aura_update::maintenance::{
    maintenance_cancel_task, maintenance_steps, platform_of, start_maintenance, MaintenanceTask,
    Platform,
};
use aura_update::runner::{CancelRegistry, CommandRunResult};

fn ok(run_id: &str, output: &str) -> Result<CommandRunResult, String> {
    Ok(CommandRunResult {
        run_id: run_id.into(),
        output: output.into(),
        success: true,
        canceled: false,
        timed_out: false,
    })
}

#[test]
fn platforms_by_name() {
    assert!(matches!(platform_of("windows"), Platform::Windows));
    assert!(matches!(platform_of("macos"), Platform::MacOs));
    assert!(matches!(platform_of("linux"), Platform::Linux));
    assert!(matches!(platform_of("freebsd"), Platform::Other));
}

#[test]
fn plans() {
    let s = maintenance_steps(MaintenanceTask::UpdateApps, Platform::Linux).ok().unwrap();
    assert_eq!(s.len(), 2);
    assert_eq!(s[0].program, "sudo");
    assert_eq!(s[0].args, vec!["apt", "update"]);
    assert_eq!((s[0].start_percent, s[0].done_percent, s[0].timeout_secs), (15, 45, 180));
    assert_eq!(s[1].step, "apt full-upgrade");
    let g = maintenance_steps(MaintenanceTask::UpdateGit, Platform::Windows).ok().unwrap();
    assert_eq!(g[0].task, "update_git");
    assert_eq!(g[0].action, "maintenance_update_git");
    assert_eq!(g[0].args, vec!["update-git-for-windows", "-y"]);
    assert!(maintenance_steps(MaintenanceTask::CleanSystem, Platform::Other).is_err());
    assert!(start_maintenance(MaintenanceTask::RepairSystem, Platform::Other).is_err());
}

#[test]
fn repair_on_windows_reports_both_outputs() {
    let mut run = start_maintenance(MaintenanceTask::RepairSystem, Platform::Windows).ok().unwrap();
    let first = run.next_step().unwrap();
    assert_eq!(first.program, "dism");
    assert!(run.record(ok("r1", "dism ok")).is_none());
    let second = run.next_step().unwrap();
    assert_eq!(second.program, "sfc");
    let answer = run.record(ok("r2", "sfc ok")).unwrap();
    assert_eq!(answer, Ok("=== DISM (run_id: r1) ===\ndism ok\n\n=== SFC (run_id: r2) ===\nsfc ok".to_string()));
    assert!(run.next_step().is_none());
}

#[test]
fn failed_step_stops_the_task() {
    let mut run = start_maintenance(MaintenanceTask::UpdateApps, Platform::MacOs).ok().unwrap();
    let answer = run.record(Err("brew update failed".into()));
    assert_eq!(answer, Some(Err("brew update failed".to_string())));
}

#[test]
fn joined_outputs() {
    let mut run = start_maintenance(MaintenanceTask::CleanSystem, Platform::Linux).ok().unwrap();
    assert!(run.record(ok("a", "removed")).is_none());
    assert_eq!(run.record(ok("b", "cleaned")), Some(Ok("removed\n---\ncleaned".to_string())));
}

#[test]
fn windows_cleanup_survives_a_failed_first_step() {
    let mut run = start_maintenance(MaintenanceTask::CleanSystem, Platform::Windows).ok().unwrap();
    assert!(run.record(Err("sageset failed".into())).is_none());
    assert_eq!(run.record(ok("b", "sagerun done")), Some(Ok("sagerun done".to_string())));
}

#[test]
fn cancel_a_maintenance_task() {
    let mut reg = CancelRegistry::new();
    assert_eq!(maintenance_cancel_task(&mut reg, "update_apps"), Ok(false));
    reg.register("update_apps");
    assert_eq!(maintenance_cancel_task(&mut reg, "update_apps"), Ok(true));
    assert!(reg.is_cancel_requested("update_apps"));
}
