use aura_update::cooling::{
    cooling_policy_commands, fan_vendors, governor_command, hwmon_line, istats_command,
    linux_fan_boost_report, mac_fan_boost_report, panic_report, power_plan_command, pwm_values,
    smc_args, vendor_command, Attempt, FanBoostLog, FanStage,
};
use aura_update::telemetry::{
    service_off_commands, step_report, telemetry_elsewhere, telemetry_steps, Report, StepOutcome,
};

#[test]
fn windows_telemetry_off_plan() {
    let steps = telemetry_steps("windows", true).ok().unwrap();
    assert_eq!(steps.len(), 9);
    assert_eq!(steps[0].command.program, "sc");
    assert_eq!(steps[0].command.args, vec!["stop", "DiagTrack"]);
    assert_eq!(steps[1].command.args, vec!["config", "DiagTrack", "start=", "disabled"]);
    assert_eq!(step_report(&steps[0].report, &StepOutcome::Succeeded), None);
    assert_eq!(step_report(&steps[1].report, &StepOutcome::Succeeded), Some("DiagTrack: disabled".to_string()));
    assert_eq!(step_report(&steps[1].report, &StepOutcome::Failed), None);
    assert_eq!(steps[8].command.program, "reg");
    assert_eq!(step_report(&steps[8].report, &StepOutcome::NotRun), Some("AllowTelemetry: 0".to_string()));
    let on = telemetry_steps("windows", false).ok().unwrap();
    assert_eq!(on.len(), 5);
    assert_eq!(on[0].command.args, vec!["config", "DiagTrack", "start=", "demand"]);
}

#[test]
fn telemetry_categories() {
    for c in ["windows", "office", "nvidia", "browsers", "tracking"] {
        assert!(telemetry_steps(c, true).is_ok(), "{c}");
        assert!(telemetry_steps(c, false).is_ok(), "{c}");
    }
    assert_eq!(telemetry_steps("cortana", true).err(), Some("Unknown telemetry category: cortana".to_string()));
    let o = telemetry_steps("office", true).ok().unwrap();
    assert_eq!(o[0].command.program, "powershell");
    assert_eq!(step_report(&o[0].report, &StepOutcome::Failed), Some("Office telemetry: disabled".to_string()));
}

#[test]
fn report_kinds() {
    let r = Report::OnSuccessElse { line: "ok".into(), otherwise: "ko".into() };
    assert_eq!(step_report(&r, &StepOutcome::Succeeded), Some("ok".to_string()));
    assert_eq!(step_report(&r, &StepOutcome::Failed), Some("ko".to_string()));
    assert_eq!(step_report(&r, &StepOutcome::NotRun), None);
    assert_eq!(telemetry_elsewhere(), vec!["Telemetry control is Windows-specific".to_string()]);
    let (stop, disable) = service_off_commands("WerSvc");
    assert_eq!(stop.args, vec!["stop", "WerSvc"]);
    assert_eq!(disable.args, vec!["config", "WerSvc", "start=", "disabled"]);
}

#[test]
fn windows_fan_boost_log() {
    assert_eq!(power_plan_command(true).args, vec!["/setactive", "8c5e7fda-e8bf-4a96-9a85-a6e23a8c635c"]);
    assert_eq!(power_plan_command(false).args[1], "381b4222-f694-41f0-9685-ff5bb260df2e");
    let vendors = fan_vendors();
    assert!(!vendors.is_empty());
    let c = vendor_command(&vendors[0], true);
    assert_eq!(c.program, "powershell");
    assert_eq!(c.args[2], vendors[0].activate);
    let mut log = FanBoostLog::new();
    assert!(matches!(log.next_stage(), FanStage::BoardVendor));
    let v = log.note_board_vendor(Ok("  Dell Inc.  ".into()));
    assert_eq!(v, "dell inc.");
    assert!(matches!(log.next_stage(), FanStage::PowerPlan));
    log.note_power_plan(true, true);
    assert!(matches!(log.next_stage(), FanStage::Vendor { index: 0 }));
    assert!(log.note_vendor_attempt(&vendors[0].name, Attempt::Unavailable));
    assert!(matches!(log.next_stage(), FanStage::Vendor { index: 1 }));
    assert!(!log.note_vendor_attempt(&vendors[1].name, Attempt::Succeeded));
    assert!(matches!(log.next_stage(), FanStage::CoolingPolicy));
    log.note_cooling_policy(true);
    assert!(matches!(log.next_stage(), FanStage::Gpu));
    log.note_gpu(true, Some("GPU:NO_NVSMI".into()));
    assert!(matches!(log.next_stage(), FanStage::Temperatures));
    log.note_temperatures("CPU:55|GPU:N/A");
    assert!(matches!(log.next_stage(), FanStage::Finished));
    let r = log.finish(true);
    assert!(r.success);
    assert_eq!(r.message, "cool_boost_started");
    assert_eq!(r.log[0], "Board vendor: dell inc.");
    assert_eq!(r.log[1], "Power plan (High Perf): OK");
    assert_eq!(r.log[2], "[MSI] SKIP: Not available");
    assert_eq!(r.log[3], "[ASUS/ROG] OK");
    assert_eq!(r.log[4], "[Cooling Policy] Active (max cooling) + CPU 100%");
    assert_eq!(r.log[5], "[NVIDIA GPU] nvidia-smi non trouvé");
}

#[test]
fn windows_boost_falls_back_when_no_vendor_works() {
    let vendors = fan_vendors();
    let mut log = FanBoostLog::new();
    assert_eq!(log.note_board_vendor(Err("wmi".into())), "");
    log.note_power_plan(false, false);
    for (i, v) in vendors.iter().enumerate() {
        assert!(matches!(log.next_stage(), FanStage::Vendor { index } if index == i));
        assert!(log.note_vendor_attempt(&v.name, Attempt::Failed { reason: "denied".into() }));
    }
    assert!(matches!(log.next_stage(), FanStage::FanSoftware));
    assert_eq!(log.note_fan_software("NONE"), None);
    assert!(matches!(log.next_stage(), FanStage::Monitor));
    log.note_monitor(Ok("LHM_OK".into()));
    assert!(log.vendor_success);
    assert!(matches!(log.next_stage(), FanStage::CoolingPolicy));
    log.note_cooling_policy(false);
    log.note_gpu(false, None);
    log.note_temperatures("");
    let f = log.finish(false);
    assert_eq!(f.log[0], "Board vendor detection failed: wmi");
    assert_eq!(f.log[1], "Board vendor: unknown");
    assert_eq!(f.log[2], "Power plan (Balanced): FAIL");
    assert_eq!(f.log[3], "[MSI] ERROR: denied");
    assert_eq!(f.log.len(), 2 + 1 + vendors.len() + 3);
    assert_eq!(f.log[f.log.len() - 3], "[LibreHardwareMonitor] Fan control: OK");
    assert_eq!(f.log[f.log.len() - 1], "[NVIDIA GPU] Reset to default");
    assert_eq!(f.message, "cool_boost_finished");
    assert_eq!(cooling_policy_commands(true).len(), 4);
    assert_eq!(cooling_policy_commands(false).len(), 3);
}

#[test]
fn mac_and_linux_boost() {
    assert_eq!(smc_args(true), vec!["-k", "F0Mx", "-w", "ffff"]);
    assert_eq!(istats_command(false).args[1], "istats fan speed auto --all");
    let m = mac_fan_boost_report(true, true, false);
    assert!(m.success);
    assert_eq!(m.log, vec!["smc F0Mx=ffff: OK"]);
    let n = mac_fan_boost_report(true, false, false);
    assert_eq!(n.message, "cool_boost_powerplan_only");
    assert_eq!(n.log.len(), 3);
    assert_eq!(pwm_values(true), ("1".to_string(), Some("255".to_string())));
    assert_eq!(pwm_values(false), ("2".to_string(), None));
    assert_eq!(
        governor_command(true).args[1],
        "echo performance | tee /sys/devices/system/cpu/cpu*/cpufreq/scaling_governor 2>/dev/null"
    );
    assert_eq!(hwmon_line("/sys/class/hwmon/hwmon2", 1), "hwmon /sys/class/hwmon/hwmon2/pwm1: OK");
    let l = linux_fan_boost_report(true, true, vec!["hwmon x/pwm1: OK".into()], true);
    assert!(l.success);
    assert_eq!(l.message, "cool_boost_started");
    let e = linux_fan_boost_report(true, false, vec![], false);
    assert_eq!(e.log[0], "/sys/class/hwmon not found");
    assert_eq!(e.message, "cool_boost_powerplan_only");
    let p = panic_report("boom");
    assert!(!p.success);
    assert_eq!(p.message, "cool_error");
    assert_eq!(p.log, vec!["PANIC caught: boom"]);
}
