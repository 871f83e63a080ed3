use aura_update::config::Config;
use aura_update::power::{
    get_battery_mode_status, governor_command, low_power_command, low_power_outcome,
    parse_battery_mode, power_plan_command, power_plan_outcome, set_battery_mode, BatteryMode,
};
use aura_update::snapshot::{
    local_snapshot_outcome, no_snapshot_tool, parse_snapshot_listing, pick_snapshot_tool,
    restore_point_allowed, restore_point_command, restore_point_info, restore_point_outcome,
    restore_supported, snapshot_command, tool_snapshot_outcome, SnapshotTool,
};

#[test]
fn restore_point_label_quotes_are_doubled() {
    let c = restore_point_command("Avant l'update");
    assert_eq!(c.program, "powershell");
    assert_eq!(
        c.args[2],
        "Checkpoint-Computer -Description 'Avant l''update' -RestorePointType 'MODIFY_SETTINGS' -ErrorAction Stop"
    );
}

#[test]
fn restore_point_needs_admin() {
    assert!(restore_point_allowed(" True\r\n").is_ok());
    assert_eq!(
        restore_point_allowed("False"),
        Err("Administrator privileges required to create a restore point. Click 'Elevate' first.".to_string())
    );
}

#[test]
fn restore_point_outcomes() {
    assert_eq!(restore_point_outcome(true, ""), Ok("Windows restore point created".to_string()));
    assert_eq!(
        restore_point_outcome(false, "error 0x1111"),
        Ok("Restore point skipped (one already exists within 24h)".to_string())
    );
    assert_eq!(
        restore_point_outcome(false, "restore point creation frequency"),
        Ok("Restore point skipped (one already exists within 24h)".to_string())
    );
    assert_eq!(restore_point_outcome(false, "denied"), Err("Restore point failed: denied".to_string()));
}

#[test]
fn restore_support_probe() {
    assert!(restore_supported("True\n", false));
    assert!(restore_supported("", true));
    assert!(!restore_supported("False", false));
}

#[test]
fn restore_point_from_json_fields() {
    let s = restore_point_info("42".into(), Some("Before".into()), None);
    assert_eq!(s.id, "42");
    assert_eq!(s.description, "Before");
    assert_eq!(s.date, "");
}

#[test]
fn linux_tool_choice_and_commands() {
    assert!(pick_snapshot_tool(true, true) == Some(SnapshotTool::Timeshift));
    assert!(pick_snapshot_tool(false, true) == Some(SnapshotTool::Snapper));
    assert!(pick_snapshot_tool(false, false).is_none());
    let c = snapshot_command(SnapshotTool::Timeshift, "pre");
    assert_eq!(c.program, "timeshift");
    assert_eq!(c.args, vec!["--create", "--comments", "pre"]);
    let c = snapshot_command(SnapshotTool::Snapper, "pre");
    assert_eq!(c.program, "snapper");
    assert_eq!(c.args, vec!["create", "-d", "pre", "--type", "single"]);
    assert_eq!(tool_snapshot_outcome(SnapshotTool::Snapper, true, ""), Ok("Snapper snapshot created".into()));
    assert_eq!(tool_snapshot_outcome(SnapshotTool::Timeshift, true, ""), Ok("Timeshift snapshot created".into()));
    assert_eq!(tool_snapshot_outcome(SnapshotTool::Timeshift, false, "boom"), Err("boom".into()));
    assert_eq!(no_snapshot_tool(), "No snapshot tool available (install timeshift or snapper)");
    assert_eq!(local_snapshot_outcome(true, ""), Ok("APFS local snapshot created".into()));
    assert_eq!(local_snapshot_outcome(false, "x"), Err("Snapshot failed: x".into()));
}

#[test]
fn listings_keep_tagged_lines_numbered() {
    let text = "Mount: /dev/sda\nNum Name\n0 > 2024-01-01 Snapshot one \nnoise\n1 > Snapshot two\n";
    let v = parse_snapshot_listing(text, "Snapshot");
    assert_eq!(v.len(), 2);
    assert_eq!(v[0].id, "0");
    assert_eq!(v[0].description, "0 > 2024-01-01 Snapshot one");
    assert_eq!(v[1].id, "1");
    assert_eq!(v[1].description, "1 > Snapshot two");
    assert_eq!(v[1].date, "");
    let m = parse_snapshot_listing("com.apple.TimeMachine.2024-01-01\nother\n", "com.apple.TimeMachine");
    assert_eq!(m.len(), 1);
    assert!(parse_snapshot_listing("", "Snapshot").is_empty());
}

#[test]
fn battery_status_and_modes() {
    let c = Config::default();
    let s = get_battery_mode_status(&c, Some(80), true);
    assert!(s.is_laptop);
    assert_eq!(s.battery_percent, Some(80));
    assert!(s.battery_charging);
    assert_eq!(s.mode, "normal");
    let d = get_battery_mode_status(&c, None, false);
    assert!(!d.is_laptop);
    assert!(parse_battery_mode("ECO") == Ok(BatteryMode::Eco));
    assert!(parse_battery_mode("Extreme") == Ok(BatteryMode::Extreme));
    assert!(parse_battery_mode("turbo") == Err("Mode batterie invalide".to_string()));
}

#[test]
fn battery_mode_recorded_only_when_applied() {
    let mut c = Config::default();
    assert_eq!(set_battery_mode(&mut c, BatteryMode::Eco, Ok(())), Ok(()));
    assert_eq!(c.battery_mode, "eco");
    assert_eq!(set_battery_mode(&mut c, BatteryMode::Extreme, Err("no".into())), Err("no".into()));
    assert_eq!(c.battery_mode, "eco");
}

#[test]
fn battery_mode_commands() {
    let w = power_plan_command(BatteryMode::Extreme);
    assert!(w.args[2].contains("8c5e7fda-e8bf-4a96-9a85-a6e23a8c635c"));
    assert!(power_plan_command(BatteryMode::Normal).args[2].contains("sc.exe start SysMain"));
    assert_eq!(power_plan_outcome(false, "e"), Err("Impossible d'appliquer le mode batterie: e".into()));
    assert_eq!(low_power_command(BatteryMode::Eco).args, vec!["-a", "lowpowermode", "1"]);
    assert_eq!(low_power_command(BatteryMode::Normal).args, vec!["-a", "lowpowermode", "0"]);
    assert_eq!(low_power_outcome(false), Err("pmset failed".into()));
    assert_eq!(
        governor_command(BatteryMode::Eco).args,
        vec!["-c", "echo powersave | tee /sys/devices/system/cpu/cpu*/cpufreq/scaling_governor"]
    );
}
