use aura_update::health::{
    autopilot_announcement, autopilot_install_message, autopilot_plan, autopilot_snapshot_label,
    battery_cache_fresh, battery_from_sysfs, battery_from_wmi, compute_health_score, cpu_label,
    get_cached_health_score, get_disk_free_gb, get_disk_free_space, get_health_score_sync,
    lspci_gpu_name, os_label, pick_sensors, AutopilotStage, HealthCache,
};
use aura_update::maintenance::Platform;

#[test]
fn perfect_machine_scores_one_hundred() {
    let h = compute_health_score(0, 120, 3, 10 * 1048576);
    assert_eq!(h.total, 100);
    assert_eq!((h.update_score, h.disk_score, h.startup_score, h.temp_score), (40, 20, 20, 20));
    assert_eq!(h.temp_size_mb, 10);
}

#[test]
fn health_score_bands() {
    let h = compute_health_score(2, 30, 8, 600 * 1048576);
    assert_eq!((h.update_score, h.disk_score, h.startup_score, h.temp_score), (30, 15, 15, 10));
    assert_eq!(h.total, 70);
    let h = compute_health_score(11, 4, 16, 3000 * 1048576);
    assert_eq!((h.update_score, h.disk_score, h.startup_score, h.temp_score), (0, 0, 5, 5));
    assert_eq!(h.total, 10);
    assert_eq!(h.pending_updates, 11);
    assert_eq!(h.startup_count, 16);
    assert_eq!(h.disk_free_gb, 4);
}

#[test]
fn more_updates_never_raise_the_score() {
    let mut last = 101u16;
    for n in 0..20usize {
        let t = compute_health_score(n, 25, 7, 0).total as u16;
        assert!(t <= last);
        last = t;
    }
}

#[test]
fn cached_score() {
    let mut c = HealthCache::new();
    assert_eq!(get_cached_health_score(&c), None);
    c.store(87);
    assert_eq!(get_cached_health_score(&c), Some(87));
}

#[test]
fn quick_estimate() {
    // 20 disk points + 20 heat points = 40 -> 100
    assert_eq!(get_health_score_sync(100, Some(45_000), None), 100);
    // 15 + 10 = 25 -> 62
    assert_eq!(get_health_score_sync(25, Some(50_000), Some(80_000)), 62);
    // no reading counts as cool
    assert_eq!(get_health_score_sync(0, None, None), 50);
}

#[test]
fn disks() {
    let disks = vec![("/boot".to_string(), 5u64), ("/".to_string(), 3 * 1073741824u64)];
    assert_eq!(get_disk_free_gb(&disks), 3);
    assert_eq!(get_disk_free_gb(&vec![("/data".to_string(), 1)]), 0);
    let w = vec![("D:\\".to_string(), 7u64), ("C:\\".to_string(), 9u64)];
    assert_eq!(get_disk_free_space(None, Platform::Windows, &w), Ok(9));
    assert_eq!(get_disk_free_space(Some("D:\\games".into()), Platform::Windows, &w), Ok(7));
    assert_eq!(get_disk_free_space(None, Platform::Linux, &w), Err("Disk not found".into()));
}

#[test]
fn sensors_and_battery() {
    let labels = vec!["acpitz".to_string(), "amdgpu edge".to_string(), "k10temp Tctl".to_string()];
    assert_eq!(pick_sensors(&labels), (Some(2), Some(1)));
    assert_eq!(battery_from_wmi(Some(120), Some(2)), (Some(100), true));
    assert_eq!(battery_from_wmi(None, Some(1)), (None, false));
    assert_eq!(battery_from_sysfs(Some("57\n"), Some("Charging\n")), (Some(57), true));
    assert_eq!(battery_from_sysfs(Some("x"), None), (None, false));
    assert!(battery_cache_fresh(59));
    assert!(!battery_cache_fresh(60));
}

#[test]
fn labels() {
    assert_eq!(os_label("Ubuntu", "24.04"), "Ubuntu 24.04");
    assert_eq!(os_label("", ""), "");
    assert_eq!(cpu_label(Some(" Ryzen 7 "), 16), "Ryzen 7 (16 Threads)");
    assert_eq!(cpu_label(Some("Atom"), 1), "Atom");
    assert_eq!(cpu_label(None, 4), "Unknown CPU");
    let lspci = "00:00.0 Host bridge: AMD\n01:00.0 VGA compatible controller: NVIDIA GeForce RTX 3060 \n";
    assert_eq!(lspci_gpu_name(lspci), Some("NVIDIA GeForce RTX 3060".to_string()));
    assert_eq!(lspci_gpu_name("nothing here"), None);
}

#[test]
fn autopilot_texts() {
    assert_eq!(autopilot_install_message("Firefox"), "Installing Firefox…");
    let (stage, msg) = autopilot_announcement(&AutopilotStage::Cleanup);
    assert_eq!(stage, "cleanup");
    assert_eq!(msg, "Cleaning temporary files…");
    assert_eq!(autopilot_announcement(&AutopilotStage::Done).1, "Auto-pilot complete!");
    assert_eq!(autopilot_snapshot_label(), "Aura Auto-Pilot");
}

#[test]
fn autopilot_runs_its_stages_in_order() {
    let plan = autopilot_plan();
    assert_eq!(plan.len(), 5);
    assert!(matches!(plan[0], AutopilotStage::Snapshot));
    assert!(matches!(plan[1], AutopilotStage::Updates));
    assert!(matches!(plan[2], AutopilotStage::Cleanup));
    assert!(matches!(plan[3], AutopilotStage::Residues));
    assert!(matches!(plan[4], AutopilotStage::Done));
}
