use aura_update::config::Config;
use aura_update::scheduler::{
    create_task_command, cron_created, delete_task_command, install_cron_entry, launch_agent,
    launch_agent_created, launch_agent_file, parse_interval, remove_cron_entries, schedule_removed,
    set_schedule, task_created, ScheduleAction, ScheduleInterval,
};

#[test]
fn intervals_are_parsed() {
    assert!(parse_interval("daily") == Ok(ScheduleInterval::Daily));
    assert!(parse_interval("weekly") == Ok(ScheduleInterval::Weekly));
    assert!(parse_interval("startup") == Ok(ScheduleInterval::Startup));
    assert!(parse_interval("hourly") == Err("Invalid interval".to_string()));
}

#[test]
fn schedule_request_is_recorded_then_routed() {
    let mut c = Config::default();
    assert!(set_schedule(&mut c, true, "weekly") == ScheduleAction::Create(ScheduleInterval::Weekly));
    assert!(c.scheduler_enabled);
    assert_eq!(c.scheduler_interval, "weekly");
    assert!(set_schedule(&mut c, false, "daily") == ScheduleAction::Remove);
    assert!(!c.scheduler_enabled);
    assert_eq!(c.scheduler_interval, "daily");
    assert!(set_schedule(&mut c, true, "disabled") == ScheduleAction::Remove);
    assert!(set_schedule(&mut c, true, "monthly") == ScheduleAction::Reject);
    assert_eq!(c.scheduler_interval, "monthly");
    assert_eq!(schedule_removed(), "Schedule removed");
}

#[test]
fn windows_task_arguments() {
    let c = create_task_command("C:\\Aura\\aura.exe", ScheduleInterval::Daily);
    assert_eq!(c.program, "schtasks");
    assert_eq!(
        c.args,
        vec![
            "/create", "/tn", "AuraUpdateCheck", "/tr", "\"C:\\Aura\\aura.exe\" --auto-check", "/sc",
            "DAILY", "/f", "/st", "03:00", "/mo", "1"
        ]
    );
    let c = create_task_command("a.exe", ScheduleInterval::Startup);
    assert_eq!(c.args, vec!["/create", "/tn", "AuraUpdateCheck", "/tr", "\"a.exe\" --auto-check", "/sc", "ONLOGON", "/f"]);
    let d = delete_task_command();
    assert_eq!(d.args, vec!["/delete", "/tn", "AuraUpdateCheck", "/f"]);
    assert_eq!(task_created(ScheduleInterval::Weekly), "Scheduled task created (weekly)");
}

#[test]
fn cron_entries_are_replaced_not_duplicated() {
    let existing = "0 1 * * * backup\n@reboot /opt/aura --auto-check # AuraUpdateCheck\n5 5 * * * other\n";
    assert_eq!(remove_cron_entries(existing), "0 1 * * * backup\n5 5 * * * other");
    let installed = install_cron_entry(existing, "/opt/aura", ScheduleInterval::Daily);
    assert_eq!(
        installed,
        "0 1 * * * backup\n5 5 * * * other\n0 3 * * * /opt/aura --auto-check # AuraUpdateCheck\n"
    );
    // installing again keeps exactly one entry of the check
    let again = install_cron_entry(&installed, "/opt/aura", ScheduleInterval::Weekly);
    assert_eq!(again.matches("AuraUpdateCheck").count(), 1);
    assert!(again.contains("0 3 * * 0 /opt/aura"));
    // removing after installing gives the other lines back
    assert_eq!(remove_cron_entries(&installed), remove_cron_entries(existing));
    assert_eq!(cron_created(ScheduleInterval::Startup), "Cron job created (startup)");
}

#[test]
fn empty_crontab() {
    assert_eq!(remove_cron_entries(""), "");
    assert_eq!(
        install_cron_entry("", "/x", ScheduleInterval::Startup),
        "\n@reboot /x --auto-check # AuraUpdateCheck\n"
    );
}

#[test]
fn launch_agent_plist() {
    let p = launch_agent("/Applications/Aura.app/aura", ScheduleInterval::Daily);
    assert!(p.starts_with("<?xml version=\"1.0\" encoding=\"UTF-8\"?>\n"));
    assert!(p.contains("<string>/Applications/Aura.app/aura</string>"));
    assert!(p.contains("<key>RunAtLoad</key>\n    <false/>"));
    assert!(p.contains("<key>StartInterval</key>\n    <integer>86400</integer>"));
    assert!(p.ends_with("</dict>\n</plist>"));
    let s = launch_agent("/a", ScheduleInterval::Startup);
    assert!(s.contains("<true/>\n    \n</dict>"));
    assert!(!s.contains("StartInterval"));
    let w = launch_agent("/a", ScheduleInterval::Weekly);
    assert!(w.contains("<integer>604800</integer>"));
    assert_eq!(launch_agent_file(), "Library/LaunchAgents/fr.auraneo.auraupdate.check.plist");
    assert_eq!(launch_agent_created(ScheduleInterval::Daily), "LaunchAgent created (daily)");
}
