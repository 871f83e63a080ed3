use aura_update::desktop::{
    admin_probe, check_url, elevation_command, elevation_outcome, is_admin_relaunch, is_root_uid,
    refreshed_tray_menu, startup_relaunch_command, startup_tray_menu, startup_window, tray_action,
    tray_script, tray_version, website_url, StartupWindow, TrayAction,
};
use aura_update::maintenance::Platform;

#[test]
fn admin_relaunch_flag() {
    let args = vec!["aura".to_string(), "--admin-relaunch".to_string()];
    assert!(is_admin_relaunch(&args));
    assert!(!is_admin_relaunch(&vec!["aura".to_string()]));
}

#[test]
fn tray_menus() {
    let m = startup_tray_menu();
    let ids: Vec<&str> = m.iter().map(|t| t.id.as_str()).collect();
    assert_eq!(ids, vec!["tray_show", "tray_autopilot", "tray_settings", "tray_website", "tray_quit"]);
    assert_eq!(m[0].label, "Ouvrir Aura Update");
    let r = refreshed_tray_menu(Some("2.3.0"));
    assert_eq!(r.len(), 6);
    assert_eq!(r[2].id, "tray_check_update");
    assert_eq!(r[2].label, "🆕 Nouvelle mise à jour Aura (2.3.0)");
    let n = refreshed_tray_menu(None);
    assert_eq!(n[2].label, "🔄 Vérifier les mises à jour d'Aura");
    assert_eq!(tray_version(true, Some("1".into())), Some("1".to_string()));
    assert_eq!(tray_version(false, Some("1".into())), None);
}

#[test]
fn tray_actions() {
    assert!(matches!(tray_action("tray_show"), TrayAction::ShowWindow));
    assert!(matches!(tray_action("tray_quit"), TrayAction::Quit));
    assert!(matches!(tray_action("other"), TrayAction::Ignore));
    assert_eq!(tray_script(&TrayAction::AutoPilot), Some("runAutoPilot()".to_string()));
    assert_eq!(tray_script(&TrayAction::Settings), Some("openSettings()".to_string()));
    assert_eq!(tray_script(&TrayAction::Quit), None);
    assert_eq!(website_url(), "https://www.auraneo.fr");
}

#[test]
fn startup_window_modes() {
    assert!(matches!(startup_window("minimized"), StartupWindow::Minimize));
    assert!(matches!(startup_window("tray"), StartupWindow::Hide));
    assert!(matches!(startup_window("visible"), StartupWindow::Show));
}

#[test]
fn admin_checks() {
    assert_eq!(admin_probe(Platform::Windows).program, "net");
    assert_eq!(admin_probe(Platform::Linux).args, vec!["-u"]);
    assert!(is_root_uid("0\n"));
    assert!(!is_root_uid("1000\n"));
}

#[test]
fn elevation_commands() {
    let w = elevation_command(Platform::Windows, "C:\\a.exe", "C:\\");
    assert_eq!(w.program, "powershell.exe");
    assert_eq!(
        w.args[6],
        "Start-Process -FilePath \"C:\\a.exe\" -ArgumentList \"--admin-relaunch\" -WorkingDirectory \"C:\\\" -Verb RunAs"
    );
    let m = elevation_command(Platform::MacOs, "/A/aura", "");
    assert_eq!(m.args[1], "do shell script \"\\\"/A/aura\\\" --admin-relaunch\" with administrator privileges");
    let l = elevation_command(Platform::Linux, "/usr/bin/aura", "");
    assert_eq!(l.program, "pkexec");
    assert_eq!(l.args, vec!["/usr/bin/aura", "--admin-relaunch"]);
    assert_eq!(elevation_outcome(Platform::Windows, false), Err("L'utilisateur a refusé l'élévation UAC.".into()));
    assert_eq!(elevation_outcome(Platform::Linux, false), Err("Refusé".into()));
    assert_eq!(elevation_outcome(Platform::Linux, true), Ok(()));
    let s = startup_relaunch_command("C:\\a.exe", "C:\\");
    assert_eq!(s.args[4], "Start-Process -FilePath 'C:\\a.exe' -WorkingDirectory 'C:\\' -Verb RunAs");
}

#[test]
fn only_web_urls_are_opened() {
    assert!(check_url("https://www.auraneo.fr").is_ok());
    assert!(check_url("http://localhost").is_ok());
    assert_eq!(check_url("file:///etc/passwd"), Err("Only http/https URLs are allowed".into()));
}
