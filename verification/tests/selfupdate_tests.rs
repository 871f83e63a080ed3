use aura_update::selfupdate::{
    app_update_info, download_event, extracted_installer, installer_command, installer_failure,
    install_first_step, installer_file_name, is_newer_version, parse_version, payload_kind, phase_event, pick_windows_asset, preferred_install_dir,
    zip_extraction_script, InstallGuard, PayloadKind,
};

fn pairs(v: &[(&str, &str)]) -> Vec<(String, String)> {
    v.iter().map(|(a, b)| (a.to_string(), b.to_string())).collect()
}

#[test]
fn update_info() {
    let i = app_update_info("2.2.7".into(), Some(("2.3.0".into(), Some("notes".into()))));
    assert!(i.available);
    assert_eq!(i.current_version, "2.2.7");
    assert_eq!(i.version, Some("2.3.0".to_string()));
    assert_eq!(i.release_notes, Some("notes".to_string()));
    let n = app_update_info("2.2.7".into(), None);
    assert!(!n.available);
    assert!(n.version.is_none() && n.release_notes.is_none());
}

#[test]
fn progress_events() {
    let p = phase_event("installing", 100);
    assert_eq!(p.phase, "installing");
    assert_eq!((p.downloaded, p.total, p.percent), (0, 0, 100));
    let d = download_event(30, Some(120));
    assert_eq!(d.phase, "downloading");
    assert_eq!((d.downloaded, d.total, d.percent), (30, 120, 25));
    let u = download_event(30, None);
    assert_eq!((u.total, u.percent), (0, 0));
}

#[test]
fn one_installation_at_a_time() {
    let mut g = InstallGuard::new();
    assert!(g.begin().is_ok());
    assert_eq!(g.begin(), Err("Une mise à jour est déjà en cours".to_string()));
    g.end();
    assert!(!g.in_progress);
    assert!(g.begin().is_ok());
}

#[test]
fn windows_asset_preference() {
    let p = pairs(&[("linux-x86_64", "l"), ("windows-x86_64-nsis", "n"), ("windows-x86_64-msi", "m")]);
    assert_eq!(pick_windows_asset(&p), Ok("m".to_string()));
    let q = pairs(&[("windows-x86_64-nsis", "n"), ("windows-x86_64", "w")]);
    assert_eq!(pick_windows_asset(&q), Ok("w".to_string()));
    assert_eq!(
        pick_windows_asset(&pairs(&[("darwin-aarch64", "d")])),
        Err("Aucun payload Windows trouvé dans updater.json".to_string())
    );
}

#[test]
fn install_directory() {
    assert_eq!(preferred_install_dir("  D:\\Apps ", true, Some("C:\\x".into())), Ok("D:\\Apps".to_string()));
    assert_eq!(preferred_install_dir("D:\\Apps", false, Some("C:\\x".into())), Ok("C:\\x".to_string()));
    assert_eq!(preferred_install_dir("", true, Some("C:\\x".into())), Ok("C:\\x".to_string()));
    assert_eq!(
        preferred_install_dir("", true, None),
        Err("Impossible de déterminer le dossier d'installation courant".to_string())
    );
}

#[test]
fn payloads_and_installers() {
    assert!(matches!(payload_kind("https://x/updater.zip"), PayloadKind::Zip));
    assert!(matches!(payload_kind("https://x/setup.MSI"), PayloadKind::Installer { ref extension } if extension == "msi"));
    assert!(matches!(payload_kind("https://x/setup.exe"), PayloadKind::Installer { ref extension } if extension == "exe"));
    assert_eq!(installer_file_name("msi"), "aura-update-installer.msi");
    assert_eq!(
        zip_extraction_script("C:\\t\\u.zip", "C:\\t\\u"),
        "$zip='C:\\t\\u.zip';$dst='C:\\t\\u';Expand-Archive -Path $zip -DestinationPath $dst -Force;Get-ChildItem -Path $dst -Recurse -File | Where-Object { $_.Extension -in '.msi','.exe' } | Select-Object -First 1 -ExpandProperty FullName"
    );
    assert_eq!(extracted_installer(true, " C:\\t\\setup.msi\r\n", ""), Ok("C:\\t\\setup.msi".to_string()));
    assert_eq!(extracted_installer(true, "  ", ""), Err("Archive updater.zip sans .msi/.exe".to_string()));
    assert_eq!(extracted_installer(false, "", " denied "), Err("denied".to_string()));
    let m = installer_command("C:\\i.msi", Some("MSI"), "D:\\A");
    assert_eq!(m.program, "msiexec");
    assert_eq!(m.args, vec!["/i", "C:\\i.msi", "/qn", "/norestart", "TARGETDIR=D:\\A"]);
    let e = installer_command("C:\\i.exe", Some("exe"), "D:\\A");
    assert_eq!(e.program, "C:\\i.exe");
    assert_eq!(e.args, vec!["/S", "/D=D:\\A"]);
    assert_eq!(installer_failure("", Some(1603)), "Installateur terminé avec code Some(1603)");
    assert_eq!(installer_failure("", None), "Installateur terminé avec code None");
    assert_eq!(installer_failure(" oops ", Some(1)), "oops");
}

#[test]
fn only_a_newer_version_is_offered() {
    assert!(is_newer_version("2.2.7", "2.2.8"));
    assert!(is_newer_version("2.2.7", "v2.3.0"));
    assert!(is_newer_version("2.2.7", "3.0.0"));
    assert!(!is_newer_version("2.2.7", "2.2.7"));
    assert!(!is_newer_version("2.2.7", "2.2.6"));
    assert!(!is_newer_version("2.2.7", "2.10"));
    assert!(!is_newer_version("2.2.7", "2.2.x"));
    assert_eq!(parse_version("v10.20.30"), Some((10, 20, 30)));
    assert_eq!(parse_version("1.2.99999999999999999999"), None);
}

#[test]
fn installation_first_step() {
    let (none, stop) = install_first_step(false);
    assert_eq!(none.phase, "none");
    assert_eq!(stop, Some("Aucune nouvelle version disponible".to_string()));
    let (start, go) = install_first_step(true);
    assert_eq!((start.phase.as_str(), start.percent), ("starting", 0));
    assert!(go.is_none());
}
