use aura_update::browsers::BaseDir;
use aura_update::cleanup::{
    appx_check, appx_removal_script, apt_cleanup_line, apt_purge_command, apt_residue, check_temp_size_folders,
    dism_cleanup_line, dism_residue, found_item, is_dpkg_installed, is_reported_installed,
    make_report, package_label_exec, pacman_cleanup, pacman_residue, purge_message,
    purge_selection, record_freed, scan_cleanup_folders, temp_alert, thumbnail_cache_file,
    unix_bloatware_list, windows_bloatware_list, CleanupItem, DismOutcome,
};
use aura_update::maintenance::Platform;

fn item(path: &str, size: u64) -> CleanupItem {
    CleanupItem { path: path.into(), size_bytes: size, category: "temp".into(), description: "d".into() }
}

fn strs(v: &[&str]) -> Vec<String> {
    v.iter().map(|s| s.to_string()).collect()
}

#[test]
fn report_totals_its_items() {
    let r = make_report(vec![item("a", 10), item("b", 32)]);
    assert_eq!(r.total_bytes, 42);
    assert_eq!(r.items.len(), 2);
    assert_eq!(make_report(vec![]).total_bytes, 0);
}

#[test]
fn empty_folders_are_not_listed() {
    assert!(found_item("/tmp".into(), 0, "temp", "x").is_none());
    let i = found_item("/tmp".into(), 5, "temp", "System temp").unwrap();
    assert_eq!(i.path, "/tmp");
    assert_eq!(i.size_bytes, 5);
    assert_eq!(i.category, "temp");
    assert_eq!(i.description, "System temp");
}

#[test]
fn scanned_folders_per_platform() {
    let w = scan_cleanup_folders(&Platform::Windows, false);
    assert_eq!(w.len(), 4);
    assert!(matches!(w[0].folder.base, BaseDir::Temp));
    assert_eq!(w[2].folder.rel, "SoftwareDistribution\\Download");
    assert_eq!(w[2].category, "update_cache");
    let m = scan_cleanup_folders(&Platform::MacOs, false);
    assert_eq!(m[0].folder.rel, "Library/Caches");
    let l = scan_cleanup_folders(&Platform::Linux, false);
    assert_eq!(l[0].folder.rel, "/tmp");
    assert!(scan_cleanup_folders(&Platform::Linux, true).len() >= l.len());
    assert!(!check_temp_size_folders(&Platform::Windows).is_empty());
}

#[test]
fn thumbnail_caches() {
    assert!(thumbnail_cache_file("thumbcache_256.db"));
    assert!(thumbnail_cache_file("ThumbCache_IDX.DB"));
    assert!(!thumbnail_cache_file("iconcache_16.db"));
}

#[test]
fn temp_alert_above_one_gib() {
    assert!(!temp_alert(1073741824));
    assert!(temp_alert(1073741825));
}

#[test]
fn freed_space_is_recorded() {
    let mut h = vec![1u64; 10];
    record_freed(&mut h, 7);
    assert_eq!(h.len(), 10);
    assert_eq!(*h.last().unwrap(), 7);
}

#[test]
fn os_residues() {
    let d = dism_residue("...\nComponent Store Cleanup Recommended : Yes\n").unwrap();
    assert_eq!(d.path, "dism-component-store");
    assert_eq!(d.category, "os_residue");
    assert_eq!(d.description, "Windows component store (old system files)");
    assert!(dism_residue("Component Store Cleanup Recommended : No").is_none());
    assert!(dism_residue("Nettoyage du magasin de composants recommandé : Oui").is_some());
    let a = apt_residue("Reading...\nRemv libfoo [1.0]\nRemv libbar [2.0]\n").unwrap();
    assert_eq!(a.description, "2 orphaned packages (apt autoremove)");
    assert!(apt_residue("0 upgraded").is_none());
    let p = pacman_residue("a\n\nb\n  \nc\n").unwrap();
    assert_eq!(p.description, "3 orphaned packages (pacman)");
    assert!(pacman_residue("").is_none());
}

#[test]
fn residue_cleanup_lines() {
    assert_eq!(dism_cleanup_line(DismOutcome::Succeeded), "DISM cleanup complete");
    assert_eq!(dism_cleanup_line(DismOutcome::Failed { stderr: "x".into() }), "DISM error: x");
    assert_eq!(dism_cleanup_line(DismOutcome::TimedOut), "DISM cleanup timed out after 3 minutes");
    assert_eq!(apt_cleanup_line(true), "apt autoremove complete");
    assert_eq!(apt_cleanup_line(false), "apt autoremove failed");
    let (cmd, msg) = pacman_cleanup("foo\n\nbar\n").unwrap();
    assert_eq!(cmd.program, "pacman");
    assert_eq!(cmd.args, vec!["-Rns", "--noconfirm", "foo", "bar"]);
    assert_eq!(msg, "Removed 2 orphaned packages");
    assert!(pacman_cleanup("\n").is_none());
}

#[test]
fn bloatware() {
    let w = windows_bloatware_list();
    assert_eq!(w[0], "Microsoft.BingNews");
    assert_eq!(w.len(), 22);
    assert!(w.iter().all(|p| !p.contains("Xbox")));
    assert_eq!(unix_bloatware_list(false)[0], ("GarageBand".to_string(), "GarageBand.app".to_string()));
    assert_eq!(unix_bloatware_list(true).len(), 11);
    assert_eq!(package_label_exec("Microsoft.BingNews"), "BingNews");
    assert_eq!(package_label_exec("Clipchamp"), "Clipchamp");
    assert_eq!(
        appx_check("Microsoft.People"),
        "if (Get-AppxPackage -Name '*Microsoft.People*' -ErrorAction SilentlyContinue) { Write-Output 'Microsoft.People=installed' } else { Write-Output 'Microsoft.People=not_found' }"
    );
    assert!(is_reported_installed("a=not_found\nMicrosoft.People=installed\n", "Microsoft.People"));
    assert!(!is_reported_installed("Microsoft.People=not_found", "Microsoft.People"));
    assert!(is_dpkg_installed("totem\t\t\t\tinstall\n", "totem"));
    assert!(!is_dpkg_installed("cheese\tdeinstall\n", "totem"));
}

#[test]
fn purge() {
    let known = strs(&["A", "B", "C"]);
    assert_eq!(purge_selection(&known, &vec![]), known);
    assert_eq!(purge_selection(&known, &strs(&["C", "X", "A"])), strs(&["C", "A"]));
    assert_eq!(
        appx_removal_script(&strs(&["A", "B"])),
        "Get-AppxPackage -Name *A* | Remove-AppxPackage -ErrorAction SilentlyContinue; Get-AppxPackage -Name *B* | Remove-AppxPackage -ErrorAction SilentlyContinue"
    );
    assert_eq!(purge_message(3), "Purge terminée : 3 applications supprimées.");
    let c = apt_purge_command(&strs(&["totem", "cheese"]));
    assert_eq!(c.program, "sudo");
    assert_eq!(c.args, vec!["apt-get", "purge", "-y", "totem", "cheese"]);
}
