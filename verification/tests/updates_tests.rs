use aura_update::updates::{
    brew_packages, first_word_or_exec, install_command_for, install_outcome, make_package,
    parse_apt, parse_dnf, parse_flatpak, parse_lines, parse_mas, parse_pacman, parse_snap,
    parse_softwareupdate, parse_windows_update, parse_winget, progress_percent,
    merge_updates, reboot_pending_package, scan_summary, update_menu_label, BrewEntry, LineFormat,
};

#[test]
fn apt_upgradable() {
    let text = "Listing... Done\nfirefox/jammy-updates 125.0+build3 amd64 [upgradable from: 124.0]\nvim/jammy 2:9.0 amd64 [upgradable from: 2:8.2]\n";
    let p = parse_apt(text);
    assert_eq!(p.len(), 2);
    assert_eq!(p[0].id, "apt-firefox");
    assert_eq!(p[0].name, "firefox");
    assert_eq!(p[0].new_version, "125.0+build3");
    assert_eq!(p[0].current_version, "upgradable from: 124.0");
    assert_eq!(p[0].manager, "apt");
    assert!(p[0].needs_admin);
    assert!(!p[0].pending_reboot);
}

#[test]
fn apt_current_version_between_brackets() {
    let p = parse_apt("pkg/x 2.0 all [upgradable from: 1.0] [extra]");
    assert_eq!(p[0].current_version, "?");
    let q = parse_apt("pkg/x 2.0 all [upgradable from: 1.0]");
    assert_eq!(q[0].current_version, "upgradable from: 1.0");
    assert!(parse_apt("pkg/x [upgradable").is_empty() == false);
    assert!(parse_apt("WARNING: apt does not have a stable CLI interface.").is_empty());
}

#[test]
fn other_line_formats() {
    let d = parse_dnf("Last metadata expiration check\nkernel.x86_64  6.8.1  updates\n\n");
    assert_eq!(d.len(), 1);
    assert_eq!(d[0].id, "dnf-kernel");
    assert_eq!(d[0].new_version, "6.8.1");
    assert_eq!(d[0].current_version, "installed");
    let p = parse_pacman("linux 6.7.1 -> 6.8.0\nbad line\n");
    assert_eq!(p.len(), 1);
    assert_eq!(p[0].current_version, "6.7.1");
    assert_eq!(p[0].new_version, "6.8.0");
    let s = parse_snap("Name Version Rev\nfirefox 125.0 4000 latest\n");
    assert_eq!(s.len(), 1);
    assert_eq!(s[0].id, "snap-firefox");
    assert!(!s[0].needs_admin);
    let f = parse_flatpak("org.mozilla.firefox\t125.0\norg.gimp.GIMP\n");
    assert_eq!(f.len(), 2);
    assert_eq!(f[0].id, "flatpak-org.mozilla.firefox");
    assert_eq!(f[0].name, "firefox");
    assert_eq!(f[1].new_version, "latest");
    let m = parse_mas("497799835 Xcode (15.3 -> 15.4)\n");
    assert_eq!(m[0].id, "mas-497799835");
    assert_eq!(m[0].name, "Xcode");
    assert_eq!(parse_lines(LineFormat::Pacman, "a 1 -> 2").len(), 1);
    let v: Vec<char> = "  hello world".chars().collect();
    assert_eq!(first_word_or_exec(&v, "?"), "hello");
    assert_eq!(first_word_or_exec(&[], "?"), "?");
}

#[test]
fn windows_update_search_output() {
    let p = parse_windows_update("KB123 Security|1.0|security\n\nnoise\nDriver X|2.1\n");
    assert_eq!(p.len(), 2);
    assert_eq!(p[0].id, "wu-0");
    assert_eq!(p[0].name, "KB123 Security");
    assert_eq!(p[0].new_version, "1.0");
    assert_eq!(p[0].pkg_type, "security");
    assert_eq!(p[1].id, "wu-1");
    assert_eq!(p[1].pkg_type, "system");
    assert_eq!(p[1].manager, "windows-update");
}

#[test]
fn softwareupdate_list() {
    let text = "Software Update found the following new or updated software:\n* Label: macOS Sonoma 14.5-23F79\n\tTitle: macOS Sonoma 14.5, Version: 14.5, Size: 1G, Recommended: YES, Action: restart,\n* Label: Safari17.5\n";
    let p = parse_softwareupdate(text);
    assert_eq!(p.len(), 2);
    assert_eq!(p[0].id, "su-0");
    assert_eq!(p[0].name, "macOS Sonoma 14.5-23F79");
    assert_eq!(p[0].pkg_type, "critical");
    assert_eq!(p[1].name, "Safari17.5");
    assert_eq!(p[1].pkg_type, "system");
    assert!(parse_softwareupdate("No new software available.").is_empty());
}

#[test]
fn winget_table() {
    let text = "Name              Id                  Version   Available Source\n\
----------------------------------------------------------------\n\
Mozilla Firefox   Mozilla.Firefox     124.0     125.0     winget\n\
2 upgrade(s) available.\n";
    let p = parse_winget(text);
    assert_eq!(p.len(), 1);
    assert_eq!(p[0].id, "winget-Mozilla.Firefox");
    assert_eq!(p[0].name, "Mozilla Firefox");
    assert_eq!(p[0].current_version, "124.0");
    assert_eq!(p[0].new_version, "125.0");
    assert!(parse_winget("No installed package found").is_empty());
}

#[test]
fn homebrew_entries() {
    let f = vec![BrewEntry { name: Some("wget".into()), installed: Some("1.21".into()), current: Some("1.24".into()) }];
    let c = vec![BrewEntry { name: Some("firefox".into()), installed: None, current: None }];
    let p = brew_packages(&f, &c);
    assert_eq!(p.len(), 2);
    assert_eq!(p[0].id, "brew-wget");
    assert_eq!(p[0].current_version, "1.21");
    assert_eq!(p[1].current_version, "?");
    assert_eq!(p[1].new_version, "latest");
}

#[test]
fn install_commands() {
    let w = make_package("winget-Mozilla.Firefox".into(), "Firefox".into(), "1".into(), "2".into(), "winget", "app", false);
    let c = install_command_for(&w).ok().unwrap();
    assert_eq!(c.program, "cmd");
    assert_eq!(
        c.args,
        vec!["/c", "chcp 65001 > nul && winget upgrade --id Mozilla.Firefox --silent --force --accept-package-agreements --accept-source-agreements"]
    );
    let a = make_package("apt-vim".into(), "vim".into(), "1".into(), "2".into(), "apt", "app", true);
    let c = install_command_for(&a).ok().unwrap();
    assert_eq!(c.program, "apt-get");
    assert_eq!(c.args, vec!["install", "-y", "vim"]);
    let u = make_package("wu-0".into(), "KB'1".into(), "".into(), "".into(), "windows-update", "system", true);
    let c = install_command_for(&u).ok().unwrap();
    assert!(c.args[2].contains("-like '*KB''1*'"));
    let x = make_package("x".into(), "x".into(), "".into(), "".into(), "nix", "app", false);
    assert_eq!(install_command_for(&x).err(), Some("Unknown manager: nix".to_string()));
    assert_eq!(install_outcome(false, " E: locked \n"), Err("E: locked".to_string()));
    assert_eq!(install_outcome(true, "warn"), Ok(()));
}

#[test]
fn reboot_notice_and_labels() {
    let r = reboot_pending_package();
    assert_eq!(r.id, "wu-reboot");
    assert!(r.pending_reboot);
    assert_eq!(r.pkg_type, "reboot");
    assert_eq!(update_menu_label(Some("")), "🔄 Vérifier les mises à jour d'Aura");
    assert_eq!(progress_percent(50, 200), 25);
    assert_eq!(progress_percent(5, 0), 0);
    assert_eq!(progress_percent(u64::MAX, u64::MAX), u64::MAX / u64::MAX);
    assert_eq!(scan_summary(3), "Found 3 update(s)");
}

#[test]
fn update_lists_are_merged_in_order_with_the_reboot_notice_last() {
    let text = "Name Id Version Available Source\n------------------------------------------\nGit Git.Git 2.40 2.41 winget\n";
    let wu = || vec![make_package("KB1".into(), "Patch".into(), String::new(), String::new(), "windows-update", "windows-update", true)];
    let n = parse_winget(text).len();
    let merged = merge_updates(vec![parse_winget(text), wu()], true);
    assert_eq!(merged.len(), n + 2);
    assert_eq!(merged[n].id, "KB1");
    assert_eq!(merged[merged.len() - 1].id, "wu-reboot");
    assert!(merged[merged.len() - 1].pending_reboot);
    let plain = merge_updates(vec![wu(), Vec::new()], false);
    assert_eq!(plain.len(), 1);
    assert!(merge_updates(Vec::new(), false).is_empty());
}
