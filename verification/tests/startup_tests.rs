use aura_update::startup::{
    agent_enabled, agent_name, base_name_exec, clean_registry_path, registry_cut_allowed, registry_program_of, folder_toggle, read_folder_file, FolderFile, FolderToggle, desktop_entry_matches,
    desktop_item, desktop_toggled, folder_entry, is_junk_file, folder_item_missing, missing_program_warning,
    plist_toggled, registry_items, startup_folder_missing, toggle_impl, toggle_not_found,
    toggled_file_name, StartupItem, ToggleRoute, WarnedPaths,
};

fn pairs(v: &[(&str, &str)]) -> Vec<(String, String)> {
    v.iter().map(|(a, b)| (a.to_string(), b.to_string())).collect()
}

#[test]
fn registry_command_lines() {
    assert_eq!(
        clean_registry_path("\"C:\\Program Files\\App\\app.exe\" --minimized"),
        ("C:\\Program Files\\App\\app.exe".to_string(), true)
    );
    assert_eq!(clean_registry_path("C:\\Tools\\RUN.EXE /q"), ("C:\\Tools\\RUN.EXE".to_string(), true));
    assert_eq!(clean_registry_path("  C:\\x\\start.cmd arg"), ("C:\\x\\start.cmd".to_string(), true));
    assert_eq!(clean_registry_path("rundll32 shell32"), ("rundll32 shell32".to_string(), false));
    assert_eq!(clean_registry_path("C:\\ÉTÉ\\APP.EXE x"), ("C:\\ÉTÉ\\APP.EXE".to_string(), true));
}

#[test]
fn missing_program_warned_once() {
    let mut w = WarnedPaths::new();
    assert!(w.first_warning("C:\\gone.exe"));
    assert!(!w.first_warning("C:\\gone.exe"));
    assert!(w.first_warning("C:\\other.exe"));
    assert_eq!(missing_program_warning("C:\\gone.exe"), "Startup path not found (os error 2): C:\\gone.exe");
}

#[test]
fn registry_items_enabled_then_disabled() {
    let enabled = pairs(&[("OneDrive", "od.exe"), ("Steam", "steam.exe")]);
    let disabled = pairs(&[("Steam", "old.exe"), ("Zoom", "zoom.exe")]);
    let r: Vec<StartupItem> = registry_items(&enabled, &disabled);
    assert_eq!(r.len(), 3);
    assert_eq!(r[0].name, "OneDrive");
    assert!(r[0].enabled);
    assert_eq!(r[1].path, "steam.exe");
    assert_eq!(r[2].name, "Zoom");
    assert!(!r[2].enabled);
    assert_eq!(r[2].source, "registry");
}

#[test]
fn startup_folder_names() {
    assert_eq!(base_name_exec("Discord.lnk.disabled"), Some("Discord".to_string()));
    assert_eq!(base_name_exec("Tool.LNK"), Some("Tool".to_string()));
    assert_eq!(folder_entry("Discord.lnk.disabled"), Some(("Discord".to_string(), false)));
    assert_eq!(folder_entry("Slack.lnk"), Some(("Slack".to_string(), true)));
    assert_eq!(folder_entry("desktop.ini"), None);
    assert_eq!(folder_entry(".hidden"), None);
    assert_eq!(folder_entry("notes.txt"), None);
    assert!(is_junk_file("Thumbs.DB"));
    assert!(is_junk_file(".hidden.lnk"));
    assert!(!is_junk_file("Slack.lnk"));
    assert_eq!(toggled_file_name("Slack.lnk", false), Some("Slack.lnk.disabled".to_string()));
    assert_eq!(toggled_file_name("Slack.lnk.DISABLED", true), Some("Slack.lnk".to_string()));
    assert_eq!(toggled_file_name("Slack.lnk", true), None);
    assert_eq!(startup_folder_missing(), "Startup folder not found");
    assert_eq!(folder_item_missing("X"), "Startup item 'X' not found in startup folder");
}

#[test]
fn toggle_routes() {
    assert!(matches!(toggle_impl("registry"), Ok(ToggleRoute::Registry)));
    assert!(matches!(toggle_impl("folder"), Ok(ToggleRoute::Folder)));
    assert!(matches!(toggle_impl("cron"), Err(ref e) if e == "Unknown source type: cron"));
}

#[test]
fn desktop_entries() {
    let content = "[Desktop Entry]\nName=Syncthing\nExec=syncthing\nHidden=true\n";
    assert_eq!(desktop_item("syncthing.desktop", content), ("Syncthing".to_string(), false));
    let (n, on) = desktop_item("tool.desktop", "[Desktop Entry]\nExec=tool\n");
    assert_eq!(n, "tool.desktop");
    assert!(on);
    assert!(desktop_entry_matches(content, "x.desktop", "Syncthing"));
    assert!(desktop_entry_matches("", "syncthing-start.desktop", "syncthing"));
    assert!(!desktop_entry_matches(content, "x.desktop", "Other"));
    assert_eq!(desktop_toggled(content, true), "[Desktop Entry]\nName=Syncthing\nExec=syncthing\nHidden=false\n");
    assert_eq!(desktop_toggled("[Desktop Entry]\nExec=a", false), "[Desktop Entry]\nExec=a\nHidden=true\n");
    assert_eq!(desktop_toggled("Hidden=false\n", false), "Hidden=true\n");
}

#[test]
fn launch_agents() {
    assert_eq!(agent_name("com.example.agent.plist"), "com.example.agent");
    let off = "<dict>\n\t<key>Disabled</key>\n\t<true/>\n</dict>";
    assert!(!agent_enabled(off));
    assert!(agent_enabled("<dict>\n</dict>"));
    assert_eq!(plist_toggled(off, true), "<dict>\n\t<key>Disabled</key>\n\t<false/>\n</dict>");
    assert_eq!(plist_toggled("<dict>\n</dict>", false), "<dict>\n<key>Disabled</key>\n\t<true/>\n</dict>");
    assert_eq!(toggle_not_found(true), "Launch agent not found");
    assert_eq!(toggle_not_found(false), "Startup item not found");
}

#[test]
fn registry_cut_allowed_follows_lowercase_offsets() {
    assert!(registry_cut_allowed("\"C:\\Program Files\\App\\app.exe\" --minimized"));
    assert!(registry_cut_allowed("rundll32 shell32"));
    assert!(registry_cut_allowed("C:\\Tools\\RUN.EXE /q"));
    // 'İ' lower-cases to two characters, so the cut falls past the end.
    assert!(!registry_cut_allowed("C:\\İ.exe"));
}

#[test]
fn registry_program_of_refuses_a_cut_inside_a_character() {
    assert_eq!(registry_program_of("C:\\Tools\\RUN.EXE /q"), Some(("C:\\Tools\\RUN.EXE".to_string(), true)));
    assert_eq!(registry_program_of("C:\\İ.exe"), None);
}

#[test]
fn startup_folder_item_round_trip() {
    let off = toggled_file_name("App.lnk", false).unwrap();
    assert_eq!(off, "App.lnk.disabled");
    assert_eq!(toggled_file_name(&off, true), Some("App.lnk".to_string()));
    assert_eq!(toggled_file_name("App.LNK.DISABLED", true), Some("App.LNK".to_string()));
    assert_eq!(toggled_file_name("App.lnk", true), None);
}

fn names(v: &[&str]) -> Vec<String> {
    v.iter().map(|s| s.to_string()).collect()
}

#[test]
fn folder_toggle_round_trip() {
    let files = names(&["desktop.ini", "Other.lnk", "App.lnk"]);
    let off = folder_toggle(&files, "App", false);
    let (index, new_name) = match off {
        FolderToggle::Rename { index, new_name } => (index, new_name),
        _ => panic!("expected a renaming"),
    };
    assert_eq!((index, new_name.as_str()), (2, "App.lnk.disabled"));
    let mut after = files.clone();
    after[index] = new_name;
    match folder_toggle(&after, "App", true) {
        FolderToggle::Rename { index: 2, new_name } => assert_eq!(new_name, "App.lnk"),
        _ => panic!("expected the name back"),
    }
    assert!(matches!(folder_toggle(&files, "App", true), FolderToggle::Unchanged));
    match folder_toggle(&files, "Missing", true) {
        FolderToggle::Missing { message } => {
            assert_eq!(message, "Startup item 'Missing' not found in startup folder")
        }
        _ => panic!("expected the missing-item error"),
    }
    let accented = names(&["Ⱥrbre.lnk"]);
    match folder_toggle(&accented, "Ⱥrbre", false) {
        FolderToggle::Rename { index: 0, new_name } => {
            assert_eq!(new_name, "Ⱥrbre.lnk.disabled");
            let back = folder_toggle(&vec![new_name], "Ⱥrbre", true);
            assert!(matches!(back, FolderToggle::Rename { index: 0, new_name } if new_name == "Ⱥrbre.lnk"));
        }
        _ => panic!("expected a renaming"),
    }
}

#[test]
fn folder_files_are_read_by_name() {
    assert!(matches!(read_folder_file("desktop.ini"), FolderFile::Skipped));
    assert!(matches!(read_folder_file(".hidden"), FolderFile::Skipped));
    match read_folder_file("Zoom.LNK.Disabled") {
        FolderFile::Item { name, enabled } => {
            assert_eq!(name, "Zoom");
            assert!(!enabled);
        }
        _ => panic!("expected an item"),
    }
    assert!(matches!(read_folder_file("Ⱥ.lnk.disabled"), FolderFile::Item { name, enabled: false } if name == "Ⱥ"));
}
