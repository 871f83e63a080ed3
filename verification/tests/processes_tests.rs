use aura_update::config::TurboProfile;
use aura_update::processes::{
    affected_line, game_mode_targets, game_signal, get_heavy_processes, kill_outcome,
    services_script, signal_command, signal_lines, suspend_script, windows_game_lines, ProcessEntry,
};

fn p(pid: u32, name: &str, mb: u64) -> ProcessEntry {
    ProcessEntry { pid, name: name.to_string(), memory_bytes: mb * 1048576 }
}

#[test]
fn heavy_processes_sorted_by_memory() {
    let ps = vec![
        p(1, "a", 100),
        p(2, "svchost.exe", 900),
        p(3, "b", 300),
        p(4, "", 500),
        p(5, "c", 300),
        p(6, "System Idle Process", 1000),
    ];
    // listable: a(100), b(300), c(300); b before c (stable)
    assert_eq!(get_heavy_processes(&ps), vec![2, 4, 0]);
}

#[test]
fn heavy_list_is_capped_at_thirty() {
    let ps: Vec<ProcessEntry> = (0..40).map(|i| p(i, "x", i as u64)).collect();
    let r = get_heavy_processes(&ps);
    assert_eq!(r.len(), 30);
    assert_eq!(r[0], 39);
    assert_eq!(r[29], 10);
    for w in r.windows(2) {
        assert!(ps[w[0]].memory_bytes >= ps[w[1]].memory_bytes);
    }
}

#[test]
fn kill_result() {
    assert_eq!(kill_outcome(true, 4), Ok(true));
    assert_eq!(kill_outcome(false, 4242), Err("Process 4242 not found".to_string()));
}

#[test]
fn game_mode_picks_targets() {
    let procs = vec![
        (10u32, "Chrome.exe".to_string()),
        (11, "code.exe".to_string()),
        (12, "Discord.exe".to_string()),
        (13, "steam.exe".to_string()),
    ];
    let r = game_mode_targets(&procs, None);
    assert_eq!(r, vec![(10, "Chrome.exe".to_string()), (12, "Discord.exe".to_string())]);
    let prof = TurboProfile {
        name: "g".into(),
        whitelist: vec!["DISCORD".into()],
        blacklist: vec!["steam".into()],
    };
    let r = game_mode_targets(&procs, Some(&prof));
    assert_eq!(r, vec![(10, "Chrome.exe".to_string()), (13, "steam.exe".to_string())]);
}

#[test]
fn game_mode_scripts() {
    assert_eq!(affected_line("Suspendu", "chrome", 10), "Suspendu: chrome (PID 10)");
    assert_eq!(
        suspend_script(&vec![1, 22], true),
        "$pids=@(1,22); $pids | ForEach-Object { Suspend-Process -Id $_ -ErrorAction SilentlyContinue }"
    );
    assert_eq!(
        suspend_script(&vec![], false),
        "$pids=@(); $pids | ForEach-Object { Resume-Process -Id $_ -ErrorAction SilentlyContinue }"
    );
    let s = services_script(true);
    assert!(s.starts_with("sc.exe stop SysMain 2>$null; sc.exe stop WSearch 2>$null"));
    assert!(s.ends_with("sc.exe stop DusmSvc 2>$null"));
    assert!(services_script(false).contains("sc.exe start BITS 2>$null"));
    assert_eq!(
        windows_game_lines(true),
        vec!["Services: stopped 7", "PowerPlan: Ultimate Performance", "System: max performance"]
    );
    assert_eq!(game_signal(false), "CONT");
    let c = signal_command(true, 77);
    assert_eq!(c.program, "kill");
    assert_eq!(c.args, vec!["-STOP", "77"]);
}

#[test]
fn signal_lines_list_every_target() {
    let t = vec![(12u32, "Discord".to_string()), (40u32, "slack".to_string())];
    assert_eq!(signal_lines(true, &t), vec!["STOP: Discord (PID 12)", "STOP: slack (PID 40)"]);
    assert_eq!(signal_lines(false, &t)[1], "CONT: slack (PID 40)");
    assert!(signal_lines(true, &Vec::new()).is_empty());
}
