use aura_update::logging::{
    crash_report_error, format_log_line, get_latest_log_path, header_cpu, header_lines, header_os,
    log_error, log_file_name, log_info, log_panic, log_tail, log_warn, purge_old_logs,
    session_header, sort_texts, stamped_line, text_le_exec, todays_log_file_name,
};

fn strs(v: &[&str]) -> Vec<String> {
    v.iter().map(|s| s.to_string()).collect()
}

/// A stamped line is `[YYYY-MM-DD HH:MM:SS.mmm] [LEVEL] message\n`.
fn check_stamped(line: &str, level: &str, msg: &str) {
    assert!(line.starts_with('['));
    let close = line.find(']').unwrap();
    let stamp = &line[1..close];
    assert_eq!(stamp.len(), 23, "stamp {stamp}");
    assert_eq!(&stamp[4..5], "-");
    assert_eq!(&stamp[10..11], " ");
    assert_eq!(&stamp[19..20], ".");
    assert_eq!(&line[close..], format!("] [{level}] {msg}\n"));
}

#[test]
fn log_line_format() {
    assert_eq!(format_log_line("2024-01-01 10:00:00.000", "INFO", "hi"), "[2024-01-01 10:00:00.000] [INFO] hi\n");
    check_stamped(&stamped_line("DEBUG", "x"), "DEBUG", "x");
    check_stamped(&log_info("started"), "INFO", "started");
    check_stamped(&log_warn("slow"), "WARN", "slow");
    check_stamped(&log_error("bad"), "ERROR", "bad");
    check_stamped(&log_panic("boom"), "PANIC", "boom");
}

#[test]
fn log_file_names() {
    assert_eq!(log_file_name("2024-03-05"), "aura_update_2024-03-05.log");
    let t = todays_log_file_name();
    assert!(t.starts_with("aura_update_") && t.ends_with(".log"));
    assert_eq!(t.len(), "aura_update_".len() + 10 + 4);
}

#[test]
fn text_order() {
    let a: Vec<char> = "abc".chars().collect();
    let b: Vec<char> = "abd".chars().collect();
    assert!(text_le_exec(&a, &b));
    assert!(!text_le_exec(&b, &a));
    assert!(text_le_exec(&a, &a));
    assert_eq!(sort_texts(strs(&["b", "a", "ab", ""])), strs(&["", "a", "ab", "b"]));
}

#[test]
fn purge_keeps_the_most_recent_logs() {
    let names = strs(&[
        "aura_update_2024-01-03.log",
        "notes.txt",
        "aura_update_2024-01-01.log",
        "aura_update_2024-01-04.log",
        "aura_update_2024-01-02.log",
    ]);
    assert_eq!(purge_old_logs(&names, 2), strs(&["aura_update_2024-01-01.log", "aura_update_2024-01-02.log"]));
    assert!(purge_old_logs(&names, 10).is_empty());
    assert_eq!(get_latest_log_path(&names), Some("aura_update_2024-01-04.log".to_string()));
    assert_eq!(get_latest_log_path(&strs(&["x.log"])), None);
}

#[test]
fn crash_report_tail_is_last_fifty_lines() {
    let content: String = (1..=60).map(|i| format!("line {i}\n")).collect();
    let t = log_tail(&content);
    assert!(t.starts_with("line 11\n"));
    assert!(t.ends_with("line 60"));
    assert_eq!(t.lines().count(), 50);
    assert_eq!(log_tail("a\nb"), "a\nb");
    assert_eq!(crash_report_error("timeout"), "Failed to send crash report: timeout");
}

#[test]
fn session_header_lines() {
    assert_eq!(header_os(Some("Ubuntu 24.04"), "linux", Some("6.8")), "Ubuntu 24.04 (6.8)");
    assert_eq!(header_os(None, "windows", None), "windows ()");
    assert_eq!(header_cpu(Some(" i7 "), 8), "i7 (8 Threads)");
    assert_eq!(header_cpu(None, 8), "Unknown");
    let h = header_lines("now", "os", "cpu", "15.5", "2.2.7", true);
    assert_eq!(
        h,
        strs(&[
            "=== Aura Update started — now ===",
            "OS: os",
            "CPU: cpu",
            "RAM: 15.5 GB Total",
            "App Version: 2.2.7 (Admin Mode: true)",
            "=================================================",
        ])
    );
    let s = session_header("os", "cpu", "8.0", "1", false);
    assert_eq!(s.len(), 6);
    assert!(s[0].starts_with("=== Aura Update started — "));
    assert_eq!(s[4], "App Version: 1 (Admin Mode: false)");
}
