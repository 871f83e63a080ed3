use aura_update::runner::{
    append_output_line, cap_line, conclude, format_run_id, heartbeat_message, make_run_id,
    request_cancel, spawn_failure_message, start_message, CancelRegistry, RunAction, RunEvent,
    RunProgress, RunSpec,
};

fn spec() -> RunSpec {
    RunSpec {
        task: "t".into(),
        action: "maintenance".into(),
        step: "Mise à jour".into(),
        program: "winget".into(),
        args: vec!["upgrade".into()],
        timeout_secs: 600,
        start_percent: 10,
        done_percent: 90,
    }
}

#[test]
fn cancel_reaches_a_registered_run_only() {
    let mut reg = CancelRegistry::new();
    assert!(!request_cancel(&mut reg, "clean"));
    assert!(!reg.is_cancel_requested("clean"));
    reg.register("clean");
    assert!(!reg.is_cancel_requested("clean"));
    assert!(request_cancel(&mut reg, "clean"));
    assert!(reg.is_cancel_requested("clean"));
    assert!(!reg.is_cancel_requested("other"));
    reg.unregister("clean");
    assert!(!request_cancel(&mut reg, "clean"));
}

#[test]
fn long_lines_are_capped_at_1400_bytes() {
    let short = "a".repeat(1400);
    assert_eq!(cap_line(&short), short);
    let long = "b".repeat(1500);
    let c = cap_line(&long);
    assert_eq!(c, format!("{}…", "b".repeat(1400)));
    assert_eq!(c.len(), 1400 + "…".len());
}

#[test]
fn output_lines_are_tagged_and_blank_ones_dropped() {
    let mut out = String::new();
    append_output_line(&mut out, "stdout", "  hello  ");
    assert_eq!(out, "[stdout] hello");
    append_output_line(&mut out, "stderr", "   ");
    assert_eq!(out, "[stdout] hello");
    append_output_line(&mut out, "stderr", "oops");
    assert_eq!(out, "[stdout] hello\n[stderr] oops");
}

#[test]
fn run_ids() {
    assert_eq!(format_run_id("clean", "20240102T030405", 1234), "clean-20240102T030405-1234");
    let id = make_run_id("update");
    let parts: Vec<&str> = id.split('-').collect();
    assert_eq!(parts.len(), 3);
    assert_eq!(parts[0], "update");
    assert_eq!(parts[1].len(), 15);
    assert_eq!(&parts[1][8..9], "T");
    let n: u32 = parts[2].parse().unwrap();
    assert!((1000..=9999).contains(&n));
}

#[test]
fn messages() {
    assert_eq!(start_message("Nettoyage"), "Nettoyage…");
    assert_eq!(spawn_failure_message("apt", "not found"), "Impossible d'exécuter apt: not found");
    assert_eq!(heartbeat_message(12_999), "Action en cours… 12s");
}

#[test]
fn successful_run_reports_its_output() {
    let mut p = RunProgress::new();
    let a = p.step(RunEvent::Output { stream: "stdout".into(), line: "ok".into() });
    assert!(matches!(a, RunAction::EmitProgress { ref line } if line == "ok"));
    let a = p.step(RunEvent::Tick { elapsed_ms: 5000 });
    assert!(matches!(a, RunAction::EmitHeartbeat { ref message } if message == "Action en cours… 5s"));
    assert!(matches!(p.step(RunEvent::Exited { code: Some(0) }), RunAction::Nothing));
    let o = conclude(&spec(), "rid".into(), &p);
    assert_eq!(o.status, "done");
    assert_eq!(o.message, "[stdout] ok");
    assert_eq!(o.percent, 90);
    let r = o.result.unwrap();
    assert!(r.success);
    assert_eq!(r.run_id, "rid");
    assert_eq!(r.output, "[stdout] ok");
}

#[test]
fn silent_success_names_the_step() {
    let mut p = RunProgress::new();
    p.step(RunEvent::Exited { code: Some(0) });
    let o = conclude(&spec(), "rid".into(), &p);
    assert_eq!(o.message, "Mise à jour terminé avec succès (run_id: rid)");
}

#[test]
fn failed_run_reports_exit_code() {
    let mut p = RunProgress::new();
    p.step(RunEvent::Exited { code: Some(3) });
    let o = conclude(&spec(), "rid".into(), &p);
    assert_eq!(o.status, "error");
    assert_eq!(o.message, "Erreur (code 3)");
    assert_eq!(o.percent, 10);
    assert_eq!(o.result.err(), Some("Erreur (code 3)".to_string()));
    let mut q = RunProgress::new();
    q.step(RunEvent::Exited { code: None });
    assert_eq!(conclude(&spec(), "r".into(), &q).message, "Erreur (code -1)");
}

#[test]
fn cancelled_run_kills_and_ignores_later_exit() {
    let mut p = RunProgress::new();
    assert!(matches!(p.step(RunEvent::CancelRequested), RunAction::KillChild));
    assert!(matches!(p.step(RunEvent::Exited { code: Some(0) }), RunAction::Nothing));
    let o = conclude(&spec(), "rid".into(), &p);
    assert_eq!(o.status, "canceled");
    assert_eq!(o.message, "Action annulée par l'utilisateur");
    assert_eq!(o.result.err(), Some("Action annulée par l'utilisateur".to_string()));
}

#[test]
fn timed_out_run() {
    let mut p = RunProgress::new();
    assert!(matches!(p.step(RunEvent::DeadlinePassed), RunAction::KillChild));
    let o = conclude(&spec(), "rid".into(), &p);
    assert_eq!(o.status, "error");
    assert_eq!(o.message, "Délai dépassé après 600s");
    assert_eq!(o.result.err(), Some("Timeout de 600s atteint".to_string()));
}
