//! The automatic update check: the setting, and the scheduled task, cron
//! entry or launch agent that runs the program with `--auto-check`.
use vstd::prelude::*;

use crate::config::{Config, ConfigView};
use crate::shell::{command_with, ShellCommand};
use crate::text::{
    chars_of, contains, contains_seq, occurs_at, join, lines, lines_of, owned, push_chars, push_char,
    push_decimal, push_str, text_eq, decimal,
};

verus! {

/// How often the automatic check runs.
#[derive(PartialEq, Eq, Structural, Clone, Copy)]
pub enum ScheduleInterval {
    Daily,
    Weekly,
    Startup,
}

/// The interval named by a setting value.
pub open spec fn interval_of(s: Seq<char>) -> Option<ScheduleInterval> {
    if s == "daily"@ {
        Some(ScheduleInterval::Daily)
    } else if s == "weekly"@ {
        Some(ScheduleInterval::Weekly)
    } else if s == "startup"@ {
        Some(ScheduleInterval::Startup)
    } else {
        None
    }
}

/// Reads an interval name; any other name is refused.
pub fn parse_interval(s: &str) -> (r: Result<ScheduleInterval, String>)
    ensures
        match interval_of(s@) {
            Some(i) => r == Ok::<ScheduleInterval, String>(i),
            None => (r matches Err(e) && e@ == "Invalid interval"@),
        },
{
    if text_eq(s, "daily") {
        Ok(ScheduleInterval::Daily)
    } else if text_eq(s, "weekly") {
        Ok(ScheduleInterval::Weekly)
    } else if text_eq(s, "startup") {
        Ok(ScheduleInterval::Startup)
    } else {
        Err(owned("Invalid interval"))
    }
}

/// What follows a change of the schedule setting.
#[derive(PartialEq, Eq, Structural, Clone, Copy)]
pub enum ScheduleAction {
    /// Remove the scheduled check.
    Remove,
    /// Install the check at this interval.
    Create(ScheduleInterval),
    /// The interval is unknown: the change is refused.
    Reject,
}

/// The action for a requested schedule.
pub open spec fn schedule_action(enabled: bool, interval: Seq<char>) -> ScheduleAction {
    if !enabled || interval == "disabled"@ {
        ScheduleAction::Remove
    } else {
        match interval_of(interval) {
            Some(i) => ScheduleAction::Create(i),
            None => ScheduleAction::Reject,
        }
    }
}

/// The settings after a schedule request: both fields take the requested values.
pub open spec fn scheduled_config(c: ConfigView, enabled: bool, interval: Seq<char>) -> ConfigView {
    ConfigView { scheduler_enabled: enabled, scheduler_interval: interval, ..c }
}

/// Records a schedule request in the settings (it is kept even when the
/// interval is then refused) and says what to do with the system scheduler.
pub fn set_schedule(cfg: &mut Config, enabled: bool, interval: &str) -> (a: ScheduleAction)
    ensures
        final(cfg)@ == scheduled_config(old(cfg)@, enabled, interval@),
        a == schedule_action(enabled, interval@),
{
    cfg.scheduler_enabled = enabled;
    cfg.scheduler_interval = owned(interval);
    if !enabled || text_eq(interval, "disabled") {
        ScheduleAction::Remove
    } else {
        match parse_interval(interval) {
            Ok(i) => ScheduleAction::Create(i),
            Err(_) => ScheduleAction::Reject,
        }
    }
}

/// The message once the schedule has been removed.
pub fn schedule_removed() -> (r: String)
    ensures
        r@ == "Schedule removed"@,
{
    owned("Schedule removed")
}

// ──────────────────────────── Windows ─────────────────────────────────────

/// The name of the scheduled task.
pub open spec fn task_name() -> Seq<char> {
    "AuraUpdateCheck"@
}

/// `schtasks` arguments that delete the task.
pub fn delete_task_command() -> (c: ShellCommand)
    ensures
        c@.program == "schtasks"@,
        c@.args == seq!["/delete"@, "/tn"@, task_name(), "/f"@],
{
    let mut args: Vec<String> = Vec::new();
    args.push(owned("/delete"));
    args.push(owned("/tn"));
    args.push(owned("AuraUpdateCheck"));
    args.push(owned("/f"));
    let c = command_with("schtasks", args);
    assert(c@.args =~= seq!["/delete"@, "/tn"@, task_name(), "/f"@]);
    c
}

/// The `/sc` value of an interval.
pub open spec fn task_schedule(i: ScheduleInterval) -> Seq<char> {
    match i {
        ScheduleInterval::Daily => "DAILY"@,
        ScheduleInterval::Weekly => "WEEKLY"@,
        ScheduleInterval::Startup => "ONLOGON"@,
    }
}

/// The command line that the task runs.
pub open spec fn task_run_line(exe: Seq<char>) -> Seq<char> {
    "\""@ + exe + "\" --auto-check"@
}

/// The `schtasks` arguments that create the task: at logon, or at 03:00
/// every day or every week.
pub open spec fn create_task_args(exe: Seq<char>, i: ScheduleInterval) -> Seq<Seq<char>> {
    let base = seq!["/create"@, "/tn"@, task_name(), "/tr"@, task_run_line(exe), "/sc"@, task_schedule(i), "/f"@];
    match i {
        ScheduleInterval::Startup => base,
        _ => base + seq!["/st"@, "03:00"@, "/mo"@, "1"@],
    }
}

/// The `schtasks` command that creates the task.
pub fn create_task_command(exe: &str, i: ScheduleInterval) -> (c: ShellCommand)
    ensures
        c@.program == "schtasks"@,
        c@.args == create_task_args(exe@, i),
{
    let mut run = owned("\"");
    push_str(&mut run, exe);
    push_str(&mut run, "\" --auto-check");
    let sc = match i {
        ScheduleInterval::Daily => "DAILY",
        ScheduleInterval::Weekly => "WEEKLY",
        ScheduleInterval::Startup => "ONLOGON",
    };
    let mut args: Vec<String> = Vec::new();
    args.push(owned("/create"));
    args.push(owned("/tn"));
    args.push(owned("AuraUpdateCheck"));
    args.push(owned("/tr"));
    args.push(run);
    args.push(owned("/sc"));
    args.push(owned(sc));
    args.push(owned("/f"));
    match i {
        ScheduleInterval::Startup => {},
        _ => {
            args.push(owned("/st"));
            args.push(owned("03:00"));
            args.push(owned("/mo"));
            args.push(owned("1"));
        },
    }
    let c = command_with("schtasks", args);
    assert(c@.args =~= create_task_args(exe@, i));
    c
}

/// The name of an interval as the request gave it.
pub open spec fn interval_name(i: ScheduleInterval) -> Seq<char> {
    match i {
        ScheduleInterval::Daily => "daily"@,
        ScheduleInterval::Weekly => "weekly"@,
        ScheduleInterval::Startup => "startup"@,
    }
}

fn push_interval(r: &mut String, i: ScheduleInterval)
    ensures
        final(r)@ == old(r)@ + interval_name(i),
{
    match i {
        ScheduleInterval::Daily => push_str(r, "daily"),
        ScheduleInterval::Weekly => push_str(r, "weekly"),
        ScheduleInterval::Startup => push_str(r, "startup"),
    }
}

/// The message once the scheduled task exists.
pub fn task_created(i: ScheduleInterval) -> (r: String)
    ensures
        r@ == "Scheduled task created ("@ + interval_name(i) + ")"@,
{
    let mut r = owned("Scheduled task created (");
    push_interval(&mut r, i);
    push_str(&mut r, ")");
    r
}

// ───────────────────────────── Linux ──────────────────────────────────────

/// The marker that tags the cron entry of the check.
pub open spec fn cron_marker() -> Seq<char> {
    "AuraUpdateCheck"@
}

/// The cron time expression of an interval.
pub open spec fn cron_expr(i: ScheduleInterval) -> Seq<char> {
    match i {
        ScheduleInterval::Daily => "0 3 * * *"@,
        ScheduleInterval::Weekly => "0 3 * * 0"@,
        ScheduleInterval::Startup => "@reboot"@,
    }
}

/// The cron entry of the check.
pub open spec fn cron_entry(exe: Seq<char>, i: ScheduleInterval) -> Seq<char> {
    cron_expr(i) + " "@ + exe + " --auto-check # "@ + cron_marker()
}

/// The lines of a crontab that are not entries of the check, in order.
pub open spec fn foreign_lines(ls: Seq<Seq<char>>) -> Seq<Seq<char>>
    decreases ls.len(),
{
    if ls.len() == 0 {
        Seq::<Seq<char>>::empty()
    } else if contains_seq(ls.last(), cron_marker()) {
        foreign_lines(ls.drop_last())
    } else {
        foreign_lines(ls.drop_last()).push(ls.last())
    }
}

/// A crontab without the entries of the check: its other lines, joined by
/// newlines.
pub open spec fn crontab_without_check(existing: Seq<char>) -> Seq<char> {
    join(foreign_lines(lines(existing)), "\n"@)
}

/// The crontab that installs the check: the other lines, then the entry.
pub open spec fn crontab_with_check(existing: Seq<char>, exe: Seq<char>, i: ScheduleInterval) -> Seq<char> {
    crontab_without_check(existing) + "\n"@ + cron_entry(exe, i) + "\n"@
}

/// Removes the entries of the check from a crontab.
pub fn remove_cron_entries(existing: &str) -> (r: String)
    ensures
        r@ == crontab_without_check(existing@),
{
    let ls = lines_of(existing);
    let ghost all = lines(existing@);
    let marker = chars_of("AuraUpdateCheck");
    proof {
        reveal_strlit("AuraUpdateCheck");
        reveal_strlit("\n");
    }
    let mut r = String::new();
    let mut any = false;
    let mut i: usize = 0;
    assert(all.subrange(0, 0) =~= Seq::<Seq<char>>::empty());
    while i < ls.len()
        invariant
            i <= ls@.len(),
            ls@.len() == all.len(),
            all == lines(existing@),
            marker@ == cron_marker(),
            "\n"@ == seq!['\n'],
            forall|k: int| 0 <= k < ls@.len() ==> ls@[k]@ == all[k],
            any == (foreign_lines(all.subrange(0, i as int)).len() > 0),
            r@ == join(foreign_lines(all.subrange(0, i as int)), "\n"@),
        decreases ls@.len() - i,
    {
        let ghost prev = foreign_lines(all.subrange(0, i as int));
        assert(all.subrange(0, i + 1).drop_last() =~= all.subrange(0, i as int));
        assert(all.subrange(0, i + 1).last() == all[i as int]);
        if !contains(ls[i].as_slice(), marker.as_slice()) {
            if any {
                push_char(&mut r, '\n');
            }
            push_chars(&mut r, ls[i].as_slice());
            proof {
                let next = prev.push(all[i as int]);
                assert(next.drop_last() =~= prev);
                if prev.len() > 0 {
                    assert(r@ =~= join(prev, "\n"@) + "\n"@ + all[i as int]);
                } else {
                    assert(r@ =~= all[i as int]);
                }
            }
            any = true;
        }
        i = i + 1;
    }
    assert(all.subrange(0, ls@.len() as int) =~= all);
    r
}

fn push_cron_expr(r: &mut String, i: ScheduleInterval)
    ensures
        final(r)@ == old(r)@ + cron_expr(i),
{
    match i {
        ScheduleInterval::Daily => push_str(r, "0 3 * * *"),
        ScheduleInterval::Weekly => push_str(r, "0 3 * * 0"),
        ScheduleInterval::Startup => push_str(r, "@reboot"),
    }
}

/// The crontab that installs the check in place of any earlier entry of it.
pub fn install_cron_entry(existing: &str, exe: &str, i: ScheduleInterval) -> (r: String)
    ensures
        r@ == crontab_with_check(existing@, exe@, i),
{
    let mut r = remove_cron_entries(existing);
    push_str(&mut r, "\n");
    push_cron_expr(&mut r, i);
    push_str(&mut r, " ");
    push_str(&mut r, exe);
    push_str(&mut r, " --auto-check # ");
    push_str(&mut r, "AuraUpdateCheck");
    push_str(&mut r, "\n");
    r
}

/// The message once the cron entry exists.
pub fn cron_created(i: ScheduleInterval) -> (r: String)
    ensures
        r@ == "Cron job created ("@ + interval_name(i) + ")"@,
{
    let mut r = owned("Cron job created (");
    push_interval(&mut r, i);
    push_str(&mut r, ")");
    r
}

/// The entry of the check holds its marker.
pub proof fn lemma_cron_entry_marked(exe: Seq<char>, i: ScheduleInterval)
    ensures
        contains_seq(cron_entry(exe, i), cron_marker()),
{
    let e = cron_entry(exe, i);
    let m = cron_marker();
    let at = e.len() - m.len();
    assert(e.subrange(at, at + m.len()) =~= m);
    assert(occurs_at(e, m, at));
}

/// No entry of the check is left among the foreign lines.
pub proof fn lemma_foreign_lines_unmarked(ls: Seq<Seq<char>>)
    ensures
        forall|k: int|
            0 <= k < foreign_lines(ls).len() ==> !contains_seq(#[trigger] foreign_lines(ls)[k], cron_marker()),
    decreases ls.len(),
{
    if ls.len() > 0 {
        lemma_foreign_lines_unmarked(ls.drop_last());
        let prev = foreign_lines(ls.drop_last());
        if !contains_seq(ls.last(), cron_marker()) {
            assert forall|k: int| 0 <= k < prev.push(ls.last()).len() implies !contains_seq(
                #[trigger] prev.push(ls.last())[k],
                cron_marker(),
            ) by {
                if k < prev.len() {
                    assert(prev.push(ls.last())[k] == prev[k]);
                }
            }
        }
    }
}

/// Filtering twice is filtering once.
pub proof fn lemma_foreign_lines_idempotent(ls: Seq<Seq<char>>)
    ensures
        foreign_lines(foreign_lines(ls)) == foreign_lines(ls),
    decreases ls.len(),
{
    if ls.len() > 0 {
        lemma_foreign_lines_idempotent(ls.drop_last());
        let prev = foreign_lines(ls.drop_last());
        if !contains_seq(ls.last(), cron_marker()) {
            let next = prev.push(ls.last());
            assert(next.drop_last() =~= prev);
        }
    }
}

/// Installing the check keeps every other line of the crontab, in order, and
/// removing it afterwards gives those lines back: the lines that the
/// installed crontab holds besides the entry are exactly the foreign lines of
/// the crontab before.
pub proof fn lemma_install_then_remove(ls: Seq<Seq<char>>, exe: Seq<char>, i: ScheduleInterval)
    ensures
        foreign_lines(foreign_lines(ls).push(cron_entry(exe, i))) == foreign_lines(ls),
{
    lemma_cron_entry_marked(exe, i);
    lemma_foreign_lines_idempotent(ls);
    let f = foreign_lines(ls);
    assert(f.push(cron_entry(exe, i)).drop_last() =~= f);
}

// ───────────────────────────── macOS ──────────────────────────────────────

/// The seconds between two runs of the launch agent (none at logon).
pub open spec fn interval_seconds(i: ScheduleInterval) -> nat {
    match i {
        ScheduleInterval::Daily => 86400,
        ScheduleInterval::Weekly => 604800,
        ScheduleInterval::Startup => 0,
    }
}

/// The interval key of the launch agent.
pub open spec fn interval_key(i: ScheduleInterval) -> Seq<char> {
    if interval_seconds(i) > 0 {
        "<key>StartInterval</key>\n    <integer>"@ + decimal(interval_seconds(i)) + "</integer>"@
    } else {
        Seq::<char>::empty()
    }
}

/// The launch agent's property list.
pub open spec fn launch_agent_plist(exe: Seq<char>, i: ScheduleInterval) -> Seq<char> {
    let run_at_load = if i == ScheduleInterval::Startup { "true"@ } else { "false"@ };
    "<?xml version=\"1.0\" encoding=\"UTF-8\"?>\n<!DOCTYPE plist PUBLIC \"-//Apple//DTD PLIST 1.0//EN\" \"http://www.apple.com/DTDs/PropertyList-1.0.dtd\">\n<plist version=\"1.0\">\n<dict>\n    <key>Label</key>\n    <string>fr.auraneo.auraupdate.check</string>\n    <key>ProgramArguments</key>\n    <array>\n        <string>"@
        + exe + "</string>\n        <string>--auto-check</string>\n    </array>\n    <key>RunAtLoad</key>\n    <"@
        + run_at_load + "/>\n    "@ + interval_key(i) + "\n</dict>\n</plist>"@
}

/// Writes the launch agent's property list.
pub fn launch_agent(exe: &str, i: ScheduleInterval) -> (r: String)
    ensures
        r@ == launch_agent_plist(exe@, i),
{
    let mut r = owned(
        "<?xml version=\"1.0\" encoding=\"UTF-8\"?>\n<!DOCTYPE plist PUBLIC \"-//Apple//DTD PLIST 1.0//EN\" \"http://www.apple.com/DTDs/PropertyList-1.0.dtd\">\n<plist version=\"1.0\">\n<dict>\n    <key>Label</key>\n    <string>fr.auraneo.auraupdate.check</string>\n    <key>ProgramArguments</key>\n    <array>\n        <string>",
    );
    push_str(&mut r, exe);
    push_str(
        &mut r,
        "</string>\n        <string>--auto-check</string>\n    </array>\n    <key>RunAtLoad</key>\n    <",
    );
    match i {
        ScheduleInterval::Startup => push_str(&mut r, "true"),
        _ => push_str(&mut r, "false"),
    }
    push_str(&mut r, "/>\n    ");
    match i {
        ScheduleInterval::Daily => {
            push_str(&mut r, "<key>StartInterval</key>\n    <integer>");
            push_decimal(&mut r, 86400);
            push_str(&mut r, "</integer>");
        },
        ScheduleInterval::Weekly => {
            push_str(&mut r, "<key>StartInterval</key>\n    <integer>");
            push_decimal(&mut r, 604800);
            push_str(&mut r, "</integer>");
        },
        ScheduleInterval::Startup => {},
    }
    push_str(&mut r, "\n</dict>\n</plist>");
    proof {
        assert(interval_key(i) == (if interval_seconds(i) > 0 {
            "<key>StartInterval</key>\n    <integer>"@ + decimal(interval_seconds(i)) + "</integer>"@
        } else {
            Seq::<char>::empty()
        }));
    }
    assert(r@ =~= launch_agent_plist(exe@, i));
    r
}

/// The file name of the launch agent, under `Library/LaunchAgents` of the
/// home directory.
pub fn launch_agent_file() -> (r: String)
    ensures
        r@ == "Library/LaunchAgents/fr.auraneo.auraupdate.check.plist"@,
{
    owned("Library/LaunchAgents/fr.auraneo.auraupdate.check.plist")
}

/// The message once the launch agent is loaded.
pub fn launch_agent_created(i: ScheduleInterval) -> (r: String)
    ensures
        r@ == "LaunchAgent created ("@ + interval_name(i) + ")"@,
{
    let mut r = owned("LaunchAgent created (");
    push_interval(&mut r, i);
    push_str(&mut r, ")");
    r
}

} // verus!
