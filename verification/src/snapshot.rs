//! System snapshots before major operations: Windows restore points,
//! timeshift or snapper on Linux, APFS local snapshots on macOS.
use vstd::prelude::*;

use crate::shell::{command0, command_with, powershell, ShellCommand};
use crate::text::{
    chars_of, contains, contains_seq, lines, lines_of, owned, push_str, replace_char,
    replace_char_exec, trim, trim_string, trim_str, u64_to_string, decimal, text_eq,
};

verus! {

/// A snapshot or restore point as listed to the user.
pub struct SnapshotInfo {
    pub id: String,
    pub description: String,
    pub date: String,
}

/// Model of a [`SnapshotInfo`].
pub struct SnapshotView {
    pub id: Seq<char>,
    pub description: Seq<char>,
    pub date: Seq<char>,
}

impl View for SnapshotInfo {
    type V = SnapshotView;

    open spec fn view(&self) -> SnapshotView {
        SnapshotView { id: self.id@, description: self.description@, date: self.date@ }
    }
}

/// The models of a list of snapshots.
pub open spec fn snapshot_views(v: Seq<SnapshotInfo>) -> Seq<SnapshotView> {
    v.map_values(|s: SnapshotInfo| s@)
}

// ──────────────────────────── Windows ─────────────────────────────────────

/// The PowerShell probe of System Restore.
pub fn restore_probe() -> (c: ShellCommand)
    ensures
        c@ == powershell_view(
            "Get-ComputerRestorePoint -ErrorAction SilentlyContinue | Out-Null; $?"@,
        ),
{
    powershell("Get-ComputerRestorePoint -ErrorAction SilentlyContinue | Out-Null; $?")
}

/// The model of a PowerShell invocation of a script.
pub open spec fn powershell_view(script: Seq<char>) -> crate::shell::CommandView {
    crate::shell::CommandView {
        program: "powershell"@,
        args: seq!["-NoProfile"@, "-Command"@, script],
    }
}

/// System Restore is usable when the probe printed `True` or succeeded.
pub fn restore_supported(stdout: &str, success: bool) -> (b: bool)
    ensures
        b == (trim(stdout@) == "True"@ || success),
{
    let t = trim_str(stdout);
    text_eq(t.as_str(), "True") || success
}

/// The PowerShell test of membership of the Administrators group.
pub fn admin_probe() -> (c: ShellCommand)
    ensures
        c@ == powershell_view(
            "[bool](([System.Security.Principal.WindowsIdentity]::GetCurrent()).groups -match 'S-1-5-32-544')"@,
        ),
{
    powershell(
        "[bool](([System.Security.Principal.WindowsIdentity]::GetCurrent()).groups -match 'S-1-5-32-544')",
    )
}

/// A restore point needs elevation: the probe must print `True`.
pub fn restore_point_allowed(admin_stdout: &str) -> (r: Result<(), String>)
    ensures
        trim(admin_stdout@) == "True"@ <==> r is Ok,
        r matches Err(e) ==> e@
            == "Administrator privileges required to create a restore point. Click 'Elevate' first."@,
{
    let t = trim_str(admin_stdout);
    if text_eq(t.as_str(), "True") {
        Ok(())
    } else {
        Err(
            owned(
                "Administrator privileges required to create a restore point. Click 'Elevate' first.",
            ),
        )
    }
}

/// The script that creates a restore point; quotes in the label are doubled.
pub open spec fn restore_point_script(label: Seq<char>) -> Seq<char> {
    "Checkpoint-Computer -Description '"@ + replace_char(label, '\'', "''"@)
        + "' -RestorePointType 'MODIFY_SETTINGS' -ErrorAction Stop"@
}

/// The PowerShell command that creates a restore point.
pub fn restore_point_command(label: &str) -> (c: ShellCommand)
    ensures
        c@ == powershell_view(restore_point_script(label@)),
{
    let lv = chars_of(label);
    let quoted = replace_char_exec(lv.as_slice(), '\'', "''");
    let mut s = owned("Checkpoint-Computer -Description '");
    push_str(&mut s, quoted.as_str());
    push_str(&mut s, "' -RestorePointType 'MODIFY_SETTINGS' -ErrorAction Stop");
    powershell(s.as_str())
}

/// Windows refuses a second restore point within a day; its message then
/// names error 1111 or the frequency.
pub open spec fn too_frequent(stderr: Seq<char>) -> bool {
    contains_seq(stderr, "1111"@) || contains_seq(stderr, "frequency"@)
}

/// What the creation of a restore point answers.
pub fn restore_point_outcome(success: bool, stderr: &str) -> (r: Result<String, String>)
    ensures
        success ==> (r matches Ok(m) && m@ == "Windows restore point created"@),
        !success && too_frequent(stderr@) ==> (r matches Ok(m) && m@
            == "Restore point skipped (one already exists within 24h)"@),
        !success && !too_frequent(stderr@) ==> (r matches Err(e) && e@ == "Restore point failed: "@
            + stderr@),
{
    if success {
        return Ok(owned("Windows restore point created"));
    }
    let ev = chars_of(stderr);
    let a = chars_of("1111");
    let b = chars_of("frequency");
    if contains(ev.as_slice(), a.as_slice()) || contains(ev.as_slice(), b.as_slice()) {
        Ok(owned("Restore point skipped (one already exists within 24h)"))
    } else {
        let mut e = owned("Restore point failed: ");
        push_str(&mut e, stderr);
        Err(e)
    }
}

/// The PowerShell command that lists restore points as JSON.
pub fn restore_point_listing() -> (c: ShellCommand)
    ensures
        c@ == powershell_view(
            "Get-ComputerRestorePoint | Select-Object SequenceNumber, Description, @{N='Date';E={$_.ConvertToDateTime($_.CreationTime).ToString('yyyy-MM-dd HH:mm')}} | ConvertTo-Json -Compress"@,
        ),
{
    powershell(
        "Get-ComputerRestorePoint | Select-Object SequenceNumber, Description, @{N='Date';E={$_.ConvertToDateTime($_.CreationTime).ToString('yyyy-MM-dd HH:mm')}} | ConvertTo-Json -Compress",
    )
}

/// A restore point of the JSON listing: its sequence number as the JSON text
/// of that field, and its description and date where they are strings.
pub fn restore_point_info(sequence: String, description: Option<String>, date: Option<String>) -> (s: SnapshotInfo)
    ensures
        s.id@ == sequence@,
        s.description@ == (match description {
            Some(d) => d@,
            None => Seq::<char>::empty(),
        }),
        s.date@ == (match date {
            Some(d) => d@,
            None => Seq::<char>::empty(),
        }),
{
    let d = match description {
        Some(d) => d,
        None => String::new(),
    };
    let t = match date {
        Some(t) => t,
        None => String::new(),
    };
    SnapshotInfo { id: sequence, description: d, date: t }
}

// ───────────────────────────── Linux ──────────────────────────────────────

/// A snapshot tool of Linux.
#[derive(PartialEq, Eq, Structural, Clone, Copy)]
pub enum SnapshotTool {
    Timeshift,
    Snapper,
}

/// The tool used: timeshift where it is installed, else snapper.
pub fn pick_snapshot_tool(has_timeshift: bool, has_snapper: bool) -> (r: Option<SnapshotTool>)
    ensures
        has_timeshift ==> r == Some(SnapshotTool::Timeshift),
        !has_timeshift && has_snapper ==> r == Some(SnapshotTool::Snapper),
        !has_timeshift && !has_snapper ==> r is None,
{
    if has_timeshift {
        Some(SnapshotTool::Timeshift)
    } else if has_snapper {
        Some(SnapshotTool::Snapper)
    } else {
        None
    }
}

/// The command that creates a snapshot with a tool.
pub open spec fn snapshot_args(tool: SnapshotTool, label: Seq<char>) -> Seq<Seq<char>> {
    match tool {
        SnapshotTool::Timeshift => seq!["--create"@, "--comments"@, label],
        SnapshotTool::Snapper => seq!["create"@, "-d"@, label, "--type"@, "single"@],
    }
}

/// The command that creates a snapshot with a tool.
pub fn snapshot_command(tool: SnapshotTool, label: &str) -> (c: ShellCommand)
    ensures
        c@.program == (match tool {
            SnapshotTool::Timeshift => "timeshift"@,
            SnapshotTool::Snapper => "snapper"@,
        }),
        c@.args == snapshot_args(tool, label@),
{
    let mut args: Vec<String> = Vec::new();
    match tool {
        SnapshotTool::Timeshift => {
            args.push(owned("--create"));
            args.push(owned("--comments"));
            args.push(owned(label));
            let c = command_with("timeshift", args);
            assert(c@.args =~= snapshot_args(tool, label@));
            c
        },
        SnapshotTool::Snapper => {
            args.push(owned("create"));
            args.push(owned("-d"));
            args.push(owned(label));
            args.push(owned("--type"));
            args.push(owned("single"));
            let c = command_with("snapper", args);
            assert(c@.args =~= snapshot_args(tool, label@));
            c
        },
    }
}

/// What a snapshot tool answers: its message, or what it printed on error.
pub fn tool_snapshot_outcome(tool: SnapshotTool, success: bool, stderr: &str) -> (r: Result<String, String>)
    ensures
        success && tool == SnapshotTool::Timeshift ==> (r matches Ok(m) && m@
            == "Timeshift snapshot created"@),
        success && tool == SnapshotTool::Snapper ==> (r matches Ok(m) && m@
            == "Snapper snapshot created"@),
        !success ==> (r matches Err(e) && e@ == stderr@),
{
    if !success {
        return Err(owned(stderr));
    }
    match tool {
        SnapshotTool::Timeshift => Ok(owned("Timeshift snapshot created")),
        SnapshotTool::Snapper => Ok(owned("Snapper snapshot created")),
    }
}

/// The error when neither tool is installed.
pub fn no_snapshot_tool() -> (e: String)
    ensures
        e@ == "No snapshot tool available (install timeshift or snapper)"@,
{
    owned("No snapshot tool available (install timeshift or snapper)")
}

// ───────────────────────────── macOS ──────────────────────────────────────

/// `tmutil localsnapshot`.
pub fn local_snapshot_command() -> (c: ShellCommand)
    ensures
        c@.program == "tmutil"@,
        c@.args == seq!["localsnapshot"@],
{
    let mut args: Vec<String> = Vec::new();
    args.push(owned("localsnapshot"));
    let c = command_with("tmutil", args);
    assert(c@.args =~= seq!["localsnapshot"@]);
    c
}

/// What `tmutil localsnapshot` answers.
pub fn local_snapshot_outcome(success: bool, stderr: &str) -> (r: Result<String, String>)
    ensures
        success ==> (r matches Ok(m) && m@ == "APFS local snapshot created"@),
        !success ==> (r matches Err(e) && e@ == "Snapshot failed: "@ + stderr@),
{
    if success {
        Ok(owned("APFS local snapshot created"))
    } else {
        let mut e = owned("Snapshot failed: ");
        push_str(&mut e, stderr);
        Err(e)
    }
}

// ──────────────────────────── listings ────────────────────────────────────

/// The lines of a listing that hold a tag, in order.
pub open spec fn tagged_lines(ls: Seq<Seq<char>>, tag: Seq<char>) -> Seq<Seq<char>>
    decreases ls.len(),
{
    if ls.len() == 0 {
        Seq::<Seq<char>>::empty()
    } else if contains_seq(ls.last(), tag) {
        tagged_lines(ls.drop_last(), tag).push(ls.last())
    } else {
        tagged_lines(ls.drop_last(), tag)
    }
}

/// The snapshots of a tool's listing: one per line holding the tag, numbered
/// from zero in order, described by the trimmed line, with no date.
pub open spec fn listed_snapshots(text: Seq<char>, tag: Seq<char>) -> Seq<SnapshotView> {
    let t = tagged_lines(lines(text), tag);
    Seq::new(
        t.len(),
        |k: int| SnapshotView { id: decimal(k as nat), description: trim(t[k]), date: Seq::<char>::empty() },
    )
}

/// Reads a tool's listing (`timeshift --list` with tag `Snapshot`,
/// `tmutil listlocalsnapshots /` with tag `com.apple.TimeMachine`).
pub fn parse_snapshot_listing(text: &str, tag: &str) -> (r: Vec<SnapshotInfo>)
    ensures
        snapshot_views(r@) == listed_snapshots(text@, tag@),
{
    let ls = lines_of(text);
    let ghost all = lines(text@);
    let tv = chars_of(tag);
    let mut r: Vec<SnapshotInfo> = Vec::new();
    let mut i: usize = 0;
    assert(all.subrange(0, 0) =~= Seq::<Seq<char>>::empty());
    while i < ls.len()
        invariant
            i <= ls@.len(),
            ls@.len() == all.len(),
            all == lines(text@),
            tv@ == tag@,
            forall|k: int| 0 <= k < ls@.len() ==> ls@[k]@ == all[k],
            r@.len() == tagged_lines(all.subrange(0, i as int), tag@).len(),
            r@.len() <= i,
            forall|k: int|
                0 <= k < r@.len() ==> (#[trigger] r@[k])@ == (SnapshotView {
                    id: decimal(k as nat),
                    description: trim(tagged_lines(all.subrange(0, i as int), tag@)[k]),
                    date: Seq::<char>::empty(),
                }),
        decreases ls@.len() - i,
    {
        let ghost prev = tagged_lines(all.subrange(0, i as int), tag@);
        assert(all.subrange(0, i + 1).drop_last() =~= all.subrange(0, i as int));
        if contains(ls[i].as_slice(), tv.as_slice()) {
            let n = r.len();
            let id = u64_to_string(n as u64);
            let d = trim_string(ls[i].as_slice());
            r.push(SnapshotInfo { id, description: d, date: String::new() });
            proof {
                let next = prev.push(all[i as int]);
                assert(tagged_lines(all.subrange(0, i + 1), tag@) == next);
                assert forall|k: int| 0 <= k < r@.len() implies (#[trigger] r@[k])@ == (SnapshotView {
                    id: decimal(k as nat),
                    description: trim(next[k]),
                    date: Seq::<char>::empty(),
                }) by {
                    if k < n {
                        assert(next[k] == prev[k]);
                    }
                }
            }
        }
        i = i + 1;
    }
    assert(all.subrange(0, ls@.len() as int) =~= all);
    assert(snapshot_views(r@) =~= listed_snapshots(text@, tag@));
    r
}

} // verus!
