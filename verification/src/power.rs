//! Battery modes: eco, normal and extreme, applied through the power plan,
//! `pmset` or the CPU frequency governor.
use vstd::prelude::*;

use crate::config::{Config, ConfigView};
use crate::shell::{command2, command3, powershell, ShellCommand};
use crate::text::{lowercase, owned, push_str, text_eq, to_lowercase};

verus! {

/// The battery state shown with the mode.
pub struct BatteryModeStatus {
    pub is_laptop: bool,
    pub battery_percent: Option<u8>,
    pub battery_charging: bool,
    pub mode: String,
}

/// The status from the battery readings and the recorded mode: a machine is a
/// laptop when it reports a battery level.
pub fn get_battery_mode_status(cfg: &Config, battery_percent: Option<u8>, battery_charging: bool) -> (s: BatteryModeStatus)
    ensures
        s.is_laptop == battery_percent is Some,
        s.battery_percent == battery_percent,
        s.battery_charging == battery_charging,
        s.mode@ == cfg.battery_mode@,
{
    BatteryModeStatus {
        is_laptop: battery_percent.is_some(),
        battery_percent,
        battery_charging,
        mode: owned(cfg.battery_mode.as_str()),
    }
}

/// A battery mode.
#[derive(PartialEq, Eq, Structural, Clone, Copy)]
pub enum BatteryMode {
    Eco,
    Normal,
    Extreme,
}

/// The name of a mode as it is recorded.
pub open spec fn mode_name(m: BatteryMode) -> Seq<char> {
    match m {
        BatteryMode::Eco => "eco"@,
        BatteryMode::Normal => "normal"@,
        BatteryMode::Extreme => "extreme"@,
    }
}

/// The mode a request names, case aside.
pub open spec fn requested_mode(s: Seq<char>) -> Option<BatteryMode> {
    let l = lowercase(s);
    if l == "eco"@ {
        Some(BatteryMode::Eco)
    } else if l == "normal"@ {
        Some(BatteryMode::Normal)
    } else if l == "extreme"@ {
        Some(BatteryMode::Extreme)
    } else {
        None
    }
}

/// Reads a requested mode; any other name is refused.
pub fn parse_battery_mode(mode: &str) -> (r: Result<BatteryMode, String>)
    ensures
        match requested_mode(mode@) {
            Some(m) => r == Ok::<BatteryMode, String>(m),
            None => (r matches Err(e) && e@ == "Mode batterie invalide"@),
        },
{
    let l = to_lowercase(mode);
    if text_eq(l.as_str(), "eco") {
        Ok(BatteryMode::Eco)
    } else if text_eq(l.as_str(), "normal") {
        Ok(BatteryMode::Normal)
    } else if text_eq(l.as_str(), "extreme") {
        Ok(BatteryMode::Extreme)
    } else {
        Err(owned("Mode batterie invalide"))
    }
}

/// The settings with a mode recorded.
pub open spec fn with_mode(c: ConfigView, m: BatteryMode) -> ConfigView {
    ConfigView { battery_mode: mode_name(m), ..c }
}

/// Records a mode once the system has applied it; when applying failed the
/// settings are unchanged and the error is passed on.
pub fn set_battery_mode(cfg: &mut Config, mode: BatteryMode, applied: Result<(), String>) -> (r: Result<(), String>)
    ensures
        applied is Ok ==> r is Ok && final(cfg)@ == with_mode(old(cfg)@, mode),
        applied is Err ==> r == applied && final(cfg)@ == old(cfg)@,
{
    match applied {
        Ok(()) => {
            cfg.battery_mode = match mode {
                BatteryMode::Eco => owned("eco"),
                BatteryMode::Normal => owned("normal"),
                BatteryMode::Extreme => owned("extreme"),
            };
            Ok(())
        },
        Err(e) => Err(e),
    }
}

// ──────────────────────────── Windows ─────────────────────────────────────

/// The power plan script of a mode: the balanced plan with a low processor
/// ceiling and the indexing services stopped (eco), the balanced plan with
/// them running (normal), or the high-performance plan at full speed with
/// them stopped (extreme).
pub open spec fn power_script(m: BatteryMode) -> Seq<char> {
    match m {
        BatteryMode::Eco => "
powercfg /setactive 381b4222-f694-41f0-9685-ff5bb260df2e | Out-Null
powercfg /setacvalueindex scheme_current sub_processor 893dee8e-2bef-41e0-89c6-b55d0929964c 5 | Out-Null
powercfg /setacvalueindex scheme_current sub_processor bc5038f7-23e0-4960-96da-33abaf5935ec 70 | Out-Null
sc.exe stop SysMain 2>$null | Out-Null
sc.exe stop WSearch 2>$null | Out-Null
"@,
        BatteryMode::Normal => "
powercfg /setactive 381b4222-f694-41f0-9685-ff5bb260df2e | Out-Null
powercfg /setacvalueindex scheme_current sub_processor 893dee8e-2bef-41e0-89c6-b55d0929964c 10 | Out-Null
powercfg /setacvalueindex scheme_current sub_processor bc5038f7-23e0-4960-96da-33abaf5935ec 90 | Out-Null
sc.exe start SysMain 2>$null | Out-Null
sc.exe start WSearch 2>$null | Out-Null
"@,
        BatteryMode::Extreme => "
powercfg /setactive 8c5e7fda-e8bf-4a96-9a85-a6e23a8c635c | Out-Null
powercfg /setacvalueindex scheme_current sub_processor 893dee8e-2bef-41e0-89c6-b55d0929964c 100 | Out-Null
powercfg /setacvalueindex scheme_current sub_processor bc5038f7-23e0-4960-96da-33abaf5935ec 100 | Out-Null
sc.exe stop SysMain 2>$null | Out-Null
sc.exe stop WSearch 2>$null | Out-Null
"@,
    }
}

/// The PowerShell command that applies a mode on Windows.
pub fn power_plan_command(m: BatteryMode) -> (c: ShellCommand)
    ensures
        c@.program == "powershell"@,
        c@.args == seq!["-NoProfile"@, "-Command"@, power_script(m)],
{
    match m {
        BatteryMode::Eco => powershell(
            "
powercfg /setactive 381b4222-f694-41f0-9685-ff5bb260df2e | Out-Null
powercfg /setacvalueindex scheme_current sub_processor 893dee8e-2bef-41e0-89c6-b55d0929964c 5 | Out-Null
powercfg /setacvalueindex scheme_current sub_processor bc5038f7-23e0-4960-96da-33abaf5935ec 70 | Out-Null
sc.exe stop SysMain 2>$null | Out-Null
sc.exe stop WSearch 2>$null | Out-Null
",
        ),
        BatteryMode::Normal => powershell(
            "
powercfg /setactive 381b4222-f694-41f0-9685-ff5bb260df2e | Out-Null
powercfg /setacvalueindex scheme_current sub_processor 893dee8e-2bef-41e0-89c6-b55d0929964c 10 | Out-Null
powercfg /setacvalueindex scheme_current sub_processor bc5038f7-23e0-4960-96da-33abaf5935ec 90 | Out-Null
sc.exe start SysMain 2>$null | Out-Null
sc.exe start WSearch 2>$null | Out-Null
",
        ),
        BatteryMode::Extreme => powershell(
            "
powercfg /setactive 8c5e7fda-e8bf-4a96-9a85-a6e23a8c635c | Out-Null
powercfg /setacvalueindex scheme_current sub_processor 893dee8e-2bef-41e0-89c6-b55d0929964c 100 | Out-Null
powercfg /setacvalueindex scheme_current sub_processor bc5038f7-23e0-4960-96da-33abaf5935ec 100 | Out-Null
sc.exe stop SysMain 2>$null | Out-Null
sc.exe stop WSearch 2>$null | Out-Null
",
        ),
    }
}

/// What applying the power plan answers.
pub fn power_plan_outcome(success: bool, stderr: &str) -> (r: Result<(), String>)
    ensures
        success <==> r is Ok,
        !success ==> (r matches Err(e) && e@ == "Impossible d'appliquer le mode batterie: "@ + stderr@),
{
    if success {
        Ok(())
    } else {
        let mut e = owned("Impossible d'appliquer le mode batterie: ");
        push_str(&mut e, stderr);
        Err(e)
    }
}

// ───────────────────────────── macOS ──────────────────────────────────────

/// `pmset -a lowpowermode 1` in eco mode, `0` otherwise.
pub fn low_power_command(m: BatteryMode) -> (c: ShellCommand)
    ensures
        c@.program == "pmset"@,
        c@.args == seq!["-a"@, "lowpowermode"@, if m == BatteryMode::Eco { "1"@ } else { "0"@ }],
{
    let flag = match m {
        BatteryMode::Eco => owned("1"),
        _ => owned("0"),
    };
    command3("pmset", owned("-a"), owned("lowpowermode"), flag)
}

/// What `pmset` answers.
pub fn low_power_outcome(success: bool) -> (r: Result<(), String>)
    ensures
        success <==> r is Ok,
        !success ==> (r matches Err(e) && e@ == "pmset failed"@),
{
    if success {
        Ok(())
    } else {
        Err(owned("pmset failed"))
    }
}

// ───────────────────────────── Linux ──────────────────────────────────────

/// The CPU frequency governor of a mode.
pub open spec fn governor(m: BatteryMode) -> Seq<char> {
    match m {
        BatteryMode::Eco => "powersave"@,
        BatteryMode::Normal => "schedutil"@,
        BatteryMode::Extreme => "performance"@,
    }
}

/// The shell command that sets the governor of every CPU (its outcome is
/// not checked).
pub fn governor_command(m: BatteryMode) -> (c: ShellCommand)
    ensures
        c@.program == "sh"@,
        c@.args == seq!["-c"@, "echo "@ + governor(m)
            + " | tee /sys/devices/system/cpu/cpu*/cpufreq/scaling_governor"@],
{
    let mut s = owned("echo ");
    match m {
        BatteryMode::Eco => push_str(&mut s, "powersave"),
        BatteryMode::Normal => push_str(&mut s, "schedutil"),
        BatteryMode::Extreme => push_str(&mut s, "performance"),
    }
    push_str(&mut s, " | tee /sys/devices/system/cpu/cpu*/cpufreq/scaling_governor");
    command2("sh", owned("-c"), s)
}

} // verus!
