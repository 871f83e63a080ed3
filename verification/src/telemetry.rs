//! Telemetry switches: for each category, the commands that turn the
//! collection off (or back on), and what is reported of each.
use vstd::prelude::*;

use crate::shell::{command_with, texts, CommandView, ShellCommand};
use crate::text::{owned, push_str, text_eq};

verus! {

/// What a step reports once it ran.
pub enum Report {
    /// Nothing.
    Never,
    /// This line, whatever the outcome.
    Always { line: String },
    /// This line when the command succeeded.
    OnSuccess { line: String },
    /// The first line when the command succeeded, the second when it ran and
    /// failed.
    OnSuccessElse { line: String, otherwise: String },
}

/// Model of a [`Report`].
pub enum ReportView {
    Never,
    Always { line: Seq<char> },
    OnSuccess { line: Seq<char> },
    OnSuccessElse { line: Seq<char>, otherwise: Seq<char> },
}

/// The model of a report.
pub open spec fn report_view(r: Report) -> ReportView {
    match r {
        Report::Never => ReportView::Never,
        Report::Always { line } => ReportView::Always { line: line@ },
        Report::OnSuccess { line } => ReportView::OnSuccess { line: line@ },
        Report::OnSuccessElse { line, otherwise } => ReportView::OnSuccessElse {
            line: line@,
            otherwise: otherwise@,
        },
    }
}

/// One command of a telemetry switch and what it reports.
pub struct TelemetryStep {
    pub command: ShellCommand,
    pub report: Report,
}

/// Model of a [`TelemetryStep`].
pub struct StepView {
    pub program: Seq<char>,
    pub args: Seq<Seq<char>>,
    pub report: ReportView,
}

/// The models of a list of steps.
pub open spec fn step_views(v: Seq<TelemetryStep>) -> Seq<StepView> {
    v.map_values(
        |s: TelemetryStep|
            StepView {
                program: s.command@.program,
                args: s.command@.args,
                report: report_view(s.report),
            },
    )
}

fn step(program: &str, args: Vec<String>, report: Report) -> (s: TelemetryStep)
    ensures
        s.command@.program == program@,
        s.command@.args == texts(args@),
        report_view(s.report) == report_view(report),
{
    TelemetryStep { command: command_with(program, args), report }
}

/// The steps of one switch.
pub open spec fn plan_windows_off() -> Seq<StepView> {
    seq![
        StepView { program: "sc"@, args: seq!["stop"@, "DiagTrack"@], report: ReportView::Never },
        StepView { program: "sc"@, args: seq!["config"@, "DiagTrack"@, "start="@, "disabled"@], report: ReportView::OnSuccess { line: "DiagTrack: disabled"@ } },
        StepView { program: "sc"@, args: seq!["stop"@, "dmwappushservice"@], report: ReportView::Never },
        StepView { program: "sc"@, args: seq!["config"@, "dmwappushservice"@, "start="@, "disabled"@], report: ReportView::OnSuccess { line: "dmwappushservice: disabled"@ } },
        StepView { program: "sc"@, args: seq!["stop"@, "diagnosticshub.standardcollector.service"@], report: ReportView::Never },
        StepView { program: "sc"@, args: seq!["config"@, "diagnosticshub.standardcollector.service"@, "start="@, "disabled"@], report: ReportView::OnSuccess { line: "diagnosticshub.standardcollector.service: disabled"@ } },
        StepView { program: "sc"@, args: seq!["stop"@, "WerSvc"@], report: ReportView::Never },
        StepView { program: "sc"@, args: seq!["config"@, "WerSvc"@, "start="@, "disabled"@], report: ReportView::OnSuccess { line: "WerSvc: disabled"@ } },
        StepView { program: "reg"@, args: seq!["add"@, "HKLM\\SOFTWARE\\Policies\\Microsoft\\Windows\\DataCollection"@, "/v"@, "AllowTelemetry"@, "/t"@, "REG_DWORD"@, "/d"@, "0"@, "/f"@], report: ReportView::Always { line: "AllowTelemetry: 0"@ } },
    ]
}

/// The steps of one switch.
pub open spec fn plan_windows_on() -> Seq<StepView> {
    seq![
        StepView { program: "sc"@, args: seq!["config"@, "DiagTrack"@, "start="@, "demand"@], report: ReportView::OnSuccess { line: "DiagTrack: enabled"@ } },
        StepView { program: "sc"@, args: seq!["config"@, "dmwappushservice"@, "start="@, "demand"@], report: ReportView::OnSuccess { line: "dmwappushservice: enabled"@ } },
        StepView { program: "sc"@, args: seq!["config"@, "diagnosticshub.standardcollector.service"@, "start="@, "demand"@], report: ReportView::OnSuccess { line: "diagnosticshub.standardcollector.service: enabled"@ } },
        StepView { program: "sc"@, args: seq!["config"@, "WerSvc"@, "start="@, "demand"@], report: ReportView::OnSuccess { line: "WerSvc: enabled"@ } },
        StepView { program: "reg"@, args: seq!["add"@, "HKLM\\SOFTWARE\\Policies\\Microsoft\\Windows\\DataCollection"@, "/v"@, "AllowTelemetry"@, "/t"@, "REG_DWORD"@, "/d"@, "3"@, "/f"@], report: ReportView::Always { line: "AllowTelemetry: 3"@ } },
    ]
}

/// The steps of one switch.
pub open spec fn plan_office_off() -> Seq<StepView> {
    seq![
        StepView { program: "powershell"@, args: seq!["-NoProfile"@, "-Command"@, "Set-ItemProperty -Path 'HKCU:\\Software\\Microsoft\\Office\\Common\\ClientTelemetry' -Name 'DisableTelemetry' -Value 1 -Type DWord -Force -ErrorAction SilentlyContinue; Set-ItemProperty -Path 'HKCU:\\Software\\Microsoft\\Office\\16.0\\Common\\ClientTelemetry' -Name 'SendTelemetry' -Value 3 -Type DWord -Force -ErrorAction SilentlyContinue"@], report: ReportView::Always { line: "Office telemetry: disabled"@ } },
    ]
}

/// The steps of one switch.
pub open spec fn plan_office_on() -> Seq<StepView> {
    seq![
        StepView { program: "powershell"@, args: seq!["-NoProfile"@, "-Command"@, "Remove-ItemProperty -Path 'HKCU:\\Software\\Microsoft\\Office\\Common\\ClientTelemetry' -Name 'DisableTelemetry' -ErrorAction SilentlyContinue; Remove-ItemProperty -Path 'HKCU:\\Software\\Microsoft\\Office\\16.0\\Common\\ClientTelemetry' -Name 'SendTelemetry' -ErrorAction SilentlyContinue"@], report: ReportView::Always { line: "Office telemetry: enabled"@ } },
    ]
}

/// The steps of one switch.
pub open spec fn plan_nvidia_off() -> Seq<StepView> {
    seq![
        StepView { program: "sc"@, args: seq!["stop"@, "NvTelemetryContainer"@], report: ReportView::Never },
        StepView { program: "sc"@, args: seq!["config"@, "NvTelemetryContainer"@, "start="@, "disabled"@], report: ReportView::OnSuccessElse { line: "NvTelemetryContainer: disabled"@, otherwise: "NvTelemetryContainer: not found (skip)"@ } },
        StepView { program: "schtasks"@, args: seq!["/Change"@, "/TN"@, "NvTmMon_{B2FE1952-0186-46C3-BAEC-A80AA35AC5B8}"@, "/Disable"@], report: ReportView::Never },
        StepView { program: "schtasks"@, args: seq!["/Change"@, "/TN"@, "NvTmRep_{B2FE1952-0186-46C3-BAEC-A80AA35AC5B8}"@, "/Disable"@], report: ReportView::Never },
        StepView { program: "reg"@, args: seq!["add"@, "HKLM\\SOFTWARE\\NVIDIA Corporation\\NvControlPanel2\\Client"@, "/v"@, "OptInOrOutPreference"@, "/t"@, "REG_DWORD"@, "/d"@, "0"@, "/f"@], report: ReportView::Always { line: "NVIDIA telemetry: disabled"@ } },
    ]
}

/// The steps of one switch.
pub open spec fn plan_nvidia_on() -> Seq<StepView> {
    seq![
        StepView { program: "sc"@, args: seq!["config"@, "NvTelemetryContainer"@, "start="@, "demand"@], report: ReportView::OnSuccessElse { line: "NvTelemetryContainer: enabled"@, otherwise: "NvTelemetryContainer: not found (skip)"@ } },
        StepView { program: "schtasks"@, args: seq!["/Change"@, "/TN"@, "NvTmMon_{B2FE1952-0186-46C3-BAEC-A80AA35AC5B8}"@, "/Enable"@], report: ReportView::Never },
        StepView { program: "schtasks"@, args: seq!["/Change"@, "/TN"@, "NvTmRep_{B2FE1952-0186-46C3-BAEC-A80AA35AC5B8}"@, "/Enable"@], report: ReportView::Never },
        StepView { program: "reg"@, args: seq!["add"@, "HKLM\\SOFTWARE\\NVIDIA Corporation\\NvControlPanel2\\Client"@, "/v"@, "OptInOrOutPreference"@, "/t"@, "REG_DWORD"@, "/d"@, "1"@, "/f"@], report: ReportView::Always { line: "NVIDIA telemetry: enabled"@ } },
    ]
}

/// The steps of one switch.
pub open spec fn plan_browsers_off() -> Seq<StepView> {
    seq![
        StepView { program: "reg"@, args: seq!["add"@, "HKLM\\SOFTWARE\\Policies\\Microsoft\\Edge"@, "/v"@, "MetricsReportingEnabled"@, "/t"@, "REG_DWORD"@, "/d"@, "0"@, "/f"@], report: ReportView::Never },
        StepView { program: "reg"@, args: seq!["add"@, "HKLM\\SOFTWARE\\Policies\\Microsoft\\Edge"@, "/v"@, "DiagnosticData"@, "/t"@, "REG_DWORD"@, "/d"@, "0"@, "/f"@], report: ReportView::Never },
        StepView { program: "reg"@, args: seq!["add"@, "HKLM\\SOFTWARE\\Policies\\Microsoft\\Edge"@, "/v"@, "SendSiteInfoToImproveServices"@, "/t"@, "REG_DWORD"@, "/d"@, "0"@, "/f"@], report: ReportView::Never },
        StepView { program: "reg"@, args: seq!["add"@, "HKLM\\SOFTWARE\\Policies\\Microsoft\\Edge"@, "/v"@, "PersonalizationReportingEnabled"@, "/t"@, "REG_DWORD"@, "/d"@, "0"@, "/f"@], report: ReportView::Always { line: "Edge telemetry: disabled"@ } },
        StepView { program: "reg"@, args: seq!["add"@, "HKLM\\SOFTWARE\\Policies\\Google\\Chrome"@, "/v"@, "MetricsReportingEnabled"@, "/t"@, "REG_DWORD"@, "/d"@, "0"@, "/f"@], report: ReportView::Never },
        StepView { program: "reg"@, args: seq!["add"@, "HKLM\\SOFTWARE\\Policies\\Google\\Chrome"@, "/v"@, "SafeBrowsingExtendedReportingEnabled"@, "/t"@, "REG_DWORD"@, "/d"@, "0"@, "/f"@], report: ReportView::Never },
        StepView { program: "reg"@, args: seq!["add"@, "HKLM\\SOFTWARE\\Policies\\Google\\Chrome"@, "/v"@, "UrlKeyedAnonymizedDataCollectionEnabled"@, "/t"@, "REG_DWORD"@, "/d"@, "0"@, "/f"@], report: ReportView::Never },
        StepView { program: "reg"@, args: seq!["add"@, "HKLM\\SOFTWARE\\Policies\\Google\\Chrome"@, "/v"@, "SpellCheckServiceEnabled"@, "/t"@, "REG_DWORD"@, "/d"@, "0"@, "/f"@], report: ReportView::Always { line: "Chrome telemetry: disabled"@ } },
        StepView { program: "powershell"@, args: seq!["-NoProfile"@, "-Command"@, "$ffProfiles = Get-ChildItem \"$env:APPDATA\\Mozilla\\Firefox\\Profiles\" -Directory -ErrorAction SilentlyContinue; foreach($p in $ffProfiles){ $f = Join-Path $p.FullName 'user.js'; Add-Content -Path $f -Value 'user_pref(\"toolkit.telemetry.enabled\", false);' -ErrorAction SilentlyContinue; Add-Content -Path $f -Value 'user_pref(\"datareporting.healthreport.uploadEnabled\", false);' -ErrorAction SilentlyContinue }"@], report: ReportView::Always { line: "Firefox telemetry: disabled"@ } },
    ]
}

/// The steps of one switch.
pub open spec fn plan_browsers_on() -> Seq<StepView> {
    seq![
        StepView { program: "reg"@, args: seq!["add"@, "HKLM\\SOFTWARE\\Policies\\Microsoft\\Edge"@, "/v"@, "MetricsReportingEnabled"@, "/t"@, "REG_DWORD"@, "/d"@, "1"@, "/f"@], report: ReportView::Never },
        StepView { program: "reg"@, args: seq!["add"@, "HKLM\\SOFTWARE\\Policies\\Microsoft\\Edge"@, "/v"@, "DiagnosticData"@, "/t"@, "REG_DWORD"@, "/d"@, "2"@, "/f"@], report: ReportView::Never },
        StepView { program: "reg"@, args: seq!["add"@, "HKLM\\SOFTWARE\\Policies\\Microsoft\\Edge"@, "/v"@, "SendSiteInfoToImproveServices"@, "/t"@, "REG_DWORD"@, "/d"@, "1"@, "/f"@], report: ReportView::Never },
        StepView { program: "reg"@, args: seq!["add"@, "HKLM\\SOFTWARE\\Policies\\Microsoft\\Edge"@, "/v"@, "PersonalizationReportingEnabled"@, "/t"@, "REG_DWORD"@, "/d"@, "1"@, "/f"@], report: ReportView::Always { line: "Edge telemetry: enabled"@ } },
        StepView { program: "reg"@, args: seq!["add"@, "HKLM\\SOFTWARE\\Policies\\Google\\Chrome"@, "/v"@, "MetricsReportingEnabled"@, "/t"@, "REG_DWORD"@, "/d"@, "1"@, "/f"@], report: ReportView::Never },
        StepView { program: "reg"@, args: seq!["add"@, "HKLM\\SOFTWARE\\Policies\\Google\\Chrome"@, "/v"@, "SafeBrowsingExtendedReportingEnabled"@, "/t"@, "REG_DWORD"@, "/d"@, "1"@, "/f"@], report: ReportView::Never },
        StepView { program: "reg"@, args: seq!["add"@, "HKLM\\SOFTWARE\\Policies\\Google\\Chrome"@, "/v"@, "UrlKeyedAnonymizedDataCollectionEnabled"@, "/t"@, "REG_DWORD"@, "/d"@, "1"@, "/f"@], report: ReportView::Never },
        StepView { program: "reg"@, args: seq!["add"@, "HKLM\\SOFTWARE\\Policies\\Google\\Chrome"@, "/v"@, "SpellCheckServiceEnabled"@, "/t"@, "REG_DWORD"@, "/d"@, "1"@, "/f"@], report: ReportView::Always { line: "Chrome telemetry: enabled"@ } },
        StepView { program: "powershell"@, args: seq!["-NoProfile"@, "-Command"@, "$ffProfiles = Get-ChildItem \"$env:APPDATA\\Mozilla\\Firefox\\Profiles\" -Directory -ErrorAction SilentlyContinue; foreach($p in $ffProfiles){ $f = Join-Path $p.FullName 'user.js'; if(Test-Path $f){ (Get-Content $f) | Where-Object { $_ -notmatch 'toolkit.telemetry.enabled|datareporting.healthreport.uploadEnabled' } | Set-Content $f -ErrorAction SilentlyContinue }}"@], report: ReportView::Always { line: "Firefox telemetry: enabled"@ } },
    ]
}

/// The steps of one switch.
pub open spec fn plan_tracking_off() -> Seq<StepView> {
    seq![
        StepView { program: "reg"@, args: seq!["add"@, "HKCU\\Software\\Microsoft\\Windows\\CurrentVersion\\AdvertisingInfo"@, "/v"@, "Enabled"@, "/t"@, "REG_DWORD"@, "/d"@, "0"@, "/f"@], report: ReportView::Never },
        StepView { program: "reg"@, args: seq!["add"@, "HKLM\\SOFTWARE\\Policies\\Microsoft\\Windows\\AdvertisingInfo"@, "/v"@, "DisabledByGroupPolicy"@, "/t"@, "REG_DWORD"@, "/d"@, "1"@, "/f"@], report: ReportView::Always { line: "Advertising ID: disabled"@ } },
        StepView { program: "reg"@, args: seq!["add"@, "HKLM\\SOFTWARE\\Policies\\Microsoft\\Windows\\System"@, "/v"@, "EnableActivityFeed"@, "/t"@, "REG_DWORD"@, "/d"@, "0"@, "/f"@], report: ReportView::Never },
        StepView { program: "reg"@, args: seq!["add"@, "HKLM\\SOFTWARE\\Policies\\Microsoft\\Windows\\System"@, "/v"@, "PublishUserActivities"@, "/t"@, "REG_DWORD"@, "/d"@, "0"@, "/f"@], report: ReportView::Never },
        StepView { program: "reg"@, args: seq!["add"@, "HKLM\\SOFTWARE\\Policies\\Microsoft\\Windows\\System"@, "/v"@, "UploadUserActivities"@, "/t"@, "REG_DWORD"@, "/d"@, "0"@, "/f"@], report: ReportView::Always { line: "Activity History: disabled"@ } },
        StepView { program: "reg"@, args: seq!["add"@, "HKLM\\SOFTWARE\\Policies\\Microsoft\\Windows\\LocationAndSensors"@, "/v"@, "DisableLocation"@, "/t"@, "REG_DWORD"@, "/d"@, "1"@, "/f"@], report: ReportView::Always { line: "Location tracking: disabled"@ } },
        StepView { program: "reg"@, args: seq!["add"@, "HKLM\\SOFTWARE\\Policies\\Microsoft\\Windows\\Windows Search"@, "/v"@, "AllowCortana"@, "/t"@, "REG_DWORD"@, "/d"@, "0"@, "/f"@], report: ReportView::Never },
        StepView { program: "reg"@, args: seq!["add"@, "HKLM\\SOFTWARE\\Policies\\Microsoft\\Windows\\Windows Search"@, "/v"@, "AllowSearchToUseLocation"@, "/t"@, "REG_DWORD"@, "/d"@, "0"@, "/f"@], report: ReportView::Never },
        StepView { program: "reg"@, args: seq!["add"@, "HKLM\\SOFTWARE\\Policies\\Microsoft\\Windows\\Windows Search"@, "/v"@, "ConnectedSearchUseWeb"@, "/t"@, "REG_DWORD"@, "/d"@, "0"@, "/f"@], report: ReportView::Always { line: "Cortana/Connected Search: disabled"@ } },
        StepView { program: "reg"@, args: seq!["add"@, "HKCU\\Software\\Microsoft\\Input\\TIPC"@, "/v"@, "Enabled"@, "/t"@, "REG_DWORD"@, "/d"@, "0"@, "/f"@], report: ReportView::Always { line: "Inking & Typing data: disabled"@ } },
        StepView { program: "reg"@, args: seq!["add"@, "HKCU\\Software\\Microsoft\\Siuf\\Rules"@, "/v"@, "NumberOfSIUFInPeriod"@, "/t"@, "REG_DWORD"@, "/d"@, "0"@, "/f"@], report: ReportView::Always { line: "Feedback frequency: disabled"@ } },
    ]
}

/// The steps of one switch.
pub open spec fn plan_tracking_on() -> Seq<StepView> {
    seq![
        StepView { program: "reg"@, args: seq!["add"@, "HKCU\\Software\\Microsoft\\Windows\\CurrentVersion\\AdvertisingInfo"@, "/v"@, "Enabled"@, "/t"@, "REG_DWORD"@, "/d"@, "1"@, "/f"@], report: ReportView::Never },
        StepView { program: "reg"@, args: seq!["add"@, "HKLM\\SOFTWARE\\Policies\\Microsoft\\Windows\\AdvertisingInfo"@, "/v"@, "DisabledByGroupPolicy"@, "/t"@, "REG_DWORD"@, "/d"@, "0"@, "/f"@], report: ReportView::Always { line: "Advertising ID: enabled"@ } },
        StepView { program: "reg"@, args: seq!["add"@, "HKLM\\SOFTWARE\\Policies\\Microsoft\\Windows\\System"@, "/v"@, "EnableActivityFeed"@, "/t"@, "REG_DWORD"@, "/d"@, "1"@, "/f"@], report: ReportView::Never },
        StepView { program: "reg"@, args: seq!["add"@, "HKLM\\SOFTWARE\\Policies\\Microsoft\\Windows\\System"@, "/v"@, "PublishUserActivities"@, "/t"@, "REG_DWORD"@, "/d"@, "1"@, "/f"@], report: ReportView::Never },
        StepView { program: "reg"@, args: seq!["add"@, "HKLM\\SOFTWARE\\Policies\\Microsoft\\Windows\\System"@, "/v"@, "UploadUserActivities"@, "/t"@, "REG_DWORD"@, "/d"@, "1"@, "/f"@], report: ReportView::Always { line: "Activity History: enabled"@ } },
        StepView { program: "reg"@, args: seq!["add"@, "HKLM\\SOFTWARE\\Policies\\Microsoft\\Windows\\LocationAndSensors"@, "/v"@, "DisableLocation"@, "/t"@, "REG_DWORD"@, "/d"@, "0"@, "/f"@], report: ReportView::Always { line: "Location tracking: enabled"@ } },
        StepView { program: "reg"@, args: seq!["add"@, "HKLM\\SOFTWARE\\Policies\\Microsoft\\Windows\\Windows Search"@, "/v"@, "AllowCortana"@, "/t"@, "REG_DWORD"@, "/d"@, "1"@, "/f"@], report: ReportView::Never },
        StepView { program: "reg"@, args: seq!["add"@, "HKLM\\SOFTWARE\\Policies\\Microsoft\\Windows\\Windows Search"@, "/v"@, "AllowSearchToUseLocation"@, "/t"@, "REG_DWORD"@, "/d"@, "1"@, "/f"@], report: ReportView::Never },
        StepView { program: "reg"@, args: seq!["add"@, "HKLM\\SOFTWARE\\Policies\\Microsoft\\Windows\\Windows Search"@, "/v"@, "ConnectedSearchUseWeb"@, "/t"@, "REG_DWORD"@, "/d"@, "1"@, "/f"@], report: ReportView::Always { line: "Cortana/Connected Search: enabled"@ } },
        StepView { program: "reg"@, args: seq!["add"@, "HKCU\\Software\\Microsoft\\Input\\TIPC"@, "/v"@, "Enabled"@, "/t"@, "REG_DWORD"@, "/d"@, "1"@, "/f"@], report: ReportView::Always { line: "Inking & Typing data: enabled"@ } },
        StepView { program: "reg"@, args: seq!["add"@, "HKCU\\Software\\Microsoft\\Siuf\\Rules"@, "/v"@, "NumberOfSIUFInPeriod"@, "/t"@, "REG_DWORD"@, "/d"@, "1"@, "/f"@], report: ReportView::Always { line: "Feedback frequency: enabled"@ } },
    ]
}

/// The steps of a category's switch; `None` for an unknown category.
pub open spec fn telemetry_plan(category: Seq<char>, disable: bool) -> Option<Seq<StepView>> {
    if category == "windows"@ {
        Some(if disable { plan_windows_off() } else { plan_windows_on() })
    } else if category == "office"@ {
        Some(if disable { plan_office_off() } else { plan_office_on() })
    } else if category == "nvidia"@ {
        Some(if disable { plan_nvidia_off() } else { plan_nvidia_on() })
    } else if category == "browsers"@ {
        Some(if disable { plan_browsers_off() } else { plan_browsers_on() })
    } else if category == "tracking"@ {
        Some(if disable { plan_tracking_off() } else { plan_tracking_on() })
    } else {
        None
    }
}

#[verifier::spinoff_prover]
fn build_windows_off() -> (v: Vec<TelemetryStep>)
    ensures
        step_views(v@) == plan_windows_off(),
{
    let mut v: Vec<TelemetryStep> = Vec::new();
    let mut a: Vec<String> = Vec::new();
    a.push(owned("stop"));
    a.push(owned("DiagTrack"));
    assert(texts(a@) =~= seq!["stop"@, "DiagTrack"@]);
    v.push(step("sc", a, Report::Never));
    let mut a: Vec<String> = Vec::new();
    a.push(owned("config"));
    a.push(owned("DiagTrack"));
    a.push(owned("start="));
    a.push(owned("disabled"));
    assert(texts(a@) =~= seq!["config"@, "DiagTrack"@, "start="@, "disabled"@]);
    v.push(step("sc", a, Report::OnSuccess { line: owned("DiagTrack: disabled") }));
    let mut a: Vec<String> = Vec::new();
    a.push(owned("stop"));
    a.push(owned("dmwappushservice"));
    assert(texts(a@) =~= seq!["stop"@, "dmwappushservice"@]);
    v.push(step("sc", a, Report::Never));
    let mut a: Vec<String> = Vec::new();
    a.push(owned("config"));
    a.push(owned("dmwappushservice"));
    a.push(owned("start="));
    a.push(owned("disabled"));
    assert(texts(a@) =~= seq!["config"@, "dmwappushservice"@, "start="@, "disabled"@]);
    v.push(step("sc", a, Report::OnSuccess { line: owned("dmwappushservice: disabled") }));
    let mut a: Vec<String> = Vec::new();
    a.push(owned("stop"));
    a.push(owned("diagnosticshub.standardcollector.service"));
    assert(texts(a@) =~= seq!["stop"@, "diagnosticshub.standardcollector.service"@]);
    v.push(step("sc", a, Report::Never));
    let mut a: Vec<String> = Vec::new();
    a.push(owned("config"));
    a.push(owned("diagnosticshub.standardcollector.service"));
    a.push(owned("start="));
    a.push(owned("disabled"));
    assert(texts(a@) =~= seq!["config"@, "diagnosticshub.standardcollector.service"@, "start="@, "disabled"@]);
    v.push(step("sc", a, Report::OnSuccess { line: owned("diagnosticshub.standardcollector.service: disabled") }));
    let mut a: Vec<String> = Vec::new();
    a.push(owned("stop"));
    a.push(owned("WerSvc"));
    assert(texts(a@) =~= seq!["stop"@, "WerSvc"@]);
    v.push(step("sc", a, Report::Never));
    let mut a: Vec<String> = Vec::new();
    a.push(owned("config"));
    a.push(owned("WerSvc"));
    a.push(owned("start="));
    a.push(owned("disabled"));
    assert(texts(a@) =~= seq!["config"@, "WerSvc"@, "start="@, "disabled"@]);
    v.push(step("sc", a, Report::OnSuccess { line: owned("WerSvc: disabled") }));
    let mut a: Vec<String> = Vec::new();
    a.push(owned("add"));
    a.push(owned("HKLM\\SOFTWARE\\Policies\\Microsoft\\Windows\\DataCollection"));
    a.push(owned("/v"));
    a.push(owned("AllowTelemetry"));
    a.push(owned("/t"));
    a.push(owned("REG_DWORD"));
    a.push(owned("/d"));
    a.push(owned("0"));
    a.push(owned("/f"));
    assert(texts(a@) =~= seq!["add"@, "HKLM\\SOFTWARE\\Policies\\Microsoft\\Windows\\DataCollection"@, "/v"@, "AllowTelemetry"@, "/t"@, "REG_DWORD"@, "/d"@, "0"@, "/f"@]);
    v.push(step("reg", a, Report::Always { line: owned("AllowTelemetry: 0") }));
    assert(step_views(v@) =~= plan_windows_off());
    v
}

#[verifier::spinoff_prover]
fn build_windows_on() -> (v: Vec<TelemetryStep>)
    ensures
        step_views(v@) == plan_windows_on(),
{
    let mut v: Vec<TelemetryStep> = Vec::new();
    let mut a: Vec<String> = Vec::new();
    a.push(owned("config"));
    a.push(owned("DiagTrack"));
    a.push(owned("start="));
    a.push(owned("demand"));
    assert(texts(a@) =~= seq!["config"@, "DiagTrack"@, "start="@, "demand"@]);
    v.push(step("sc", a, Report::OnSuccess { line: owned("DiagTrack: enabled") }));
    let mut a: Vec<String> = Vec::new();
    a.push(owned("config"));
    a.push(owned("dmwappushservice"));
    a.push(owned("start="));
    a.push(owned("demand"));
    assert(texts(a@) =~= seq!["config"@, "dmwappushservice"@, "start="@, "demand"@]);
    v.push(step("sc", a, Report::OnSuccess { line: owned("dmwappushservice: enabled") }));
    let mut a: Vec<String> = Vec::new();
    a.push(owned("config"));
    a.push(owned("diagnosticshub.standardcollector.service"));
    a.push(owned("start="));
    a.push(owned("demand"));
    assert(texts(a@) =~= seq!["config"@, "diagnosticshub.standardcollector.service"@, "start="@, "demand"@]);
    v.push(step("sc", a, Report::OnSuccess { line: owned("diagnosticshub.standardcollector.service: enabled") }));
    let mut a: Vec<String> = Vec::new();
    a.push(owned("config"));
    a.push(owned("WerSvc"));
    a.push(owned("start="));
    a.push(owned("demand"));
    assert(texts(a@) =~= seq!["config"@, "WerSvc"@, "start="@, "demand"@]);
    v.push(step("sc", a, Report::OnSuccess { line: owned("WerSvc: enabled") }));
    let mut a: Vec<String> = Vec::new();
    a.push(owned("add"));
    a.push(owned("HKLM\\SOFTWARE\\Policies\\Microsoft\\Windows\\DataCollection"));
    a.push(owned("/v"));
    a.push(owned("AllowTelemetry"));
    a.push(owned("/t"));
    a.push(owned("REG_DWORD"));
    a.push(owned("/d"));
    a.push(owned("3"));
    a.push(owned("/f"));
    assert(texts(a@) =~= seq!["add"@, "HKLM\\SOFTWARE\\Policies\\Microsoft\\Windows\\DataCollection"@, "/v"@, "AllowTelemetry"@, "/t"@, "REG_DWORD"@, "/d"@, "3"@, "/f"@]);
    v.push(step("reg", a, Report::Always { line: owned("AllowTelemetry: 3") }));
    assert(step_views(v@) =~= plan_windows_on());
    v
}

#[verifier::spinoff_prover]
fn build_office_off() -> (v: Vec<TelemetryStep>)
    ensures
        step_views(v@) == plan_office_off(),
{
    let mut v: Vec<TelemetryStep> = Vec::new();
    let mut a: Vec<String> = Vec::new();
    a.push(owned("-NoProfile"));
    a.push(owned("-Command"));
    a.push(owned("Set-ItemProperty -Path 'HKCU:\\Software\\Microsoft\\Office\\Common\\ClientTelemetry' -Name 'DisableTelemetry' -Value 1 -Type DWord -Force -ErrorAction SilentlyContinue; Set-ItemProperty -Path 'HKCU:\\Software\\Microsoft\\Office\\16.0\\Common\\ClientTelemetry' -Name 'SendTelemetry' -Value 3 -Type DWord -Force -ErrorAction SilentlyContinue"));
    assert(texts(a@) =~= seq!["-NoProfile"@, "-Command"@, "Set-ItemProperty -Path 'HKCU:\\Software\\Microsoft\\Office\\Common\\ClientTelemetry' -Name 'DisableTelemetry' -Value 1 -Type DWord -Force -ErrorAction SilentlyContinue; Set-ItemProperty -Path 'HKCU:\\Software\\Microsoft\\Office\\16.0\\Common\\ClientTelemetry' -Name 'SendTelemetry' -Value 3 -Type DWord -Force -ErrorAction SilentlyContinue"@]);
    v.push(step("powershell", a, Report::Always { line: owned("Office telemetry: disabled") }));
    assert(step_views(v@) =~= plan_office_off());
    v
}

#[verifier::spinoff_prover]
fn build_office_on() -> (v: Vec<TelemetryStep>)
    ensures
        step_views(v@) == plan_office_on(),
{
    let mut v: Vec<TelemetryStep> = Vec::new();
    let mut a: Vec<String> = Vec::new();
    a.push(owned("-NoProfile"));
    a.push(owned("-Command"));
    a.push(owned("Remove-ItemProperty -Path 'HKCU:\\Software\\Microsoft\\Office\\Common\\ClientTelemetry' -Name 'DisableTelemetry' -ErrorAction SilentlyContinue; Remove-ItemProperty -Path 'HKCU:\\Software\\Microsoft\\Office\\16.0\\Common\\ClientTelemetry' -Name 'SendTelemetry' -ErrorAction SilentlyContinue"));
    assert(texts(a@) =~= seq!["-NoProfile"@, "-Command"@, "Remove-ItemProperty -Path 'HKCU:\\Software\\Microsoft\\Office\\Common\\ClientTelemetry' -Name 'DisableTelemetry' -ErrorAction SilentlyContinue; Remove-ItemProperty -Path 'HKCU:\\Software\\Microsoft\\Office\\16.0\\Common\\ClientTelemetry' -Name 'SendTelemetry' -ErrorAction SilentlyContinue"@]);
    v.push(step("powershell", a, Report::Always { line: owned("Office telemetry: enabled") }));
    assert(step_views(v@) =~= plan_office_on());
    v
}

#[verifier::spinoff_prover]
fn build_nvidia_off() -> (v: Vec<TelemetryStep>)
    ensures
        step_views(v@) == plan_nvidia_off(),
{
    let mut v: Vec<TelemetryStep> = Vec::new();
    let mut a: Vec<String> = Vec::new();
    a.push(owned("stop"));
    a.push(owned("NvTelemetryContainer"));
    assert(texts(a@) =~= seq!["stop"@, "NvTelemetryContainer"@]);
    v.push(step("sc", a, Report::Never));
    let mut a: Vec<String> = Vec::new();
    a.push(owned("config"));
    a.push(owned("NvTelemetryContainer"));
    a.push(owned("start="));
    a.push(owned("disabled"));
    assert(texts(a@) =~= seq!["config"@, "NvTelemetryContainer"@, "start="@, "disabled"@]);
    v.push(step("sc", a, Report::OnSuccessElse { line: owned("NvTelemetryContainer: disabled"), otherwise: owned("NvTelemetryContainer: not found (skip)") }));
    let mut a: Vec<String> = Vec::new();
    a.push(owned("/Change"));
    a.push(owned("/TN"));
    a.push(owned("NvTmMon_{B2FE1952-0186-46C3-BAEC-A80AA35AC5B8}"));
    a.push(owned("/Disable"));
    assert(texts(a@) =~= seq!["/Change"@, "/TN"@, "NvTmMon_{B2FE1952-0186-46C3-BAEC-A80AA35AC5B8}"@, "/Disable"@]);
    v.push(step("schtasks", a, Report::Never));
    let mut a: Vec<String> = Vec::new();
    a.push(owned("/Change"));
    a.push(owned("/TN"));
    a.push(owned("NvTmRep_{B2FE1952-0186-46C3-BAEC-A80AA35AC5B8}"));
    a.push(owned("/Disable"));
    assert(texts(a@) =~= seq!["/Change"@, "/TN"@, "NvTmRep_{B2FE1952-0186-46C3-BAEC-A80AA35AC5B8}"@, "/Disable"@]);
    v.push(step("schtasks", a, Report::Never));
    let mut a: Vec<String> = Vec::new();
    a.push(owned("add"));
    a.push(owned("HKLM\\SOFTWARE\\NVIDIA Corporation\\NvControlPanel2\\Client"));
    a.push(owned("/v"));
    a.push(owned("OptInOrOutPreference"));
    a.push(owned("/t"));
    a.push(owned("REG_DWORD"));
    a.push(owned("/d"));
    a.push(owned("0"));
    a.push(owned("/f"));
    assert(texts(a@) =~= seq!["add"@, "HKLM\\SOFTWARE\\NVIDIA Corporation\\NvControlPanel2\\Client"@, "/v"@, "OptInOrOutPreference"@, "/t"@, "REG_DWORD"@, "/d"@, "0"@, "/f"@]);
    v.push(step("reg", a, Report::Always { line: owned("NVIDIA telemetry: disabled") }));
    assert(step_views(v@) =~= plan_nvidia_off());
    v
}

#[verifier::spinoff_prover]
fn build_nvidia_on() -> (v: Vec<TelemetryStep>)
    ensures
        step_views(v@) == plan_nvidia_on(),
{
    let mut v: Vec<TelemetryStep> = Vec::new();
    let mut a: Vec<String> = Vec::new();
    a.push(owned("config"));
    a.push(owned("NvTelemetryContainer"));
    a.push(owned("start="));
    a.push(owned("demand"));
    assert(texts(a@) =~= seq!["config"@, "NvTelemetryContainer"@, "start="@, "demand"@]);
    v.push(step("sc", a, Report::OnSuccessElse { line: owned("NvTelemetryContainer: enabled"), otherwise: owned("NvTelemetryContainer: not found (skip)") }));
    let mut a: Vec<String> = Vec::new();
    a.push(owned("/Change"));
    a.push(owned("/TN"));
    a.push(owned("NvTmMon_{B2FE1952-0186-46C3-BAEC-A80AA35AC5B8}"));
    a.push(owned("/Enable"));
    assert(texts(a@) =~= seq!["/Change"@, "/TN"@, "NvTmMon_{B2FE1952-0186-46C3-BAEC-A80AA35AC5B8}"@, "/Enable"@]);
    v.push(step("schtasks", a, Report::Never));
    let mut a: Vec<String> = Vec::new();
    a.push(owned("/Change"));
    a.push(owned("/TN"));
    a.push(owned("NvTmRep_{B2FE1952-0186-46C3-BAEC-A80AA35AC5B8}"));
    a.push(owned("/Enable"));
    assert(texts(a@) =~= seq!["/Change"@, "/TN"@, "NvTmRep_{B2FE1952-0186-46C3-BAEC-A80AA35AC5B8}"@, "/Enable"@]);
    v.push(step("schtasks", a, Report::Never));
    let mut a: Vec<String> = Vec::new();
    a.push(owned("add"));
    a.push(owned("HKLM\\SOFTWARE\\NVIDIA Corporation\\NvControlPanel2\\Client"));
    a.push(owned("/v"));
    a.push(owned("OptInOrOutPreference"));
    a.push(owned("/t"));
    a.push(owned("REG_DWORD"));
    a.push(owned("/d"));
    a.push(owned("1"));
    a.push(owned("/f"));
    assert(texts(a@) =~= seq!["add"@, "HKLM\\SOFTWARE\\NVIDIA Corporation\\NvControlPanel2\\Client"@, "/v"@, "OptInOrOutPreference"@, "/t"@, "REG_DWORD"@, "/d"@, "1"@, "/f"@]);
    v.push(step("reg", a, Report::Always { line: owned("NVIDIA telemetry: enabled") }));
    assert(step_views(v@) =~= plan_nvidia_on());
    v
}

#[verifier::spinoff_prover]
fn build_browsers_off() -> (v: Vec<TelemetryStep>)
    ensures
        step_views(v@) == plan_browsers_off(),
{
    let mut v: Vec<TelemetryStep> = Vec::new();
    let mut a: Vec<String> = Vec::new();
    a.push(owned("add"));
    a.push(owned("HKLM\\SOFTWARE\\Policies\\Microsoft\\Edge"));
    a.push(owned("/v"));
    a.push(owned("MetricsReportingEnabled"));
    a.push(owned("/t"));
    a.push(owned("REG_DWORD"));
    a.push(owned("/d"));
    a.push(owned("0"));
    a.push(owned("/f"));
    assert(texts(a@) =~= seq!["add"@, "HKLM\\SOFTWARE\\Policies\\Microsoft\\Edge"@, "/v"@, "MetricsReportingEnabled"@, "/t"@, "REG_DWORD"@, "/d"@, "0"@, "/f"@]);
    v.push(step("reg", a, Report::Never));
    let mut a: Vec<String> = Vec::new();
    a.push(owned("add"));
    a.push(owned("HKLM\\SOFTWARE\\Policies\\Microsoft\\Edge"));
    a.push(owned("/v"));
    a.push(owned("DiagnosticData"));
    a.push(owned("/t"));
    a.push(owned("REG_DWORD"));
    a.push(owned("/d"));
    a.push(owned("0"));
    a.push(owned("/f"));
    assert(texts(a@) =~= seq!["add"@, "HKLM\\SOFTWARE\\Policies\\Microsoft\\Edge"@, "/v"@, "DiagnosticData"@, "/t"@, "REG_DWORD"@, "/d"@, "0"@, "/f"@]);
    v.push(step("reg", a, Report::Never));
    let mut a: Vec<String> = Vec::new();
    a.push(owned("add"));
    a.push(owned("HKLM\\SOFTWARE\\Policies\\Microsoft\\Edge"));
    a.push(owned("/v"));
    a.push(owned("SendSiteInfoToImproveServices"));
    a.push(owned("/t"));
    a.push(owned("REG_DWORD"));
    a.push(owned("/d"));
    a.push(owned("0"));
    a.push(owned("/f"));
    assert(texts(a@) =~= seq!["add"@, "HKLM\\SOFTWARE\\Policies\\Microsoft\\Edge"@, "/v"@, "SendSiteInfoToImproveServices"@, "/t"@, "REG_DWORD"@, "/d"@, "0"@, "/f"@]);
    v.push(step("reg", a, Report::Never));
    let mut a: Vec<String> = Vec::new();
    a.push(owned("add"));
    a.push(owned("HKLM\\SOFTWARE\\Policies\\Microsoft\\Edge"));
    a.push(owned("/v"));
    a.push(owned("PersonalizationReportingEnabled"));
    a.push(owned("/t"));
    a.push(owned("REG_DWORD"));
    a.push(owned("/d"));
    a.push(owned("0"));
    a.push(owned("/f"));
    assert(texts(a@) =~= seq!["add"@, "HKLM\\SOFTWARE\\Policies\\Microsoft\\Edge"@, "/v"@, "PersonalizationReportingEnabled"@, "/t"@, "REG_DWORD"@, "/d"@, "0"@, "/f"@]);
    v.push(step("reg", a, Report::Always { line: owned("Edge telemetry: disabled") }));
    let mut a: Vec<String> = Vec::new();
    a.push(owned("add"));
    a.push(owned("HKLM\\SOFTWARE\\Policies\\Google\\Chrome"));
    a.push(owned("/v"));
    a.push(owned("MetricsReportingEnabled"));
    a.push(owned("/t"));
    a.push(owned("REG_DWORD"));
    a.push(owned("/d"));
    a.push(owned("0"));
    a.push(owned("/f"));
    assert(texts(a@) =~= seq!["add"@, "HKLM\\SOFTWARE\\Policies\\Google\\Chrome"@, "/v"@, "MetricsReportingEnabled"@, "/t"@, "REG_DWORD"@, "/d"@, "0"@, "/f"@]);
    v.push(step("reg", a, Report::Never));
    let mut a: Vec<String> = Vec::new();
    a.push(owned("add"));
    a.push(owned("HKLM\\SOFTWARE\\Policies\\Google\\Chrome"));
    a.push(owned("/v"));
    a.push(owned("SafeBrowsingExtendedReportingEnabled"));
    a.push(owned("/t"));
    a.push(owned("REG_DWORD"));
    a.push(owned("/d"));
    a.push(owned("0"));
    a.push(owned("/f"));
    assert(texts(a@) =~= seq!["add"@, "HKLM\\SOFTWARE\\Policies\\Google\\Chrome"@, "/v"@, "SafeBrowsingExtendedReportingEnabled"@, "/t"@, "REG_DWORD"@, "/d"@, "0"@, "/f"@]);
    v.push(step("reg", a, Report::Never));
    let mut a: Vec<String> = Vec::new();
    a.push(owned("add"));
    a.push(owned("HKLM\\SOFTWARE\\Policies\\Google\\Chrome"));
    a.push(owned("/v"));
    a.push(owned("UrlKeyedAnonymizedDataCollectionEnabled"));
    a.push(owned("/t"));
    a.push(owned("REG_DWORD"));
    a.push(owned("/d"));
    a.push(owned("0"));
    a.push(owned("/f"));
    assert(texts(a@) =~= seq!["add"@, "HKLM\\SOFTWARE\\Policies\\Google\\Chrome"@, "/v"@, "UrlKeyedAnonymizedDataCollectionEnabled"@, "/t"@, "REG_DWORD"@, "/d"@, "0"@, "/f"@]);
    v.push(step("reg", a, Report::Never));
    let mut a: Vec<String> = Vec::new();
    a.push(owned("add"));
    a.push(owned("HKLM\\SOFTWARE\\Policies\\Google\\Chrome"));
    a.push(owned("/v"));
    a.push(owned("SpellCheckServiceEnabled"));
    a.push(owned("/t"));
    a.push(owned("REG_DWORD"));
    a.push(owned("/d"));
    a.push(owned("0"));
    a.push(owned("/f"));
    assert(texts(a@) =~= seq!["add"@, "HKLM\\SOFTWARE\\Policies\\Google\\Chrome"@, "/v"@, "SpellCheckServiceEnabled"@, "/t"@, "REG_DWORD"@, "/d"@, "0"@, "/f"@]);
    v.push(step("reg", a, Report::Always { line: owned("Chrome telemetry: disabled") }));
    let mut a: Vec<String> = Vec::new();
    a.push(owned("-NoProfile"));
    a.push(owned("-Command"));
    a.push(owned("$ffProfiles = Get-ChildItem \"$env:APPDATA\\Mozilla\\Firefox\\Profiles\" -Directory -ErrorAction SilentlyContinue; foreach($p in $ffProfiles){ $f = Join-Path $p.FullName 'user.js'; Add-Content -Path $f -Value 'user_pref(\"toolkit.telemetry.enabled\", false);' -ErrorAction SilentlyContinue; Add-Content -Path $f -Value 'user_pref(\"datareporting.healthreport.uploadEnabled\", false);' -ErrorAction SilentlyContinue }"));
    assert(texts(a@) =~= seq!["-NoProfile"@, "-Command"@, "$ffProfiles = Get-ChildItem \"$env:APPDATA\\Mozilla\\Firefox\\Profiles\" -Directory -ErrorAction SilentlyContinue; foreach($p in $ffProfiles){ $f = Join-Path $p.FullName 'user.js'; Add-Content -Path $f -Value 'user_pref(\"toolkit.telemetry.enabled\", false);' -ErrorAction SilentlyContinue; Add-Content -Path $f -Value 'user_pref(\"datareporting.healthreport.uploadEnabled\", false);' -ErrorAction SilentlyContinue }"@]);
    v.push(step("powershell", a, Report::Always { line: owned("Firefox telemetry: disabled") }));
    assert(step_views(v@) =~= plan_browsers_off());
    v
}

#[verifier::spinoff_prover]
fn build_browsers_on() -> (v: Vec<TelemetryStep>)
    ensures
        step_views(v@) == plan_browsers_on(),
{
    let mut v: Vec<TelemetryStep> = Vec::new();
    let mut a: Vec<String> = Vec::new();
    a.push(owned("add"));
    a.push(owned("HKLM\\SOFTWARE\\Policies\\Microsoft\\Edge"));
    a.push(owned("/v"));
    a.push(owned("MetricsReportingEnabled"));
    a.push(owned("/t"));
    a.push(owned("REG_DWORD"));
    a.push(owned("/d"));
    a.push(owned("1"));
    a.push(owned("/f"));
    assert(texts(a@) =~= seq!["add"@, "HKLM\\SOFTWARE\\Policies\\Microsoft\\Edge"@, "/v"@, "MetricsReportingEnabled"@, "/t"@, "REG_DWORD"@, "/d"@, "1"@, "/f"@]);
    v.push(step("reg", a, Report::Never));
    let mut a: Vec<String> = Vec::new();
    a.push(owned("add"));
    a.push(owned("HKLM\\SOFTWARE\\Policies\\Microsoft\\Edge"));
    a.push(owned("/v"));
    a.push(owned("DiagnosticData"));
    a.push(owned("/t"));
    a.push(owned("REG_DWORD"));
    a.push(owned("/d"));
    a.push(owned("2"));
    a.push(owned("/f"));
    assert(texts(a@) =~= seq!["add"@, "HKLM\\SOFTWARE\\Policies\\Microsoft\\Edge"@, "/v"@, "DiagnosticData"@, "/t"@, "REG_DWORD"@, "/d"@, "2"@, "/f"@]);
    v.push(step("reg", a, Report::Never));
    let mut a: Vec<String> = Vec::new();
    a.push(owned("add"));
    a.push(owned("HKLM\\SOFTWARE\\Policies\\Microsoft\\Edge"));
    a.push(owned("/v"));
    a.push(owned("SendSiteInfoToImproveServices"));
    a.push(owned("/t"));
    a.push(owned("REG_DWORD"));
    a.push(owned("/d"));
    a.push(owned("1"));
    a.push(owned("/f"));
    assert(texts(a@) =~= seq!["add"@, "HKLM\\SOFTWARE\\Policies\\Microsoft\\Edge"@, "/v"@, "SendSiteInfoToImproveServices"@, "/t"@, "REG_DWORD"@, "/d"@, "1"@, "/f"@]);
    v.push(step("reg", a, Report::Never));
    let mut a: Vec<String> = Vec::new();
    a.push(owned("add"));
    a.push(owned("HKLM\\SOFTWARE\\Policies\\Microsoft\\Edge"));
    a.push(owned("/v"));
    a.push(owned("PersonalizationReportingEnabled"));
    a.push(owned("/t"));
    a.push(owned("REG_DWORD"));
    a.push(owned("/d"));
    a.push(owned("1"));
    a.push(owned("/f"));
    assert(texts(a@) =~= seq!["add"@, "HKLM\\SOFTWARE\\Policies\\Microsoft\\Edge"@, "/v"@, "PersonalizationReportingEnabled"@, "/t"@, "REG_DWORD"@, "/d"@, "1"@, "/f"@]);
    v.push(step("reg", a, Report::Always { line: owned("Edge telemetry: enabled") }));
    let mut a: Vec<String> = Vec::new();
    a.push(owned("add"));
    a.push(owned("HKLM\\SOFTWARE\\Policies\\Google\\Chrome"));
    a.push(owned("/v"));
    a.push(owned("MetricsReportingEnabled"));
    a.push(owned("/t"));
    a.push(owned("REG_DWORD"));
    a.push(owned("/d"));
    a.push(owned("1"));
    a.push(owned("/f"));
    assert(texts(a@) =~= seq!["add"@, "HKLM\\SOFTWARE\\Policies\\Google\\Chrome"@, "/v"@, "MetricsReportingEnabled"@, "/t"@, "REG_DWORD"@, "/d"@, "1"@, "/f"@]);
    v.push(step("reg", a, Report::Never));
    let mut a: Vec<String> = Vec::new();
    a.push(owned("add"));
    a.push(owned("HKLM\\SOFTWARE\\Policies\\Google\\Chrome"));
    a.push(owned("/v"));
    a.push(owned("SafeBrowsingExtendedReportingEnabled"));
    a.push(owned("/t"));
    a.push(owned("REG_DWORD"));
    a.push(owned("/d"));
    a.push(owned("1"));
    a.push(owned("/f"));
    assert(texts(a@) =~= seq!["add"@, "HKLM\\SOFTWARE\\Policies\\Google\\Chrome"@, "/v"@, "SafeBrowsingExtendedReportingEnabled"@, "/t"@, "REG_DWORD"@, "/d"@, "1"@, "/f"@]);
    v.push(step("reg", a, Report::Never));
    let mut a: Vec<String> = Vec::new();
    a.push(owned("add"));
    a.push(owned("HKLM\\SOFTWARE\\Policies\\Google\\Chrome"));
    a.push(owned("/v"));
    a.push(owned("UrlKeyedAnonymizedDataCollectionEnabled"));
    a.push(owned("/t"));
    a.push(owned("REG_DWORD"));
    a.push(owned("/d"));
    a.push(owned("1"));
    a.push(owned("/f"));
    assert(texts(a@) =~= seq!["add"@, "HKLM\\SOFTWARE\\Policies\\Google\\Chrome"@, "/v"@, "UrlKeyedAnonymizedDataCollectionEnabled"@, "/t"@, "REG_DWORD"@, "/d"@, "1"@, "/f"@]);
    v.push(step("reg", a, Report::Never));
    let mut a: Vec<String> = Vec::new();
    a.push(owned("add"));
    a.push(owned("HKLM\\SOFTWARE\\Policies\\Google\\Chrome"));
    a.push(owned("/v"));
    a.push(owned("SpellCheckServiceEnabled"));
    a.push(owned("/t"));
    a.push(owned("REG_DWORD"));
    a.push(owned("/d"));
    a.push(owned("1"));
    a.push(owned("/f"));
    assert(texts(a@) =~= seq!["add"@, "HKLM\\SOFTWARE\\Policies\\Google\\Chrome"@, "/v"@, "SpellCheckServiceEnabled"@, "/t"@, "REG_DWORD"@, "/d"@, "1"@, "/f"@]);
    v.push(step("reg", a, Report::Always { line: owned("Chrome telemetry: enabled") }));
    let mut a: Vec<String> = Vec::new();
    a.push(owned("-NoProfile"));
    a.push(owned("-Command"));
    a.push(owned("$ffProfiles = Get-ChildItem \"$env:APPDATA\\Mozilla\\Firefox\\Profiles\" -Directory -ErrorAction SilentlyContinue; foreach($p in $ffProfiles){ $f = Join-Path $p.FullName 'user.js'; if(Test-Path $f){ (Get-Content $f) | Where-Object { $_ -notmatch 'toolkit.telemetry.enabled|datareporting.healthreport.uploadEnabled' } | Set-Content $f -ErrorAction SilentlyContinue }}"));
    assert(texts(a@) =~= seq!["-NoProfile"@, "-Command"@, "$ffProfiles = Get-ChildItem \"$env:APPDATA\\Mozilla\\Firefox\\Profiles\" -Directory -ErrorAction SilentlyContinue; foreach($p in $ffProfiles){ $f = Join-Path $p.FullName 'user.js'; if(Test-Path $f){ (Get-Content $f) | Where-Object { $_ -notmatch 'toolkit.telemetry.enabled|datareporting.healthreport.uploadEnabled' } | Set-Content $f -ErrorAction SilentlyContinue }}"@]);
    v.push(step("powershell", a, Report::Always { line: owned("Firefox telemetry: enabled") }));
    assert(step_views(v@) =~= plan_browsers_on());
    v
}

#[verifier::spinoff_prover]
fn build_tracking_off() -> (v: Vec<TelemetryStep>)
    ensures
        step_views(v@) == plan_tracking_off(),
{
    let mut v: Vec<TelemetryStep> = Vec::new();
    let mut a: Vec<String> = Vec::new();
    a.push(owned("add"));
    a.push(owned("HKCU\\Software\\Microsoft\\Windows\\CurrentVersion\\AdvertisingInfo"));
    a.push(owned("/v"));
    a.push(owned("Enabled"));
    a.push(owned("/t"));
    a.push(owned("REG_DWORD"));
    a.push(owned("/d"));
    a.push(owned("0"));
    a.push(owned("/f"));
    assert(texts(a@) =~= seq!["add"@, "HKCU\\Software\\Microsoft\\Windows\\CurrentVersion\\AdvertisingInfo"@, "/v"@, "Enabled"@, "/t"@, "REG_DWORD"@, "/d"@, "0"@, "/f"@]);
    v.push(step("reg", a, Report::Never));
    let mut a: Vec<String> = Vec::new();
    a.push(owned("add"));
    a.push(owned("HKLM\\SOFTWARE\\Policies\\Microsoft\\Windows\\AdvertisingInfo"));
    a.push(owned("/v"));
    a.push(owned("DisabledByGroupPolicy"));
    a.push(owned("/t"));
    a.push(owned("REG_DWORD"));
    a.push(owned("/d"));
    a.push(owned("1"));
    a.push(owned("/f"));
    assert(texts(a@) =~= seq!["add"@, "HKLM\\SOFTWARE\\Policies\\Microsoft\\Windows\\AdvertisingInfo"@, "/v"@, "DisabledByGroupPolicy"@, "/t"@, "REG_DWORD"@, "/d"@, "1"@, "/f"@]);
    v.push(step("reg", a, Report::Always { line: owned("Advertising ID: disabled") }));
    let mut a: Vec<String> = Vec::new();
    a.push(owned("add"));
    a.push(owned("HKLM\\SOFTWARE\\Policies\\Microsoft\\Windows\\System"));
    a.push(owned("/v"));
    a.push(owned("EnableActivityFeed"));
    a.push(owned("/t"));
    a.push(owned("REG_DWORD"));
    a.push(owned("/d"));
    a.push(owned("0"));
    a.push(owned("/f"));
    assert(texts(a@) =~= seq!["add"@, "HKLM\\SOFTWARE\\Policies\\Microsoft\\Windows\\System"@, "/v"@, "EnableActivityFeed"@, "/t"@, "REG_DWORD"@, "/d"@, "0"@, "/f"@]);
    v.push(step("reg", a, Report::Never));
    let mut a: Vec<String> = Vec::new();
    a.push(owned("add"));
    a.push(owned("HKLM\\SOFTWARE\\Policies\\Microsoft\\Windows\\System"));
    a.push(owned("/v"));
    a.push(owned("PublishUserActivities"));
    a.push(owned("/t"));
    a.push(owned("REG_DWORD"));
    a.push(owned("/d"));
    a.push(owned("0"));
    a.push(owned("/f"));
    assert(texts(a@) =~= seq!["add"@, "HKLM\\SOFTWARE\\Policies\\Microsoft\\Windows\\System"@, "/v"@, "PublishUserActivities"@, "/t"@, "REG_DWORD"@, "/d"@, "0"@, "/f"@]);
    v.push(step("reg", a, Report::Never));
    let mut a: Vec<String> = Vec::new();
    a.push(owned("add"));
    a.push(owned("HKLM\\SOFTWARE\\Policies\\Microsoft\\Windows\\System"));
    a.push(owned("/v"));
    a.push(owned("UploadUserActivities"));
    a.push(owned("/t"));
    a.push(owned("REG_DWORD"));
    a.push(owned("/d"));
    a.push(owned("0"));
    a.push(owned("/f"));
    assert(texts(a@) =~= seq!["add"@, "HKLM\\SOFTWARE\\Policies\\Microsoft\\Windows\\System"@, "/v"@, "UploadUserActivities"@, "/t"@, "REG_DWORD"@, "/d"@, "0"@, "/f"@]);
    v.push(step("reg", a, Report::Always { line: owned("Activity History: disabled") }));
    let mut a: Vec<String> = Vec::new();
    a.push(owned("add"));
    a.push(owned("HKLM\\SOFTWARE\\Policies\\Microsoft\\Windows\\LocationAndSensors"));
    a.push(owned("/v"));
    a.push(owned("DisableLocation"));
    a.push(owned("/t"));
    a.push(owned("REG_DWORD"));
    a.push(owned("/d"));
    a.push(owned("1"));
    a.push(owned("/f"));
    assert(texts(a@) =~= seq!["add"@, "HKLM\\SOFTWARE\\Policies\\Microsoft\\Windows\\LocationAndSensors"@, "/v"@, "DisableLocation"@, "/t"@, "REG_DWORD"@, "/d"@, "1"@, "/f"@]);
    v.push(step("reg", a, Report::Always { line: owned("Location tracking: disabled") }));
    let mut a: Vec<String> = Vec::new();
    a.push(owned("add"));
    a.push(owned("HKLM\\SOFTWARE\\Policies\\Microsoft\\Windows\\Windows Search"));
    a.push(owned("/v"));
    a.push(owned("AllowCortana"));
    a.push(owned("/t"));
    a.push(owned("REG_DWORD"));
    a.push(owned("/d"));
    a.push(owned("0"));
    a.push(owned("/f"));
    assert(texts(a@) =~= seq!["add"@, "HKLM\\SOFTWARE\\Policies\\Microsoft\\Windows\\Windows Search"@, "/v"@, "AllowCortana"@, "/t"@, "REG_DWORD"@, "/d"@, "0"@, "/f"@]);
    v.push(step("reg", a, Report::Never));
    let mut a: Vec<String> = Vec::new();
    a.push(owned("add"));
    a.push(owned("HKLM\\SOFTWARE\\Policies\\Microsoft\\Windows\\Windows Search"));
    a.push(owned("/v"));
    a.push(owned("AllowSearchToUseLocation"));
    a.push(owned("/t"));
    a.push(owned("REG_DWORD"));
    a.push(owned("/d"));
    a.push(owned("0"));
    a.push(owned("/f"));
    assert(texts(a@) =~= seq!["add"@, "HKLM\\SOFTWARE\\Policies\\Microsoft\\Windows\\Windows Search"@, "/v"@, "AllowSearchToUseLocation"@, "/t"@, "REG_DWORD"@, "/d"@, "0"@, "/f"@]);
    v.push(step("reg", a, Report::Never));
    let mut a: Vec<String> = Vec::new();
    a.push(owned("add"));
    a.push(owned("HKLM\\SOFTWARE\\Policies\\Microsoft\\Windows\\Windows Search"));
    a.push(owned("/v"));
    a.push(owned("ConnectedSearchUseWeb"));
    a.push(owned("/t"));
    a.push(owned("REG_DWORD"));
    a.push(owned("/d"));
    a.push(owned("0"));
    a.push(owned("/f"));
    assert(texts(a@) =~= seq!["add"@, "HKLM\\SOFTWARE\\Policies\\Microsoft\\Windows\\Windows Search"@, "/v"@, "ConnectedSearchUseWeb"@, "/t"@, "REG_DWORD"@, "/d"@, "0"@, "/f"@]);
    v.push(step("reg", a, Report::Always { line: owned("Cortana/Connected Search: disabled") }));
    let mut a: Vec<String> = Vec::new();
    a.push(owned("add"));
    a.push(owned("HKCU\\Software\\Microsoft\\Input\\TIPC"));
    a.push(owned("/v"));
    a.push(owned("Enabled"));
    a.push(owned("/t"));
    a.push(owned("REG_DWORD"));
    a.push(owned("/d"));
    a.push(owned("0"));
    a.push(owned("/f"));
    assert(texts(a@) =~= seq!["add"@, "HKCU\\Software\\Microsoft\\Input\\TIPC"@, "/v"@, "Enabled"@, "/t"@, "REG_DWORD"@, "/d"@, "0"@, "/f"@]);
    v.push(step("reg", a, Report::Always { line: owned("Inking & Typing data: disabled") }));
    let mut a: Vec<String> = Vec::new();
    a.push(owned("add"));
    a.push(owned("HKCU\\Software\\Microsoft\\Siuf\\Rules"));
    a.push(owned("/v"));
    a.push(owned("NumberOfSIUFInPeriod"));
    a.push(owned("/t"));
    a.push(owned("REG_DWORD"));
    a.push(owned("/d"));
    a.push(owned("0"));
    a.push(owned("/f"));
    assert(texts(a@) =~= seq!["add"@, "HKCU\\Software\\Microsoft\\Siuf\\Rules"@, "/v"@, "NumberOfSIUFInPeriod"@, "/t"@, "REG_DWORD"@, "/d"@, "0"@, "/f"@]);
    v.push(step("reg", a, Report::Always { line: owned("Feedback frequency: disabled") }));
    assert(step_views(v@) =~= plan_tracking_off());
    v
}

#[verifier::spinoff_prover]
fn build_tracking_on() -> (v: Vec<TelemetryStep>)
    ensures
        step_views(v@) == plan_tracking_on(),
{
    let mut v: Vec<TelemetryStep> = Vec::new();
    let mut a: Vec<String> = Vec::new();
    a.push(owned("add"));
    a.push(owned("HKCU\\Software\\Microsoft\\Windows\\CurrentVersion\\AdvertisingInfo"));
    a.push(owned("/v"));
    a.push(owned("Enabled"));
    a.push(owned("/t"));
    a.push(owned("REG_DWORD"));
    a.push(owned("/d"));
    a.push(owned("1"));
    a.push(owned("/f"));
    assert(texts(a@) =~= seq!["add"@, "HKCU\\Software\\Microsoft\\Windows\\CurrentVersion\\AdvertisingInfo"@, "/v"@, "Enabled"@, "/t"@, "REG_DWORD"@, "/d"@, "1"@, "/f"@]);
    v.push(step("reg", a, Report::Never));
    let mut a: Vec<String> = Vec::new();
    a.push(owned("add"));
    a.push(owned("HKLM\\SOFTWARE\\Policies\\Microsoft\\Windows\\AdvertisingInfo"));
    a.push(owned("/v"));
    a.push(owned("DisabledByGroupPolicy"));
    a.push(owned("/t"));
    a.push(owned("REG_DWORD"));
    a.push(owned("/d"));
    a.push(owned("0"));
    a.push(owned("/f"));
    assert(texts(a@) =~= seq!["add"@, "HKLM\\SOFTWARE\\Policies\\Microsoft\\Windows\\AdvertisingInfo"@, "/v"@, "DisabledByGroupPolicy"@, "/t"@, "REG_DWORD"@, "/d"@, "0"@, "/f"@]);
    v.push(step("reg", a, Report::Always { line: owned("Advertising ID: enabled") }));
    let mut a: Vec<String> = Vec::new();
    a.push(owned("add"));
    a.push(owned("HKLM\\SOFTWARE\\Policies\\Microsoft\\Windows\\System"));
    a.push(owned("/v"));
    a.push(owned("EnableActivityFeed"));
    a.push(owned("/t"));
    a.push(owned("REG_DWORD"));
    a.push(owned("/d"));
    a.push(owned("1"));
    a.push(owned("/f"));
    assert(texts(a@) =~= seq!["add"@, "HKLM\\SOFTWARE\\Policies\\Microsoft\\Windows\\System"@, "/v"@, "EnableActivityFeed"@, "/t"@, "REG_DWORD"@, "/d"@, "1"@, "/f"@]);
    v.push(step("reg", a, Report::Never));
    let mut a: Vec<String> = Vec::new();
    a.push(owned("add"));
    a.push(owned("HKLM\\SOFTWARE\\Policies\\Microsoft\\Windows\\System"));
    a.push(owned("/v"));
    a.push(owned("PublishUserActivities"));
    a.push(owned("/t"));
    a.push(owned("REG_DWORD"));
    a.push(owned("/d"));
    a.push(owned("1"));
    a.push(owned("/f"));
    assert(texts(a@) =~= seq!["add"@, "HKLM\\SOFTWARE\\Policies\\Microsoft\\Windows\\System"@, "/v"@, "PublishUserActivities"@, "/t"@, "REG_DWORD"@, "/d"@, "1"@, "/f"@]);
    v.push(step("reg", a, Report::Never));
    let mut a: Vec<String> = Vec::new();
    a.push(owned("add"));
    a.push(owned("HKLM\\SOFTWARE\\Policies\\Microsoft\\Windows\\System"));
    a.push(owned("/v"));
    a.push(owned("UploadUserActivities"));
    a.push(owned("/t"));
    a.push(owned("REG_DWORD"));
    a.push(owned("/d"));
    a.push(owned("1"));
    a.push(owned("/f"));
    assert(texts(a@) =~= seq!["add"@, "HKLM\\SOFTWARE\\Policies\\Microsoft\\Windows\\System"@, "/v"@, "UploadUserActivities"@, "/t"@, "REG_DWORD"@, "/d"@, "1"@, "/f"@]);
    v.push(step("reg", a, Report::Always { line: owned("Activity History: enabled") }));
    let mut a: Vec<String> = Vec::new();
    a.push(owned("add"));
    a.push(owned("HKLM\\SOFTWARE\\Policies\\Microsoft\\Windows\\LocationAndSensors"));
    a.push(owned("/v"));
    a.push(owned("DisableLocation"));
    a.push(owned("/t"));
    a.push(owned("REG_DWORD"));
    a.push(owned("/d"));
    a.push(owned("0"));
    a.push(owned("/f"));
    assert(texts(a@) =~= seq!["add"@, "HKLM\\SOFTWARE\\Policies\\Microsoft\\Windows\\LocationAndSensors"@, "/v"@, "DisableLocation"@, "/t"@, "REG_DWORD"@, "/d"@, "0"@, "/f"@]);
    v.push(step("reg", a, Report::Always { line: owned("Location tracking: enabled") }));
    let mut a: Vec<String> = Vec::new();
    a.push(owned("add"));
    a.push(owned("HKLM\\SOFTWARE\\Policies\\Microsoft\\Windows\\Windows Search"));
    a.push(owned("/v"));
    a.push(owned("AllowCortana"));
    a.push(owned("/t"));
    a.push(owned("REG_DWORD"));
    a.push(owned("/d"));
    a.push(owned("1"));
    a.push(owned("/f"));
    assert(texts(a@) =~= seq!["add"@, "HKLM\\SOFTWARE\\Policies\\Microsoft\\Windows\\Windows Search"@, "/v"@, "AllowCortana"@, "/t"@, "REG_DWORD"@, "/d"@, "1"@, "/f"@]);
    v.push(step("reg", a, Report::Never));
    let mut a: Vec<String> = Vec::new();
    a.push(owned("add"));
    a.push(owned("HKLM\\SOFTWARE\\Policies\\Microsoft\\Windows\\Windows Search"));
    a.push(owned("/v"));
    a.push(owned("AllowSearchToUseLocation"));
    a.push(owned("/t"));
    a.push(owned("REG_DWORD"));
    a.push(owned("/d"));
    a.push(owned("1"));
    a.push(owned("/f"));
    assert(texts(a@) =~= seq!["add"@, "HKLM\\SOFTWARE\\Policies\\Microsoft\\Windows\\Windows Search"@, "/v"@, "AllowSearchToUseLocation"@, "/t"@, "REG_DWORD"@, "/d"@, "1"@, "/f"@]);
    v.push(step("reg", a, Report::Never));
    let mut a: Vec<String> = Vec::new();
    a.push(owned("add"));
    a.push(owned("HKLM\\SOFTWARE\\Policies\\Microsoft\\Windows\\Windows Search"));
    a.push(owned("/v"));
    a.push(owned("ConnectedSearchUseWeb"));
    a.push(owned("/t"));
    a.push(owned("REG_DWORD"));
    a.push(owned("/d"));
    a.push(owned("1"));
    a.push(owned("/f"));
    assert(texts(a@) =~= seq!["add"@, "HKLM\\SOFTWARE\\Policies\\Microsoft\\Windows\\Windows Search"@, "/v"@, "ConnectedSearchUseWeb"@, "/t"@, "REG_DWORD"@, "/d"@, "1"@, "/f"@]);
    v.push(step("reg", a, Report::Always { line: owned("Cortana/Connected Search: enabled") }));
    let mut a: Vec<String> = Vec::new();
    a.push(owned("add"));
    a.push(owned("HKCU\\Software\\Microsoft\\Input\\TIPC"));
    a.push(owned("/v"));
    a.push(owned("Enabled"));
    a.push(owned("/t"));
    a.push(owned("REG_DWORD"));
    a.push(owned("/d"));
    a.push(owned("1"));
    a.push(owned("/f"));
    assert(texts(a@) =~= seq!["add"@, "HKCU\\Software\\Microsoft\\Input\\TIPC"@, "/v"@, "Enabled"@, "/t"@, "REG_DWORD"@, "/d"@, "1"@, "/f"@]);
    v.push(step("reg", a, Report::Always { line: owned("Inking & Typing data: enabled") }));
    let mut a: Vec<String> = Vec::new();
    a.push(owned("add"));
    a.push(owned("HKCU\\Software\\Microsoft\\Siuf\\Rules"));
    a.push(owned("/v"));
    a.push(owned("NumberOfSIUFInPeriod"));
    a.push(owned("/t"));
    a.push(owned("REG_DWORD"));
    a.push(owned("/d"));
    a.push(owned("1"));
    a.push(owned("/f"));
    assert(texts(a@) =~= seq!["add"@, "HKCU\\Software\\Microsoft\\Siuf\\Rules"@, "/v"@, "NumberOfSIUFInPeriod"@, "/t"@, "REG_DWORD"@, "/d"@, "1"@, "/f"@]);
    v.push(step("reg", a, Report::Always { line: owned("Feedback frequency: enabled") }));
    assert(step_views(v@) =~= plan_tracking_on());
    v
}

/// The steps that switch a category's telemetry off (or back on), or the
/// error for an unknown category (on Windows).
pub fn telemetry_steps(category: &str, disable: bool) -> (r: Result<Vec<TelemetryStep>, String>)
    ensures
        match telemetry_plan(category@, disable) {
            Some(p) => r matches Ok(v) && step_views(v@) == p,
            None => r matches Err(e) && e@ == "Unknown telemetry category: "@ + category@,
        },
{
    if text_eq(category, "windows") {
        Ok(if disable { build_windows_off() } else { build_windows_on() })
    } else if text_eq(category, "office") {
        Ok(if disable { build_office_off() } else { build_office_on() })
    } else if text_eq(category, "nvidia") {
        Ok(if disable { build_nvidia_off() } else { build_nvidia_on() })
    } else if text_eq(category, "browsers") {
        Ok(if disable { build_browsers_off() } else { build_browsers_on() })
    } else if text_eq(category, "tracking") {
        Ok(if disable { build_tracking_off() } else { build_tracking_on() })
    } else {
        let mut e = owned("Unknown telemetry category: ");
        push_str(&mut e, category);
        Err(e)
    }
}

/// How a step's command ended.
#[derive(Clone, Copy)]
pub enum StepOutcome {
    Succeeded,
    Failed,
    NotRun,
}

/// The line a step adds to the result, if any.
pub open spec fn step_line(r: ReportView, o: StepOutcome) -> Option<Seq<char>> {
    match r {
        ReportView::Never => None,
        ReportView::Always { line } => Some(line),
        ReportView::OnSuccess { line } => if o is Succeeded {
            Some(line)
        } else {
            None
        },
        ReportView::OnSuccessElse { line, otherwise } => if o is Succeeded {
            Some(line)
        } else if o is Failed {
            Some(otherwise)
        } else {
            None
        },
    }
}

/// The line a step adds to the result once its command ended.
pub fn step_report(r: &Report, o: &StepOutcome) -> (l: Option<String>)
    ensures
        match step_line(report_view(*r), *o) {
            Some(x) => l matches Some(y) && y@ == x,
            None => l is None,
        },
{
    match r {
        Report::Never => None,
        Report::Always { line } => Some(line.clone()),
        Report::OnSuccess { line } => match o {
            StepOutcome::Succeeded => Some(line.clone()),
            _ => None,
        },
        Report::OnSuccessElse { line, otherwise } => match o {
            StepOutcome::Succeeded => Some(line.clone()),
            StepOutcome::Failed => Some(otherwise.clone()),
            StepOutcome::NotRun => None,
        },
    }
}

/// The answer on a system other than Windows.
pub fn telemetry_elsewhere() -> (r: Vec<String>)
    ensures
        texts(r@) == seq!["Telemetry control is Windows-specific"@],
{
    let mut r: Vec<String> = Vec::new();
    r.push(owned("Telemetry control is Windows-specific"));
    assert(texts(r@) =~= seq!["Telemetry control is Windows-specific"@]);
    r
}

/// The telemetry services the simple switch stops and disables.
pub open spec fn telemetry_services() -> Seq<Seq<char>> {
    seq!["DiagTrack"@, "dmwappushservice"@, "diagnosticshub.standardcollector.service"@, "WerSvc"@]
}

/// The telemetry services that the quick switch stops and disables, in
/// order.
pub fn telemetry_service_list() -> (r: Vec<String>)
    ensures
        texts(r@) == telemetry_services(),
{
    let mut r: Vec<String> = Vec::new();
    r.push(owned("DiagTrack"));
    r.push(owned("dmwappushservice"));
    r.push(owned("diagnosticshub.standardcollector.service"));
    r.push(owned("WerSvc"));
    assert(texts(r@) =~= telemetry_services());
    r
}

/// The commands of the simple switch for one service: stop it, then disable
/// it; the service counts as disabled when the stop succeeded.
pub fn service_off_commands(svc: &str) -> (r: (ShellCommand, ShellCommand))
    ensures
        r.0@ == (CommandView { program: "sc"@, args: seq!["stop"@, svc@] }),
        r.1@ == (CommandView { program: "sc"@, args: seq!["config"@, svc@, "start="@, "disabled"@] }),
{
    let a = crate::shell::command2("sc", owned("stop"), owned(svc));
    let mut args: Vec<String> = Vec::new();
    args.push(owned("config"));
    args.push(owned(svc));
    args.push(owned("start="));
    args.push(owned("disabled"));
    let b = command_with("sc", args);
    assert(b@.args =~= seq!["config"@, svc@, "start="@, "disabled"@]);
    (a, b)
}

} // verus!
