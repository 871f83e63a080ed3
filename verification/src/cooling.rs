//! Fan boost: the commands each platform runs to raise (or restore) cooling,
//! and the report built from what those commands answered.
use vstd::prelude::*;

use crate::shell::{command2, command3, powershell, CommandView, ShellCommand};
use crate::text::{
    chars_of, has_prefix, lowercase, owned, push_chars, push_str, split_char, split_at_char,
    starts_with, string_of_range, text_eq, to_lowercase, trim, trim_chars, trim_str,
};

verus! {

/// What a fan boost request reports.
pub struct CoolBoostResult {
    pub success: bool,
    pub message: String,
    /// What was attempted, line by line.
    pub log: Vec<String>,
}

/// Model of a [`CoolBoostResult`].
pub struct CoolBoostView {
    pub success: bool,
    pub message: Seq<char>,
    pub log: Seq<Seq<char>>,
}

impl View for CoolBoostResult {
    type V = CoolBoostView;

    open spec fn view(&self) -> CoolBoostView {
        CoolBoostView {
            success: self.success,
            message: self.message@,
            log: self.log@.map_values(|l: String| l@),
        }
    }
}

/// The report of a fan boost that panicked.
pub fn panic_report(reason: &str) -> (r: CoolBoostResult)
    ensures
        r@ == (CoolBoostView {
            success: false,
            message: "cool_error"@,
            log: seq!["PANIC caught: "@ + reason@],
        }),
{
    let mut line = owned("PANIC caught: ");
    push_str(&mut line, reason);
    let mut log: Vec<String> = Vec::new();
    log.push(line);
    let r = CoolBoostResult { success: false, message: owned("cool_error"), log };
    assert(r@.log =~= seq!["PANIC caught: "@ + reason@]);
    r
}

/// The message of a finished boost request.
pub open spec fn boost_message(active: bool) -> Seq<char> {
    if active {
        "cool_boost_started"@
    } else {
        "cool_boost_finished"@
    }
}

// ──────────────────────────────── Windows ─────────────────────────────────

/// The query that reads the mainboard's manufacturer.
pub const BOARD_VENDOR_QUERY: &'static str = "(Get-CimInstance Win32_BaseBoard).Manufacturer";

/// Lists the running third-party fan control programs, or prints `NONE`.
pub const FAN_SOFTWARE_SCRIPT: &'static str = r#"
$procs = @('MSICenterService','MSICenter','MSIAfterburner','DragonCenter',
           'iCUE','CorsairService','CorsairCommanderService',
           'FanControl','SpeedFan','argus-monitor','NoteBookFanControl')
$found = @()
foreach ($p in $procs) {
    if (Get-Process -Name $p -ErrorAction SilentlyContinue) { $found += $p }
}
if ($found.Count -gt 0) { $found -join ',' } else { 'NONE' }
"#;

/// Drives every controllable fan to 100% through LibreHardwareMonitor, else OpenHardwareMonitor.
pub const MONITOR_BOOST_SCRIPT: &'static str = r#"try {
    $fans = Get-WmiObject -Namespace root/LibreHardwareMonitor -Class Sensor -Filter "SensorType='Control'" -ErrorAction Stop
    if ($fans -and @($fans).Count -gt 0) {
        foreach ($f in $fans) { $f.Value = 100; $f.Put() | Out-Null }
        Write-Output "LHM_OK"
    } else { Write-Output "LHM_NOFAN" }
} catch {
    try {
        $fans = Get-WmiObject -Namespace root/OpenHardwareMonitor -Class Sensor -Filter "SensorType='Control'" -ErrorAction Stop
        if ($fans -and @($fans).Count -gt 0) {
            foreach ($f in $fans) { $f.Value = 100; $f.Put() | Out-Null }
            Write-Output "OHM_OK"
        } else { Write-Output "OHM_NOFAN" }
    } catch { Write-Output "NO_MONITOR" }
}"#;

/// Returns every controllable fan to 50% through LibreHardwareMonitor, else OpenHardwareMonitor.
pub const MONITOR_RESET_SCRIPT: &'static str = r#"try {
    $fans = Get-WmiObject -Namespace root/LibreHardwareMonitor -Class Sensor -Filter "SensorType='Control'" -ErrorAction Stop
    if ($fans -and @($fans).Count -gt 0) {
        foreach ($f in $fans) { $f.Value = 50; $f.Put() | Out-Null }
        Write-Output "LHM_OK"
    } else { Write-Output "LHM_NOFAN" }
} catch {
    try {
        $fans = Get-WmiObject -Namespace root/OpenHardwareMonitor -Class Sensor -Filter "SensorType='Control'" -ErrorAction Stop
        if ($fans -and @($fans).Count -gt 0) {
            foreach ($f in $fans) { $f.Value = 50; $f.Put() | Out-Null }
            Write-Output "OHM_OK"
        } else { Write-Output "OHM_NOFAN" }
    } catch { Write-Output "NO_MONITOR" }
}"#;

/// Puts an NVIDIA GPU in its maximum performance state and reports `GPU:` followed by what it did.
pub const GPU_BOOST_SCRIPT: &'static str = r#"
$nvsmi = $null
$paths = @(
    "$env:ProgramFiles\NVIDIA Corporation\NVSMI\nvidia-smi.exe",
    "$env:windir\System32\nvidia-smi.exe",
    "nvidia-smi.exe"
)
foreach ($p in $paths) {
    if (Get-Command $p -ErrorAction SilentlyContinue) { $nvsmi = $p; break }
}
if (-not $nvsmi) { Write-Output "GPU:NO_NVSMI"; exit 0 }

$out = @()

# Set persistence mode
& $nvsmi -pm 1 2>$null | Out-Null
$out += "persistence=ON"

# Get max power limit and set it
try {
    $info = & $nvsmi --query-gpu=power.max_limit --format=csv,noheader,nounits 2>$null
    $maxW = [math]::Floor([double]($info.Trim()))
    if ($maxW -gt 0) {
        & $nvsmi -pl $maxW 2>$null | Out-Null
        $out += "power_limit=${maxW}W"
    }
} catch { $out += "power_limit=SKIP" }

# Force P0 performance state (max clocks)
try {
    $clocks = & $nvsmi --query-gpu=clocks.max.graphics,clocks.max.memory --format=csv,noheader,nounits 2>$null
    if ($clocks -match '(\d+),\s*(\d+)') {
        $gc = $matches[1]; $mc = $matches[2]
        & $nvsmi --applications-clocks="$mc,$gc" 2>$null | Out-Null
        $out += "clocks=${gc}MHz/${mc}MHz"
    }
} catch { $out += "clocks=SKIP" }

# GPU fan speed to 100% (if supported by driver)
try {
    $fanResult = & $nvsmi --fan-speed=100 2>&1
    if ($LASTEXITCODE -eq 0) { $out += "fans=100%" }
    else { $out += "fans=AUTO(driver)" }
} catch { $out += "fans=AUTO(driver)" }

# Set GPU performance mode via registry (prefer max performance)
try {
    $regPath = "HKLM:\SYSTEM\CurrentControlSet\Control\Class\{4d36e968-e325-11ce-bfc1-08002be10318}\0000"
    if (Test-Path $regPath) {
        Set-ItemProperty -Path $regPath -Name "PerfLevelSrc" -Value 0x2222 -ErrorAction SilentlyContinue
        Set-ItemProperty -Path $regPath -Name "PowerMizerEnable" -Value 1 -ErrorAction SilentlyContinue
        Set-ItemProperty -Path $regPath -Name "PowerMizerLevel" -Value 1 -ErrorAction SilentlyContinue
        Set-ItemProperty -Path $regPath -Name "PowerMizerLevelAC" -Value 1 -ErrorAction SilentlyContinue
        $out += "registry=MAX_PERF"
    }
} catch {}

Write-Output ("GPU:" + ($out -join ";"))
"#;

/// Returns an NVIDIA GPU to its default state.
pub const GPU_RESET_SCRIPT: &'static str = r#"
$nvsmi = $null
$paths = @("$env:ProgramFiles\NVIDIA Corporation\NVSMI\nvidia-smi.exe","$env:windir\System32\nvidia-smi.exe","nvidia-smi.exe")
foreach ($p in $paths) { if (Get-Command $p -ErrorAction SilentlyContinue) { $nvsmi = $p; break } }
if ($nvsmi) {
    & $nvsmi --reset-applications-clocks 2>$null | Out-Null
    & $nvsmi -pm 0 2>$null | Out-Null
    try { & $nvsmi --fan-speed=0 2>$null | Out-Null } catch {}
    try {
        $regPath = "HKLM:\SYSTEM\CurrentControlSet\Control\Class\{4d36e968-e325-11ce-bfc1-08002be10318}\0000"
        if (Test-Path $regPath) {
            Set-ItemProperty -Path $regPath -Name "PerfLevelSrc" -Value 0x3322 -ErrorAction SilentlyContinue
            Set-ItemProperty -Path $regPath -Name "PowerMizerLevel" -Value 0 -ErrorAction SilentlyContinue
            Set-ItemProperty -Path $regPath -Name "PowerMizerLevelAC" -Value 0 -ErrorAction SilentlyContinue
        }
    } catch {}
    Write-Output "GPU:RESET"
}
"#;

/// Reads the CPU and GPU temperatures as `CPU:<t>|GPU:<t>`.
pub const TEMPERATURE_SCRIPT: &'static str = r#"
$cpuTemp = "N/A"
$gpuTemp = "N/A"
try {
    $t = Get-CimInstance -Namespace root/WMI -Class MSAcpi_ThermalZoneTemperature -ErrorAction Stop |
        Select-Object -First 1 -ExpandProperty CurrentTemperature
    $cpuTemp = [math]::Round(($t - 2732) / 10, 1)
} catch {}
try {
    $nvsmi = $null
    foreach ($p in @("$env:ProgramFiles\NVIDIA Corporation\NVSMI\nvidia-smi.exe","$env:windir\System32\nvidia-smi.exe","nvidia-smi.exe")) {
        if (Get-Command $p -ErrorAction SilentlyContinue) { $nvsmi = $p; break }
    }
    if ($nvsmi) {
        $gt = & $nvsmi --query-gpu=temperature.gpu --format=csv,noheader,nounits 2>$null
        if ($gt) { $gpuTemp = $gt.Trim() }
    }
} catch {}
Write-Output "CPU:$cpuTemp|GPU:$gpuTemp"
"#;

/// The power plan a boost switches to: High Performance, or Balanced when the
/// boost ends.
pub open spec fn power_plan_guid(active: bool) -> Seq<char> {
    if active {
        "8c5e7fda-e8bf-4a96-9a85-a6e23a8c635c"@
    } else {
        "381b4222-f694-41f0-9685-ff5bb260df2e"@
    }
}

/// The command that switches the power plan.
pub fn power_plan_command(active: bool) -> (c: ShellCommand)
    ensures
        c@.program == "powercfg"@,
        c@.args == seq!["/setactive"@, power_plan_guid(active)],
{
    let guid = if active {
        owned("8c5e7fda-e8bf-4a96-9a85-a6e23a8c635c")
    } else {
        owned("381b4222-f694-41f0-9685-ff5bb260df2e")
    };
    command2("powercfg", owned("/setactive"), guid)
}

/// One manufacturer's fan control: its name and the scripts that raise and
/// restore the fans.
pub struct FanVendor {
    pub name: String,
    pub activate: String,
    pub deactivate: String,
}

/// The manufacturers tried, in order.
pub open spec fn vendor_table() -> Seq<(Seq<char>, Seq<char>, Seq<char>)> {
    seq![
        ("MSI"@, "Set-WmiInstance -Namespace root/WMI -Class MSI_LaptopFanControl -Arguments @{FanSpeed=100} -ErrorAction Stop"@, "Set-WmiInstance -Namespace root/WMI -Class MSI_LaptopFanControl -Arguments @{FanSpeed=0} -ErrorAction Stop"@),
        ("ASUS/ROG"@, "Set-WmiInstance -Namespace root/WMI -Class AsusATK -Arguments @{FanSpeedPercentage=100} -ErrorAction Stop"@, "Set-WmiInstance -Namespace root/WMI -Class AsusATK -Arguments @{FanSpeedPercentage=0} -ErrorAction Stop"@),
        ("HP/Omen"@, "Set-WmiInstance -Namespace root/HP/InstrumentedBIOS -Class HP_BIOSSetting -Arguments @{Name='Fan Always On';Value='Enable'} -ErrorAction Stop"@, "Set-WmiInstance -Namespace root/HP/InstrumentedBIOS -Class HP_BIOSSetting -Arguments @{Name='Fan Always On';Value='Disable'} -ErrorAction Stop"@),
        ("Lenovo"@, "(Get-WmiObject -Namespace root/WMI -Class Lenovo_SetBiosSetting -ErrorAction Stop).SetBiosSetting('FanControlOverride,1')"@, "(Get-WmiObject -Namespace root/WMI -Class Lenovo_SetBiosSetting -ErrorAction Stop).SetBiosSetting('FanControlOverride,0')"@),
        ("Dell/Alienware"@, "Set-WmiInstance -Namespace root/WMI -Class AWCCWmiPrivApi -Arguments @{FanSpeedLevel=2} -ErrorAction Stop"@, "Set-WmiInstance -Namespace root/WMI -Class AWCCWmiPrivApi -Arguments @{FanSpeedLevel=0} -ErrorAction Stop"@),
        ("Acer/NitroSense"@, "Set-WmiInstance -Namespace root/WMI -Class AcerGamingFanControl -Arguments @{FanSpeed=100} -ErrorAction Stop"@, "Set-WmiInstance -Namespace root/WMI -Class AcerGamingFanControl -Arguments @{FanSpeed=0} -ErrorAction Stop"@),
        ("Corsair/iCUE"@, "Set-WmiInstance -Namespace root/WMI -Class CorsairFanControl -Arguments @{FanSpeedPercent=100} -ErrorAction Stop"@, "Set-WmiInstance -Namespace root/WMI -Class CorsairFanControl -Arguments @{FanSpeedPercent=0} -ErrorAction Stop"@),
        ("Razer"@, "Set-WmiInstance -Namespace root/WMI -Class RazerFanControl -Arguments @{FanMode=2} -ErrorAction Stop"@, "Set-WmiInstance -Namespace root/WMI -Class RazerFanControl -Arguments @{FanMode=0} -ErrorAction Stop"@),
        ("Samsung"@, "Set-WmiInstance -Namespace root/WMI -Class SamsungEasySettings -Arguments @{FanSpeed='Max'} -ErrorAction Stop"@, "Set-WmiInstance -Namespace root/WMI -Class SamsungEasySettings -Arguments @{FanSpeed='Auto'} -ErrorAction Stop"@),
        ("Huawei/MateBook"@, "Set-WmiInstance -Namespace root/WMI -Class HuaweiFanControl -Arguments @{FanSpeedLevel=3} -ErrorAction Stop"@, "Set-WmiInstance -Namespace root/WMI -Class HuaweiFanControl -Arguments @{FanSpeedLevel=0} -ErrorAction Stop"@),
        ("Toshiba/Dynabook"@, "Set-WmiInstance -Namespace root/WMI -Class ToshibaCooling -Arguments @{FanSpeed=100} -ErrorAction Stop"@, "Set-WmiInstance -Namespace root/WMI -Class ToshibaCooling -Arguments @{FanSpeed=0} -ErrorAction Stop"@),
        ("Gigabyte/Aorus"@, "Set-WmiInstance -Namespace root/WMI -Class GigabyteFanControl -Arguments @{FanSpeed=100} -ErrorAction Stop"@, "Set-WmiInstance -Namespace root/WMI -Class GigabyteFanControl -Arguments @{FanSpeed=0} -ErrorAction Stop"@),
    ]
}

/// One manufacturer of the table.
pub open spec fn vendor_entry(i: int) -> (Seq<char>, Seq<char>, Seq<char>) {
    vendor_table()[i]
}

/// Number of manufacturers tried.
pub open spec fn vendor_count() -> nat {
    12
}

fn fan_vendor(name: &str, activate: &str, deactivate: &str) -> (v: FanVendor)
    ensures
        v.name@ == name@,
        v.activate@ == activate@,
        v.deactivate@ == deactivate@,
{
    FanVendor { name: owned(name), activate: owned(activate), deactivate: owned(deactivate) }
}

/// The manufacturers' fan controls, in the order they are tried.
pub fn fan_vendors() -> (v: Vec<FanVendor>)
    ensures
        v@.len() == vendor_count(),
        forall|i: int|
            0 <= i < v@.len() ==> (#[trigger] v@[i]).name@ == vendor_entry(i).0 && v@[i].activate@
                == vendor_entry(i).1 && v@[i].deactivate@ == vendor_entry(i).2,
{
    let mut v: Vec<FanVendor> = Vec::new();
    v.push(fan_vendor("MSI", "Set-WmiInstance -Namespace root/WMI -Class MSI_LaptopFanControl -Arguments @{FanSpeed=100} -ErrorAction Stop", "Set-WmiInstance -Namespace root/WMI -Class MSI_LaptopFanControl -Arguments @{FanSpeed=0} -ErrorAction Stop"));
    v.push(fan_vendor("ASUS/ROG", "Set-WmiInstance -Namespace root/WMI -Class AsusATK -Arguments @{FanSpeedPercentage=100} -ErrorAction Stop", "Set-WmiInstance -Namespace root/WMI -Class AsusATK -Arguments @{FanSpeedPercentage=0} -ErrorAction Stop"));
    v.push(fan_vendor("HP/Omen", "Set-WmiInstance -Namespace root/HP/InstrumentedBIOS -Class HP_BIOSSetting -Arguments @{Name='Fan Always On';Value='Enable'} -ErrorAction Stop", "Set-WmiInstance -Namespace root/HP/InstrumentedBIOS -Class HP_BIOSSetting -Arguments @{Name='Fan Always On';Value='Disable'} -ErrorAction Stop"));
    v.push(fan_vendor("Lenovo", "(Get-WmiObject -Namespace root/WMI -Class Lenovo_SetBiosSetting -ErrorAction Stop).SetBiosSetting('FanControlOverride,1')", "(Get-WmiObject -Namespace root/WMI -Class Lenovo_SetBiosSetting -ErrorAction Stop).SetBiosSetting('FanControlOverride,0')"));
    v.push(fan_vendor("Dell/Alienware", "Set-WmiInstance -Namespace root/WMI -Class AWCCWmiPrivApi -Arguments @{FanSpeedLevel=2} -ErrorAction Stop", "Set-WmiInstance -Namespace root/WMI -Class AWCCWmiPrivApi -Arguments @{FanSpeedLevel=0} -ErrorAction Stop"));
    v.push(fan_vendor("Acer/NitroSense", "Set-WmiInstance -Namespace root/WMI -Class AcerGamingFanControl -Arguments @{FanSpeed=100} -ErrorAction Stop", "Set-WmiInstance -Namespace root/WMI -Class AcerGamingFanControl -Arguments @{FanSpeed=0} -ErrorAction Stop"));
    v.push(fan_vendor("Corsair/iCUE", "Set-WmiInstance -Namespace root/WMI -Class CorsairFanControl -Arguments @{FanSpeedPercent=100} -ErrorAction Stop", "Set-WmiInstance -Namespace root/WMI -Class CorsairFanControl -Arguments @{FanSpeedPercent=0} -ErrorAction Stop"));
    v.push(fan_vendor("Razer", "Set-WmiInstance -Namespace root/WMI -Class RazerFanControl -Arguments @{FanMode=2} -ErrorAction Stop", "Set-WmiInstance -Namespace root/WMI -Class RazerFanControl -Arguments @{FanMode=0} -ErrorAction Stop"));
    v.push(fan_vendor("Samsung", "Set-WmiInstance -Namespace root/WMI -Class SamsungEasySettings -Arguments @{FanSpeed='Max'} -ErrorAction Stop", "Set-WmiInstance -Namespace root/WMI -Class SamsungEasySettings -Arguments @{FanSpeed='Auto'} -ErrorAction Stop"));
    v.push(fan_vendor("Huawei/MateBook", "Set-WmiInstance -Namespace root/WMI -Class HuaweiFanControl -Arguments @{FanSpeedLevel=3} -ErrorAction Stop", "Set-WmiInstance -Namespace root/WMI -Class HuaweiFanControl -Arguments @{FanSpeedLevel=0} -ErrorAction Stop"));
    v.push(fan_vendor("Toshiba/Dynabook", "Set-WmiInstance -Namespace root/WMI -Class ToshibaCooling -Arguments @{FanSpeed=100} -ErrorAction Stop", "Set-WmiInstance -Namespace root/WMI -Class ToshibaCooling -Arguments @{FanSpeed=0} -ErrorAction Stop"));
    v.push(fan_vendor("Gigabyte/Aorus", "Set-WmiInstance -Namespace root/WMI -Class GigabyteFanControl -Arguments @{FanSpeed=100} -ErrorAction Stop", "Set-WmiInstance -Namespace root/WMI -Class GigabyteFanControl -Arguments @{FanSpeed=0} -ErrorAction Stop"));
    v
}

/// The command that applies one manufacturer's fan control.
pub fn vendor_command(v: &FanVendor, active: bool) -> (c: ShellCommand)
    ensures
        c@.program == "powershell"@,
        c@.args == seq![
            "-NoProfile"@,
            "-Command"@,
            if active { v.activate@ } else { v.deactivate@ },
        ],
{
    if active {
        powershell(v.activate.as_str())
    } else {
        powershell(v.deactivate.as_str())
    }
}

/// How one attempted command ended.
pub enum Attempt {
    /// It ran and reported success.
    Succeeded,
    /// It ran and reported failure.
    Unavailable,
    /// It could not be run, for the given reason.
    Failed { reason: String },
}

/// The log of a Windows boost as it proceeds, and whether some fan control
/// has worked.
pub struct FanBoostLog {
    pub log: Vec<String>,
    pub vendor_success: bool,
    /// What the Windows boost does next.
    pub stage: FanStage,
}

/// What the Windows fan boost does next: read the
/// board's manufacturer, switch the power plan, try each manufacturer's fan
/// control in turn until one works, and when none did, look for fan control
/// programs and try the hardware monitors; then set the cooling policy, the
/// GPU, read the temperatures, and finish.
#[derive(Clone, Copy)]
pub enum FanStage {
    BoardVendor,
    PowerPlan,
    /// The manufacturer at this index of `fan_vendors`.
    Vendor { index: usize },
    FanSoftware,
    Monitor,
    CoolingPolicy,
    Gpu,
    Temperatures,
    Finished,
}

/// The stage after a manufacturer's attempt: the cooling policy once one
/// worked, else the next manufacturer, else the fan control programs.
pub open spec fn after_vendor(index: usize, succeeded: bool) -> FanStage {
    if succeeded {
        FanStage::CoolingPolicy
    } else if index + 1 < vendor_count() {
        FanStage::Vendor { index: (index + 1) as usize }
    } else {
        FanStage::FanSoftware
    }
}

/// The log lines as texts.
pub open spec fn log_texts(l: Seq<String>) -> Seq<Seq<char>> {
    l.map_values(|s: String| s@)
}

/// The manufacturer as reported: trimmed and lower-cased, empty when the
/// query could not run.
pub open spec fn board_vendor_of(query: Result<Seq<char>, Seq<char>>) -> Seq<char> {
    match query {
        Ok(out) => lowercase(trim(out)),
        Err(e) => Seq::<char>::empty(),
    }
}

/// The lines that report the manufacturer.
pub open spec fn board_vendor_lines(query: Result<Seq<char>, Seq<char>>) -> Seq<Seq<char>> {
    let v = board_vendor_of(query);
    let shown = if v.len() == 0 {
        "unknown"@
    } else {
        v
    };
    let last = "Board vendor: "@ + shown;
    match query {
        Ok(out) => seq![last],
        Err(e) => seq!["Board vendor detection failed: "@ + e, last],
    }
}

/// The line that reports the power plan switch.
pub open spec fn power_plan_line(active: bool, ok: bool) -> Seq<char> {
    "Power plan ("@ + (if active { "High Perf"@ } else { "Balanced"@ }) + "): "@ + (if ok {
        "OK"@
    } else {
        "FAIL"@
    })
}

/// The line that reports one manufacturer's attempt.
pub open spec fn vendor_line(name: Seq<char>, a: Attempt) -> Seq<char> {
    match a {
        Attempt::Succeeded => seq!['['] + name + "] OK"@,
        Attempt::Unavailable => seq!['['] + name + "] SKIP: Not available"@,
        Attempt::Failed { reason } => seq!['['] + name + "] ERROR: "@ + reason@,
    }
}

/// The fan control programs found running, when the list names some.
pub open spec fn fan_software_of(out: Seq<char>) -> Option<Seq<char>> {
    let names = trim(out);
    if names != "NONE"@ && names.len() > 0 {
        Some(names)
    } else {
        None
    }
}

/// The line and success of the hardware-monitor fallback.
pub open spec fn monitor_report(result: Result<Seq<char>, Seq<char>>) -> (Seq<char>, bool) {
    match result {
        Ok(out) => if trim(out) == "LHM_OK"@ {
            ("[LibreHardwareMonitor] Fan control: OK"@, true)
        } else if trim(out) == "OHM_OK"@ {
            ("[OpenHardwareMonitor] Fan control: OK"@, true)
        } else {
            ("[HardwareMonitor] Not running or no controllable fans"@, false)
        },
        Err(e) => ("[HardwareMonitor] ERROR: "@ + e, false),
    }
}

/// The line that reports the cooling policy.
pub open spec fn cooling_policy_line(active: bool) -> Seq<char> {
    if active {
        "[Cooling Policy] Active (max cooling) + CPU 100%"@
    } else {
        "[Cooling Policy] Reset to Passive (normal)"@
    }
}

/// The line that reports the GPU step, if any: when boosting, the details the
/// script printed after `GPU:`; when restoring, a fixed line.
pub open spec fn gpu_line(active: bool, out: Option<Seq<char>>) -> Option<Seq<char>> {
    if !active {
        Some("[NVIDIA GPU] Reset to default"@)
    } else {
        match out {
            Some(o) => {
                let t = trim(o);
                if has_prefix(t, "GPU:"@) {
                    let details = t.subrange(4, t.len() as int);
                    if details == "NO_NVSMI"@ {
                        Some("[NVIDIA GPU] nvidia-smi non trouvé"@)
                    } else {
                        Some("[NVIDIA GPU] "@ + details)
                    }
                } else {
                    None
                }
            },
            None => None,
        }
    }
}

/// The temperature line for one part (`CPU` or `GPU`) of the reading.
pub open spec fn temperature_line(part: Seq<char>, tag: Seq<char>, label: Seq<char>) -> Option<Seq<char>> {
    if has_prefix(part, tag) {
        let t = part.subrange(4, part.len() as int);
        if t != "N/A"@ {
            Some(seq!['['] + label + " Temp] "@ + t + "°C"@)
        } else {
            None
        }
    } else {
        None
    }
}

/// The temperature lines of a reading `CPU:<t>|GPU:<t>`.
pub open spec fn temperature_lines(out: Seq<char>) -> Seq<Seq<char>> {
    let t = trim(out);
    let parts = split_char(t, '|');
    if parts.len() < 2 {
        Seq::<Seq<char>>::empty()
    } else {
        let cpu = match temperature_line(parts[0], "CPU:"@, "CPU"@) {
            Some(l) => seq![l],
            None => Seq::<Seq<char>>::empty(),
        };
        let gpu = match temperature_line(parts[1], "GPU:"@, "GPU"@) {
            Some(l) => seq![l],
            None => Seq::<Seq<char>>::empty(),
        };
        cpu + gpu
    }
}

/// The model of a command's answer: its output, or why it could not run.
pub open spec fn answer(r: Result<String, String>) -> Result<Seq<char>, Seq<char>> {
    match r {
        Ok(o) => Ok(o@),
        Err(e) => Err(e@),
    }
}

/// The commands that set the cooling policy: active cooling with the processor
/// held at full speed, or passive cooling with a 5% minimum state.
pub fn cooling_policy_commands(active: bool) -> (v: Vec<ShellCommand>)
    ensures
        active ==> v@.len() == 4 && v@[0]@.args == seq![
            "/setacvalueindex"@,
            "scheme_current"@,
            "sub_processor"@,
            "94d3a615-a899-4ac5-ae2b-e4d8f634367f"@,
            "1"@,
        ] && v@[1]@.args == seq![
            "/setacvalueindex"@,
            "scheme_current"@,
            "sub_processor"@,
            "bc5038f7-23e0-4960-96da-33abaf5935ec"@,
            "100"@,
        ] && v@[2]@.args == seq![
            "/setacvalueindex"@,
            "scheme_current"@,
            "sub_processor"@,
            "893dee8e-2bef-41e0-89c6-b55d0929964c"@,
            "100"@,
        ] && v@[3]@.args == seq!["/setactive"@, "scheme_current"@],
        !active ==> v@.len() == 3 && v@[0]@.args == seq![
            "/setacvalueindex"@,
            "scheme_current"@,
            "sub_processor"@,
            "94d3a615-a899-4ac5-ae2b-e4d8f634367f"@,
            "0"@,
        ] && v@[1]@.args == seq![
            "/setacvalueindex"@,
            "scheme_current"@,
            "sub_processor"@,
            "893dee8e-2bef-41e0-89c6-b55d0929964c"@,
            "5"@,
        ] && v@[2]@.args == seq!["/setactive"@, "scheme_current"@],
        forall|i: int| 0 <= i < v@.len() ==> (#[trigger] v@[i])@.program == "powercfg"@,
{
    let mut v: Vec<ShellCommand> = Vec::new();
    if active {
        v.push(processor_setting("94d3a615-a899-4ac5-ae2b-e4d8f634367f", "1"));
        v.push(processor_setting("bc5038f7-23e0-4960-96da-33abaf5935ec", "100"));
        v.push(processor_setting("893dee8e-2bef-41e0-89c6-b55d0929964c", "100"));
    } else {
        v.push(processor_setting("94d3a615-a899-4ac5-ae2b-e4d8f634367f", "0"));
        v.push(processor_setting("893dee8e-2bef-41e0-89c6-b55d0929964c", "5"));
    }
    v.push(command2("powercfg", owned("/setactive"), owned("scheme_current")));
    v
}

fn processor_setting(guid: &str, value: &str) -> (c: ShellCommand)
    ensures
        c@.program == "powercfg"@,
        c@.args == seq![
            "/setacvalueindex"@,
            "scheme_current"@,
            "sub_processor"@,
            guid@,
            value@,
        ],
{
    let mut args: Vec<String> = Vec::new();
    args.push(owned("/setacvalueindex"));
    args.push(owned("scheme_current"));
    args.push(owned("sub_processor"));
    args.push(owned(guid));
    args.push(owned(value));
    let c = crate::shell::command_with("powercfg", args);
    assert(c@.args =~= seq![
        "/setacvalueindex"@,
        "scheme_current"@,
        "sub_processor"@,
        guid@,
        value@,
    ]);
    c
}

impl FanBoostLog {
    /// The stage the boost is at.
    pub open spec fn stage(&self) -> FanStage {
        self.stage
    }

    /// An empty log; no fan control has worked yet, and the manufacturer is
    /// read first.
    pub fn new() -> (r: Self)
        ensures
            log_texts(r.log@) == Seq::<Seq<char>>::empty(),
            !r.vendor_success,
            r.stage() == FanStage::BoardVendor,
    {
        let r = FanBoostLog { log: Vec::new(), vendor_success: false, stage: FanStage::BoardVendor };
        assert(log_texts(r.log@) =~= Seq::<Seq<char>>::empty());
        r
    }

    fn push_line(&mut self, l: String)
        ensures
            log_texts(final(self).log@) == log_texts(old(self).log@).push(l@),
            final(self).vendor_success == old(self).vendor_success,
            final(self).stage == old(self).stage,
    {
        self.log.push(l);
        assert(log_texts(self.log@) =~= log_texts(old(self).log@).push(l@));
    }

    /// What to do next.
    pub fn next_stage(&self) -> (r: FanStage)
        ensures
            r == self.stage(),
    {
        self.stage
    }

    /// Records the manufacturer query's answer and returns the manufacturer.
    pub fn note_board_vendor(&mut self, query: Result<String, String>) -> (v: String)
        requires
            old(self).stage() == FanStage::BoardVendor,
        ensures
            final(self).stage() == FanStage::PowerPlan,
            v@ == board_vendor_of(answer(query)),
            log_texts(final(self).log@) == log_texts(old(self).log@) + board_vendor_lines(
                answer(query),
            ),
            final(self).vendor_success == old(self).vendor_success,
    {
        let ghost q = answer(query);
        let ghost l0 = log_texts(self.log@);
        let vendor = match query {
            Ok(out) => {
                let t = trim_str(out.as_str());
                to_lowercase(t.as_str())
            },
            Err(e) => {
                let mut l = owned("Board vendor detection failed: ");
                push_str(&mut l, e.as_str());
                self.push_line(l);
                String::new()
            },
        };
        let mut last = owned("Board vendor: ");
        if vendor.as_str().is_empty() {
            push_str(&mut last, "unknown");
        } else {
            push_str(&mut last, vendor.as_str());
        }
        self.push_line(last);
        assert(log_texts(self.log@) =~= l0 + board_vendor_lines(q));
        self.stage = FanStage::PowerPlan;
        vendor
    }

    /// Records the power plan switch.
    pub fn note_power_plan(&mut self, active: bool, ok: bool)
        requires
            old(self).stage() == FanStage::PowerPlan,
        ensures
            final(self).stage() == (FanStage::Vendor { index: 0 }),
            log_texts(final(self).log@) == log_texts(old(self).log@).push(power_plan_line(active, ok)),
            final(self).vendor_success == old(self).vendor_success,
    {
        let mut l = owned("Power plan (");
        push_str(&mut l, if active { "High Perf" } else { "Balanced" });
        push_str(&mut l, "): ");
        push_str(&mut l, if ok { "OK" } else { "FAIL" });
        assert(l@ =~= power_plan_line(active, ok));
        self.push_line(l);
        self.stage = FanStage::Vendor { index: 0 };
    }

    /// Records one manufacturer's attempt; says whether to try the next one.
    pub fn note_vendor_attempt(&mut self, name: &str, attempt: Attempt) -> (go_on: bool)
        requires
            old(self).stage() matches FanStage::Vendor { index } && index < vendor_count() && name@ == vendor_entry(index as int).0,
            !old(self).vendor_success,
        ensures
            final(self).stage() == after_vendor(old(self).stage()->index, attempt is Succeeded),
            log_texts(final(self).log@) == log_texts(old(self).log@).push(vendor_line(name@, attempt)),
            final(self).vendor_success == (old(self).vendor_success || attempt is Succeeded),
            go_on == !(attempt is Succeeded),
    {
        let ghost a = attempt;
        let mut l = owned("[");
        push_str(&mut l, name);
        let go_on = match attempt {
            Attempt::Succeeded => {
                push_str(&mut l, "] OK");
                false
            },
            Attempt::Unavailable => {
                push_str(&mut l, "] SKIP: Not available");
                true
            },
            Attempt::Failed { reason } => {
                push_str(&mut l, "] ERROR: ");
                push_str(&mut l, reason.as_str());
                true
            },
        };
        proof {
            reveal_strlit("[");
        }
        assert(l@ =~= vendor_line(name@, a));
        self.push_line(l);
        if !go_on {
            self.vendor_success = true;
        }
        let index = match self.stage {
            FanStage::Vendor { index } => index,
            _ => 0,
        };
        self.stage = if !go_on {
            FanStage::CoolingPolicy
        } else if index + 1 < 12 {
            FanStage::Vendor { index: index + 1 }
        } else {
            FanStage::FanSoftware
        };
        go_on
    }

    /// Records the fan control programs found running, if any, and returns them.
    pub fn note_fan_software(&mut self, out: &str) -> (found: Option<String>)
        requires
            old(self).stage() == FanStage::FanSoftware,
        ensures
            final(self).stage() == FanStage::Monitor,
            match fan_software_of(out@) {
                Some(n) => (found matches Some(f) && f@ == n) && log_texts(final(self).log@)
                    == log_texts(old(self).log@).push(
                    "[Fan Software] Detected: "@ + n + " (use it for direct fan control)"@,
                ),
                None => found is None && log_texts(final(self).log@) == log_texts(old(self).log@),
            },
            final(self).vendor_success == old(self).vendor_success,
    {
        self.stage = FanStage::Monitor;
        let names = trim_str(out);
        if !text_eq(names.as_str(), "NONE") && !names.as_str().is_empty() {
            let mut l = owned("[Fan Software] Detected: ");
            push_str(&mut l, names.as_str());
            push_str(&mut l, " (use it for direct fan control)");
            self.push_line(l);
            Some(names)
        } else {
            None
        }
    }

    /// Records the hardware-monitor fallback's answer.
    pub fn note_monitor(&mut self, result: Result<String, String>)
        requires
            old(self).stage() == FanStage::Monitor,
        ensures
            final(self).stage() == FanStage::CoolingPolicy,
            log_texts(final(self).log@) == log_texts(old(self).log@).push(monitor_report(answer(result)).0),
            final(self).vendor_success == (old(self).vendor_success || monitor_report(answer(result)).1),
    {
        self.stage = FanStage::CoolingPolicy;
        match result {
            Ok(out) => {
                let t = trim_str(out.as_str());
                if text_eq(t.as_str(), "LHM_OK") {
                    self.push_line(owned("[LibreHardwareMonitor] Fan control: OK"));
                    self.vendor_success = true;
                } else if text_eq(t.as_str(), "OHM_OK") {
                    self.push_line(owned("[OpenHardwareMonitor] Fan control: OK"));
                    self.vendor_success = true;
                } else {
                    self.push_line(owned("[HardwareMonitor] Not running or no controllable fans"));
                }
            },
            Err(e) => {
                let mut l = owned("[HardwareMonitor] ERROR: ");
                push_str(&mut l, e.as_str());
                self.push_line(l);
            },
        }
    }

    /// Records the cooling policy change.
    pub fn note_cooling_policy(&mut self, active: bool)
        requires
            old(self).stage() == FanStage::CoolingPolicy,
        ensures
            final(self).stage() == FanStage::Gpu,
            log_texts(final(self).log@) == log_texts(old(self).log@).push(cooling_policy_line(active)),
            final(self).vendor_success == old(self).vendor_success,
    {
        self.stage = FanStage::Gpu;
        if active {
            self.push_line(owned("[Cooling Policy] Active (max cooling) + CPU 100%"));
        } else {
            self.push_line(owned("[Cooling Policy] Reset to Passive (normal)"));
        }
    }

    /// Records the GPU step, given the boost script's output when it ran.
    pub fn note_gpu(&mut self, active: bool, out: Option<String>)
        requires
            old(self).stage() == FanStage::Gpu,
        ensures
            final(self).stage() == FanStage::Temperatures,
            match gpu_line(active, match out { Some(o) => Some(o@), None => None }) {
                Some(l) => log_texts(final(self).log@) == log_texts(old(self).log@).push(l),
                None => log_texts(final(self).log@) == log_texts(old(self).log@),
            },
            final(self).vendor_success == old(self).vendor_success,
    {
        self.stage = FanStage::Temperatures;
        if !active {
            self.push_line(owned("[NVIDIA GPU] Reset to default"));
            return;
        }
        if let Some(o) = out {
            let t = chars_of(o.as_str());
            let tt = trim_chars(t.as_slice());
            let tag = chars_of("GPU:");
            proof {
                reveal_strlit("GPU:");
            }
            if starts_with(tt.as_slice(), tag.as_slice()) {
                let details = string_of_range(tt.as_slice(), 4, tt.len());
                if text_eq(details.as_str(), "NO_NVSMI") {
                    self.push_line(owned("[NVIDIA GPU] nvidia-smi non trouvé"));
                } else {
                    let mut l = owned("[NVIDIA GPU] ");
                    push_str(&mut l, details.as_str());
                    self.push_line(l);
                }
            }
        }
    }

    /// Records the temperatures read after the boost.
    pub fn note_temperatures(&mut self, out: &str)
        requires
            old(self).stage() == FanStage::Temperatures,
        ensures
            final(self).stage() == FanStage::Finished,
            log_texts(final(self).log@) == log_texts(old(self).log@) + temperature_lines(out@),
            final(self).vendor_success == old(self).vendor_success,
    {
        self.stage = FanStage::Finished;
        let ghost l0 = log_texts(self.log@);
        let t = chars_of(out);
        let tt = trim_chars(t.as_slice());
        let parts = split_at_char(tt.as_slice(), '|');
        if parts.len() < 2 {
            assert(log_texts(self.log@) =~= l0 + temperature_lines(out@));
            return;
        }
        proof {
            reveal_strlit("CPU:");
            reveal_strlit("GPU:");
        }
        let c = temperature_entry(parts[0].as_slice(), "CPU:", "CPU");
        let ghost l1 = log_texts(self.log@);
        match c {
            Some(l) => self.push_line(l),
            None => {},
        }
        let g = temperature_entry(parts[1].as_slice(), "GPU:", "GPU");
        match g {
            Some(l) => self.push_line(l),
            None => {},
        }
        assert(log_texts(self.log@) =~= l0 + temperature_lines(out@));
    }

    /// The report of the finished boost: always a success, since the power
    /// plan and cooling policy are applied whatever the fan controls did.
    pub fn finish(self, active: bool) -> (r: CoolBoostResult)
        requires
            self.stage() == FanStage::Finished,
        ensures
            r@ == (CoolBoostView {
                success: true,
                message: boost_message(active),
                log: log_texts(self.log@),
            }),
    {
        let message = if active {
            owned("cool_boost_started")
        } else {
            owned("cool_boost_finished")
        };
        CoolBoostResult { success: true, message, log: self.log }
    }
}

fn temperature_entry(part: &[char], tag: &str, label: &str) -> (r: Option<String>)
    requires
        tag@.len() == 4,
    ensures
        match temperature_line(part@, tag@, label@) {
            Some(l) => r matches Some(s) && s@ == l,
            None => r is None,
        },
{
    let tv = chars_of(tag);
    if starts_with(part, tv.as_slice()) {
        let t = string_of_range(part, 4, part.len());
        if !text_eq(t.as_str(), "N/A") {
            let mut l = owned("[");
            push_str(&mut l, label);
            push_str(&mut l, " Temp] ");
            push_str(&mut l, t.as_str());
            push_str(&mut l, "°C");
            proof {
                reveal_strlit("[");
            }
            assert(l@ =~= seq!['['] + label@ + " Temp] "@ + t@ + "°C"@);
            Some(l)
        } else {
            None
        }
    } else {
        None
    }
}

// ───────────────────────────────── macOS ──────────────────────────────────

/// The `smc` arguments that set the fans' maximum speed key.
pub fn smc_args(active: bool) -> (v: Vec<String>)
    ensures
        log_texts(v@) == seq!["-k"@, "F0Mx"@, "-w"@, if active { "ffff"@ } else { "0000"@ }],
{
    let mut v: Vec<String> = Vec::new();
    v.push(owned("-k"));
    v.push(owned("F0Mx"));
    v.push(owned("-w"));
    v.push(if active { owned("ffff") } else { owned("0000") });
    assert(log_texts(v@) =~= seq!["-k"@, "F0Mx"@, "-w"@, if active { "ffff"@ } else { "0000"@ }]);
    v
}

/// The iStats command that sets the fan speed.
pub fn istats_command(active: bool) -> (c: ShellCommand)
    ensures
        c@.program == "sh"@,
        c@.args == seq![
            "-c"@,
            if active { "istats fan speed 6200 --all"@ } else { "istats fan speed auto --all"@ },
        ],
{
    let script = if active {
        owned("istats fan speed 6200 --all")
    } else {
        owned("istats fan speed auto --all")
    };
    command2("sh", owned("-c"), script)
}

/// The report of a macOS boost, given whether `smc` worked and, when it did
/// not, whether iStats did.
pub open spec fn mac_report(active: bool, smc_ok: bool, istats_ok: bool) -> CoolBoostView {
    let smc_line = "smc F0Mx="@ + (if active { "ffff"@ } else { "0000"@ }) + ": OK"@;
    let istats_line = "iStats fan "@ + (if active { "6200"@ } else { "auto"@ }) + ": OK"@;
    if smc_ok {
        CoolBoostView { success: true, message: boost_message(active), log: seq![smc_line] }
    } else if istats_ok {
        CoolBoostView {
            success: true,
            message: boost_message(active),
            log: seq!["smc CLI: not available"@, istats_line],
        }
    } else {
        CoolBoostView {
            success: true,
            message: if active { "cool_boost_powerplan_only"@ } else { "cool_boost_finished"@ },
            log: seq![
                "smc CLI: not available"@,
                "iStats: not available"@,
                if active { "[pmset] Low power mode disabled"@ } else { "[pmset] No change (deactivation)"@ },
            ],
        }
    }
}

/// Builds the report of a macOS boost, once its commands ran.
pub fn mac_fan_boost_report(active: bool, smc_ok: bool, istats_ok: bool) -> (r: CoolBoostResult)
    ensures
        r@ == mac_report(active, smc_ok, istats_ok),
{
    let mut log = FanBoostLog { log: Vec::new(), vendor_success: false, stage: FanStage::Finished };
    assert(log_texts(log.log@) =~= Seq::<Seq<char>>::empty());
    if smc_ok {
        let mut l = owned("smc F0Mx=");
        push_str(&mut l, if active { "ffff" } else { "0000" });
        push_str(&mut l, ": OK");
        log.push_line(l);
        let r = log.finish(active);
        assert(r@.log =~= mac_report(active, smc_ok, istats_ok).log);
        return r;
    }
    log.push_line(owned("smc CLI: not available"));
    if istats_ok {
        let mut l = owned("iStats fan ");
        push_str(&mut l, if active { "6200" } else { "auto" });
        push_str(&mut l, ": OK");
        log.push_line(l);
        let r = log.finish(active);
        assert(r@.log =~= mac_report(active, smc_ok, istats_ok).log);
        return r;
    }
    log.push_line(owned("iStats: not available"));
    if active {
        log.push_line(owned("[pmset] Low power mode disabled"));
    } else {
        log.push_line(owned("[pmset] No change (deactivation)"));
    }
    let message = if active {
        owned("cool_boost_powerplan_only")
    } else {
        owned("cool_boost_finished")
    };
    let r = CoolBoostResult { success: true, message, log: log.log };
    assert(r@.log =~= mac_report(active, smc_ok, istats_ok).log);
    r
}

// ───────────────────────────────── Linux ──────────────────────────────────

/// Number of PWM channels tried on each hardware monitor.
pub open spec fn pwm_channels() -> nat {
    5
}

/// What is written to a PWM channel: the value of `pwmN_enable`, and the value
/// of `pwmN` when the fans are driven to full speed.
pub fn pwm_values(active: bool) -> (r: (String, Option<String>))
    ensures
        r.0@ == (if active { "1"@ } else { "2"@ }),
        active ==> (r.1 matches Some(v) && v@ == "255"@),
        !active ==> r.1 is None,
{
    if active {
        (owned("1"), Some(owned("255")))
    } else {
        (owned("2"), None)
    }
}

/// The governor the CPU is set to.
pub open spec fn governor_name(active: bool) -> Seq<char> {
    if active {
        "performance"@
    } else {
        "powersave"@
    }
}

/// The command that sets every CPU's frequency governor.
pub fn governor_command(active: bool) -> (c: ShellCommand)
    ensures
        c@.program == "sh"@,
        c@.args == seq![
            "-c"@,
            "echo "@ + governor_name(active) + " | tee /sys/devices/system/cpu/cpu*/cpufreq/scaling_governor 2>/dev/null"@,
        ],
{
    let mut script = owned("echo ");
    push_str(&mut script, if active { "performance" } else { "powersave" });
    push_str(&mut script, " | tee /sys/devices/system/cpu/cpu*/cpufreq/scaling_governor 2>/dev/null");
    command2("sh", owned("-c"), script)
}

/// The governor is set when no fan channel was found, or when boosting.
pub open spec fn needs_governor(found: bool, active: bool) -> bool {
    !found || active
}

/// The line that reports one PWM channel driven.
pub fn hwmon_line(path: &str, channel: u64) -> (r: String)
    ensures
        r@ == "hwmon "@ + path@ + "/pwm"@ + crate::text::decimal(channel as nat) + ": OK"@,
{
    let mut l = owned("hwmon ");
    push_str(&mut l, path);
    push_str(&mut l, "/pwm");
    crate::text::push_decimal(&mut l, channel);
    push_str(&mut l, ": OK");
    l
}

/// The report of a Linux boost, given whether the hardware monitors exist,
/// the lines of the channels driven, and whether the governor was set (when
/// it had to be).
pub open spec fn linux_report(active: bool, hwmon_present: bool, channels: Seq<Seq<char>>, governor_ok: bool) -> CoolBoostView {
    let found = channels.len() > 0;
    let first = if hwmon_present {
        channels
    } else {
        seq!["/sys/class/hwmon not found"@]
    };
    let gov = if needs_governor(found, active) {
        if governor_ok {
            seq!["[cpufreq] Governor set to "@ + governor_name(active)]
        } else {
            seq!["[cpufreq] Could not set governor (may need root)"@]
        }
    } else {
        Seq::<Seq<char>>::empty()
    };
    CoolBoostView {
        success: true,
        message: if found {
            boost_message(active)
        } else if active {
            "cool_boost_powerplan_only"@
        } else {
            "cool_boost_finished"@
        },
        log: first + gov,
    }
}

/// Builds the report of a Linux boost, once its files were written and its
/// command ran.
pub fn linux_fan_boost_report(active: bool, hwmon_present: bool, channels: Vec<String>, governor_ok: bool) -> (r: CoolBoostResult)
    requires
        !hwmon_present ==> channels@.len() == 0,
    ensures
        r@ == linux_report(active, hwmon_present, log_texts(channels@), governor_ok),
{
    let found = channels.len() > 0;
    let mut log = FanBoostLog { log: channels, vendor_success: false, stage: FanStage::Finished };
    if !hwmon_present {
        log.push_line(owned("/sys/class/hwmon not found"));
    }
    if !found || active {
        if governor_ok {
            let mut l = owned("[cpufreq] Governor set to ");
            push_str(&mut l, if active { "performance" } else { "powersave" });
            log.push_line(l);
        } else {
            log.push_line(owned("[cpufreq] Could not set governor (may need root)"));
        }
    }
    let message = if found {
        if active {
            owned("cool_boost_started")
        } else {
            owned("cool_boost_finished")
        }
    } else if active {
        owned("cool_boost_powerplan_only")
    } else {
        owned("cool_boost_finished")
    };
    let r = CoolBoostResult { success: true, message, log: log.log };
    assert(r@.log =~= linux_report(active, hwmon_present, log_texts(channels@), governor_ok).log);
    r
}

} // verus!
