//! The desktop shell's decisions: how the process was launched, the tray
//! menu and what its entries do, the window's state at startup, and what
//! closing the window means.
use vstd::prelude::*;

use crate::maintenance::Platform;
use crate::shell::{command0, command1, command2, command_with, ShellCommand};
use crate::text::{chars_of, has_prefix, owned, push_str, starts_with, text_eq, trim, trim_str};
use crate::updates::{menu_label, update_menu_label};

verus! {

/// Whether the process was relaunched with administrator rights (its
/// arguments hold `--admin-relaunch`); such a process skips the
/// single-instance check and waits briefly before starting.
pub fn is_admin_relaunch(args: &Vec<String>) -> (b: bool)
    ensures
        b == exists|i: int| 0 <= i < args@.len() && args@[i]@ == "--admin-relaunch"@,
{
    let mut i: usize = 0;
    while i < args.len()
        invariant
            i <= args@.len(),
            forall|j: int| 0 <= j < i ==> args@[j]@ != "--admin-relaunch"@,
        decreases args@.len() - i,
    {
        if text_eq(args[i].as_str(), "--admin-relaunch") {
            return true;
        }
        i = i + 1;
    }
    false
}

/// An entry of the tray menu: its id and its label.
pub struct TrayItem {
    pub id: String,
    pub label: String,
}

/// The models of a list of tray entries.
pub open spec fn tray_items(v: Seq<TrayItem>) -> Seq<(Seq<char>, Seq<char>)> {
    v.map_values(|t: TrayItem| (t.id@, t.label@))
}

/// The tray menu; given the state of the update check it also offers to
/// check for (or announces) a new version of the application.
pub open spec fn tray_menu_spec(check_update: Option<Option<Seq<char>>>) -> Seq<(Seq<char>, Seq<char>)> {
    let head = seq![("tray_show"@, "Ouvrir Aura Update"@), ("tray_autopilot"@, "🚀 Auto-Pilote"@)];
    let tail = seq![
        ("tray_settings"@, "⚙️ Paramètres"@),
        ("tray_website"@, "🌐 Site Web"@),
        ("tray_quit"@, "Quitter"@),
    ];
    match check_update {
        Some(v) => head.push(("tray_check_update"@, menu_label(v))) + tail,
        None => head + tail,
    }
}

fn item(id: &str, label: String) -> (t: TrayItem)
    ensures
        t.id@ == id@,
        t.label@ == label@,
{
    TrayItem { id: owned(id), label }
}

/// The tray menu built at startup.
pub fn startup_tray_menu() -> (v: Vec<TrayItem>)
    ensures
        tray_items(v@) == tray_menu_spec(None),
{
    let mut v: Vec<TrayItem> = Vec::new();
    v.push(item("tray_show", owned("Ouvrir Aura Update")));
    v.push(item("tray_autopilot", owned("🚀 Auto-Pilote")));
    v.push(item("tray_settings", owned("⚙️ Paramètres")));
    v.push(item("tray_website", owned("🌐 Site Web")));
    v.push(item("tray_quit", owned("Quitter")));
    assert(tray_items(v@) =~= tray_menu_spec(None));
    v
}

/// The tray menu rebuilt when an update check ends, with the version found,
/// if any.
pub fn refreshed_tray_menu(version: Option<&str>) -> (v: Vec<TrayItem>)
    ensures
        tray_items(v@) == tray_menu_spec(
            Some(
                match version {
                    Some(s) => Some(s@),
                    None => None,
                },
            ),
        ),
{
    let mut v: Vec<TrayItem> = Vec::new();
    v.push(item("tray_show", owned("Ouvrir Aura Update")));
    v.push(item("tray_autopilot", owned("🚀 Auto-Pilote")));
    v.push(item("tray_check_update", update_menu_label(version)));
    v.push(item("tray_settings", owned("⚙️ Paramètres")));
    v.push(item("tray_website", owned("🌐 Site Web")));
    v.push(item("tray_quit", owned("Quitter")));
    assert(tray_items(v@) =~= tray_menu_spec(
        Some(
            match version {
                Some(s) => Some(s@),
                None => None,
            },
        ),
    ));
    v
}

/// The version the tray announces once an update check reports whether one
/// is available.
pub fn tray_version(available: bool, version: Option<String>) -> (r: Option<String>)
    ensures
        available ==> r == version,
        !available ==> r is None,
{
    if available {
        version
    } else {
        None
    }
}

/// What a tray menu entry does.
pub enum TrayAction {
    /// Show, restore and focus the main window.
    ShowWindow,
    /// Show the main window and start the auto-pilot in it.
    AutoPilot,
    /// Show the main window and open the settings in it.
    Settings,
    /// Open the web site.
    Website,
    /// Leave the application.
    Quit,
    /// Nothing.
    Ignore,
}

/// The action of a tray entry, by id.
pub open spec fn tray_action_of(id: Seq<char>) -> TrayAction {
    if id == "tray_show"@ {
        TrayAction::ShowWindow
    } else if id == "tray_autopilot"@ {
        TrayAction::AutoPilot
    } else if id == "tray_settings"@ {
        TrayAction::Settings
    } else if id == "tray_website"@ {
        TrayAction::Website
    } else if id == "tray_quit"@ {
        TrayAction::Quit
    } else {
        TrayAction::Ignore
    }
}

/// The action of a tray entry.
pub fn tray_action(id: &str) -> (a: TrayAction)
    ensures
        a == tray_action_of(id@),
{
    if text_eq(id, "tray_show") {
        TrayAction::ShowWindow
    } else if text_eq(id, "tray_autopilot") {
        TrayAction::AutoPilot
    } else if text_eq(id, "tray_settings") {
        TrayAction::Settings
    } else if text_eq(id, "tray_website") {
        TrayAction::Website
    } else if text_eq(id, "tray_quit") {
        TrayAction::Quit
    } else {
        TrayAction::Ignore
    }
}

/// The script an action runs in the main window, if any.
pub fn tray_script(a: &TrayAction) -> (r: Option<String>)
    ensures
        (a is AutoPilot) ==> (r matches Some(s) && s@ == "runAutoPilot()"@),
        (a is Settings) ==> (r matches Some(s) && s@ == "openSettings()"@),
        !(a is AutoPilot) && !(a is Settings) ==> r is None,
{
    match a {
        TrayAction::AutoPilot => Some(owned("runAutoPilot()")),
        TrayAction::Settings => Some(owned("openSettings()")),
        _ => None,
    }
}

/// The web site the tray opens.
pub fn website_url() -> (r: String)
    ensures
        r@ == "https://www.auraneo.fr"@,
{
    owned("https://www.auraneo.fr")
}

/// What happens to the main window at startup.
pub enum StartupWindow {
    Minimize,
    Hide,
    Show,
}

/// The window state for a startup mode: "minimized" minimizes, "tray" hides,
/// anything else leaves the window visible.
pub open spec fn startup_window_of(mode: Seq<char>) -> StartupWindow {
    if mode == "minimized"@ {
        StartupWindow::Minimize
    } else if mode == "tray"@ {
        StartupWindow::Hide
    } else {
        StartupWindow::Show
    }
}

/// The window state at startup.
pub fn startup_window(mode: &str) -> (w: StartupWindow)
    ensures
        w == startup_window_of(mode@),
{
    if text_eq(mode, "minimized") {
        StartupWindow::Minimize
    } else if text_eq(mode, "tray") {
        StartupWindow::Hide
    } else {
        StartupWindow::Show
    }
}

// ─────────────────────────── administrator ────────────────────────────────

/// The command that tells whether the process has administrator rights:
/// `net session` succeeds on Windows, `id -u` prints `0` elsewhere.
pub fn admin_probe(p: Platform) -> (c: ShellCommand)
    ensures
        p == Platform::Windows ==> c@.program == "net"@ && c@.args == seq!["session"@],
        p != Platform::Windows ==> c@.program == "id"@ && c@.args == seq!["-u"@],
{
    match p {
        Platform::Windows => command1("net", owned("session")),
        _ => command1("id", owned("-u")),
    }
}

/// On Unix, the process is the superuser when `id -u` printed `0`.
pub fn is_root_uid(id_stdout: &str) -> (b: bool)
    ensures
        b == (trim(id_stdout@) == "0"@),
{
    let t = trim_str(id_stdout);
    text_eq(t.as_str(), "0")
}

/// The PowerShell script that relaunches the program elevated, with
/// `--admin-relaunch`, in its own directory.
pub open spec fn relaunch_script(exe: Seq<char>, dir: Seq<char>) -> Seq<char> {
    "Start-Process -FilePath \""@ + exe + "\" -ArgumentList \"--admin-relaunch\" -WorkingDirectory \""@
        + dir + "\" -Verb RunAs"@
}

/// The AppleScript that relaunches the program with administrator privileges.
pub open spec fn mac_relaunch_script(exe: Seq<char>) -> Seq<char> {
    "do shell script \"\\\""@ + exe + "\\\" --admin-relaunch\" with administrator privileges"@
}

/// The command that relaunches the program elevated on a platform.
pub fn elevation_command(p: Platform, exe: &str, dir: &str) -> (c: ShellCommand)
    ensures
        p == Platform::Windows ==> c@.program == "powershell.exe"@ && c@.args == seq![
            "-NoProfile"@,
            "-ExecutionPolicy"@,
            "Bypass"@,
            "-WindowStyle"@,
            "Hidden"@,
            "-Command"@,
            relaunch_script(exe@, dir@),
        ],
        p == Platform::MacOs ==> c@.program == "osascript"@ && c@.args == seq![
            "-e"@,
            mac_relaunch_script(exe@),
        ],
        p != Platform::Windows && p != Platform::MacOs ==> c@.program == "pkexec"@ && c@.args
            == seq![exe@, "--admin-relaunch"@],
{
    match p {
        Platform::Windows => {
            let mut s = owned("Start-Process -FilePath \"");
            push_str(&mut s, exe);
            push_str(&mut s, "\" -ArgumentList \"--admin-relaunch\" -WorkingDirectory \"");
            push_str(&mut s, dir);
            push_str(&mut s, "\" -Verb RunAs");
            let mut args: Vec<String> = Vec::new();
            args.push(owned("-NoProfile"));
            args.push(owned("-ExecutionPolicy"));
            args.push(owned("Bypass"));
            args.push(owned("-WindowStyle"));
            args.push(owned("Hidden"));
            args.push(owned("-Command"));
            args.push(s);
            let c = command_with("powershell.exe", args);
            assert(c@.args =~= seq![
                "-NoProfile"@,
                "-ExecutionPolicy"@,
                "Bypass"@,
                "-WindowStyle"@,
                "Hidden"@,
                "-Command"@,
                relaunch_script(exe@, dir@),
            ]);
            c
        },
        Platform::MacOs => {
            let mut s = owned("do shell script \"\\\"");
            push_str(&mut s, exe);
            push_str(&mut s, "\\\" --admin-relaunch\" with administrator privileges");
            command2("osascript", owned("-e"), s)
        },
        _ => command2("pkexec", owned(exe), owned("--admin-relaunch")),
    }
}

/// What follows the elevation prompt: the elevated copy takes over and this
/// process ends, or the refusal is reported.
pub fn elevation_outcome(p: Platform, accepted: bool) -> (r: Result<(), String>)
    ensures
        accepted <==> r is Ok,
        !accepted && p == Platform::Windows ==> (r matches Err(e) && e@
            == "L'utilisateur a refusé l'élévation UAC."@),
        !accepted && p != Platform::Windows ==> (r matches Err(e) && e@ == "Refusé"@),
{
    if accepted {
        Ok(())
    } else {
        match p {
            Platform::Windows => Err(owned("L'utilisateur a refusé l'élévation UAC.")),
            _ => Err(owned("Refusé")),
        }
    }
}

/// The script with which a Windows start without administrator rights
/// relaunches itself elevated.
pub open spec fn startup_relaunch_script(exe: Seq<char>, dir: Seq<char>) -> Seq<char> {
    "Start-Process -FilePath '"@ + exe + "' -WorkingDirectory '"@ + dir + "' -Verb RunAs"@
}

/// The command of that relaunch.
pub fn startup_relaunch_command(exe: &str, dir: &str) -> (c: ShellCommand)
    ensures
        c@.program == "powershell.exe"@,
        c@.args == seq![
            "-NoProfile"@,
            "-WindowStyle"@,
            "Hidden"@,
            "-Command"@,
            startup_relaunch_script(exe@, dir@),
        ],
{
    let mut s = owned("Start-Process -FilePath '");
    push_str(&mut s, exe);
    push_str(&mut s, "' -WorkingDirectory '");
    push_str(&mut s, dir);
    push_str(&mut s, "' -Verb RunAs");
    let mut args: Vec<String> = Vec::new();
    args.push(owned("-NoProfile"));
    args.push(owned("-WindowStyle"));
    args.push(owned("Hidden"));
    args.push(owned("-Command"));
    args.push(s);
    let c = command_with("powershell.exe", args);
    assert(c@.args =~= seq![
        "-NoProfile"@,
        "-WindowStyle"@,
        "Hidden"@,
        "-Command"@,
        startup_relaunch_script(exe@, dir@),
    ]);
    c
}

// ───────────────────────────── links ──────────────────────────────────────

/// Only web addresses are opened.
pub open spec fn is_web_url(url: Seq<char>) -> bool {
    has_prefix(url, "https://"@) || has_prefix(url, "http://"@)
}

/// Checks an address before it is opened in the browser.
pub fn check_url(url: &str) -> (r: Result<(), String>)
    ensures
        is_web_url(url@) <==> r is Ok,
        r matches Err(e) ==> e@ == "Only http/https URLs are allowed"@,
{
    let u = chars_of(url);
    let a = chars_of("https://");
    let b = chars_of("http://");
    if starts_with(u.as_slice(), a.as_slice()) || starts_with(u.as_slice(), b.as_slice()) {
        Ok(())
    } else {
        Err(owned("Only http/https URLs are allowed"))
    }
}

} // verus!
