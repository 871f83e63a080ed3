//! Updating the application itself: what a check reports, the guard that
//! keeps two installations from running at once, the progress events, and on
//! Windows the choice of payload, installer and install directory.
use vstd::prelude::*;

use crate::shell::{command1, command_with, texts, CommandView, ShellCommand};
use crate::text::{
    chars_of, ends_with, eq_ascii_case, eq_ignore_ascii_case, has_suffix, lowercase, owned,
    push_i32, push_str, signed_decimal, text_eq, to_lowercase, trim, trim_str,
};
use crate::updates::progress_percent;

verus! {

/// What a check for a new version of the application found.
pub struct AppUpdateInfo {
    pub available: bool,
    pub current_version: String,
    pub version: Option<String>,
    pub release_notes: Option<String>,
}

/// Progress of an installation, as reported to the front-end.
pub struct AppUpdateProgress {
    pub phase: String,
    pub downloaded: u64,
    pub total: u64,
    pub percent: u64,
}

/// The model of an optional text.
pub open spec fn opt_text(o: Option<String>) -> Option<Seq<char>> {
    match o {
        Some(s) => Some(s@),
        None => None,
    }
}

/// What a check reports, given the running version and the new version with
/// its notes when the update service offers one.
pub fn app_update_info(current_version: String, offered: Option<(String, Option<String>)>) -> (r: AppUpdateInfo)
    ensures
        r.current_version@ == current_version@,
        match offered {
            Some((v, notes)) => r.available && opt_text(r.version) == Some(v@) && opt_text(
                r.release_notes,
            ) == opt_text(notes),
            None => !r.available && r.version is None && r.release_notes is None,
        },
{
    match offered {
        Some((v, notes)) => AppUpdateInfo {
            available: true,
            current_version,
            version: Some(v),
            release_notes: notes,
        },
        None => AppUpdateInfo {
            available: false,
            current_version,
            version: None,
            release_notes: None,
        },
    }
}

/// A progress event with nothing downloaded.
pub fn phase_event(phase: &str, percent: u64) -> (r: AppUpdateProgress)
    ensures
        r.phase@ == phase@,
        r.downloaded == 0,
        r.total == 0,
        r.percent == percent,
{
    AppUpdateProgress { phase: owned(phase), downloaded: 0, total: 0, percent }
}

/// The progress event of a download chunk; an unknown total counts as 0.
pub fn download_event(downloaded: u64, total: Option<u64>) -> (r: AppUpdateProgress)
    ensures
        r.phase@ == "downloading"@,
        r.downloaded == downloaded,
        r.total == match total {
            Some(t) => t,
            None => 0,
        },
        r.total == 0 ==> r.percent == 0,
        r.total > 0 && downloaded * 100 <= u64::MAX ==> r.percent == (downloaded * 100) / (
        r.total as int),
        r.total > 0 && downloaded * 100 > u64::MAX ==> r.percent == (u64::MAX as int) / (
        r.total as int),
{
    let t = match total {
        Some(t) => t,
        None => 0,
    };
    AppUpdateProgress {
        phase: owned("downloading"),
        downloaded,
        total: t,
        percent: progress_percent(downloaded, t),
    }
}

/// The error when the update service offers nothing.
pub open spec fn no_update_text() -> Seq<char> {
    "Aucune nouvelle version disponible"@
}

/// The error when an installation is already running.
pub open spec fn busy_text() -> Seq<char> {
    "Une mise à jour est déjà en cours"@
}

/// A part of a version: decimal digits, at least one, of a value that fits
/// in 64 bits.
pub open spec fn version_number(p: Seq<char>) -> Option<nat> {
    if p.len() > 0 && (forall|i: int| 0 <= i < p.len() ==> crate::text::is_digit(p[i]))
        && crate::text::digits_value(p) <= u64::MAX {
        Some(crate::text::digits_value(p))
    } else {
        None
    }
}

/// A version as the update service writes it: an optional `v`, then three
/// numbers separated by dots.
pub open spec fn version_of(s: Seq<char>) -> Option<(nat, nat, nat)> {
    let t = if s.len() > 0 && s[0] == 'v' { s.drop_first() } else { s };
    let parts = crate::text::split_char(t, '.');
    if parts.len() == 3 && version_number(parts[0]) is Some && version_number(parts[1]) is Some
        && version_number(parts[2]) is Some {
        Some((version_number(parts[0]).unwrap(), version_number(parts[1]).unwrap(), version_number(parts[2]).unwrap()))
    } else {
        None
    }
}

/// Whether the offered version comes after the running one, comparing major,
/// then minor, then patch numbers; a version that cannot be read is never
/// offered.
pub open spec fn newer_version(current: Seq<char>, offered: Seq<char>) -> bool {
    match (version_of(current), version_of(offered)) {
        (Some(c), Some(o)) => o.0 > c.0 || (o.0 == c.0 && (o.1 > c.1 || (o.1 == c.1 && o.2 > c.2))),
        _ => false,
    }
}

proof fn lemma_digits_value_prefix(p: Seq<char>, k: int)
    requires
        0 <= k <= p.len(),
        forall|i: int| 0 <= i < p.len() ==> crate::text::is_digit(p[i]),
    ensures
        crate::text::digits_value(p.subrange(0, k)) <= crate::text::digits_value(p),
    decreases p.len() - k,
{
    if k < p.len() {
        lemma_digits_value_prefix(p, k + 1);
        let q = p.subrange(0, k + 1);
        assert(q.drop_last() =~= p.subrange(0, k));
    } else {
        assert(p.subrange(0, k) =~= p);
    }
}

fn version_number_exec(p: &[char]) -> (r: Option<u64>)
    ensures
        match version_number(p@) {
            Some(n) => r matches Some(v) && v == n,
            None => r is None,
        },
{
    if p.len() == 0 {
        return None;
    }
    let mut v: u64 = 0;
    let mut i: usize = 0;
    while i < p.len()
        invariant
            i <= p@.len(),
            p@.len() > 0,
            forall|k: int| 0 <= k < i ==> crate::text::is_digit(p@[k]),
            v == crate::text::digits_value(p@.subrange(0, i as int)),
        decreases p@.len() - i,
    {
        let c = p[i];
        if !('0' <= c && c <= '9') {
            return None;
        }
        let d: u64 = (c as u32 - '0' as u32) as u64;
        assert(p@.subrange(0, i + 1).drop_last() =~= p@.subrange(0, i as int));
        if v > (u64::MAX - d) / 10 {
            proof {
                assert(v * 10 + d > u64::MAX) by (nonlinear_arith)
                    requires
                        v > (u64::MAX - d) / 10,
                        d <= 9,
                ;
                if forall|k: int| 0 <= k < p@.len() ==> crate::text::is_digit(p@[k]) {
                    lemma_digits_value_prefix(p@, i + 1);
                }
            }
            return None;
        }
        proof {
            assert(v * 10 + d <= u64::MAX) by (nonlinear_arith)
                requires
                    v <= (u64::MAX - d) / 10,
                    d <= 9,
            ;
        }
        v = v * 10 + d;
        i = i + 1;
    }
    assert(p@.subrange(0, p@.len() as int) =~= p@);
    Some(v)
}

/// Reads a version written as the update service writes it.
pub fn parse_version(s: &str) -> (r: Option<(u64, u64, u64)>)
    ensures
        match version_of(s@) {
            Some((a, b, c)) => r matches Some((x, y, z)) && x == a && y == b && z == c,
            None => r is None,
        },
{
    let all = chars_of(s);
    let t: Vec<char> = if all.len() > 0 && all[0] == 'v' {
        let rest = crate::text::slice_from(all.as_slice(), 1);
        assert(rest@ =~= s@.drop_first());
        rest
    } else {
        all
    };
    let parts = crate::text::split_at_char(t.as_slice(), '.');
    if parts.len() != 3 {
        return None;
    }
    let a = version_number_exec(parts[0].as_slice());
    let b = version_number_exec(parts[1].as_slice());
    let c = version_number_exec(parts[2].as_slice());
    match (a, b, c) {
        (Some(x), Some(y), Some(z)) => Some((x, y, z)),
        _ => None,
    }
}

/// Whether the offered version is newer than the running one.
pub fn is_newer_version(current: &str, offered: &str) -> (b: bool)
    ensures
        b == newer_version(current@, offered@),
{
    match (parse_version(current), parse_version(offered)) {
        (Some(c), Some(o)) => o.0 > c.0 || (o.0 == c.0 && (o.1 > c.1 || (o.1 == c.1 && o.2 > c.2))),
        _ => false,
    }
}

/// How an installation starts, once the update service has answered: with
/// nothing offered, the `none` event and the error that ends it; otherwise
/// the `starting` event, and the installation goes on.
pub fn install_first_step(available: bool) -> (r: (AppUpdateProgress, Option<String>))
    ensures
        !available ==> r.0.phase@ == "none"@ && r.0.percent == 0 && (r.1 matches Some(e) && e@ == no_update_text()),
        available ==> r.0.phase@ == "starting"@ && r.0.percent == 0 && r.1 is None,
        r.0.downloaded == 0 && r.0.total == 0,
{
    if !available {
        (phase_event("none", 0), Some(owned("Aucune nouvelle version disponible")))
    } else {
        (phase_event("starting", 0), None)
    }
}

/// Keeps two installations of the application from running at once.
pub struct InstallGuard {
    pub in_progress: bool,
}

impl InstallGuard {
    /// A guard with no installation running.
    pub fn new() -> (g: Self)
        ensures
            !g.in_progress,
    {
        InstallGuard { in_progress: false }
    }

    /// Starts an installation, or refuses while another one runs.
    pub fn begin(&mut self) -> (r: Result<(), String>)
        ensures
            old(self).in_progress ==> (r matches Err(e) && e@ == busy_text()) && final(self).in_progress,
            !old(self).in_progress ==> r is Ok && final(self).in_progress,
    {
        if self.in_progress {
            return Err(owned("Une mise à jour est déjà en cours"));
        }
        self.in_progress = true;
        Ok(())
    }

    /// Ends the installation, whatever its outcome.
    pub fn end(&mut self)
        ensures
            !final(self).in_progress,
    {
        self.in_progress = false;
    }
}

// ───────────────────────────── Windows installer ─────────────────────────────

/// The update manifest's entries, in the order they are preferred.
pub open spec fn asset_keys() -> Seq<Seq<char>> {
    seq!["windows-x86_64"@, "windows-x86_64-msi"@, "windows-x86_64-nsis"@]
}

/// The URL the manifest gives for a platform key (its keys are unique).
pub open spec fn asset_url(platforms: Seq<(Seq<char>, Seq<char>)>, key: Seq<char>) -> Option<Seq<char>> {
    if exists|i: int| 0 <= i < platforms.len() && platforms[i].0 == key {
        Some(platforms[choose|i: int| 0 <= i < platforms.len() && platforms[i].0 == key].1)
    } else {
        None
    }
}

/// The Windows payload to download: the first preferred key the manifest has.
pub open spec fn chosen_asset(platforms: Seq<(Seq<char>, Seq<char>)>) -> Option<Seq<char>> {
    match asset_url(platforms, asset_keys()[0]) {
        Some(u) => Some(u),
        None => match asset_url(platforms, asset_keys()[1]) {
            Some(u) => Some(u),
            None => asset_url(platforms, asset_keys()[2]),
        },
    }
}

/// The models of a manifest's (platform, URL) entries.
pub open spec fn entry_texts(v: Seq<(String, String)>) -> Seq<(Seq<char>, Seq<char>)> {
    v.map_values(|e: (String, String)| (e.0@, e.1@))
}

/// Keys occur once.
pub open spec fn distinct_keys(v: Seq<(Seq<char>, Seq<char>)>) -> bool {
    forall|i: int, j: int| 0 <= i < j < v.len() ==> v[i].0 != v[j].0
}

fn lookup_asset(platforms: &Vec<(String, String)>, key: &str) -> (r: Option<String>)
    requires
        distinct_keys(entry_texts(platforms@)),
    ensures
        opt_text(r) == asset_url(entry_texts(platforms@), key@),
{
    let ghost es = entry_texts(platforms@);
    let mut i: usize = 0;
    while i < platforms.len()
        invariant
            i <= platforms@.len(),
            es == entry_texts(platforms@),
            distinct_keys(es),
            forall|j: int| 0 <= j < i ==> es[j].0 != key@,
        decreases platforms@.len() - i,
    {
        if text_eq(platforms[i].0.as_str(), key) {
            proof {
                assert(es[i as int].0 == key@);
                let c = choose|c: int| 0 <= c < es.len() && es[c].0 == key@;
                if c != i {
                    if c < i {
                        assert(es[c].0 != es[i as int].0);
                    } else {
                        assert(es[i as int].0 != es[c].0);
                    }
                }
            }
            return Some(platforms[i].1.clone());
        }
        i = i + 1;
    }
    None
}

/// The URL of the Windows payload, or the error when the manifest has none.
pub fn pick_windows_asset(platforms: &Vec<(String, String)>) -> (r: Result<String, String>)
    requires
        distinct_keys(entry_texts(platforms@)),
    ensures
        match chosen_asset(entry_texts(platforms@)) {
            Some(u) => r matches Ok(x) && x@ == u,
            None => r matches Err(e) && e@ == "Aucun payload Windows trouvé dans updater.json"@,
        },
{
    match lookup_asset(platforms, "windows-x86_64") {
        Some(u) => Ok(u),
        None => match lookup_asset(platforms, "windows-x86_64-msi") {
            Some(u) => Ok(u),
            None => match lookup_asset(platforms, "windows-x86_64-nsis") {
                Some(u) => Ok(u),
                None => Err(owned("Aucun payload Windows trouvé dans updater.json")),
            },
        },
    }
}

/// The directory to install into: the configured one when set and usable,
/// else the running executable's directory.
pub open spec fn install_dir_choice(configured: Seq<char>, configured_usable: bool, exe_dir: Option<Seq<char>>) -> Result<Seq<char>, Seq<char>> {
    if trim(configured).len() > 0 && configured_usable {
        Ok(trim(configured))
    } else {
        match exe_dir {
            Some(d) => Ok(d),
            None => Err("Impossible de déterminer le dossier d'installation courant"@),
        }
    }
}

/// Chooses the install directory, once the configured directory was tried
/// and the executable located.
pub fn preferred_install_dir(configured: &str, configured_usable: bool, exe_dir: Option<String>) -> (r: Result<String, String>)
    ensures
        match install_dir_choice(configured@, configured_usable, opt_text(exe_dir)) {
            Ok(d) => r matches Ok(x) && x@ == d,
            Err(e) => r matches Err(x) && x@ == e,
        },
{
    let c = trim_str(configured);
    if !c.as_str().is_empty() && configured_usable {
        return Ok(c);
    }
    match exe_dir {
        Some(d) => Ok(d),
        None => Err(owned("Impossible de déterminer le dossier d'installation courant")),
    }
}

/// How a downloaded payload is handled.
pub enum PayloadKind {
    /// A ZIP archive that holds the installer.
    Zip,
    /// An installer saved under the given extension.
    Installer { extension: String },
}

/// The kind of payload a URL points to.
pub open spec fn payload_kind_of(url: Seq<char>) -> Option<Seq<char>> {
    if has_suffix(url, ".zip"@) {
        None
    } else if has_suffix(lowercase(url), ".msi"@) {
        Some("msi"@)
    } else {
        Some("exe"@)
    }
}

/// Classifies a payload by its URL.
pub fn payload_kind(url: &str) -> (k: PayloadKind)
    ensures
        match payload_kind_of(url@) {
            None => k is Zip,
            Some(ext) => k matches PayloadKind::Installer { extension } && extension@ == ext,
        },
{
    let u = chars_of(url);
    let zip = chars_of(".zip");
    if ends_with(u.as_slice(), zip.as_slice()) {
        return PayloadKind::Zip;
    }
    let lower = to_lowercase(url);
    let lv = chars_of(lower.as_str());
    let msi = chars_of(".msi");
    if ends_with(lv.as_slice(), msi.as_slice()) {
        PayloadKind::Installer { extension: owned("msi") }
    } else {
        PayloadKind::Installer { extension: owned("exe") }
    }
}

/// The file name the installer is saved under.
pub fn installer_file_name(extension: &str) -> (r: String)
    ensures
        r@ == "aura-update-installer."@ + extension@,
{
    let mut r = owned("aura-update-installer.");
    push_str(&mut r, extension);
    r
}

/// The PowerShell script that unpacks the ZIP payload and prints the path of
/// the first `.msi` or `.exe` it holds.
pub fn zip_extraction_script(zip_path: &str, extract_dir: &str) -> (r: String)
    ensures
        r@ == "$zip='"@ + zip_path@ + "';$dst='"@ + extract_dir@
            + "';Expand-Archive -Path $zip -DestinationPath $dst -Force;Get-ChildItem -Path $dst -Recurse -File | Where-Object { $_.Extension -in '.msi','.exe' } | Select-Object -First 1 -ExpandProperty FullName"@,
{
    let mut r = owned("$zip='");
    push_str(&mut r, zip_path);
    push_str(&mut r, "';$dst='");
    push_str(&mut r, extract_dir);
    push_str(
        &mut r,
        "';Expand-Archive -Path $zip -DestinationPath $dst -Force;Get-ChildItem -Path $dst -Recurse -File | Where-Object { $_.Extension -in '.msi','.exe' } | Select-Object -First 1 -ExpandProperty FullName",
    );
    r
}

/// The installer found in the archive, or why there is none.
pub fn extracted_installer(success: bool, stdout: &str, stderr: &str) -> (r: Result<String, String>)
    ensures
        !success ==> (r matches Err(e) && e@ == trim(stderr@)),
        success && trim(stdout@).len() == 0 ==> (r matches Err(e) && e@
            == "Archive updater.zip sans .msi/.exe"@),
        success && trim(stdout@).len() > 0 ==> (r matches Ok(p) && p@ == trim(stdout@)),
{
    if !success {
        return Err(trim_str(stderr));
    }
    let p = trim_str(stdout);
    if p.as_str().is_empty() {
        Err(owned("Archive updater.zip sans .msi/.exe"))
    } else {
        Ok(p)
    }
}

/// Whether an installer is an MSI package (by its extension, any case).
pub open spec fn is_msi(extension: Option<Seq<char>>) -> bool {
    match extension {
        Some(e) => eq_ignore_ascii_case(e, "msi"@),
        None => false,
    }
}

/// The command that runs the installer silently into the install directory.
pub fn installer_command(installer: &str, extension: Option<&str>, install_dir: &str) -> (c: ShellCommand)
    ensures
        is_msi(match extension { Some(e) => Some(e@), None => None }) ==> c@ == (CommandView {
            program: "msiexec"@,
            args: seq!["/i"@, installer@, "/qn"@, "/norestart"@, "TARGETDIR="@ + install_dir@],
        }),
        !is_msi(match extension { Some(e) => Some(e@), None => None }) ==> c@ == (CommandView {
            program: installer@,
            args: seq!["/S"@, "/D="@ + install_dir@],
        }),
{
    let msi = match extension {
        Some(e) => {
            let ev = chars_of(e);
            let m = chars_of("msi");
            eq_ascii_case(ev.as_slice(), m.as_slice())
        },
        None => false,
    };
    if msi {
        let mut target = owned("TARGETDIR=");
        push_str(&mut target, install_dir);
        let mut args: Vec<String> = Vec::new();
        args.push(owned("/i"));
        args.push(owned(installer));
        args.push(owned("/qn"));
        args.push(owned("/norestart"));
        args.push(target);
        let c = command_with("msiexec", args);
        assert(c@.args =~= seq!["/i"@, installer@, "/qn"@, "/norestart"@, "TARGETDIR="@ + install_dir@]);
        c
    } else {
        let mut d = owned("/D=");
        push_str(&mut d, install_dir);
        let mut args: Vec<String> = Vec::new();
        args.push(owned("/S"));
        args.push(d);
        let c = command_with(installer, args);
        assert(c@.args =~= seq!["/S"@, "/D="@ + install_dir@]);
        c
    }
}

/// The text of an exit code as `{:?}` shows an `Option<i32>`.
pub open spec fn debug_code(code: Option<i32>) -> Seq<char> {
    match code {
        Some(c) => "Some("@ + signed_decimal(c as int) + ")"@,
        None => "None"@,
    }
}

/// The error of a failed installer: its trimmed error output, or its exit code.
pub fn installer_failure(stderr: &str, code: Option<i32>) -> (r: String)
    ensures
        trim(stderr@).len() > 0 ==> r@ == trim(stderr@),
        trim(stderr@).len() == 0 ==> r@ == "Installateur terminé avec code "@ + debug_code(code),
{
    let t = trim_str(stderr);
    if !t.as_str().is_empty() {
        return t;
    }
    let mut r = owned("Installateur terminé avec code ");
    match code {
        Some(c) => {
            let ghost r0 = r@;
            push_str(&mut r, "Some(");
            push_i32(&mut r, c);
            push_str(&mut r, ")");
            assert(r@ =~= r0 + debug_code(code));
        },
        None => push_str(&mut r, "None"),
    }
    r
}

} // verus!
