//! Cleanup: the folders scanned for temporary files, the report of what was
//! found and freed, the leftovers of package managers and system updates,
//! and the preinstalled applications that can be removed.
use vstd::prelude::*;

use crate::browsers::{base_copy, target, target_views, BaseDir, PathTarget, TargetView};
use crate::maintenance::Platform;
use crate::shell::{command_with, powershell, texts, CommandView, ShellCommand};
use crate::text::{
    after_char, chars_of, contains, contains_seq, decimal, ends_with, has_prefix, has_suffix,
    join, lines, lines_of, lowercase, owned, push_decimal, push_str, split_char, starts_with,
    string_of, text_eq, to_lowercase, trim, trim_chars,
};

verus! {

/// Something a cleanup can remove.
pub struct CleanupItem {
    pub path: String,
    pub size_bytes: u64,
    /// "temp", "cache", "update_cache", "os_residue", "browser_cache" or
    /// "browser_<name>".
    pub category: String,
    pub description: String,
}

/// What a scan found.
pub struct CleanupReport {
    pub items: Vec<CleanupItem>,
    pub total_bytes: u64,
}

/// The sum of the items' sizes.
pub open spec fn items_total(v: Seq<CleanupItem>) -> int
    decreases v.len(),
{
    if v.len() == 0 {
        0
    } else {
        items_total(v.drop_last()) + v.last().size_bytes
    }
}

/// A report of items, with their total size.
pub fn make_report(items: Vec<CleanupItem>) -> (r: CleanupReport)
    requires
        items_total(items@) <= u64::MAX,
    ensures
        r.items@ == items@,
        r.total_bytes == items_total(items@),
{
    let mut total: u64 = 0;
    let mut i: usize = 0;
    while i < items.len()
        invariant
            i <= items@.len(),
            items_total(items@) <= u64::MAX,
            total == items_total(items@.subrange(0, i as int)),
        decreases items@.len() - i,
    {
        assert(items@.subrange(0, i + 1).drop_last() =~= items@.subrange(0, i as int));
        proof {
            lemma_total_prefix(items@, i + 1);
        }
        total = total + items[i].size_bytes;
        i = i + 1;
    }
    assert(items@.subrange(0, items@.len() as int) =~= items@);
    CleanupReport { items, total_bytes: total }
}

proof fn lemma_total_prefix(v: Seq<CleanupItem>, k: int)
    requires
        0 <= k <= v.len(),
    ensures
        items_total(v.subrange(0, k)) <= items_total(v),
    decreases v.len(),
{
    if k < v.len() {
        assert(v.drop_last().subrange(0, k) =~= v.subrange(0, k));
        lemma_total_prefix(v.drop_last(), k);
    } else {
        assert(v.subrange(0, k) =~= v);
    }
}

/// The item a scanned folder or file yields: one when it holds something.
pub fn found_item(path: String, size: u64, category: &str, description: &str) -> (r: Option<CleanupItem>)
    ensures
        size == 0 ==> r is None,
        size > 0 ==> (r matches Some(i) && i.path@ == path@ && i.size_bytes == size && i.category@
            == category@ && i.description@ == description@),
{
    if size > 0 {
        Some(CleanupItem { path, size_bytes: size, category: owned(category), description: owned(description) })
    } else {
        None
    }
}

/// A folder the temporary-file scan looks at.
pub struct ScanFolder {
    pub folder: PathTarget,
    pub category: String,
}

/// The folders the temporary-file scan looks at, with their category and
/// description; on Linux the APT cache only when it exists.
pub open spec fn scan_folders(p: Platform, apt_cache_exists: bool) -> Seq<(TargetView, Seq<char>)> {
    match p {
        Platform::Windows => seq![
            (TargetView { base: BaseDir::Temp, rel: ""@, description: "Temporary files"@ }, "temp"@),
            (TargetView { base: BaseDir::SystemRoot, rel: "Temp"@, description: "Windows Temp"@ }, "temp"@),
            (TargetView { base: BaseDir::SystemRoot, rel: "SoftwareDistribution\\Download"@, description: "Windows Update cache"@ }, "update_cache"@),
            (TargetView { base: BaseDir::SystemRoot, rel: "Logs\\WindowsUpdate"@, description: "Windows Update logs"@ }, "temp"@),
        ],
        Platform::MacOs => seq![
            (TargetView { base: BaseDir::Home, rel: "Library/Caches"@, description: "User caches"@ }, "cache"@),
            (TargetView { base: BaseDir::Root, rel: "/tmp"@, description: "System temp"@ }, "temp"@),
        ],
        Platform::Linux => seq![
            (TargetView { base: BaseDir::Root, rel: "/tmp"@, description: "System temp"@ }, "temp"@),
            (TargetView { base: BaseDir::Root, rel: "/var/tmp"@, description: "Var temp"@ }, "temp"@),
        ] + (if apt_cache_exists {
            seq![(TargetView { base: BaseDir::Root, rel: "/var/cache/apt/archives"@, description: "APT cache"@ }, "update_cache"@)]
        } else {
            Seq::<(TargetView, Seq<char>)>::empty()
        }) + seq![(TargetView { base: BaseDir::Home, rel: ".cache"@, description: "User cache"@ }, "cache"@)],
        Platform::Other => Seq::<(TargetView, Seq<char>)>::empty(),
    }
}

/// The models of a list of scan folders.
pub open spec fn scan_folder_views(v: Seq<ScanFolder>) -> Seq<(TargetView, Seq<char>)> {
    v.map_values(
        |f: ScanFolder|
            (TargetView { base: f.folder.base, rel: f.folder.rel@, description: f.folder.description@ }, f.category@),
    )
}

fn folder(base: BaseDir, rel: &str, description: &str, category: &str) -> (f: ScanFolder)
    ensures
        f.folder.base == base,
        f.folder.rel@ == rel@,
        f.folder.description@ == description@,
        f.category@ == category@,
{
    ScanFolder { folder: target(base, rel, description), category: owned(category) }
}

/// The folders the temporary-file scan looks at.
pub fn scan_cleanup_folders(p: &Platform, apt_cache_exists: bool) -> (r: Vec<ScanFolder>)
    ensures
        scan_folder_views(r@) == scan_folders(*p, apt_cache_exists),
{
    let mut v: Vec<ScanFolder> = Vec::new();
    match p {
        Platform::Windows => {
            v.push(folder(BaseDir::Temp, "", "Temporary files", "temp"));
            v.push(folder(BaseDir::SystemRoot, "Temp", "Windows Temp", "temp"));
            v.push(folder(BaseDir::SystemRoot, "SoftwareDistribution\\Download", "Windows Update cache", "update_cache"));
            v.push(folder(BaseDir::SystemRoot, "Logs\\WindowsUpdate", "Windows Update logs", "temp"));
        },
        Platform::MacOs => {
            v.push(folder(BaseDir::Home, "Library/Caches", "User caches", "cache"));
            v.push(folder(BaseDir::Root, "/tmp", "System temp", "temp"));
        },
        Platform::Linux => {
            v.push(folder(BaseDir::Root, "/tmp", "System temp", "temp"));
            v.push(folder(BaseDir::Root, "/var/tmp", "Var temp", "temp"));
            if apt_cache_exists {
                v.push(folder(BaseDir::Root, "/var/cache/apt/archives", "APT cache", "update_cache"));
            }
            v.push(folder(BaseDir::Home, ".cache", "User cache", "cache"));
        },
        Platform::Other => {},
    }
    assert(scan_folder_views(v@) =~= scan_folders(*p, apt_cache_exists));
    v
}

/// A file of Explorer's folder that is a thumbnail cache (by its lower-cased name).
pub open spec fn is_thumbnail_cache(name: Seq<char>) -> bool {
    has_prefix(lowercase(name), "thumbcache_"@) && has_suffix(lowercase(name), ".db"@)
}

/// Whether a file of Explorer's folder is a thumbnail cache.
pub fn thumbnail_cache_file(name: &str) -> (b: bool)
    ensures
        b == is_thumbnail_cache(name@),
{
    let l = to_lowercase(name);
    let lv = chars_of(l.as_str());
    let p = chars_of("thumbcache_");
    let s = chars_of(".db");
    starts_with(lv.as_slice(), p.as_slice()) && ends_with(lv.as_slice(), s.as_slice())
}

/// The folders whose size the startup alert adds up.
pub open spec fn temp_size_folders(p: Platform) -> Seq<(BaseDir, Seq<char>)> {
    match p {
        Platform::Windows => seq![(BaseDir::Temp, Seq::<char>::empty()), (BaseDir::SystemRoot, "Temp"@)],
        Platform::MacOs => seq![(BaseDir::Root, "/tmp"@), (BaseDir::Home, "Library/Caches"@)],
        Platform::Linux => seq![(BaseDir::Root, "/tmp"@), (BaseDir::Root, "/var/tmp"@)],
        Platform::Other => Seq::<(BaseDir, Seq<char>)>::empty(),
    }
}

/// The folders whose size the startup alert adds up.
pub fn check_temp_size_folders(p: &Platform) -> (r: Vec<(BaseDir, String)>)
    ensures
        crate::browsers::marker_views(r@) == temp_size_folders(*p),
{
    let mut v: Vec<(BaseDir, String)> = Vec::new();
    match p {
        Platform::Windows => {
            v.push((BaseDir::Temp, String::new()));
            v.push((BaseDir::SystemRoot, owned("Temp")));
        },
        Platform::MacOs => {
            v.push((BaseDir::Root, owned("/tmp")));
            v.push((BaseDir::Home, owned("Library/Caches")));
        },
        Platform::Linux => {
            v.push((BaseDir::Root, owned("/tmp")));
            v.push((BaseDir::Root, owned("/var/tmp")));
        },
        Platform::Other => {},
    }
    assert(crate::browsers::marker_views(v@) =~= temp_size_folders(*p));
    v
}

/// The temporary files are worth an alert above 1 GB.
pub fn temp_alert(total_bytes: u64) -> (b: bool)
    ensures
        b == (total_bytes > 1073741824),
{
    total_bytes > 1073741824
}

/// Records a finished cleanup in the history, once the files were deleted
/// and their sizes added up.
pub fn record_freed(history: &mut Vec<u64>, freed: u64)
    ensures
        final(history)@ == crate::config::recorded(old(history)@, freed),
{
    crate::config::record_cleanup(history, freed);
}

// ─────────────────────────────── residues ─────────────────────────────────

/// Whether DISM's analysis recommends cleaning the component store (in
/// English or French).
pub open spec fn dism_recommends(text: Seq<char>) -> bool {
    contains_seq(text, "Component Store Cleanup Recommended : Yes"@) || contains_seq(
        text,
        "Nettoyage du magasin de composants recommandé : Oui"@,
    )
}

fn residue(path: &str, description: String) -> (i: CleanupItem)
    ensures
        i.path@ == path@,
        i.size_bytes == 0,
        i.category@ == "os_residue"@,
        i.description@ == description@,
{
    CleanupItem { path: owned(path), size_bytes: 0, category: owned("os_residue"), description }
}

/// The residue DISM's analysis reveals, if any.
pub fn dism_residue(text: &str) -> (r: Option<CleanupItem>)
    ensures
        dism_recommends(text@) ==> (r matches Some(i) && i.path@ == "dism-component-store"@
            && i.size_bytes == 0 && i.category@ == "os_residue"@ && i.description@
            == "Windows component store (old system files)"@),
        !dism_recommends(text@) ==> r is None,
{
    let t = chars_of(text);
    let en = chars_of("Component Store Cleanup Recommended : Yes");
    let fr = chars_of("Nettoyage du magasin de composants recommandé : Oui");
    if contains(t.as_slice(), en.as_slice()) || contains(t.as_slice(), fr.as_slice()) {
        Some(residue("dism-component-store", owned("Windows component store (old system files)")))
    } else {
        None
    }
}

/// Number of lines that satisfy a test.
pub open spec fn count_lines(ls: Seq<Seq<char>>, f: spec_fn(Seq<char>) -> bool) -> nat
    decreases ls.len(),
{
    if ls.len() == 0 {
        0
    } else {
        count_lines(ls.drop_last(), f) + if f(ls.last()) { 1nat } else { 0nat }
    }
}

/// A line of `apt-get autoremove --dry-run` that removes a package.
pub open spec fn is_removal_line(l: Seq<char>) -> bool {
    has_prefix(l, "Remv"@) || has_prefix(l, "Removing"@)
}

/// A line that is not blank.
pub open spec fn is_nonblank(l: Seq<char>) -> bool {
    trim(l).len() > 0
}

fn count_matching(text: &str, removal: bool) -> (n: usize)
    ensures
        removal ==> n == count_lines(lines(text@), |l: Seq<char>| is_removal_line(l)),
        !removal ==> n == count_lines(lines(text@), |l: Seq<char>| is_nonblank(l)),
{
    let ls = lines_of(text);
    let ghost sl = lines(text@);
    let a = chars_of("Remv");
    let b = chars_of("Removing");
    let mut n: usize = 0;
    let mut i: usize = 0;
    while i < ls.len()
        invariant
            i <= ls@.len(),
            ls@.len() == sl.len(),
            forall|k: int| 0 <= k < ls@.len() ==> ls@[k]@ == sl[k],
            a@ == "Remv"@,
            b@ == "Removing"@,
            n <= i,
            removal ==> n == count_lines(sl.subrange(0, i as int), |l: Seq<char>| is_removal_line(l)),
            !removal ==> n == count_lines(sl.subrange(0, i as int), |l: Seq<char>| is_nonblank(l)),
        decreases ls@.len() - i,
    {
        assert(sl.subrange(0, i + 1).drop_last() =~= sl.subrange(0, i as int));
        let hit = if removal {
            starts_with(ls[i].as_slice(), a.as_slice()) || starts_with(ls[i].as_slice(), b.as_slice())
        } else {
            trim_chars(ls[i].as_slice()).len() > 0
        };
        if hit {
            n = n + 1;
        }
        i = i + 1;
    }
    assert(sl.subrange(0, sl.len() as int) =~= sl);
    n
}

/// The orphaned packages `apt-get autoremove --dry-run` lists, as a residue.
pub fn apt_residue(text: &str) -> (r: Option<CleanupItem>)
    ensures
        ({
            let n = count_lines(lines(text@), |l: Seq<char>| is_removal_line(l));
            &&& n == 0 ==> r is None
            &&& n > 0 ==> (r matches Some(i) && i.path@ == "apt-autoremove"@ && i.size_bytes == 0
                && i.category@ == "os_residue"@ && i.description@ == decimal(n)
                + " orphaned packages (apt autoremove)"@)
        }),
{
    let n = count_matching(text, true);
    if n > 0 {
        let mut d = String::new();
        push_decimal(&mut d, n as u64);
        push_str(&mut d, " orphaned packages (apt autoremove)");
        Some(residue("apt-autoremove", d))
    } else {
        None
    }
}

/// The orphaned packages `pacman -Qtdq` lists, as a residue.
pub fn pacman_residue(text: &str) -> (r: Option<CleanupItem>)
    ensures
        ({
            let n = count_lines(lines(text@), |l: Seq<char>| is_nonblank(l));
            &&& n == 0 ==> r is None
            &&& n > 0 ==> (r matches Some(i) && i.path@ == "pacman-orphans"@ && i.size_bytes == 0
                && i.category@ == "os_residue"@ && i.description@ == decimal(n)
                + " orphaned packages (pacman)"@)
        }),
{
    let n = count_matching(text, false);
    if n > 0 {
        let mut d = String::new();
        push_decimal(&mut d, n as u64);
        push_str(&mut d, " orphaned packages (pacman)");
        Some(residue("pacman-orphans", d))
    } else {
        None
    }
}

/// How the component store cleanup ended.
pub enum DismOutcome {
    Succeeded,
    Failed { stderr: String },
    NotRun { reason: String },
    TimedOut,
}

/// The line reporting the component store cleanup.
pub fn dism_cleanup_line(o: DismOutcome) -> (r: String)
    ensures
        match o {
            DismOutcome::Succeeded => r@ == "DISM cleanup complete"@,
            DismOutcome::Failed { stderr } => r@ == "DISM error: "@ + stderr@,
            DismOutcome::NotRun { reason } => r@ == "DISM error: "@ + reason@,
            DismOutcome::TimedOut => r@ == "DISM cleanup timed out after 3 minutes"@,
        },
{
    match o {
        DismOutcome::Succeeded => owned("DISM cleanup complete"),
        DismOutcome::Failed { stderr } => {
            let mut r = owned("DISM error: ");
            push_str(&mut r, stderr.as_str());
            r
        },
        DismOutcome::NotRun { reason } => {
            let mut r = owned("DISM error: ");
            push_str(&mut r, reason.as_str());
            r
        },
        DismOutcome::TimedOut => owned("DISM cleanup timed out after 3 minutes"),
    }
}

/// The line reporting `apt-get autoremove -y`.
pub fn apt_cleanup_line(success: bool) -> (r: String)
    ensures
        r@ == if success { "apt autoremove complete"@ } else { "apt autoremove failed"@ },
{
    if success {
        owned("apt autoremove complete")
    } else {
        owned("apt autoremove failed")
    }
}

/// The non-blank lines of a text, in order.
pub open spec fn nonblank_lines(ls: Seq<Seq<char>>) -> Seq<Seq<char>>
    decreases ls.len(),
{
    if ls.len() == 0 {
        Seq::<Seq<char>>::empty()
    } else if is_nonblank(ls.last()) {
        nonblank_lines(ls.drop_last()).push(ls.last())
    } else {
        nonblank_lines(ls.drop_last())
    }
}

/// The command that removes pacman's orphans and the line reporting it;
/// nothing when there are none.
pub fn pacman_cleanup(text: &str) -> (r: Option<(ShellCommand, String)>)
    ensures
        ({
            let pkgs = nonblank_lines(lines(text@));
            &&& pkgs.len() == 0 ==> r is None
            &&& pkgs.len() > 0 ==> (r matches Some(x) && x.0@ == (CommandView {
                program: "pacman"@,
                args: seq!["-Rns"@, "--noconfirm"@] + pkgs,
            }) && x.1@ == "Removed "@ + decimal(pkgs.len()) + " orphaned packages"@)
        }),
{
    let ls = lines_of(text);
    let ghost sl = lines(text@);
    let mut args: Vec<String> = Vec::new();
    args.push(owned("-Rns"));
    args.push(owned("--noconfirm"));
    let mut n: usize = 0;
    let mut i: usize = 0;
    while i < ls.len()
        invariant
            i <= ls@.len(),
            ls@.len() == sl.len(),
            forall|k: int| 0 <= k < ls@.len() ==> ls@[k]@ == sl[k],
            n <= i,
            n == nonblank_lines(sl.subrange(0, i as int)).len(),
            texts(args@) == seq!["-Rns"@, "--noconfirm"@] + nonblank_lines(sl.subrange(0, i as int)),
        decreases ls@.len() - i,
    {
        assert(sl.subrange(0, i + 1).drop_last() =~= sl.subrange(0, i as int));
        if trim_chars(ls[i].as_slice()).len() > 0 {
            let ghost a0 = texts(args@);
            args.push(string_of(ls[i].as_slice()));
            assert(texts(args@) =~= a0.push(sl[i as int]));
            n = n + 1;
        }
        i = i + 1;
    }
    assert(sl.subrange(0, sl.len() as int) =~= sl);
    if n == 0 {
        None
    } else {
        let mut line = owned("Removed ");
        push_decimal(&mut line, n as u64);
        push_str(&mut line, " orphaned packages");
        Some((command_with("pacman", args), line))
    }
}

// ─────────────────────────────── bloatware ────────────────────────────────

/// A preinstalled application and whether it is installed.
pub struct BloatwareInfo {
    pub package: String,
    pub label: String,
    pub installed: bool,
}

/// The Store packages known as bloatware on Windows.
pub open spec fn windows_bloatware() -> Seq<Seq<char>> {
    seq!["Microsoft.BingNews"@, "Microsoft.BingWeather"@, "Microsoft.GetHelp"@, "Microsoft.Getstarted"@, "Microsoft.MicrosoftOfficeHub"@, "Microsoft.MicrosoftSolitaireCollection"@, "Microsoft.People"@, "Microsoft.SkypeApp"@, "Microsoft.WindowsFeedbackHub"@, "Microsoft.YourPhone"@, "Microsoft.ZuneMusic"@, "Microsoft.ZuneVideo"@, "Microsoft.MixedReality.Portal"@, "Microsoft.WindowsMaps"@, "Microsoft.Todos"@, "Clipchamp.Clipchamp"@, "Microsoft.549981C3F5F10"@, "king.com.CandyCrushSaga"@, "king.com.CandyCrushSodaSaga"@, "SpotifyAB.SpotifyMusic"@, "Disney.37853FC22B2CE"@, "BytedancePte.Ltd.TikTok"@]
}

/// The (label, application) pairs known as bloatware on macOS.
pub open spec fn macos_bloatware() -> Seq<(Seq<char>, Seq<char>)> {
    seq![("GarageBand"@, "GarageBand.app"@), ("iMovie"@, "iMovie.app"@), ("Keynote"@, "Keynote.app"@), ("Numbers"@, "Numbers.app"@), ("Pages"@, "Pages.app"@)]
}

/// The (label, package) pairs known as bloatware on Linux.
pub open spec fn linux_bloatware() -> Seq<(Seq<char>, Seq<char>)> {
    seq![("gnome-games"@, "gnome-games"@), ("aisleriot"@, "aisleriot"@), ("gnome-mahjongg"@, "gnome-mahjongg"@), ("gnome-mines"@, "gnome-mines"@), ("gnome-sudoku"@, "gnome-sudoku"@), ("thunderbird"@, "thunderbird"@), ("libreoffice-common"@, "libreoffice-common"@), ("rhythmbox"@, "rhythmbox"@), ("totem"@, "totem"@), ("cheese"@, "cheese"@), ("shotwell"@, "shotwell"@)]
}

/// The Store packages known as bloatware on Windows (the Xbox and Game Bar
/// packages are left out: the purge no longer removes them).
pub fn windows_bloatware_list() -> (v: Vec<String>)
    ensures
        texts(v@) == windows_bloatware(),
{
    let mut v: Vec<String> = Vec::new();
    v.push(owned("Microsoft.BingNews"));
    v.push(owned("Microsoft.BingWeather"));
    v.push(owned("Microsoft.GetHelp"));
    v.push(owned("Microsoft.Getstarted"));
    v.push(owned("Microsoft.MicrosoftOfficeHub"));
    v.push(owned("Microsoft.MicrosoftSolitaireCollection"));
    v.push(owned("Microsoft.People"));
    v.push(owned("Microsoft.SkypeApp"));
    v.push(owned("Microsoft.WindowsFeedbackHub"));
    v.push(owned("Microsoft.YourPhone"));
    v.push(owned("Microsoft.ZuneMusic"));
    v.push(owned("Microsoft.ZuneVideo"));
    v.push(owned("Microsoft.MixedReality.Portal"));
    v.push(owned("Microsoft.WindowsMaps"));
    v.push(owned("Microsoft.Todos"));
    v.push(owned("Clipchamp.Clipchamp"));
    v.push(owned("Microsoft.549981C3F5F10"));
    v.push(owned("king.com.CandyCrushSaga"));
    v.push(owned("king.com.CandyCrushSodaSaga"));
    v.push(owned("SpotifyAB.SpotifyMusic"));
    v.push(owned("Disney.37853FC22B2CE"));
    v.push(owned("BytedancePte.Ltd.TikTok"));
    assert(texts(v@) =~= windows_bloatware());
    v
}

/// The (label, name) pairs known as bloatware on macOS or Linux.
pub fn unix_bloatware_list(linux: bool) -> (v: Vec<(String, String)>)
    ensures
        crate::browsers::pair_texts(v@) == if linux { linux_bloatware() } else { macos_bloatware() },
{
    let mut v: Vec<(String, String)> = Vec::new();
    if linux {
            v.push((owned("gnome-games"), owned("gnome-games")));
            v.push((owned("aisleriot"), owned("aisleriot")));
            v.push((owned("gnome-mahjongg"), owned("gnome-mahjongg")));
            v.push((owned("gnome-mines"), owned("gnome-mines")));
            v.push((owned("gnome-sudoku"), owned("gnome-sudoku")));
            v.push((owned("thunderbird"), owned("thunderbird")));
            v.push((owned("libreoffice-common"), owned("libreoffice-common")));
            v.push((owned("rhythmbox"), owned("rhythmbox")));
            v.push((owned("totem"), owned("totem")));
            v.push((owned("cheese"), owned("cheese")));
            v.push((owned("shotwell"), owned("shotwell")));
    } else {
            v.push((owned("GarageBand"), owned("GarageBand.app")));
            v.push((owned("iMovie"), owned("iMovie.app")));
            v.push((owned("Keynote"), owned("Keynote.app")));
            v.push((owned("Numbers"), owned("Numbers.app")));
            v.push((owned("Pages"), owned("Pages.app")));
    }
    assert(crate::browsers::pair_texts(v@) =~= if linux { linux_bloatware() } else { macos_bloatware() });
    v
}

/// The label of a Store package: what follows its last dot.
pub open spec fn package_label(pkg: Seq<char>) -> Seq<char> {
    split_char(pkg, '.').last()
}

/// Computes the label of a Store package.
pub fn package_label_exec(pkg: &str) -> (r: String)
    ensures
        r@ == package_label(pkg@),
{
    let v = chars_of(pkg);
    let parts = crate::text::split_at_char(v.as_slice(), '.');
    proof {
        crate::text::lemma_split_char_len(pkg@, '.');
    }
    string_of(parts[parts.len() - 1].as_slice())
}

/// The PowerShell line that reports whether one Store package is installed.
pub fn appx_check(pkg: &str) -> (r: String)
    ensures
        r@ == "if (Get-AppxPackage -Name '*"@ + pkg@ + "*' -ErrorAction SilentlyContinue) { Write-Output '"@
            + pkg@ + "=installed' } else { Write-Output '"@ + pkg@ + "=not_found' }"@,
{
    let mut r = owned("if (Get-AppxPackage -Name '*");
    push_str(&mut r, pkg);
    push_str(&mut r, "*' -ErrorAction SilentlyContinue) { Write-Output '");
    push_str(&mut r, pkg);
    push_str(&mut r, "=installed' } else { Write-Output '");
    push_str(&mut r, pkg);
    push_str(&mut r, "=not_found' }");
    r
}

/// Whether the check's output reports a package installed: a line reads
/// exactly `<package>=installed`.
pub open spec fn reported_installed(out: Seq<char>, pkg: Seq<char>) -> bool {
    lines(out).contains(pkg + "=installed"@)
}

/// Whether the check's output reports a package installed.
pub fn is_reported_installed(out: &str, pkg: &str) -> (b: bool)
    ensures
        b == reported_installed(out@, pkg@),
{
    let ls = lines_of(out);
    let ghost sl = lines(out@);
    let mut want = owned(pkg);
    push_str(&mut want, "=installed");
    let mut i: usize = 0;
    while i < ls.len()
        invariant
            i <= ls@.len(),
            ls@.len() == sl.len(),
            forall|k: int| 0 <= k < ls@.len() ==> ls@[k]@ == sl[k],
            want@ == pkg@ + "=installed"@,
            sl == lines(out@),
            forall|k: int| 0 <= k < i ==> sl[k] != want@,
        decreases ls@.len() - i,
    {
        let l = string_of(ls[i].as_slice());
        if text_eq(l.as_str(), want.as_str()) {
            assert(sl[i as int] == want@);
            assert(lines(out@).contains(want@));
            return true;
        }
        i = i + 1;
    }
    false
}

/// Whether `dpkg --get-selections` shows a package installed: a line starts
/// with its name and contains "install".
pub open spec fn dpkg_installed(out: Seq<char>, pkg: Seq<char>) -> bool {
    exists|k: int| 0 <= k < lines(out).len() && has_prefix(lines(out)[k], pkg) && contains_seq(
        lines(out)[k],
        "install"@,
    )
}

/// Whether `dpkg --get-selections` shows a package installed.
pub fn is_dpkg_installed(out: &str, pkg: &str) -> (b: bool)
    ensures
        b == dpkg_installed(out@, pkg@),
{
    let ls = lines_of(out);
    let ghost sl = lines(out@);
    let p = chars_of(pkg);
    let w = chars_of("install");
    let mut i: usize = 0;
    while i < ls.len()
        invariant
            i <= ls@.len(),
            ls@.len() == sl.len(),
            forall|k: int| 0 <= k < ls@.len() ==> ls@[k]@ == sl[k],
            p@ == pkg@,
            w@ == "install"@,
            sl == lines(out@),
            forall|k: int| 0 <= k < i ==> !(has_prefix(sl[k], pkg@) && contains_seq(sl[k], "install"@)),
        decreases ls@.len() - i,
    {
        if starts_with(ls[i].as_slice(), p.as_slice()) && contains(ls[i].as_slice(), w.as_slice()) {
            assert(has_prefix(sl[i as int], pkg@) && contains_seq(sl[i as int], "install"@));
            return true;
        }
        i = i + 1;
    }
    false
}

/// The applications a purge removes: all known ones when none is selected,
/// else the selected ones that are known, in the order selected.
pub open spec fn purge_targets(known: Seq<Seq<char>>, selection: Seq<Seq<char>>) -> Seq<Seq<char>> {
    if selection.len() == 0 {
        known
    } else {
        selection.filter(|s: Seq<char>| known.contains(s))
    }
}

/// Chooses the applications a purge removes.
pub fn purge_selection(known: &Vec<String>, selection: &Vec<String>) -> (r: Vec<String>)
    ensures
        texts(r@) == purge_targets(texts(known@), texts(selection@)),
{
    let ghost kv = texts(known@);
    let ghost sv = texts(selection@);
    if selection.len() == 0 {
        let mut r: Vec<String> = Vec::new();
        let mut i: usize = 0;
        while i < known.len()
            invariant
                i <= known@.len(),
                r@.len() == i,
                forall|k: int| 0 <= k < i ==> (#[trigger] r@[k])@ == known@[k]@,
            decreases known@.len() - i,
        {
            r.push(known[i].clone());
            i = i + 1;
        }
        assert(texts(r@) =~= kv);
        return r;
    }
    let mut r: Vec<String> = Vec::new();
    let mut i: usize = 0;
    while i < selection.len()
        invariant
            i <= selection@.len(),
            kv == texts(known@),
            sv == texts(selection@),
            texts(r@) == sv.subrange(0, i as int).filter(|s: Seq<char>| kv.contains(s)),
        decreases selection@.len() - i,
    {
        let mut found = false;
        let mut j: usize = 0;
        while j < known.len()
            invariant
                j <= known@.len(),
                i < selection@.len(),
                kv == texts(known@),
                found == exists|k: int| 0 <= k < j && kv[k] == selection@[i as int]@,
            decreases known@.len() - j,
        {
            if text_eq(known[j].as_str(), selection[i].as_str()) {
                assert(kv[j as int] == selection@[i as int]@);
                found = true;
            } else {
                assert(kv[j as int] != selection@[i as int]@);
            }
            j = j + 1;
        }
        proof {
            reveal(Seq::filter);
            assert(sv.subrange(0, i + 1).drop_last() =~= sv.subrange(0, i as int));
            if found {
                let k = choose|k: int| 0 <= k < known@.len() && kv[k] == selection@[i as int]@;
                assert(kv.contains(sv[i as int]));
            } else {
                assert(!kv.contains(sv[i as int]));
            }
        }
        if found {
            let ghost r0 = texts(r@);
            r.push(selection[i].clone());
            assert(texts(r@) =~= r0.push(sv[i as int]));
        }
        i = i + 1;
    }
    assert(sv.subrange(0, sv.len() as int) =~= sv);
    r
}

/// The PowerShell script that removes Store packages.
pub fn appx_removal_script(targets: &Vec<String>) -> (r: String)
    ensures
        r@ == join(
            texts(targets@).map_values(|p: Seq<char>| "Get-AppxPackage -Name *"@ + p + "* | Remove-AppxPackage -ErrorAction SilentlyContinue"@),
            "; "@,
        ),
{
    let ghost parts = texts(targets@).map_values(|p: Seq<char>| "Get-AppxPackage -Name *"@ + p + "* | Remove-AppxPackage -ErrorAction SilentlyContinue"@);
    let mut r = String::new();
    let mut i: usize = 0;
    while i < targets.len()
        invariant
            i <= targets@.len(),
            parts == texts(targets@).map_values(|p: Seq<char>| "Get-AppxPackage -Name *"@ + p + "* | Remove-AppxPackage -ErrorAction SilentlyContinue"@),
            r@ == join(parts.subrange(0, i as int), "; "@),
        decreases targets@.len() - i,
    {
        let ghost prev = parts.subrange(0, i as int);
        assert(parts.subrange(0, i + 1) =~= prev.push(parts[i as int]));
        assert(parts.subrange(0, i + 1).drop_last() =~= prev);
        let ghost r0 = r@;
        if i > 0 {
            push_str(&mut r, "; ");
        }
        push_str(&mut r, "Get-AppxPackage -Name *");
        push_str(&mut r, targets[i].as_str());
        push_str(&mut r, "* | Remove-AppxPackage -ErrorAction SilentlyContinue");
        proof {
            if i == 0 {
                assert(prev.len() == 0);
                assert(r@ =~= parts[0]);
            } else {
                assert(r@ =~= r0 + "; "@ + parts[i as int]);
            }
        }
        i = i + 1;
    }
    assert(parts.subrange(0, parts.len() as int) =~= parts);
    r
}

/// The command that purges the chosen packages on Linux
/// (`sudo apt-get purge -y` followed by the packages).
pub fn apt_purge_command(targets: &Vec<String>) -> (c: ShellCommand)
    ensures
        c@.program == "sudo"@,
        c@.args == seq!["apt-get"@, "purge"@, "-y"@] + texts(targets@),
{
    let mut args: Vec<String> = Vec::new();
    args.push(owned("apt-get"));
    args.push(owned("purge"));
    args.push(owned("-y"));
    let mut i: usize = 0;
    while i < targets.len()
        invariant
            i <= targets@.len(),
            texts(args@) == seq!["apt-get"@, "purge"@, "-y"@] + texts(targets@.subrange(0, i as int)),
        decreases targets@.len() - i,
    {
        let t = owned(targets[i].as_str());
        let ghost before = texts(args@);
        args.push(t);
        assert(texts(args@) =~= before.push(targets@[i as int]@));
        assert(texts(targets@.subrange(0, i + 1)) =~= texts(targets@.subrange(0, i as int)).push(
            targets@[i as int]@,
        ));
        assert(texts(args@) =~= seq!["apt-get"@, "purge"@, "-y"@] + texts(targets@.subrange(0, i + 1)));
        i = i + 1;
    }
    assert(targets@.subrange(0, targets@.len() as int) =~= targets@);
    command_with("sudo", args)
}

/// The message that ends a purge.
pub fn purge_message(removed: usize) -> (r: String)
    ensures
        r@ == "Purge terminée : "@ + decimal(removed as nat) + " applications supprimées."@,
{
    let mut r = owned("Purge terminée : ");
    push_decimal(&mut r, removed as u64);
    push_str(&mut r, " applications supprimées.");
    r
}

} // verus!
