//! Browsers: where each keeps the data a cleanup can remove, how to tell
//! that it is installed, and how to close it before cleaning.
use vstd::prelude::*;

use crate::maintenance::Platform;
use crate::shell::{command2, command3, CommandView, ShellCommand};
use crate::text::{chars_of, contains, contains_seq, owned, push_char, push_str, text_eq};

verus! {

/// The folder a path is relative to.
pub enum BaseDir {
    /// The user's local application data (Windows).
    Local,
    /// The user's roaming application data (Windows).
    Roaming,
    /// The programs folder (Windows).
    ProgramFiles,
    /// The 32-bit programs folder (Windows).
    ProgramFilesX86,
    /// The user's home folder.
    Home,
    /// None: the path is absolute.
    Root,
    /// The system's temporary folder.
    Temp,
    /// The Windows folder (`SystemRoot`).
    SystemRoot,
}

/// A file or folder to look at, with what it holds.
pub struct PathTarget {
    pub base: BaseDir,
    pub rel: String,
    pub description: String,
}

/// Model of a [`PathTarget`].
pub struct TargetView {
    pub base: BaseDir,
    pub rel: Seq<char>,
    pub description: Seq<char>,
}

/// The models of a list of targets.
pub open spec fn target_views(v: Seq<PathTarget>) -> Seq<TargetView> {
    v.map_values(|t: PathTarget| TargetView { base: t.base, rel: t.rel@, description: t.description@ })
}

/// The models of a list of text pairs.
pub open spec fn pair_texts(v: Seq<(String, String)>) -> Seq<(Seq<char>, Seq<char>)> {
    v.map_values(|p: (String, String)| (p.0@, p.1@))
}

/// The models of a list of (base, path) markers.
pub open spec fn marker_views(v: Seq<(BaseDir, String)>) -> Seq<(BaseDir, Seq<char>)> {
    v.map_values(|m: (BaseDir, String)| (m.0, m.1@))
}

/// The models of a list of text triples.
pub open spec fn triple_texts(v: Seq<(String, String, String)>) -> Seq<(Seq<char>, Seq<char>, Seq<char>)> {
    v.map_values(|t: (String, String, String)| (t.0@, t.1@, t.2@))
}

pub fn target(base: BaseDir, rel: &str, description: &str) -> (t: PathTarget)
    ensures
        t.base == base,
        t.rel@ == rel@,
        t.description@ == description@,
{
    PathTarget { base, rel: owned(rel), description: owned(description) }
}

/// What a granular browser cleanup removes.
pub struct BrowserCleanupFilter {
    /// "chrome", "edge", "firefox", "brave", "opera" or "opera_gx".
    pub browser: String,
    pub cache: bool,
    pub history: bool,
    pub cookies: bool,
    pub sessions: bool,
}

/// The kinds of data a filter selects.
pub struct FilterView {
    pub cache: bool,
    pub history: bool,
    pub cookies: bool,
    pub sessions: bool,
}

/// The kinds of data a filter selects.
pub open spec fn filter_view(f: &BrowserCleanupFilter) -> FilterView {
    FilterView { cache: f.cache, history: f.history, cookies: f.cookies, sessions: f.sessions }
}

/// A list kept only when the condition holds.
pub open spec fn flagged(b: bool, s: Seq<TargetView>) -> Seq<TargetView> {
    if b {
        s
    } else {
        Seq::<TargetView>::empty()
    }
}

/// The targets of a browser that keeps its history, cookies and sessions in
/// one profile folder: its cache folders, then those three files.
pub open spec fn standard_targets(label: Seq<char>, base: BaseDir, dir: Seq<char>, sep: char, caches: Seq<TargetView>, f: FilterView) -> Seq<TargetView> {
    flagged(f.cache, caches) + flagged(
        f.history,
        seq![TargetView { base, rel: dir.push(sep) + "History"@, description: label + " — Historique"@ }],
    ) + flagged(
        f.cookies,
        seq![TargetView { base, rel: dir.push(sep) + "Cookies"@, description: label + " — Cookies"@ }],
    ) + flagged(
        f.sessions,
        seq![TargetView { base, rel: dir.push(sep) + "Sessions"@, description: label + " — Sessions"@ }],
    )
}

fn append_target(v: &mut Vec<PathTarget>, base: BaseDir, dir: &str, sep: char, file: &str, label: &str, suffix: &str)
    ensures
        target_views(final(v)@) == target_views(old(v)@).push(
            TargetView { base, rel: dir@.push(sep) + file@, description: label@ + suffix@ },
        ),
{
    let mut rel = owned(dir);
    push_char(&mut rel, sep);
    push_str(&mut rel, file);
    let mut d = owned(label);
    push_str(&mut d, suffix);
    let ghost v0 = target_views(v@);
    v.push(PathTarget { base, rel, description: d });
    assert(target_views(v@) =~= v0.push(
        TargetView { base, rel: dir@.push(sep) + file@, description: label@ + suffix@ },
    ));
}

pub fn base_copy(b: &BaseDir) -> (r: BaseDir)
    ensures
        r == *b,
{
    match b {
        BaseDir::Local => BaseDir::Local,
        BaseDir::Roaming => BaseDir::Roaming,
        BaseDir::ProgramFiles => BaseDir::ProgramFiles,
        BaseDir::ProgramFilesX86 => BaseDir::ProgramFilesX86,
        BaseDir::Home => BaseDir::Home,
        BaseDir::Root => BaseDir::Root,
        BaseDir::Temp => BaseDir::Temp,
        BaseDir::SystemRoot => BaseDir::SystemRoot,
    }
}

fn standard_targets_exec(label: &str, base: BaseDir, dir: &str, sep: char, caches: Vec<PathTarget>, f: &BrowserCleanupFilter) -> (r: Vec<PathTarget>)
    ensures
        target_views(r@) == standard_targets(label@, base, dir@, sep, target_views(caches@), filter_view(f)),
{
    let ghost cv = target_views(caches@);
    let mut v: Vec<PathTarget> = if f.cache {
        caches
    } else {
        Vec::new()
    };
    assert(target_views(v@) =~= flagged(f.cache, cv));
    let ghost a = target_views(v@);
    if f.history {
        append_target(&mut v, base_copy(&base), dir, sep, "History", label, " — Historique");
    }
    assert(target_views(v@) =~= a + flagged(
        f.history,
        seq![TargetView { base, rel: dir@.push(sep) + "History"@, description: label@ + " — Historique"@ }],
    ));
    let ghost b = target_views(v@);
    if f.cookies {
        append_target(&mut v, base_copy(&base), dir, sep, "Cookies", label, " — Cookies");
    }
    assert(target_views(v@) =~= b + flagged(
        f.cookies,
        seq![TargetView { base, rel: dir@.push(sep) + "Cookies"@, description: label@ + " — Cookies"@ }],
    ));
    let ghost c = target_views(v@);
    if f.sessions {
        append_target(&mut v, base_copy(&base), dir, sep, "Sessions", label, " — Sessions");
    }
    assert(target_views(v@) =~= c + flagged(
        f.sessions,
        seq![TargetView { base, rel: dir@.push(sep) + "Sessions"@, description: label@ + " — Sessions"@ }],
    ));
    v
}

/// The targets in one Firefox profile folder.
pub open spec fn firefox_profile_targets(base: BaseDir, root: Seq<char>, sep: char, name: Seq<char>, f: FilterView) -> Seq<TargetView> {
    let dir = root.push(sep) + name;
    let label = "Firefox ("@ + name + ")"@;
    flagged(
        f.cache,
        seq![TargetView { base, rel: dir.push(sep) + "cache2"@, description: label + " — Cache"@ }],
    ) + flagged(
        f.history,
        seq![TargetView { base, rel: dir.push(sep) + "places.sqlite"@, description: label + " — Historique"@ }],
    ) + flagged(
        f.cookies,
        seq![TargetView { base, rel: dir.push(sep) + "cookies.sqlite"@, description: label + " — Cookies"@ }],
    ) + flagged(
        f.sessions,
        seq![TargetView { base, rel: dir.push(sep) + "sessionstore-backups"@, description: label + " — Sessions"@ }],
    )
}

/// The targets of every Firefox profile, in the order the folders were listed.
pub open spec fn firefox_targets(base: BaseDir, root: Seq<char>, sep: char, names: Seq<Seq<char>>, f: FilterView) -> Seq<TargetView>
    decreases names.len(),
{
    if names.len() == 0 {
        Seq::<TargetView>::empty()
    } else {
        firefox_targets(base, root, sep, names.drop_last(), f) + firefox_profile_targets(
            base,
            root,
            sep,
            names.last(),
            f,
        )
    }
}

/// The profile folders considered: all of them, or only those whose full path
/// contains `.default`.
pub open spec fn profile_names(profiles: Seq<(Seq<char>, Seq<char>)>, only_default: bool) -> Seq<Seq<char>>
    decreases profiles.len(),
{
    if profiles.len() == 0 {
        Seq::<Seq<char>>::empty()
    } else {
        let init = profile_names(profiles.drop_last(), only_default);
        if !only_default || contains_seq(profiles.last().1, ".default"@) {
            init.push(profiles.last().0)
        } else {
            init
        }
    }
}

fn append_profile_targets(v: &mut Vec<PathTarget>, base: BaseDir, root: &str, sep: char, name: &str, f: &BrowserCleanupFilter)
    ensures
        target_views(final(v)@) == target_views(old(v)@) + firefox_profile_targets(base, root@, sep, name@, filter_view(f)),
{
    let mut dir = owned(root);
    push_char(&mut dir, sep);
    push_str(&mut dir, name);
    let mut label = owned("Firefox (");
    push_str(&mut label, name);
    push_str(&mut label, ")");
    let ghost before = target_views(v@);
    if f.cache {
        append_target(v, base_copy(&base), dir.as_str(), sep, "cache2", label.as_str(), " — Cache");
    }
    if f.history {
        append_target(v, base_copy(&base), dir.as_str(), sep, "places.sqlite", label.as_str(), " — Historique");
    }
    if f.cookies {
        append_target(v, base_copy(&base), dir.as_str(), sep, "cookies.sqlite", label.as_str(), " — Cookies");
    }
    if f.sessions {
        append_target(v, base_copy(&base), dir.as_str(), sep, "sessionstore-backups", label.as_str(), " — Sessions");
    }
    assert(target_views(v@) =~= before + firefox_profile_targets(base, root@, sep, name@, filter_view(f)));
}

fn firefox_targets_exec(base: BaseDir, root: &str, sep: char, profiles: &Vec<(String, String)>, only_default: bool, f: &BrowserCleanupFilter) -> (r: Vec<PathTarget>)
    ensures
        target_views(r@) == firefox_targets(base, root@, sep, profile_names(pair_texts(profiles@), only_default), filter_view(f)),
{
    let ghost ps = pair_texts(profiles@);
    let marker = chars_of(".default");
    let mut v: Vec<PathTarget> = Vec::new();
    let mut i: usize = 0;
    while i < profiles.len()
        invariant
            i <= profiles@.len(),
            ps == pair_texts(profiles@),
            marker@ == ".default"@,
            target_views(v@) == firefox_targets(base, root@, sep, profile_names(ps.subrange(0, i as int), only_default), filter_view(f)),
        decreases profiles@.len() - i,
    {
        let ghost sub = ps.subrange(0, i + 1);
        assert(sub.drop_last() =~= ps.subrange(0, i as int));
        let full = chars_of(profiles[i].1.as_str());
        if !only_default || contains(full.as_slice(), marker.as_slice()) {
            let ghost names = profile_names(sub, only_default);
            assert(names.drop_last() =~= profile_names(ps.subrange(0, i as int), only_default));
            append_profile_targets(&mut v, base_copy(&base), root, sep, profiles[i].0.as_str(), f);
        }
        i = i + 1;
    }
    assert(ps.subrange(0, ps.len() as int) =~= ps);
    v
}

/// The files and folders a granular scan of a browser looks at.
pub open spec fn data_targets(p: Platform, browser: Seq<char>, f: FilterView, profiles: Seq<(Seq<char>, Seq<char>)>) -> Seq<TargetView> {
    match p {
        Platform::Windows => {
        if browser == "chrome"@ { standard_targets("Chrome"@, BaseDir::Local, "Google\\Chrome\\User Data\\Default"@, '\\', seq![TargetView { base: BaseDir::Local, rel: "Google\\Chrome\\User Data\\Default\\Cache\\Cache_Data"@, description: "Chrome — Cache"@ }, TargetView { base: BaseDir::Local, rel: "Google\\Chrome\\User Data\\Default\\Code Cache"@, description: "Chrome — Code Cache"@ }], f) } else         if browser == "edge"@ { standard_targets("Edge"@, BaseDir::Local, "Microsoft\\Edge\\User Data\\Default"@, '\\', seq![TargetView { base: BaseDir::Local, rel: "Microsoft\\Edge\\User Data\\Default\\Cache\\Cache_Data"@, description: "Edge — Cache"@ }, TargetView { base: BaseDir::Local, rel: "Microsoft\\Edge\\User Data\\Default\\Code Cache"@, description: "Edge — Code Cache"@ }], f) } else         if browser == "firefox"@ { firefox_targets(BaseDir::Roaming, "Mozilla\\Firefox\\Profiles"@, '\\', profile_names(profiles, false), f) } else         if browser == "brave"@ { standard_targets("Brave"@, BaseDir::Local, "BraveSoftware\\Brave-Browser\\User Data\\Default"@, '\\', seq![TargetView { base: BaseDir::Local, rel: "BraveSoftware\\Brave-Browser\\User Data\\Default\\Cache\\Cache_Data"@, description: "Brave — Cache"@ }], f) } else         if browser == "opera"@ { standard_targets("Opera"@, BaseDir::Local, "Opera Software\\Opera Stable"@, '\\', seq![TargetView { base: BaseDir::Local, rel: "Opera Software\\Opera Stable\\Cache\\Cache_Data"@, description: "Opera — Cache"@ }], f) } else         if browser == "opera_gx"@ { standard_targets("Opera GX"@, BaseDir::Local, "Opera Software\\Opera GX Stable"@, '\\', seq![TargetView { base: BaseDir::Local, rel: "Opera Software\\Opera GX Stable\\Cache\\Cache_Data"@, description: "Opera GX — Cache"@ }], f) } else { Seq::<TargetView>::empty() }
        },
        Platform::MacOs => {
        if browser == "chrome"@ { standard_targets("Chrome"@, BaseDir::Home, "Library/Application Support/Google/Chrome/Default"@, '/', seq![TargetView { base: BaseDir::Home, rel: "Library/Caches/Google/Chrome/Default/Cache"@, description: "Chrome — Cache"@ }], f) } else         if browser == "edge"@ { standard_targets("Edge"@, BaseDir::Home, "Library/Application Support/Microsoft Edge/Default"@, '/', seq![TargetView { base: BaseDir::Home, rel: "Library/Caches/com.microsoft.edgemac"@, description: "Edge — Cache"@ }], f) } else         if browser == "firefox"@ { firefox_targets(BaseDir::Home, "Library/Application Support/Firefox/Profiles"@, '/', profile_names(profiles, false), f) } else         if browser == "brave"@ { standard_targets("Brave"@, BaseDir::Home, "Library/Application Support/BraveSoftware/Brave-Browser/Default"@, '/', seq![TargetView { base: BaseDir::Home, rel: "Library/Caches/com.brave.Browser"@, description: "Brave — Cache"@ }], f) } else         if browser == "opera"@ { standard_targets("Opera"@, BaseDir::Home, "Library/Application Support/com.operasoftware.Opera"@, '/', seq![TargetView { base: BaseDir::Home, rel: "Library/Caches/com.operasoftware.Opera"@, description: "Opera — Cache"@ }], f) } else { Seq::<TargetView>::empty() }
        },
        Platform::Linux => {
        if browser == "chrome"@ { standard_targets("Chrome"@, BaseDir::Home, ".config/google-chrome/Default"@, '/', seq![TargetView { base: BaseDir::Home, rel: ".cache/google-chrome/Default/Cache"@, description: "Chrome — Cache"@ }], f) } else         if browser == "edge"@ { standard_targets("Edge"@, BaseDir::Home, ".config/microsoft-edge/Default"@, '/', seq![TargetView { base: BaseDir::Home, rel: ".cache/microsoft-edge/Default/Cache"@, description: "Edge — Cache"@ }], f) } else         if browser == "firefox"@ { firefox_targets(BaseDir::Home, ".mozilla/firefox"@, '/', profile_names(profiles, true), f) } else         if browser == "brave"@ { standard_targets("Brave"@, BaseDir::Home, ".config/BraveSoftware/Brave-Browser/Default"@, '/', seq![TargetView { base: BaseDir::Home, rel: ".cache/BraveSoftware/Brave-Browser/Default/Cache"@, description: "Brave — Cache"@ }], f) } else         if browser == "opera"@ { standard_targets("Opera"@, BaseDir::Home, ".config/opera"@, '/', seq![TargetView { base: BaseDir::Home, rel: ".cache/opera"@, description: "Opera — Cache"@ }], f) } else { Seq::<TargetView>::empty() }
        },
        Platform::Other => Seq::<TargetView>::empty(),
    }
}

/// The files and folders a granular scan of a browser looks at, given the
/// Firefox profile folders found (name and full path).
#[verifier::spinoff_prover]
pub fn get_browser_data_paths(p: &Platform, browser: &str, f: &BrowserCleanupFilter, profiles: &Vec<(String, String)>) -> (r: Vec<PathTarget>)
    ensures
        target_views(r@) == data_targets(*p, browser@, filter_view(f), pair_texts(profiles@)),
{
    let r = match p {
        Platform::Windows => {
        if text_eq(browser, "chrome") {
            let mut caches: Vec<PathTarget> = Vec::new();
            caches.push(target(BaseDir::Local, "Google\\Chrome\\User Data\\Default\\Cache\\Cache_Data", "Chrome — Cache"));
            caches.push(target(BaseDir::Local, "Google\\Chrome\\User Data\\Default\\Code Cache", "Chrome — Code Cache"));
            assert(target_views(caches@) =~= seq![TargetView { base: BaseDir::Local, rel: "Google\\Chrome\\User Data\\Default\\Cache\\Cache_Data"@, description: "Chrome — Cache"@ }, TargetView { base: BaseDir::Local, rel: "Google\\Chrome\\User Data\\Default\\Code Cache"@, description: "Chrome — Code Cache"@ }]);
            standard_targets_exec("Chrome", BaseDir::Local, "Google\\Chrome\\User Data\\Default", '\\', caches, f)
        } else         if text_eq(browser, "edge") {
            let mut caches: Vec<PathTarget> = Vec::new();
            caches.push(target(BaseDir::Local, "Microsoft\\Edge\\User Data\\Default\\Cache\\Cache_Data", "Edge — Cache"));
            caches.push(target(BaseDir::Local, "Microsoft\\Edge\\User Data\\Default\\Code Cache", "Edge — Code Cache"));
            assert(target_views(caches@) =~= seq![TargetView { base: BaseDir::Local, rel: "Microsoft\\Edge\\User Data\\Default\\Cache\\Cache_Data"@, description: "Edge — Cache"@ }, TargetView { base: BaseDir::Local, rel: "Microsoft\\Edge\\User Data\\Default\\Code Cache"@, description: "Edge — Code Cache"@ }]);
            standard_targets_exec("Edge", BaseDir::Local, "Microsoft\\Edge\\User Data\\Default", '\\', caches, f)
        } else         if text_eq(browser, "firefox") {
            firefox_targets_exec(BaseDir::Roaming, "Mozilla\\Firefox\\Profiles", '\\', profiles, false, f)
        } else         if text_eq(browser, "brave") {
            let mut caches: Vec<PathTarget> = Vec::new();
            caches.push(target(BaseDir::Local, "BraveSoftware\\Brave-Browser\\User Data\\Default\\Cache\\Cache_Data", "Brave — Cache"));
            assert(target_views(caches@) =~= seq![TargetView { base: BaseDir::Local, rel: "BraveSoftware\\Brave-Browser\\User Data\\Default\\Cache\\Cache_Data"@, description: "Brave — Cache"@ }]);
            standard_targets_exec("Brave", BaseDir::Local, "BraveSoftware\\Brave-Browser\\User Data\\Default", '\\', caches, f)
        } else         if text_eq(browser, "opera") {
            let mut caches: Vec<PathTarget> = Vec::new();
            caches.push(target(BaseDir::Local, "Opera Software\\Opera Stable\\Cache\\Cache_Data", "Opera — Cache"));
            assert(target_views(caches@) =~= seq![TargetView { base: BaseDir::Local, rel: "Opera Software\\Opera Stable\\Cache\\Cache_Data"@, description: "Opera — Cache"@ }]);
            standard_targets_exec("Opera", BaseDir::Local, "Opera Software\\Opera Stable", '\\', caches, f)
        } else         if text_eq(browser, "opera_gx") {
            let mut caches: Vec<PathTarget> = Vec::new();
            caches.push(target(BaseDir::Local, "Opera Software\\Opera GX Stable\\Cache\\Cache_Data", "Opera GX — Cache"));
            assert(target_views(caches@) =~= seq![TargetView { base: BaseDir::Local, rel: "Opera Software\\Opera GX Stable\\Cache\\Cache_Data"@, description: "Opera GX — Cache"@ }]);
            standard_targets_exec("Opera GX", BaseDir::Local, "Opera Software\\Opera GX Stable", '\\', caches, f)
        } else {
            Vec::new()
        }
        },
        Platform::MacOs => {
        if text_eq(browser, "chrome") {
            let mut caches: Vec<PathTarget> = Vec::new();
            caches.push(target(BaseDir::Home, "Library/Caches/Google/Chrome/Default/Cache", "Chrome — Cache"));
            assert(target_views(caches@) =~= seq![TargetView { base: BaseDir::Home, rel: "Library/Caches/Google/Chrome/Default/Cache"@, description: "Chrome — Cache"@ }]);
            standard_targets_exec("Chrome", BaseDir::Home, "Library/Application Support/Google/Chrome/Default", '/', caches, f)
        } else         if text_eq(browser, "edge") {
            let mut caches: Vec<PathTarget> = Vec::new();
            caches.push(target(BaseDir::Home, "Library/Caches/com.microsoft.edgemac", "Edge — Cache"));
            assert(target_views(caches@) =~= seq![TargetView { base: BaseDir::Home, rel: "Library/Caches/com.microsoft.edgemac"@, description: "Edge — Cache"@ }]);
            standard_targets_exec("Edge", BaseDir::Home, "Library/Application Support/Microsoft Edge/Default", '/', caches, f)
        } else         if text_eq(browser, "firefox") {
            firefox_targets_exec(BaseDir::Home, "Library/Application Support/Firefox/Profiles", '/', profiles, false, f)
        } else         if text_eq(browser, "brave") {
            let mut caches: Vec<PathTarget> = Vec::new();
            caches.push(target(BaseDir::Home, "Library/Caches/com.brave.Browser", "Brave — Cache"));
            assert(target_views(caches@) =~= seq![TargetView { base: BaseDir::Home, rel: "Library/Caches/com.brave.Browser"@, description: "Brave — Cache"@ }]);
            standard_targets_exec("Brave", BaseDir::Home, "Library/Application Support/BraveSoftware/Brave-Browser/Default", '/', caches, f)
        } else         if text_eq(browser, "opera") {
            let mut caches: Vec<PathTarget> = Vec::new();
            caches.push(target(BaseDir::Home, "Library/Caches/com.operasoftware.Opera", "Opera — Cache"));
            assert(target_views(caches@) =~= seq![TargetView { base: BaseDir::Home, rel: "Library/Caches/com.operasoftware.Opera"@, description: "Opera — Cache"@ }]);
            standard_targets_exec("Opera", BaseDir::Home, "Library/Application Support/com.operasoftware.Opera", '/', caches, f)
        } else {
            Vec::new()
        }
        },
        Platform::Linux => {
        if text_eq(browser, "chrome") {
            let mut caches: Vec<PathTarget> = Vec::new();
            caches.push(target(BaseDir::Home, ".cache/google-chrome/Default/Cache", "Chrome — Cache"));
            assert(target_views(caches@) =~= seq![TargetView { base: BaseDir::Home, rel: ".cache/google-chrome/Default/Cache"@, description: "Chrome — Cache"@ }]);
            standard_targets_exec("Chrome", BaseDir::Home, ".config/google-chrome/Default", '/', caches, f)
        } else         if text_eq(browser, "edge") {
            let mut caches: Vec<PathTarget> = Vec::new();
            caches.push(target(BaseDir::Home, ".cache/microsoft-edge/Default/Cache", "Edge — Cache"));
            assert(target_views(caches@) =~= seq![TargetView { base: BaseDir::Home, rel: ".cache/microsoft-edge/Default/Cache"@, description: "Edge — Cache"@ }]);
            standard_targets_exec("Edge", BaseDir::Home, ".config/microsoft-edge/Default", '/', caches, f)
        } else         if text_eq(browser, "firefox") {
            firefox_targets_exec(BaseDir::Home, ".mozilla/firefox", '/', profiles, true, f)
        } else         if text_eq(browser, "brave") {
            let mut caches: Vec<PathTarget> = Vec::new();
            caches.push(target(BaseDir::Home, ".cache/BraveSoftware/Brave-Browser/Default/Cache", "Brave — Cache"));
            assert(target_views(caches@) =~= seq![TargetView { base: BaseDir::Home, rel: ".cache/BraveSoftware/Brave-Browser/Default/Cache"@, description: "Brave — Cache"@ }]);
            standard_targets_exec("Brave", BaseDir::Home, ".config/BraveSoftware/Brave-Browser/Default", '/', caches, f)
        } else         if text_eq(browser, "opera") {
            let mut caches: Vec<PathTarget> = Vec::new();
            caches.push(target(BaseDir::Home, ".cache/opera", "Opera — Cache"));
            assert(target_views(caches@) =~= seq![TargetView { base: BaseDir::Home, rel: ".cache/opera"@, description: "Opera — Cache"@ }]);
            standard_targets_exec("Opera", BaseDir::Home, ".config/opera", '/', caches, f)
        } else {
            Vec::new()
        }
        },
        Platform::Other => Vec::new(),
    };
    proof { if target_views(r@).len() == 0 { assert(target_views(r@) =~= Seq::<TargetView>::empty()); } }
    r
}

/// The browser cache folders of the quick scan.
pub open spec fn cache_folders(p: Platform) -> Seq<TargetView> {
    match p {
        Platform::Windows => seq![TargetView { base: BaseDir::Local, rel: "Google\\Chrome\\User Data\\Default\\Cache\\Cache_Data"@, description: "Chrome Cache"@ }, TargetView { base: BaseDir::Local, rel: "Google\\Chrome\\User Data\\Default\\Code Cache"@, description: "Chrome Code Cache"@ }, TargetView { base: BaseDir::Local, rel: "Microsoft\\Edge\\User Data\\Default\\Cache\\Cache_Data"@, description: "Edge Cache"@ }, TargetView { base: BaseDir::Local, rel: "Microsoft\\Edge\\User Data\\Default\\Code Cache"@, description: "Edge Code Cache"@ }, TargetView { base: BaseDir::Local, rel: "BraveSoftware\\Brave-Browser\\User Data\\Default\\Cache\\Cache_Data"@, description: "Brave Cache"@ }, TargetView { base: BaseDir::Local, rel: "Mozilla\\Firefox\\Profiles"@, description: "Firefox Profiles Cache"@ }, TargetView { base: BaseDir::Local, rel: "Opera Software\\Opera Stable\\Cache\\Cache_Data"@, description: "Opera Cache"@ }, TargetView { base: BaseDir::Local, rel: "Opera Software\\Opera GX Stable\\Cache\\Cache_Data"@, description: "Opera GX Cache"@ }],
        Platform::MacOs => seq![TargetView { base: BaseDir::Home, rel: "Library/Caches/Google/Chrome/Default/Cache"@, description: "Chrome Cache"@ }, TargetView { base: BaseDir::Home, rel: "Library/Caches/com.microsoft.edgemac"@, description: "Edge Cache"@ }, TargetView { base: BaseDir::Home, rel: "Library/Caches/com.brave.Browser"@, description: "Brave Cache"@ }, TargetView { base: BaseDir::Home, rel: "Library/Caches/Firefox/Profiles"@, description: "Firefox Cache"@ }, TargetView { base: BaseDir::Home, rel: "Library/Caches/com.operasoftware.Opera"@, description: "Opera Cache"@ }],
        Platform::Linux => seq![TargetView { base: BaseDir::Home, rel: ".cache/google-chrome/Default/Cache"@, description: "Chrome Cache"@ }, TargetView { base: BaseDir::Home, rel: ".cache/microsoft-edge/Default/Cache"@, description: "Edge Cache"@ }, TargetView { base: BaseDir::Home, rel: ".cache/BraveSoftware/Brave-Browser/Default/Cache"@, description: "Brave Cache"@ }, TargetView { base: BaseDir::Home, rel: ".cache/mozilla/firefox"@, description: "Firefox Cache"@ }, TargetView { base: BaseDir::Home, rel: ".cache/opera"@, description: "Opera Cache"@ }],
        Platform::Other => Seq::<TargetView>::empty(),
    }
}

/// The browser cache folders the quick scan looks at.
pub fn browser_cache_folders(p: &Platform) -> (r: Vec<PathTarget>)
    ensures
        target_views(r@) == cache_folders(*p),
{
    let mut v: Vec<PathTarget> = Vec::new();
    match p {
        Platform::Windows => {
            v.push(target(BaseDir::Local, "Google\\Chrome\\User Data\\Default\\Cache\\Cache_Data", "Chrome Cache"));
            v.push(target(BaseDir::Local, "Google\\Chrome\\User Data\\Default\\Code Cache", "Chrome Code Cache"));
            v.push(target(BaseDir::Local, "Microsoft\\Edge\\User Data\\Default\\Cache\\Cache_Data", "Edge Cache"));
            v.push(target(BaseDir::Local, "Microsoft\\Edge\\User Data\\Default\\Code Cache", "Edge Code Cache"));
            v.push(target(BaseDir::Local, "BraveSoftware\\Brave-Browser\\User Data\\Default\\Cache\\Cache_Data", "Brave Cache"));
            v.push(target(BaseDir::Local, "Mozilla\\Firefox\\Profiles", "Firefox Profiles Cache"));
            v.push(target(BaseDir::Local, "Opera Software\\Opera Stable\\Cache\\Cache_Data", "Opera Cache"));
            v.push(target(BaseDir::Local, "Opera Software\\Opera GX Stable\\Cache\\Cache_Data", "Opera GX Cache"));
        },
        Platform::MacOs => {
            v.push(target(BaseDir::Home, "Library/Caches/Google/Chrome/Default/Cache", "Chrome Cache"));
            v.push(target(BaseDir::Home, "Library/Caches/com.microsoft.edgemac", "Edge Cache"));
            v.push(target(BaseDir::Home, "Library/Caches/com.brave.Browser", "Brave Cache"));
            v.push(target(BaseDir::Home, "Library/Caches/Firefox/Profiles", "Firefox Cache"));
            v.push(target(BaseDir::Home, "Library/Caches/com.operasoftware.Opera", "Opera Cache"));
        },
        Platform::Linux => {
            v.push(target(BaseDir::Home, ".cache/google-chrome/Default/Cache", "Chrome Cache"));
            v.push(target(BaseDir::Home, ".cache/microsoft-edge/Default/Cache", "Edge Cache"));
            v.push(target(BaseDir::Home, ".cache/BraveSoftware/Brave-Browser/Default/Cache", "Brave Cache"));
            v.push(target(BaseDir::Home, ".cache/mozilla/firefox", "Firefox Cache"));
            v.push(target(BaseDir::Home, ".cache/opera", "Opera Cache"));
        },
        Platform::Other => {},
    }
    assert(target_views(v@) =~= cache_folders(*p));
    v
}

/// The paths that show a browser is installed.
pub open spec fn install_markers(p: Platform, browser: Seq<char>) -> Seq<(BaseDir, Seq<char>)> {
    match p {
        Platform::Windows => if browser == "chrome"@ { seq![(BaseDir::Local, "Google\\Chrome\\User Data"@), (BaseDir::ProgramFiles, "Google\\Chrome\\Application\\chrome.exe"@), (BaseDir::ProgramFilesX86, "Google\\Chrome\\Application\\chrome.exe"@)] } else if browser == "edge"@ { seq![(BaseDir::Local, "Microsoft\\Edge\\User Data"@), (BaseDir::ProgramFiles, "Microsoft\\Edge\\Application\\msedge.exe"@), (BaseDir::ProgramFilesX86, "Microsoft\\Edge\\Application\\msedge.exe"@)] } else if browser == "firefox"@ { seq![(BaseDir::Roaming, "Mozilla\\Firefox\\Profiles"@), (BaseDir::ProgramFiles, "Mozilla Firefox\\firefox.exe"@), (BaseDir::ProgramFilesX86, "Mozilla Firefox\\firefox.exe"@)] } else if browser == "brave"@ { seq![(BaseDir::Local, "BraveSoftware\\Brave-Browser\\User Data"@), (BaseDir::ProgramFiles, "BraveSoftware\\Brave-Browser\\Application\\brave.exe"@)] } else if browser == "opera"@ { seq![(BaseDir::Local, "Opera Software\\Opera Stable"@), (BaseDir::ProgramFiles, "Opera\\opera.exe"@)] } else if browser == "opera_gx"@ { seq![(BaseDir::Local, "Opera Software\\Opera GX Stable"@)] } else { Seq::<(BaseDir, Seq<char>)>::empty() },
        Platform::MacOs => if browser == "chrome"@ { seq![(BaseDir::Root, "/Applications/Google Chrome.app"@), (BaseDir::Home, "Library/Application Support/Google/Chrome"@)] } else if browser == "edge"@ { seq![(BaseDir::Root, "/Applications/Microsoft Edge.app"@), (BaseDir::Home, "Library/Application Support/Microsoft Edge"@)] } else if browser == "firefox"@ { seq![(BaseDir::Root, "/Applications/Firefox.app"@), (BaseDir::Home, "Library/Application Support/Firefox/Profiles"@)] } else if browser == "brave"@ { seq![(BaseDir::Root, "/Applications/Brave Browser.app"@), (BaseDir::Home, "Library/Application Support/BraveSoftware/Brave-Browser"@)] } else if browser == "opera"@ { seq![(BaseDir::Root, "/Applications/Opera.app"@), (BaseDir::Home, "Library/Application Support/com.operasoftware.Opera"@)] } else if browser == "opera_gx"@ { seq![(BaseDir::Root, "/Applications/Opera GX.app"@)] } else { Seq::<(BaseDir, Seq<char>)>::empty() },
        Platform::Linux => if browser == "chrome"@ { seq![(BaseDir::Root, "/usr/bin/google-chrome"@), (BaseDir::Root, "/usr/bin/google-chrome-stable"@), (BaseDir::Home, ".config/google-chrome"@)] } else if browser == "edge"@ { seq![(BaseDir::Root, "/usr/bin/microsoft-edge"@), (BaseDir::Home, ".config/microsoft-edge"@)] } else if browser == "firefox"@ { seq![(BaseDir::Root, "/usr/bin/firefox"@), (BaseDir::Home, ".mozilla/firefox"@)] } else if browser == "brave"@ { seq![(BaseDir::Root, "/usr/bin/brave-browser"@), (BaseDir::Home, ".config/BraveSoftware/Brave-Browser"@)] } else if browser == "opera"@ { seq![(BaseDir::Root, "/usr/bin/opera"@), (BaseDir::Home, ".config/opera"@)] } else if browser == "opera_gx"@ { seq![] } else { Seq::<(BaseDir, Seq<char>)>::empty() },
        Platform::Other => Seq::<(BaseDir, Seq<char>)>::empty(),
    }
}

/// The paths whose presence shows that a browser is installed: it is taken
/// as installed when any of them exists.
#[verifier::spinoff_prover]
pub fn browser_install_markers(p: &Platform, browser: &str) -> (r: Vec<(BaseDir, String)>)
    ensures
        marker_views(r@) == install_markers(*p, browser@),
{
    let mut v: Vec<(BaseDir, String)> = Vec::new();
    match p {
        Platform::Windows => {
            if text_eq(browser, "chrome") {
                v.push((BaseDir::Local, owned("Google\\Chrome\\User Data")));
                v.push((BaseDir::ProgramFiles, owned("Google\\Chrome\\Application\\chrome.exe")));
                v.push((BaseDir::ProgramFilesX86, owned("Google\\Chrome\\Application\\chrome.exe")));
            } else if text_eq(browser, "edge") {
                v.push((BaseDir::Local, owned("Microsoft\\Edge\\User Data")));
                v.push((BaseDir::ProgramFiles, owned("Microsoft\\Edge\\Application\\msedge.exe")));
                v.push((BaseDir::ProgramFilesX86, owned("Microsoft\\Edge\\Application\\msedge.exe")));
            } else if text_eq(browser, "firefox") {
                v.push((BaseDir::Roaming, owned("Mozilla\\Firefox\\Profiles")));
                v.push((BaseDir::ProgramFiles, owned("Mozilla Firefox\\firefox.exe")));
                v.push((BaseDir::ProgramFilesX86, owned("Mozilla Firefox\\firefox.exe")));
            } else if text_eq(browser, "brave") {
                v.push((BaseDir::Local, owned("BraveSoftware\\Brave-Browser\\User Data")));
                v.push((BaseDir::ProgramFiles, owned("BraveSoftware\\Brave-Browser\\Application\\brave.exe")));
            } else if text_eq(browser, "opera") {
                v.push((BaseDir::Local, owned("Opera Software\\Opera Stable")));
                v.push((BaseDir::ProgramFiles, owned("Opera\\opera.exe")));
            } else if text_eq(browser, "opera_gx") {
                v.push((BaseDir::Local, owned("Opera Software\\Opera GX Stable")));
            }
        },
        Platform::MacOs => {
            if text_eq(browser, "chrome") {
                v.push((BaseDir::Root, owned("/Applications/Google Chrome.app")));
                v.push((BaseDir::Home, owned("Library/Application Support/Google/Chrome")));
            } else if text_eq(browser, "edge") {
                v.push((BaseDir::Root, owned("/Applications/Microsoft Edge.app")));
                v.push((BaseDir::Home, owned("Library/Application Support/Microsoft Edge")));
            } else if text_eq(browser, "firefox") {
                v.push((BaseDir::Root, owned("/Applications/Firefox.app")));
                v.push((BaseDir::Home, owned("Library/Application Support/Firefox/Profiles")));
            } else if text_eq(browser, "brave") {
                v.push((BaseDir::Root, owned("/Applications/Brave Browser.app")));
                v.push((BaseDir::Home, owned("Library/Application Support/BraveSoftware/Brave-Browser")));
            } else if text_eq(browser, "opera") {
                v.push((BaseDir::Root, owned("/Applications/Opera.app")));
                v.push((BaseDir::Home, owned("Library/Application Support/com.operasoftware.Opera")));
            } else if text_eq(browser, "opera_gx") {
                v.push((BaseDir::Root, owned("/Applications/Opera GX.app")));
            }
        },
        Platform::Linux => {
            if text_eq(browser, "chrome") {
                v.push((BaseDir::Root, owned("/usr/bin/google-chrome")));
                v.push((BaseDir::Root, owned("/usr/bin/google-chrome-stable")));
                v.push((BaseDir::Home, owned(".config/google-chrome")));
            } else if text_eq(browser, "edge") {
                v.push((BaseDir::Root, owned("/usr/bin/microsoft-edge")));
                v.push((BaseDir::Home, owned(".config/microsoft-edge")));
            } else if text_eq(browser, "firefox") {
                v.push((BaseDir::Root, owned("/usr/bin/firefox")));
                v.push((BaseDir::Home, owned(".mozilla/firefox")));
            } else if text_eq(browser, "brave") {
                v.push((BaseDir::Root, owned("/usr/bin/brave-browser")));
                v.push((BaseDir::Home, owned(".config/BraveSoftware/Brave-Browser")));
            } else if text_eq(browser, "opera") {
                v.push((BaseDir::Root, owned("/usr/bin/opera")));
                v.push((BaseDir::Home, owned(".config/opera")));
            } else if text_eq(browser, "opera_gx") {

            }
        },
        Platform::Other => {},
    }
    assert(marker_views(v@) =~= install_markers(*p, browser@));
    v
}

/// For each browser: its key, the process name to end, and its label.
pub open spec fn kill_table(p: Platform) -> Seq<(Seq<char>, Seq<char>, Seq<char>)> {
    match p {
        Platform::Windows => seq![("chrome"@, "chrome.exe"@, "Chrome"@), ("edge"@, "msedge.exe"@, "Edge"@), ("firefox"@, "firefox.exe"@, "Firefox"@), ("brave"@, "brave.exe"@, "Brave"@), ("opera"@, "opera.exe"@, "Opera"@), ("opera_gx"@, "opera.exe"@, "Opera GX"@)],
        Platform::MacOs => seq![("chrome"@, "Google Chrome"@, "Chrome"@), ("edge"@, "Microsoft Edge"@, "Edge"@), ("firefox"@, "firefox"@, "Firefox"@), ("brave"@, "Brave Browser"@, "Brave"@), ("opera"@, "Opera"@, "Opera"@), ("opera_gx"@, "Opera"@, "Opera GX"@)],
        Platform::Linux => seq![("chrome"@, "chrome"@, "Chrome"@), ("edge"@, "msedge"@, "Edge"@), ("firefox"@, "firefox"@, "Firefox"@), ("brave"@, "brave"@, "Brave"@), ("opera"@, "opera"@, "Opera"@), ("opera_gx"@, "opera"@, "Opera GX"@)],
        Platform::Other => Seq::<(Seq<char>, Seq<char>, Seq<char>)>::empty(),
    }
}

fn kill_table_exec(p: &Platform) -> (r: Vec<(String, String, String)>)
    ensures
        triple_texts(r@) == kill_table(*p),
{
    let mut v: Vec<(String, String, String)> = Vec::new();
    match p {
        Platform::Windows => {
            v.push((owned("chrome"), owned("chrome.exe"), owned("Chrome")));
            v.push((owned("edge"), owned("msedge.exe"), owned("Edge")));
            v.push((owned("firefox"), owned("firefox.exe"), owned("Firefox")));
            v.push((owned("brave"), owned("brave.exe"), owned("Brave")));
            v.push((owned("opera"), owned("opera.exe"), owned("Opera")));
            v.push((owned("opera_gx"), owned("opera.exe"), owned("Opera GX")));
        },
        Platform::MacOs => {
            v.push((owned("chrome"), owned("Google Chrome"), owned("Chrome")));
            v.push((owned("edge"), owned("Microsoft Edge"), owned("Edge")));
            v.push((owned("firefox"), owned("firefox"), owned("Firefox")));
            v.push((owned("brave"), owned("Brave Browser"), owned("Brave")));
            v.push((owned("opera"), owned("Opera"), owned("Opera")));
            v.push((owned("opera_gx"), owned("Opera"), owned("Opera GX")));
        },
        Platform::Linux => {
            v.push((owned("chrome"), owned("chrome"), owned("Chrome")));
            v.push((owned("edge"), owned("msedge"), owned("Edge")));
            v.push((owned("firefox"), owned("firefox"), owned("Firefox")));
            v.push((owned("brave"), owned("brave"), owned("Brave")));
            v.push((owned("opera"), owned("opera"), owned("Opera")));
            v.push((owned("opera_gx"), owned("opera"), owned("Opera GX")));
        },
        Platform::Other => {},
    }
    assert(triple_texts(v@) =~= kill_table(*p));
    v
}

/// The browsers the application knows, in the order they are listed.
pub open spec fn known_browsers() -> Seq<Seq<char>> {
    seq!["chrome"@, "edge"@, "firefox"@, "brave"@, "opera"@, "opera_gx"@]
}

/// The browsers found installed, given for each
/// known browser, in order, whether one of its markers exists.
pub fn detect_installed_browsers(installed: &Vec<bool>) -> (r: Vec<String>)
    requires
        installed@.len() == known_browsers().len(),
    ensures
        r@.map_values(|s: String| s@) == crate::text::filter_map(
            known_browsers().zip_with(installed@),
            |e: (Seq<char>, bool)| if e.1 { Some(e.0) } else { None },
        ),
{
    let names = ["chrome", "edge", "firefox", "brave", "opera", "opera_gx"];
    let ghost z = known_browsers().zip_with(installed@);
    let mut r: Vec<String> = Vec::new();
    let mut i: usize = 0;
    assert(names@.map_values(|n: &str| n@) =~= known_browsers());
    while i < 6
        invariant
            i <= 6,
            installed@.len() == 6,
            names@.len() == 6,
            names@.map_values(|n: &str| n@) == known_browsers(),
            z == known_browsers().zip_with(installed@),
            r@.map_values(|s: String| s@) == crate::text::filter_map(
                z.subrange(0, i as int),
                |e: (Seq<char>, bool)| if e.1 { Some(e.0) } else { None },
            ),
        decreases 6 - i,
    {
        assert(z.subrange(0, i + 1).drop_last() =~= z.subrange(0, i as int));
        assert(z[i as int] == (names@[i as int]@, installed@[i as int]));
        if installed[i] {
            r.push(owned(names[i]));
            assert(r@.map_values(|s: String| s@) =~= crate::text::filter_map(
                z.subrange(0, i + 1),
                |e: (Seq<char>, bool)| if e.1 { Some(e.0) } else { None },
            ));
        }
        i = i + 1;
    }
    assert(z.subrange(0, 6) =~= z);
    r
}

/// The command that closes a browser's processes.
pub open spec fn kill_command_of(p: Platform, process: Seq<char>) -> CommandView {
    match p {
        Platform::Windows => CommandView { program: "taskkill"@, args: seq!["/F"@, "/IM"@, process] },
        _ => CommandView { program: "pkill"@, args: seq!["-f"@, process] },
    }
}

/// One browser to close: the command, and the line reported when it succeeds.
pub struct KillStep {
    pub command: ShellCommand,
    pub closed_line: String,
}

/// The browsers to close, in the table's order, among those asked for.
pub open spec fn kill_steps(p: Platform, asked: Seq<Seq<char>>) -> Seq<(CommandView, Seq<char>)> {
    crate::text::filter_map(
        kill_table(p),
        |t: (Seq<char>, Seq<char>, Seq<char>)|
            if asked.contains(t.0) {
                Some((kill_command_of(p, t.1), t.2 + " fermé"@))
            } else {
                None
            },
    )
}

fn asked_for(asked: &Vec<String>, key: &str) -> (b: bool)
    ensures
        b == asked@.map_values(|s: String| s@).contains(key@),
{
    let ghost av = asked@.map_values(|s: String| s@);
    let mut i: usize = 0;
    while i < asked.len()
        invariant
            i <= asked@.len(),
            av == asked@.map_values(|s: String| s@),
            forall|j: int| 0 <= j < i ==> av[j] != key@,
        decreases asked@.len() - i,
    {
        if text_eq(asked[i].as_str(), key) {
            assert(av[i as int] == key@);
            return true;
        }
        i = i + 1;
    }
    false
}

/// Plans the closing of the browsers asked for:
/// the command for each, and the line reported when it succeeds.
pub fn kill_browser_processes(p: &Platform, asked: &Vec<String>) -> (r: Vec<KillStep>)
    ensures
        r@.map_values(|k: KillStep| (k.command@, k.closed_line@)) == kill_steps(*p, asked@.map_values(|s: String| s@)),
{
    let table = kill_table_exec(p);
    let ghost tv = triple_texts(table@);
    let ghost av = asked@.map_values(|s: String| s@);
    let mut r: Vec<KillStep> = Vec::new();
    let mut i: usize = 0;
    while i < table.len()
        invariant
            i <= table@.len(),
            tv == triple_texts(table@),
            tv == kill_table(*p),
            av == asked@.map_values(|s: String| s@),
            r@.map_values(|k: KillStep| (k.command@, k.closed_line@)) == crate::text::filter_map(
                tv.subrange(0, i as int),
                |t: (Seq<char>, Seq<char>, Seq<char>)|
                    if av.contains(t.0) {
                        Some((kill_command_of(*p, t.1), t.2 + " fermé"@))
                    } else {
                        None
                    },
            ),
        decreases table@.len() - i,
    {
        assert(tv.subrange(0, i + 1).drop_last() =~= tv.subrange(0, i as int));
        let (key, process, label) = (&table[i].0, &table[i].1, &table[i].2);
        if asked_for(asked, key.as_str()) {
            let command = match p {
                Platform::Windows => command3("taskkill", owned("/F"), owned("/IM"), process.clone()),
                _ => command2("pkill", owned("-f"), process.clone()),
            };
            let mut line = label.clone();
            push_str(&mut line, " fermé");
            let ghost r0 = r@.map_values(|k: KillStep| (k.command@, k.closed_line@));
            r.push(KillStep { command, closed_line: line });
            assert(r@.map_values(|k: KillStep| (k.command@, k.closed_line@)) =~= r0.push(
                (kill_command_of(*p, tv[i as int].1), tv[i as int].2 + " fermé"@),
            ));
        }
        i = i + 1;
    }
    assert(tv.subrange(0, tv.len() as int) =~= tv);
    r
}

} // verus!
