use aura_update::browsers::{
    browser_cache_folders, browser_install_markers, detect_installed_browsers,
    get_browser_data_paths, kill_browser_processes, target, BaseDir, BrowserCleanupFilter,
};
use aura_update::maintenance::Platform;

fn filter(browser: &str, cache: bool, history: bool, cookies: bool, sessions: bool) -> BrowserCleanupFilter {
    BrowserCleanupFilter { browser: browser.into(), cache, history, cookies, sessions }
}

#[test]
fn chrome_on_windows_history_and_cookies() {
    let f = filter("chrome", false, true, true, false);
    let r = get_browser_data_paths(&Platform::Windows, "chrome", &f, &vec![]);
    assert_eq!(r.len(), 2);
    assert!(matches!(r[0].base, BaseDir::Local));
    assert_eq!(r[0].rel, "Google\\Chrome\\User Data\\Default\\History");
    assert_eq!(r[0].description, "Chrome — Historique");
    assert_eq!(r[1].rel, "Google\\Chrome\\User Data\\Default\\Cookies");
}

#[test]
fn chrome_cache_has_two_folders() {
    let f = filter("chrome", true, false, false, false);
    let r = get_browser_data_paths(&Platform::Linux, "chrome", &f, &vec![]);
    assert_eq!(r.len(), 1);
    assert_eq!(r[0].rel, ".cache/google-chrome/Default/Cache");
    let w = get_browser_data_paths(&Platform::Windows, "chrome", &f, &vec![]);
    assert_eq!(w.len(), 2);
    assert_eq!(w[1].description, "Chrome — Code Cache");
}

#[test]
fn firefox_profiles() {
    let f = filter("firefox", true, false, false, true);
    let profiles = vec![
        ("abc.default-release".to_string(), "/home/u/.mozilla/firefox/abc.default-release".to_string()),
        ("xyz.other".to_string(), "/home/u/.mozilla/firefox/xyz.other".to_string()),
    ];
    let l = get_browser_data_paths(&Platform::Linux, "firefox", &f, &profiles);
    assert_eq!(l.len(), 2);
    assert_eq!(l[0].rel, ".mozilla/firefox/abc.default-release/cache2");
    assert_eq!(l[0].description, "Firefox (abc.default-release) — Cache");
    assert_eq!(l[1].rel, ".mozilla/firefox/abc.default-release/sessionstore-backups");
    let w = get_browser_data_paths(&Platform::Windows, "firefox", &f, &profiles);
    assert_eq!(w.len(), 4);
    assert_eq!(w[2].rel, "Mozilla\\Firefox\\Profiles\\xyz.other\\cache2");
}

#[test]
fn unknown_browser_has_no_paths() {
    let f = filter("netscape", true, true, true, true);
    assert!(get_browser_data_paths(&Platform::Windows, "netscape", &f, &vec![]).is_empty());
    assert!(get_browser_data_paths(&Platform::MacOs, "opera_gx", &f, &vec![]).is_empty());
}

#[test]
fn quick_scan_and_markers() {
    assert_eq!(browser_cache_folders(&Platform::Windows).len(), 8);
    assert_eq!(browser_cache_folders(&Platform::MacOs)[3].rel, "Library/Caches/Firefox/Profiles");
    assert!(browser_cache_folders(&Platform::Other).is_empty());
    let m = browser_install_markers(&Platform::Linux, "chrome");
    assert_eq!(m.len(), 3);
    assert_eq!(m[0].1, "/usr/bin/google-chrome");
    assert!(browser_install_markers(&Platform::Linux, "opera_gx").is_empty());
    let t = target(BaseDir::Home, ".cache", "Cache");
    assert_eq!(t.rel, ".cache");
}

#[test]
fn installed_browsers_in_known_order() {
    let r = detect_installed_browsers(&vec![true, false, true, false, false, true]);
    assert_eq!(r, vec!["chrome", "firefox", "opera_gx"]);
}

#[test]
fn closing_browsers() {
    let asked = vec!["firefox".to_string(), "chrome".to_string(), "safari".to_string()];
    let w = kill_browser_processes(&Platform::Windows, &asked);
    assert_eq!(w.len(), 2);
    assert_eq!(w[0].command.program, "taskkill");
    assert_eq!(w[0].command.args, vec!["/F", "/IM", "chrome.exe"]);
    assert_eq!(w[0].closed_line, "Chrome fermé");
    assert_eq!(w[1].closed_line, "Firefox fermé");
    let m = kill_browser_processes(&Platform::MacOs, &vec!["chrome".to_string()]);
    assert_eq!(m[0].command.program, "pkill");
    assert_eq!(m[0].command.args, vec!["-f", "Google Chrome"]);
}
