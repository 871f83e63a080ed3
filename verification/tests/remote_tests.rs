use aura_update::maintenance::Platform;
use aura_update::remote::{
    action_name, first_free_port, generate_token, is_authorized, power_command, query_token_exec,
    refusal, remote_health_score, remote_info, remote_status, remote_url, reply, route,
    screenshot_jpeg, token_from,
    windows_screenshot_script, RemoteAction, RemoteServer, Reply, Route,
};

#[test]
fn tokens_are_32_alphanumerics_and_fresh() {
    let a = generate_token();
    let b = generate_token();
    assert_eq!(a.chars().count(), 32);
    assert!(a.chars().all(|c| c.is_ascii_alphanumeric()));
    assert_ne!(a, b);
}

#[test]
fn dashboard_url_and_qr() {
    assert_eq!(remote_url("192.168.1.20", 3500, "abc"), "http://192.168.1.20:3500/?t=abc");
    let info = remote_info("10.0.0.2", 3501, "tok").ok().unwrap();
    assert_eq!(info.url, "http://10.0.0.2:3501/?t=tok");
    assert_eq!(info.port, 3501);
    assert!(info.qr_svg.starts_with("<?xml version=\"1.0\" standalone=\"yes\"?><svg"));
    assert!(info.qr_svg.contains("#58a6ff"));
    assert!(info.qr_svg.ends_with("\"/></svg>"));
}

#[test]
fn too_long_address_cannot_be_encoded() {
    let token = "x".repeat(8000);
    let r = remote_info("1.2.3.4", 3500, &token);
    assert_eq!(r.err(), Some("data too long".to_string()));
}

#[test]
fn token_in_query() {
    assert_eq!(query_token_exec("a=1&t=secret&b=2"), Some("secret".to_string()));
    assert_eq!(query_token_exec("t"), None);
    assert_eq!(query_token_exec(""), None);
    assert_eq!(query_token_exec("t=&t=x"), Some("".to_string()));
}

#[test]
fn token_grants_access() {
    assert!(is_authorized(Some("k"), Some("k"), ""));
    assert!(is_authorized(Some("k"), Some(" Bearer k "), ""));
    assert!(is_authorized(Some("k"), None, "t=k"));
    assert!(!is_authorized(Some("k"), Some("Bearer x"), "t=y"));
    assert!(!is_authorized(None, Some("k"), "t=k"));
}

#[test]
fn stopped_server_refuses() {
    let mut s = RemoteServer::new();
    assert!(!s.start(3500, "tok".into(), "en".into()));
    assert!(s.allows(None, "t=tok"));
    assert_eq!(s.language(), "en");
    assert!(s.start(3501, "tok2".into(), "fr".into()));
    assert!(!s.allows(None, "t=tok"));
    s.stop();
    assert!(s.port.is_none());
    assert!(!s.allows(Some("tok2"), "t=tok2"));
    assert_eq!(RemoteServer::new().language(), "fr");
}

#[test]
fn status_and_score() {
    let s = remote_status(Some(3500), Some("192.168.0.3"));
    assert!(s.running);
    assert_eq!(s.url, "http://192.168.0.3:3500");
    let n = remote_status(None, Some("x"));
    assert!(!n.running);
    assert_eq!(n.port, 0);
    assert_eq!(n.url, "");
    assert_eq!(remote_health_score(Some(80), 50), 80);
    assert_eq!(remote_health_score(None, 50), 50);
}

#[test]
fn routes_and_replies() {
    assert!(matches!(route("GET", "/"), Route::Page));
    assert!(matches!(route("GET", "/api/state"), Route::State));
    assert!(matches!(route("POST", "/api/action/lock"), Route::Action { action: RemoteAction::Lock }));
    assert!(matches!(route("GET", "/api/action/lock"), Route::NotFound));
    assert!(matches!(reply(route("GET", "/"), false), Reply::Serve { route: Route::Page }));
    assert!(matches!(reply(route("GET", "/api/state"), false), Reply::Forbidden));
    assert!(matches!(reply(route("GET", "/api/state"), true), Reply::Serve { route: Route::State }));
    assert!(matches!(reply(route("GET", "/nope"), true), Reply::NotFound));
    assert_eq!(refusal(true), (403, "unauthorized".to_string()));
    assert_eq!(refusal(false), (404, "not found".to_string()));
    assert_eq!(action_name(&RemoteAction::CoolBoost), "coolboost");
}

#[test]
fn power_commands() {
    let c = power_command(&RemoteAction::Shutdown, &Platform::Windows).unwrap();
    assert_eq!(c.program, "shutdown");
    assert_eq!(c.args, vec!["/s", "/t", "60", "/c", "Aura Update — Shutdown in 60s"]);
    let l = power_command(&RemoteAction::Lock, &Platform::Linux).unwrap();
    assert_eq!(l.program, "loginctl");
    assert!(power_command(&RemoteAction::Turbo, &Platform::Linux).is_none());
    assert!(power_command(&RemoteAction::Sleep, &Platform::Other).is_none());
}

#[test]
fn screenshot_script_and_ports() {
    let s = windows_screenshot_script("C:\\Users\\O'Neil\\shot.png");
    assert!(s.contains("$b.Save('C:\\Users\\O''Neil\\shot.png')"));
    assert_eq!(first_free_port(&vec![false, false, true, true]), Some(3502));
    assert_eq!(first_free_port(&vec![false; 100]), None);
}

#[test]
fn token_is_made_of_the_drawn_characters() {
    let draws: Vec<char> = "abcdefghijklmnopqrstuvwxyzABCDEF".chars().collect();
    assert_eq!(token_from(&draws), "abcdefghijklmnopqrstuvwxyzABCDEF");
}

#[test]
fn qr_code_depends_on_the_address() {
    let a = remote_info("10.0.0.2", 3501, "tok").ok().unwrap();
    let b = remote_info("10.0.0.3", 3501, "tok").ok().unwrap();
    assert_ne!(a.qr_svg, b.qr_svg);
    assert!(a.qr_svg.contains("fill=\"#121212\""));
    let long = "x".repeat(5000);
    assert_eq!(remote_info("10.0.0.2", 3501, &long).err(), Some("data too long".to_string()));
}

#[test]
fn screenshots_are_scaled_into_800_by_600_jpeg() {
    let img = image::RgbImage::from_pixel(1600, 1000, image::Rgb([10, 20, 30]));
    let mut png = std::io::Cursor::new(Vec::new());
    image::DynamicImage::ImageRgb8(img).write_to(&mut png, image::ImageFormat::Png).unwrap();
    let jpeg = screenshot_jpeg(png.get_ref()).unwrap();
    assert_eq!(&jpeg[..2], &[0xFF, 0xD8]);
    let back = image::load_from_memory_with_format(&jpeg, image::ImageFormat::Jpeg).unwrap();
    assert_eq!((back.width(), back.height()), (800, 500));
    assert!(screenshot_jpeg(b"not a png").is_err());
}
