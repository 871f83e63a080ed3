//! The remote dashboard: its address and access token, who may use it,
//! the server's state, which request goes where, and the commands its power
//! buttons run.
use rand::Rng;
use vstd::prelude::*;

use crate::maintenance::Platform;
use crate::shell::{command1, command2, CommandView, ShellCommand};
use crate::text::{
    after_char, before_char, chars_of, find_seq, occurs_at, owned, push_char, push_decimal,
    push_str, split_at_char, split_char, split_once, text_eq, trim, trim_chars,
};

verus! {

/// Where the dashboard can be reached, and its QR code.
pub struct RemoteInfo {
    pub url: String,
    pub qr_svg: String,
    pub port: u16,
}

/// Whether the dashboard runs, and where.
pub struct RemoteStatus {
    pub running: bool,
    pub url: String,
    pub port: u16,
}

/// A character of an access token: an ASCII letter or digit.
pub open spec fn is_token_char(c: char) -> bool {
    ('a' <= c && c <= 'z') || ('A' <= c && c <= 'Z') || ('0' <= c && c <= '9')
}

/// Length of an access token.
pub open spec fn token_len() -> nat {
    32
}

/// A random ASCII letter or digit (`rand::distributions::Alphanumeric`
/// sampled from `rand::thread_rng()`); the crate documents its samples as
/// uniform over `a-z`, `A-Z` and `0-9`.
#[verifier::external_body]
fn random_alphanumeric() -> (c: char)
    ensures
        is_token_char(c),
{
    char::from(rand::thread_rng().sample(rand::distributions::Alphanumeric))
}

/// The token made of 32 drawn characters: those characters, in the order
/// they were drawn.
pub fn token_from(draws: &[char]) -> (t: String)
    requires
        draws@.len() == token_len(),
        forall|i: int| 0 <= i < draws@.len() ==> is_token_char(#[trigger] draws@[i]),
    ensures
        t@ == draws@,
{
    crate::text::string_of(draws)
}

/// A fresh access token: 32 random ASCII letters or digits,
/// drawn one by one and kept in order (`token_from`).
pub fn generate_token() -> (t: String)
    ensures
        t@.len() == token_len(),
        forall|i: int| 0 <= i < t@.len() ==> is_token_char(#[trigger] t@[i]),
{
    let mut draws: Vec<char> = Vec::new();
    let mut i: usize = 0;
    while i < 32
        invariant
            i <= 32,
            draws@.len() == i,
            forall|k: int| 0 <= k < draws@.len() ==> is_token_char(#[trigger] draws@[k]),
        decreases 32 - i,
    {
        let c = random_alphanumeric();
        draws.push(c);
        i = i + 1;
    }
    token_from(draws.as_slice())
}

/// The dashboard's address: the machine's address, the port, and the token
/// as the query parameter `t`.
pub open spec fn remote_url_of(ip: Seq<char>, port: u16, token: Seq<char>) -> Seq<char> {
    "http://"@ + ip + seq![':'] + crate::text::decimal(port as nat) + "/?t="@ + token
}

/// Builds the dashboard's address.
pub fn remote_url(ip: &str, port: u16, token: &str) -> (r: String)
    ensures
        r@ == remote_url_of(ip@, port, token@),
{
    let mut r = owned("http://");
    push_str(&mut r, ip);
    push_char(&mut r, ':');
    push_decimal(&mut r, port as u64);
    push_str(&mut r, "/?t=");
    push_str(&mut r, token);
    proof {
        reveal_strlit("/?t=");
    }
    assert(r@ =~= remote_url_of(ip@, port, token@));
    r
}

// ─────────────────────────────── QR code ──────────────────────────────────

/// Why a QR code could not be built.
#[verifier::external_type_specification]
#[verifier::external_body]
pub struct ExQrError(qrcode::types::QrError);

/// Whether `qrcode::QrCode::new` can encode these bytes (medium error
/// correction, in the smallest version that holds them); it fails when the
/// data is too long for any version.
pub uninterp spec fn qr_encodes(data: Seq<u8>) -> bool;

/// The messages of the QR encoder's errors, as its `Display` writes them.
pub open spec fn qr_error_message(m: Seq<char>) -> bool {
    ||| m == "data too long"@
    ||| m == "invalid version"@
    ||| m == "unsupported character set"@
    ||| m == "invalid ECI designator"@
    ||| m == "invalid character"@
}

/// The text of a QR code error (`Display` of `qrcode::types::QrError`): one
/// of the five messages of its variants; which one is not stated, the error
/// being opaque here.
#[verifier::external_body]
fn qr_error_text(e: &qrcode::types::QrError) -> (r: String)
    ensures
        qr_error_message(r@),
{
    e.to_string()
}

/// The head of every SVG document that `qrcode`'s SVG renderer writes.
pub open spec fn svg_head() -> Seq<char> {
    "<?xml version=\"1.0\" standalone=\"yes\"?><svg xmlns=\"http://www.w3.org/2000/svg\" version=\"1.1\" width=\""@
}

/// The SVG document of the QR code of these bytes, rendered at least
/// `min_size` pixels square with dark modules of colour `dark` on `light`
/// (`qrcode::QrCode::new`, then `render` with `qrcode::render::svg::Color`);
/// it depends on these arguments alone.
pub uninterp spec fn qr_svg_of(data: Seq<u8>, min_size: u32, dark: Seq<char>, light: Seq<char>) -> Seq<char>;

/// Encodes bytes as a QR code and renders it as SVG (`qrcode::QrCode::new`,
/// then `render::<qrcode::render::svg::Color>()` with `min_dimensions`,
/// `dark_color`, `light_color` and `build`). The contract states when the
/// encoding succeeds (`qr_encodes`), names the document (`qr_svg_of`), and
/// states its head and its end, which the renderer writes for every code; the
/// modules drawn between them are not stated. The size is bounded so that the
/// renderer's size arithmetic stays within `u32`.
#[verifier::external_body]
fn qr_svg(data: &[u8], min_size: u32, dark: &str, light: &str) -> (r: Result<String, qrcode::types::QrError>)
    requires
        min_size <= 1_000_000,
    ensures
        r is Ok <==> qr_encodes(data@),
        r matches Ok(svg) ==> svg@ == qr_svg_of(data@, min_size, dark@, light@)
            && crate::text::has_prefix(svg@, svg_head())
            && crate::text::has_suffix(svg@, "\"/></svg>"@),
{
    let code = qrcode::QrCode::new(data)?;
    Ok(code.render::<qrcode::render::svg::Color>()
        .min_dimensions(min_size, min_size)
        .dark_color(qrcode::render::svg::Color(dark))
        .light_color(qrcode::render::svg::Color(light))
        .build())
}

/// The smallest side of the dashboard's QR code, in pixels.
pub open spec fn qr_min_size() -> u32 {
    200
}

/// What the `image` crate makes of PNG bytes scaled to fit within
/// `max_w`×`max_h`: the JPEG bytes, or the text of its error
/// (`image::load_from_memory_with_format` as PNG, `DynamicImage::thumbnail`,
/// then `write_to` as JPEG); it depends on these arguments alone.
pub uninterp spec fn jpeg_thumbnail_of(png: Seq<u8>, max_w: u32, max_h: u32) -> Result<Seq<u8>, Seq<char>>;

/// Decodes PNG bytes, scales the picture to fit within `max_w`×`max_h`
/// keeping its proportions, and encodes it as JPEG (`image` crate). The
/// contract names the result (`jpeg_thumbnail_of`), the bytes or the error's
/// text; the bound on the size keeps the thumbnail's allocation bounded.
#[verifier::external_body]
fn png_to_jpeg_thumbnail(png: &[u8], max_w: u32, max_h: u32) -> (r: Result<Vec<u8>, String>)
    requires
        max_w <= 16384,
        max_h <= 16384,
    ensures
        match jpeg_thumbnail_of(png@, max_w, max_h) {
            Ok(b) => r matches Ok(v) && v@ == b,
            Err(m) => r matches Err(e) && e@ == m,
        },
{
    let img = image::load_from_memory_with_format(png, image::ImageFormat::Png).map_err(|e| e.to_string())?;
    let mut buf = std::io::Cursor::new(Vec::new());
    img.thumbnail(max_w, max_h).write_to(&mut buf, image::ImageFormat::Jpeg).map_err(|e| e.to_string())?;
    Ok(buf.into_inner())
}

/// The largest size of a screenshot sent to the dashboard.
pub open spec fn screenshot_max() -> (u32, u32) {
    (800, 600)
}

/// A captured screenshot as the dashboard receives it, once the PNG file is
/// read: scaled to fit within 800×600 and encoded
/// as JPEG, or the error of the `image` crate.
pub fn screenshot_jpeg(png: &[u8]) -> (r: Result<Vec<u8>, String>)
    ensures
        match jpeg_thumbnail_of(png@, screenshot_max().0, screenshot_max().1) {
            Ok(b) => r matches Ok(v) && v@ == b,
            Err(m) => r matches Err(e) && e@ == m,
        },
{
    png_to_jpeg_thumbnail(png, 800, 600)
}

/// The dashboard's address and QR code once the server has an address and a
/// port, after any previous server was stopped: the error of
/// the QR encoder, or the address, its QR code and the port.
pub fn remote_info(ip: &str, port: u16, token: &str) -> (r: Result<RemoteInfo, String>)
    ensures
        r is Ok <==> qr_encodes(vstd::utf8::encode_utf8(remote_url_of(ip@, port, token@))),
        r matches Ok(info) ==> info.url@ == remote_url_of(ip@, port, token@) && info.port == port
            && info.qr_svg@ == qr_svg_of(
                vstd::utf8::encode_utf8(remote_url_of(ip@, port, token@)),
                qr_min_size(),
                "#58a6ff"@,
                "#121212"@,
            )
            && crate::text::has_prefix(info.qr_svg@, svg_head()),
        r matches Err(e) ==> qr_error_message(e@),
{
    let url = remote_url(ip, port, token);
    let bytes = url.as_str().as_bytes();
    match qr_svg(bytes, 200, "#58a6ff", "#121212") {
        Ok(svg) => Ok(RemoteInfo { url, qr_svg: svg, port }),
        Err(e) => Err(qr_error_text(&e)),
    }
}

// ───────────────────────────── access control ─────────────────────────────

/// The value of the first `t` parameter of a query that has one
/// (`split('&')`, then `splitn(2, '=')` on each pair).
pub open spec fn query_token_in(pairs: Seq<Seq<char>>) -> Option<Seq<char>>
    decreases pairs.len(),
{
    if pairs.len() == 0 {
        None
    } else if before_char(pairs[0], '=') == "t"@ && after_char(pairs[0], '=') is Some {
        after_char(pairs[0], '=')
    } else {
        query_token_in(pairs.drop_first())
    }
}

/// The token a raw query carries.
pub open spec fn query_token(query: Seq<char>) -> Option<Seq<char>> {
    query_token_in(split_char(query, '&'))
}

/// Whether a request may use the dashboard: a token is set, and the request
/// carries it in its `Authorization` header (alone or after `Bearer `), or in
/// its query parameter `t`.
pub open spec fn authorized(expected: Option<Seq<char>>, header: Option<Seq<char>>, query: Seq<char>) -> bool {
    match expected {
        None => false,
        Some(tok) => {
            ||| (header matches Some(h) && (trim(h) == tok || trim(h) == "Bearer "@ + tok))
            ||| query_token(query) == Some(tok)
        },
    }
}

/// Finds the token a raw query carries.
#[verifier::spinoff_prover]
#[verifier::rlimit(60)]
pub fn query_token_exec(query: &str) -> (r: Option<String>)
    ensures
        match query_token(query@) {
            Some(t) => r matches Some(x) && x@ == t,
            None => r is None,
        },
{
    let q = chars_of(query);
    let pairs = split_at_char(q.as_slice(), '&');
    let ghost ps = split_char(query@, '&');
    assert(ps.subrange(0, ps.len() as int) =~= ps);
    let mut i: usize = 0;
    while i < pairs.len()
        invariant
            i <= pairs@.len(),
            pairs@.len() == ps.len(),
            ps == split_char(query@, '&'),
            forall|k: int| 0 <= k < pairs@.len() ==> pairs@[k]@ == ps[k],
            query_token_in(ps) == query_token_in(ps.subrange(i as int, ps.len() as int)),
        decreases pairs@.len() - i,
    {
        assert(ps.subrange(i as int, ps.len() as int).drop_first() =~= ps.subrange(i + 1, ps.len() as int));
        let (key, value) = split_once(pairs[i].as_slice(), '=');
        let ks = crate::text::string_of(key.as_slice());
        if text_eq(ks.as_str(), "t") {
            match value {
                Some(v) => {
                    return Some(crate::text::string_of(v.as_slice()));
                },
                None => {},
            }
        }
        i = i + 1;
    }
    None
}

/// Decides whether a request may use the dashboard.
pub fn is_authorized(expected: Option<&str>, header: Option<&str>, query: &str) -> (b: bool)
    ensures
        b == authorized(
            match expected {
                Some(t) => Some(t@),
                None => None,
            },
            match header {
                Some(h) => Some(h@),
                None => None,
            },
            query@,
        ),
{
    let tok = match expected {
        Some(t) => t,
        None => return false,
    };
    match header {
        Some(h) => {
            let hv = chars_of(h);
            let trimmed = crate::text::trim_string(hv.as_slice());
            let mut bearer = owned("Bearer ");
            push_str(&mut bearer, tok);
            if text_eq(trimmed.as_str(), tok) || text_eq(trimmed.as_str(), bearer.as_str()) {
                return true;
            }
        },
        None => {},
    }
    match query_token_exec(query) {
        Some(found) => text_eq(found.as_str(), tok),
        None => false,
    }
}

proof fn lemma_split_without_sep(s: Seq<char>, sep: char)
    requires
        forall|i: int| 0 <= i < s.len() ==> s[i] != sep,
    ensures
        split_char(s, sep) == seq![s],
    decreases s.len(),
{
    if s.len() > 0 {
        lemma_split_without_sep(s.drop_last(), sep);
        assert(s.drop_last().push(s.last()) =~= s);
    } else {
        assert(s =~= Seq::<char>::empty());
    }
}

/// The query of the dashboard's address carries its token: a request with
/// that query is let in, and so is one that sends the token, alone or after
/// `Bearer `, in its `Authorization` header; without a token nobody is.
pub proof fn lemma_token_grants_access(tok: Seq<char>, header: Option<Seq<char>>, query: Seq<char>)
    requires
        tok.len() == token_len(),
        forall|i: int| 0 <= i < tok.len() ==> is_token_char(#[trigger] tok[i]),
    ensures
        authorized(Some(tok), None, "t="@ + tok),
        authorized(Some(tok), Some("Bearer "@ + tok), query),
        authorized(Some(tok), Some(tok), query),
        !authorized(None, header, query),
{
    reveal_strlit("t=");
    reveal_strlit("Bearer ");
    let q = "t="@ + tok;
    assert forall|i: int| 0 <= i < q.len() implies q[i] != '&' by {
        if i >= 2 {
            assert(q[i] == tok[i - 2]);
            assert(is_token_char(tok[i - 2]));
        }
    }
    lemma_split_without_sep(q, '&');
    assert(occurs_at(q, seq!['='], 1)) by {
        assert(q.subrange(1, 2) =~= seq!['=']);
    }
    assert(!occurs_at(q, seq!['='], 0)) by {
        assert(q.subrange(0, 1)[0] == 't');
    }
    let c = choose|c: int| occurs_at(q, seq!['='], c) && forall|j: int| 0 <= j < c ==> !occurs_at(q, seq!['='], j);
    assert(occurs_at(q, seq!['='], c) && forall|j: int| 0 <= j < c ==> !occurs_at(q, seq!['='], j)) by {
        assert(occurs_at(q, seq!['='], 1) && forall|j: int| 0 <= j < 1 ==> !occurs_at(q, seq!['='], j));
    }
    if c > 1 {
        assert(!occurs_at(q, seq!['='], 1));
    }
    assert(c == 1);
    reveal_strlit("t");
    assert(q.subrange(0, 1) =~= "t"@);
    assert(q.subrange(2, q.len() as int) =~= tok);
    assert(is_token_char(tok[0]) && is_token_char(tok.last()));
    assert(!crate::text::is_ws(tok[0]) && !crate::text::is_ws(tok.last()));
    let b = "Bearer "@ + tok;
    assert(b[0] == 'B');
    assert(b.last() == tok.last());
    assert(crate::text::trim_start(tok) == tok);
    assert(crate::text::trim_end(tok) == tok);
    assert(crate::text::trim_start(b) == b);
    assert(crate::text::trim_end(b) == b);
}

// ───────────────────────────── server state ───────────────────────────────

/// The dashboard server as the application tracks it: its port while it runs,
/// the token it accepts, and the language it shows.
pub struct RemoteServer {
    pub port: Option<u16>,
    pub token: Option<String>,
    pub lang: Option<String>,
}

/// The model of an optional text.
pub open spec fn opt_view(o: Option<String>) -> Option<Seq<char>> {
    match o {
        Some(s) => Some(s@),
        None => None,
    }
}

impl RemoteServer {
    /// No server runs.
    pub fn new() -> (r: Self)
        ensures
            r.port is None,
            r.token is None,
            r.lang is None,
    {
        RemoteServer { port: None, token: None, lang: None }
    }

    /// Records a started server; says whether one was running, which the
    /// caller must stop first.
    pub fn start(&mut self, port: u16, token: String, lang: String) -> (was_running: bool)
        ensures
            was_running == old(self).port is Some,
            final(self).port == Some(port),
            opt_view(final(self).token) == Some(token@),
            opt_view(final(self).lang) == Some(lang@),
    {
        let was = self.port.is_some();
        if was {
            self.stop();
        }
        self.port = Some(port);
        self.token = Some(token);
        self.lang = Some(lang);
        was
    }

    /// Records that the server stopped: no port, and no token is accepted.
    pub fn stop(&mut self)
        ensures
            final(self).port is None,
            final(self).token is None,
            opt_view(final(self).lang) == opt_view(old(self).lang),
    {
        self.port = None;
        self.token = None;
    }

    /// Whether a request may use the dashboard.
    pub fn allows(&self, header: Option<&str>, query: &str) -> (b: bool)
        ensures
            b == authorized(
                opt_view(self.token),
                match header {
                    Some(h) => Some(h@),
                    None => None,
                },
                query@,
            ),
    {
        match &self.token {
            Some(t) => is_authorized(Some(t.as_str()), header, query),
            None => is_authorized(None, header, query),
        }
    }

    /// The language the dashboard shows: the configured one, French by default.
    pub fn language(&self) -> (r: String)
        ensures
            r@ == match opt_view(self.lang) {
                Some(l) => l,
                None => "fr"@,
            },
    {
        match &self.lang {
            Some(l) => l.clone(),
            None => owned("fr"),
        }
    }
}

/// Once the server is stopped, no request is let in.
pub proof fn lemma_stopped_server_refuses(header: Option<Seq<char>>, query: Seq<char>)
    ensures
        !authorized(None, header, query),
{
}

/// The server's status, given the machine's address
/// when it could be read.
pub fn remote_status(port: Option<u16>, ip: Option<&str>) -> (r: RemoteStatus)
    ensures
        match port {
            Some(p) => r.running && r.port == p && r.url@ == match ip {
                Some(a) => "http://"@ + a@ + seq![':'] + crate::text::decimal(p as nat),
                None => Seq::<char>::empty(),
            },
            None => !r.running && r.port == 0 && r.url@ == Seq::<char>::empty(),
        },
{
    match port {
        Some(p) => {
            let url = match ip {
                Some(a) => {
                    let mut u = owned("http://");
                    push_str(&mut u, a);
                    push_char(&mut u, ':');
                    push_decimal(&mut u, p as u64);
                    proof {
                        reveal_strlit("http://");
                    }
                    assert(u@ =~= "http://"@ + a@ + seq![':'] + crate::text::decimal(p as nat));
                    u
                },
                None => String::new(),
            };
            RemoteStatus { running: true, url, port: p }
        },
        None => RemoteStatus { running: false, url: String::new(), port: 0 },
    }
}

/// The score the dashboard shows: the last full score when there is one,
/// else the quick estimate.
pub fn remote_health_score(cached: Option<u8>, estimate: u8) -> (r: u8)
    ensures
        r == match cached {
            Some(c) => c,
            None => estimate,
        },
{
    match cached {
        Some(c) => c,
        None => estimate,
    }
}

// ─────────────────────────────── requests ─────────────────────────────────

/// An action the dashboard can ask for.
pub enum RemoteAction {
    Autopilot,
    Turbo,
    CoolBoost,
    Sleep,
    Shutdown,
    Lock,
}

/// Where a request goes.
pub enum Route {
    /// The dashboard page (no token needed).
    Page,
    /// The machine's state.
    State,
    /// A screenshot.
    Screenshot,
    /// An action.
    Action { action: RemoteAction },
    /// Nothing here.
    NotFound,
}

/// The route of a request by method and path.
pub open spec fn route_of(method: Seq<char>, path: Seq<char>) -> Route {
    if method == "GET"@ && path == "/"@ {
        Route::Page
    } else if method == "GET"@ && path == "/api/state"@ {
        Route::State
    } else if method == "GET"@ && path == "/api/screenshot"@ {
        Route::Screenshot
    } else if method == "POST"@ && path == "/api/action/autopilot"@ {
        Route::Action { action: RemoteAction::Autopilot }
    } else if method == "POST"@ && path == "/api/action/turbo"@ {
        Route::Action { action: RemoteAction::Turbo }
    } else if method == "POST"@ && path == "/api/action/coolboost"@ {
        Route::Action { action: RemoteAction::CoolBoost }
    } else if method == "POST"@ && path == "/api/action/sleep"@ {
        Route::Action { action: RemoteAction::Sleep }
    } else if method == "POST"@ && path == "/api/action/shutdown"@ {
        Route::Action { action: RemoteAction::Shutdown }
    } else if method == "POST"@ && path == "/api/action/lock"@ {
        Route::Action { action: RemoteAction::Lock }
    } else {
        Route::NotFound
    }
}

/// Routes a request.
pub fn route(method: &str, path: &str) -> (r: Route)
    ensures
        r == route_of(method@, path@),
{
    let get = text_eq(method, "GET");
    let post = text_eq(method, "POST");
    if get && text_eq(path, "/") {
        Route::Page
    } else if get && text_eq(path, "/api/state") {
        Route::State
    } else if get && text_eq(path, "/api/screenshot") {
        Route::Screenshot
    } else if post && text_eq(path, "/api/action/autopilot") {
        Route::Action { action: RemoteAction::Autopilot }
    } else if post && text_eq(path, "/api/action/turbo") {
        Route::Action { action: RemoteAction::Turbo }
    } else if post && text_eq(path, "/api/action/coolboost") {
        Route::Action { action: RemoteAction::CoolBoost }
    } else if post && text_eq(path, "/api/action/sleep") {
        Route::Action { action: RemoteAction::Sleep }
    } else if post && text_eq(path, "/api/action/shutdown") {
        Route::Action { action: RemoteAction::Shutdown }
    } else if post && text_eq(path, "/api/action/lock") {
        Route::Action { action: RemoteAction::Lock }
    } else {
        Route::NotFound
    }
}

/// Whether a route needs the token.
pub open spec fn needs_token(r: Route) -> bool {
    !(r is Page) && !(r is NotFound)
}

/// What the server answers: 403 when a protected route is asked without the
/// token, 404 for an unknown route, else the route is served.
pub enum Reply {
    Forbidden,
    NotFound,
    Serve { route: Route },
}

/// The reply to a request.
pub open spec fn reply_of(r: Route, allowed: bool) -> Reply {
    if r is NotFound {
        Reply::NotFound
    } else if needs_token(r) && !allowed {
        Reply::Forbidden
    } else {
        Reply::Serve { route: r }
    }
}

/// Decides the reply to a request, given whether it carries the token.
pub fn reply(r: Route, allowed: bool) -> (out: Reply)
    ensures
        out == reply_of(r, allowed),
{
    match r {
        Route::NotFound => Reply::NotFound,
        Route::Page => Reply::Serve { route: Route::Page },
        _ => if allowed {
            Reply::Serve { route: r }
        } else {
            Reply::Forbidden
        },
    }
}

/// No protected route is ever served to a request without the token.
pub proof fn lemma_protected_routes(r: Route, allowed: bool)
    ensures
        needs_token(r) && !allowed ==> reply_of(r, allowed) is Forbidden,
        (reply_of(r, allowed) is Serve) ==> (allowed || (r is Page)),
{
}

/// The status code and error of a refused request.
pub fn refusal(forbidden: bool) -> (r: (u16, String))
    ensures
        forbidden ==> r.0 == 403 && r.1@ == "unauthorized"@,
        !forbidden ==> r.0 == 404 && r.1@ == "not found"@,
{
    if forbidden {
        (403, owned("unauthorized"))
    } else {
        (404, owned("not found"))
    }
}

/// The name an action is reported under.
pub fn action_name(a: &RemoteAction) -> (r: String)
    ensures
        (a is Autopilot) ==> r@ == "autopilot"@,
        (a is Turbo) ==> r@ == "turbo"@,
        (a is CoolBoost) ==> r@ == "coolboost"@,
        (a is Sleep) ==> r@ == "sleep"@,
        (a is Shutdown) ==> r@ == "shutdown"@,
        (a is Lock) ==> r@ == "lock"@,
{
    match a {
        RemoteAction::Autopilot => owned("autopilot"),
        RemoteAction::Turbo => owned("turbo"),
        RemoteAction::CoolBoost => owned("coolboost"),
        RemoteAction::Sleep => owned("sleep"),
        RemoteAction::Shutdown => owned("shutdown"),
        RemoteAction::Lock => owned("lock"),
    }
}

// ───────────────────────────── power commands ─────────────────────────────

/// The command a power action runs on a platform, if any: the actions that
/// only notify the application run none.
pub fn power_command(a: &RemoteAction, p: &Platform) -> (r: Option<ShellCommand>)
    ensures
        ((a is Autopilot) || (a is Turbo) || (a is CoolBoost) || (p is Other)) ==> r is None,
        (a is Sleep) && (p is Windows) ==> (r matches Some(c) && c@ == (CommandView {
            program: "rundll32.exe"@,
            args: seq!["powrprof.dll,SetSuspendState"@, "0,1,0"@],
        })),
        (a is Sleep) && (p is MacOs) ==> (r matches Some(c) && c@ == (CommandView {
            program: "pmset"@,
            args: seq!["sleepnow"@],
        })),
        (a is Sleep) && (p is Linux) ==> (r matches Some(c) && c@ == (CommandView {
            program: "systemctl"@,
            args: seq!["suspend"@],
        })),
        (a is Shutdown) && (p is Windows) ==> (r matches Some(c) && c@.program == "shutdown"@
            && c@.args == seq!["/s"@, "/t"@, "60"@, "/c"@, "Aura Update — Shutdown in 60s"@]),
        (a is Shutdown) && (p is MacOs) ==> (r matches Some(c) && c@ == (CommandView {
            program: "osascript"@,
            args: seq!["-e"@, "tell application \"System Events\" to shut down"@],
        })),
        (a is Shutdown) && (p is Linux) ==> (r matches Some(c) && c@ == (CommandView {
            program: "shutdown"@,
            args: seq!["+1"@],
        })),
        (a is Lock) && (p is Windows) ==> (r matches Some(c) && c@ == (CommandView {
            program: "rundll32.exe"@,
            args: seq!["user32.dll,LockWorkStation"@],
        })),
        (a is Lock) && (p is MacOs) ==> (r matches Some(c) && c@ == (CommandView {
            program: "pmset"@,
            args: seq!["displaysleepnow"@],
        })),
        (a is Lock) && (p is Linux) ==> (r matches Some(c) && c@ == (CommandView {
            program: "loginctl"@,
            args: seq!["lock-session"@],
        })),
{
    match (a, p) {
        (RemoteAction::Sleep, Platform::Windows) => Some(
            command2("rundll32.exe", owned("powrprof.dll,SetSuspendState"), owned("0,1,0")),
        ),
        (RemoteAction::Sleep, Platform::MacOs) => Some(command1("pmset", owned("sleepnow"))),
        (RemoteAction::Sleep, Platform::Linux) => Some(command1("systemctl", owned("suspend"))),
        (RemoteAction::Shutdown, Platform::Windows) => {
            let mut args: Vec<String> = Vec::new();
            args.push(owned("/s"));
            args.push(owned("/t"));
            args.push(owned("60"));
            args.push(owned("/c"));
            args.push(owned("Aura Update — Shutdown in 60s"));
            let c = crate::shell::command_with("shutdown", args);
            assert(c@.args =~= seq!["/s"@, "/t"@, "60"@, "/c"@, "Aura Update — Shutdown in 60s"@]);
            Some(c)
        },
        (RemoteAction::Shutdown, Platform::MacOs) => Some(
            command2("osascript", owned("-e"), owned("tell application \"System Events\" to shut down")),
        ),
        (RemoteAction::Shutdown, Platform::Linux) => Some(command1("shutdown", owned("+1"))),
        (RemoteAction::Lock, Platform::Windows) => Some(
            command1("rundll32.exe", owned("user32.dll,LockWorkStation")),
        ),
        (RemoteAction::Lock, Platform::MacOs) => Some(command1("pmset", owned("displaysleepnow"))),
        (RemoteAction::Lock, Platform::Linux) => Some(command1("loginctl", owned("lock-session"))),
        _ => None,
    }
}

/// The PowerShell script that saves a screenshot of the primary screen to
/// `path` (single quotes doubled).
pub fn windows_screenshot_script(path: &str) -> (r: String)
    ensures
        r@ == "Add-Type -AssemblyName System.Windows.Forms; Add-Type -AssemblyName System.Drawing; $s = [System.Windows.Forms.Screen]::PrimaryScreen.Bounds; $b = New-Object System.Drawing.Bitmap($s.Width,$s.Height); $g = [System.Drawing.Graphics]::FromImage($b); $g.CopyFromScreen($s.Location,$([System.Drawing.Point]::Empty),$s.Size); $b.Save('"@
            + crate::text::replace_char(path@, '\'', "''"@) + "'); $g.Dispose(); $b.Dispose()"@,
{
    let v = chars_of(path);
    let escaped = crate::text::replace_char_exec(v.as_slice(), '\'', "''");
    let mut r = owned(
        "Add-Type -AssemblyName System.Windows.Forms; Add-Type -AssemblyName System.Drawing; $s = [System.Windows.Forms.Screen]::PrimaryScreen.Bounds; $b = New-Object System.Drawing.Bitmap($s.Width,$s.Height); $g = [System.Drawing.Graphics]::FromImage($b); $g.CopyFromScreen($s.Location,$([System.Drawing.Point]::Empty),$s.Size); $b.Save('",
    );
    push_str(&mut r, escaped.as_str());
    push_str(&mut r, "'); $g.Dispose(); $b.Dispose()");
    r
}

/// Ports tried for the dashboard, in order, before asking the system for any.
pub open spec fn port_candidate(i: int) -> int {
    3500 + i
}

/// The first free port among 3500..3600, given which of them could be bound
/// (in order); `None` when none could.
pub fn first_free_port(bindable: &Vec<bool>) -> (r: Option<u16>)
    requires
        bindable@.len() <= 100,
    ensures
        match r {
            Some(p) => 3500 <= p < 3500 + bindable@.len() && bindable@[p - 3500] && forall|j: int|
                0 <= j < p - 3500 ==> !bindable@[j],
            None => forall|j: int| 0 <= j < bindable@.len() ==> !bindable@[j],
        },
{
    let mut i: usize = 0;
    while i < bindable.len()
        invariant
            i <= bindable@.len() <= 100,
            forall|j: int| 0 <= j < i ==> !bindable@[j],
        decreases bindable@.len() - i,
    {
        if bindable[i] {
            return Some(3500 + i as u16);
        }
        i = i + 1;
    }
    None
}

} // verus!
