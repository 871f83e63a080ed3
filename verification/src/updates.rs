//! Pending-update discovery: the parsers that turn the output of each package
//! manager into update packages, the install commands, and the small rules of
//! the application self-updater.
use vstd::prelude::*;

use crate::shell::{command2, command3, CommandView, ShellCommand};
use crate::text::{
    text_eq,
    push_chars, push_str, replace_char, replace_char_exec, strip_prefix_exec, strip_prefix_or_self,
    trim_str,
    byte_find, byte_find_exec, byte_offset, byte_offsets, byte_slice, byte_slice_exec, utf8_len,
    after_char, before_char, chars_of, contains, contains_seq, ends_with, filter_map, has_prefix,
    has_suffix, lemma_split_char_len, lines, lines_of, owned, push_decimal, decimal, split_lines, prefixed, split_at_char, split_char,
    split_once, split_words, starts_with, string_of, string_of_range, trim, trim_chars,
    trim_string, words,
};

verus! {

/// One update offered by a package manager.
pub struct UpdatePackage {
    pub id: String,
    pub name: String,
    pub current_version: String,
    pub new_version: String,
    pub manager: String,
    pub pkg_type: String,
    pub needs_admin: bool,
    pub pending_reboot: bool,
}

/// Mathematical model of an [`UpdatePackage`].
pub struct PackageView {
    pub id: Seq<char>,
    pub name: Seq<char>,
    pub current_version: Seq<char>,
    pub new_version: Seq<char>,
    pub manager: Seq<char>,
    pub pkg_type: Seq<char>,
    pub needs_admin: bool,
    pub pending_reboot: bool,
}

impl View for UpdatePackage {
    type V = PackageView;

    open spec fn view(&self) -> PackageView {
        PackageView {
            id: self.id@,
            name: self.name@,
            current_version: self.current_version@,
            new_version: self.new_version@,
            manager: self.manager@,
            pkg_type: self.pkg_type@,
            needs_admin: self.needs_admin,
            pending_reboot: self.pending_reboot,
        }
    }
}

/// Builds a package model.
pub open spec fn package(
    id: Seq<char>,
    name: Seq<char>,
    current_version: Seq<char>,
    new_version: Seq<char>,
    manager: Seq<char>,
    pkg_type: Seq<char>,
    needs_admin: bool,
) -> PackageView {
    PackageView {
        id,
        name,
        current_version,
        new_version,
        manager,
        pkg_type,
        needs_admin,
        pending_reboot: false,
    }
}

/// The models of a list of packages.
pub open spec fn views(ps: Seq<UpdatePackage>) -> Seq<PackageView> {
    ps.map_values(|p: UpdatePackage| p@)
}

/// Builds a package.
pub fn make_package(
    id: String,
    name: String,
    current_version: String,
    new_version: String,
    manager: &str,
    pkg_type: &str,
    needs_admin: bool,
) -> (p: UpdatePackage)
    ensures
        p@ == package(
            id@,
            name@,
            current_version@,
            new_version@,
            manager@,
            pkg_type@,
            needs_admin,
        ),
{
    UpdatePackage {
        id,
        name,
        current_version,
        new_version,
        manager: owned(manager),
        pkg_type: owned(pkg_type),
        needs_admin,
        pending_reboot: false,
    }
}

// ─────────────────────────────── apt ──────────────────────────────────────

/// The first word of a text, or `fallback` when it has none.
pub open spec fn first_word_or(s: Seq<char>, fallback: Seq<char>) -> Seq<char> {
    let w = words(s);
    if w.len() > 0 {
        w[0]
    } else {
        fallback
    }
}

/// The installed version that an apt line shows: the text between its first
/// `[` and the next `[`, without a final `]`, or `?`.
pub open spec fn apt_current(l: Seq<char>) -> Seq<char> {
    match after_char(l, '[') {
        Some(t) => {
            let p = before_char(t, '[');
            if has_suffix(p, "]"@) {
                p.drop_last()
            } else {
                "?"@
            }
        },
        None => "?"@,
    }
}

/// The package that one line of `apt list --upgradable` announces.
pub open spec fn apt_line(l: Seq<char>) -> Option<PackageView> {
    if !contains_seq(l, "[upgradable"@) {
        None
    } else {
        match after_char(l, ' ') {
            None => None,
            Some(rest) => {
                let name = trim(before_char(l, '/'));
                Some(
                    package(
                        "apt-"@ + name,
                        name,
                        apt_current(l),
                        first_word_or(rest, "?"@),
                        "apt"@,
                        "app"@,
                        true,
                    ),
                )
            },
        }
    }
}

/// First word of a text, or a fallback.
pub fn first_word_or_exec(s: &[char], fallback: &str) -> (r: String)
    ensures
        r@ == first_word_or(s@, fallback@),
{
    let w = split_words(s);
    if w.len() > 0 {
        string_of(w[0].as_slice())
    } else {
        owned(fallback)
    }
}

fn apt_current_exec(l: &[char]) -> (r: String)
    ensures
        r@ == apt_current(l@),
{
    let (_, after_bracket) = split_once(l, '[');
    match after_bracket {
        Some(t) => {
            let (p, _) = split_once(t.as_slice(), '[');
            let close = chars_of("]");
            proof {
                reveal_strlit("]");
            }
            if ends_with(p.as_slice(), close.as_slice()) {
                assert(p@.subrange(0, p@.len() - 1) =~= p@.drop_last());
                string_of_range(p.as_slice(), 0, p.len() - 1)
            } else {
                owned("?")
            }
        },
        None => owned("?"),
    }
}

fn apt_line_exec(l: &[char]) -> (r: Option<UpdatePackage>)
    ensures
        match r {
            Some(p) => apt_line(l@) == Some(p@),
            None => apt_line(l@) is None,
        },
{
    let marker = chars_of("[upgradable");
    if !contains(l, marker.as_slice()) {
        return None;
    }
    let (_, rest) = split_once(l, ' ');
    let rest = match rest {
        Some(r) => r,
        None => {
            return None;
        },
    };
    let (before_slash, _) = split_once(l, '/');
    let name = trim_chars(before_slash.as_slice());
    let ver = first_word_or_exec(rest.as_slice(), "?");
    let cur = apt_current_exec(l);
    let id = prefixed("apt-", name.as_slice());
    let name_s = string_of(name.as_slice());
    Some(make_package(id, name_s, cur, ver, "apt", "app", true))
}

// ───────────────────────── other package managers ─────────────────────────

/// The package that one line of `dnf check-update -q` announces.
pub open spec fn dnf_line(l: Seq<char>) -> Option<PackageView> {
    let w = words(l);
    if trim(l).len() == 0 || has_prefix(l, "Last metadata"@) || w.len() < 2 {
        None
    } else {
        let name = before_char(w[0], '.');
        Some(package("dnf-"@ + name, name, "installed"@, w[1], "dnf"@, "app"@, true))
    }
}

/// The package that one line of `pacman -Qu` announces (`name old -> new`).
pub open spec fn pacman_line(l: Seq<char>) -> Option<PackageView> {
    let w = words(l);
    if w.len() < 4 {
        None
    } else {
        Some(package("pac-"@ + w[0], w[0], w[1], w[3], "pacman"@, "app"@, true))
    }
}

/// The package that one line of `snap refresh --list` announces.
pub open spec fn snap_line(l: Seq<char>) -> Option<PackageView> {
    let w = words(l);
    if w.len() < 2 {
        None
    } else {
        Some(package("snap-"@ + w[0], w[0], "installed"@, w[1], "snap"@, "app"@, false))
    }
}

/// The package that one line of `flatpak remote-ls --updates` announces
/// (`application<TAB>version`).
pub open spec fn flatpak_line(l: Seq<char>) -> Option<PackageView> {
    if trim(l).len() == 0 {
        None
    } else {
        let parts = split_char(l, '\t');
        let id = trim(parts[0]);
        let ver = if parts.len() > 1 {
            trim(parts[1])
        } else {
            "latest"@
        };
        let name = split_char(id, '.').last();
        Some(package("flatpak-"@ + id, name, "installed"@, ver, "flatpak"@, "app"@, false))
    }
}

/// The package that one line of `mas outdated` announces (`id name (version)`).
pub open spec fn mas_line(l: Seq<char>) -> Option<PackageView> {
    match after_char(l, ' ') {
        None => None,
        Some(rest) => {
            let id = trim(before_char(l, ' '));
            let name = trim(before_char(trim(rest), '('));
            Some(package("mas-"@ + id, name, "installed"@, "latest"@, "mas"@, "app"@, false))
        },
    }
}

/// Output formats with one package per line.
pub enum LineFormat {
    Apt,
    Dnf,
    Pacman,
    Snap,
    Flatpak,
    Mas,
}

/// The package one line announces in a given format.
pub open spec fn line_package(f: LineFormat, l: Seq<char>) -> Option<PackageView> {
    match f {
        LineFormat::Apt => apt_line(l),
        LineFormat::Dnf => dnf_line(l),
        LineFormat::Pacman => pacman_line(l),
        LineFormat::Snap => snap_line(l),
        LineFormat::Flatpak => flatpak_line(l),
        LineFormat::Mas => mas_line(l),
    }
}

/// The lines that carry packages: all of them, but the header line of `snap`.
pub open spec fn package_lines(f: LineFormat, text: Seq<char>) -> Seq<Seq<char>> {
    let ls = lines(text);
    if f is Snap && ls.len() > 0 {
        ls.drop_first()
    } else {
        ls
    }
}

/// The packages announced by an output in a given format.
pub open spec fn format_packages(f: LineFormat, text: Seq<char>) -> Seq<PackageView> {
    filter_map(package_lines(f, text), |l: Seq<char>| line_package(f, l))
}

fn dnf_line_exec(l: &[char]) -> (r: Option<UpdatePackage>)
    ensures
        match r {
            Some(p) => dnf_line(l@) == Some(p@),
            None => dnf_line(l@) is None,
        },
{
    let w = split_words(l);
    let t = trim_chars(l);
    let marker = chars_of("Last metadata");
    if t.len() == 0 || starts_with(l, marker.as_slice()) || w.len() < 2 {
        return None;
    }
    let (name, _) = split_once(w[0].as_slice(), '.');
    let id = prefixed("dnf-", name.as_slice());
    Some(
        make_package(
            id,
            string_of(name.as_slice()),
            owned("installed"),
            string_of(w[1].as_slice()),
            "dnf",
            "app",
            true,
        ),
    )
}

fn pacman_line_exec(l: &[char]) -> (r: Option<UpdatePackage>)
    ensures
        match r {
            Some(p) => pacman_line(l@) == Some(p@),
            None => pacman_line(l@) is None,
        },
{
    let w = split_words(l);
    if w.len() < 4 {
        return None;
    }
    Some(
        make_package(
            prefixed("pac-", w[0].as_slice()),
            string_of(w[0].as_slice()),
            string_of(w[1].as_slice()),
            string_of(w[3].as_slice()),
            "pacman",
            "app",
            true,
        ),
    )
}

fn snap_line_exec(l: &[char]) -> (r: Option<UpdatePackage>)
    ensures
        match r {
            Some(p) => snap_line(l@) == Some(p@),
            None => snap_line(l@) is None,
        },
{
    let w = split_words(l);
    if w.len() < 2 {
        return None;
    }
    Some(
        make_package(
            prefixed("snap-", w[0].as_slice()),
            string_of(w[0].as_slice()),
            owned("installed"),
            string_of(w[1].as_slice()),
            "snap",
            "app",
            false,
        ),
    )
}

fn flatpak_line_exec(l: &[char]) -> (r: Option<UpdatePackage>)
    ensures
        match r {
            Some(p) => flatpak_line(l@) == Some(p@),
            None => flatpak_line(l@) is None,
        },
{
    let t = trim_chars(l);
    if t.len() == 0 {
        return None;
    }
    let parts = split_at_char(l, '\t');
    proof {
        lemma_split_char_len(l@, '\t');
    }
    let id = trim_chars(parts[0].as_slice());
    let ver = if parts.len() > 1 {
        trim_string(parts[1].as_slice())
    } else {
        owned("latest")
    };
    let id_parts = split_at_char(id.as_slice(), '.');
    proof {
        lemma_split_char_len(id@, '.');
    }
    let name = string_of(id_parts[id_parts.len() - 1].as_slice());
    Some(
        make_package(
            prefixed("flatpak-", id.as_slice()),
            name,
            owned("installed"),
            ver,
            "flatpak",
            "app",
            false,
        ),
    )
}

fn mas_line_exec(l: &[char]) -> (r: Option<UpdatePackage>)
    ensures
        match r {
            Some(p) => mas_line(l@) == Some(p@),
            None => mas_line(l@) is None,
        },
{
    let (first, rest) = split_once(l, ' ');
    let rest = match rest {
        Some(r) => r,
        None => {
            return None;
        },
    };
    let id = trim_chars(first.as_slice());
    let rest_t = trim_chars(rest.as_slice());
    let (name_part, _) = split_once(rest_t.as_slice(), '(');
    let name = trim_string(name_part.as_slice());
    Some(
        make_package(
            prefixed("mas-", id.as_slice()),
            name,
            owned("installed"),
            owned("latest"),
            "mas",
            "app",
            false,
        ),
    )
}

fn line_package_exec(f: &LineFormat, l: &[char]) -> (r: Option<UpdatePackage>)
    ensures
        match r {
            Some(p) => line_package(*f, l@) == Some(p@),
            None => line_package(*f, l@) is None,
        },
{
    match f {
        LineFormat::Apt => apt_line_exec(l),
        LineFormat::Dnf => dnf_line_exec(l),
        LineFormat::Pacman => pacman_line_exec(l),
        LineFormat::Snap => snap_line_exec(l),
        LineFormat::Flatpak => flatpak_line_exec(l),
        LineFormat::Mas => mas_line_exec(l),
    }
}

/// Parses an output with one package per line.
#[verifier::spinoff_prover]
pub fn parse_lines(f: LineFormat, text: &str) -> (pkgs: Vec<UpdatePackage>)
    ensures
        views(pkgs@) == format_packages(f, text@),
{
    let lv = lines_of(text);
    let ghost all = lines(text@);
    let ghost ls = package_lines(f, text@);
    let ghost g = |l: Seq<char>| line_package(f, l);
    let is_snap = match f {
        LineFormat::Snap => true,
        _ => false,
    };
    let first: usize = if is_snap && lv.len() > 0 {
        1
    } else {
        0
    };
    proof {
        if first == 1 {
            assert(ls =~= all.subrange(1, all.len() as int));
        } else {
            assert(ls =~= all.subrange(0, all.len() as int));
        }
    }
    let mut out: Vec<UpdatePackage> = Vec::new();
    let mut i: usize = first;
    while i < lv.len()
        invariant
            first <= i <= lv@.len(),
            lv@.len() == all.len(),
            forall|k: int| 0 <= k < lv@.len() ==> lv@[k]@ == all[k],
            ls == all.subrange(first as int, all.len() as int),
            g == (|l: Seq<char>| line_package(f, l)),
            views(out@) == filter_map(all.subrange(first as int, i as int), g),
        decreases lv@.len() - i,
    {
        let r = line_package_exec(&f, lv[i].as_slice());
        assert(all.subrange(first as int, i + 1).drop_last() =~= all.subrange(
            first as int,
            i as int,
        ));
        match r {
            Some(p) => {
                out.push(p);
                assert(views(out@) =~= filter_map(all.subrange(first as int, i as int), g).push(
                    out@.last()@,
                ));
            },
            None => {},
        }
        i = i + 1;
    }
    out
}

/// Parses the output of `apt list --upgradable`.
pub fn parse_apt(text: &str) -> (pkgs: Vec<UpdatePackage>)
    ensures
        views(pkgs@) == format_packages(LineFormat::Apt, text@),
{
    parse_lines(LineFormat::Apt, text)
}

/// Parses the output of `dnf check-update -q`.
pub fn parse_dnf(text: &str) -> (pkgs: Vec<UpdatePackage>)
    ensures
        views(pkgs@) == format_packages(LineFormat::Dnf, text@),
{
    parse_lines(LineFormat::Dnf, text)
}

/// Parses the output of `pacman -Qu`.
pub fn parse_pacman(text: &str) -> (pkgs: Vec<UpdatePackage>)
    ensures
        views(pkgs@) == format_packages(LineFormat::Pacman, text@),
{
    parse_lines(LineFormat::Pacman, text)
}

/// Parses the output of `snap refresh --list` (its first line is a header).
pub fn parse_snap(text: &str) -> (pkgs: Vec<UpdatePackage>)
    ensures
        views(pkgs@) == format_packages(LineFormat::Snap, text@),
{
    parse_lines(LineFormat::Snap, text)
}

/// Parses the output of `flatpak remote-ls --updates --columns=application,version`.
pub fn parse_flatpak(text: &str) -> (pkgs: Vec<UpdatePackage>)
    ensures
        views(pkgs@) == format_packages(LineFormat::Flatpak, text@),
{
    parse_lines(LineFormat::Flatpak, text)
}

/// Parses the output of `mas outdated`.
pub fn parse_mas(text: &str) -> (pkgs: Vec<UpdatePackage>)
    ensures
        views(pkgs@) == format_packages(LineFormat::Mas, text@),
{
    parse_lines(LineFormat::Mas, text)
}

// ─────────────────────────── Windows Update ───────────────────────────────

/// The PowerShell script that lists the pending Windows updates, one per line
/// as `title|version|kind`.
pub const WINDOWS_UPDATE_SEARCH_SCRIPT: &'static str = r#"
[Console]::OutputEncoding = [System.Text.Encoding]::UTF8
try {
    $s = New-Object -ComObject Microsoft.Update.Session
    $q = $s.CreateUpdateSearcher()
    $r = $q.Search("IsInstalled=0")
    foreach ($u in $r.Updates) {
        $crit = if ($u.MsrcSeverity -eq 'Critical' -or $u.IsMandatory) { 'critical' } else { 'system' }
        $ver  = if ($u.Identity.UpdateID) { $u.Identity.UpdateID.Substring(0,8) } else { 'latest' }
        "$($u.Title)|$ver|$crit"
    }
} catch {
}
"#;

/// A line of the Windows Update search script carries an update: it is not
/// blank and holds a `|`.
pub open spec fn wu_accepts(l: Seq<char>) -> bool {
    trim(l).len() > 0 && contains_seq(l, seq!['|'])
}

/// The update that an accepted line `title|version|kind` announces; `n` is its rank.
pub open spec fn wu_package(l: Seq<char>, n: nat) -> PackageView {
    let title = trim(before_char(l, '|'));
    let rest = match after_char(l, '|') {
        Some(r) => r,
        None => Seq::<char>::empty(),
    };
    let ver = trim(before_char(rest, '|'));
    let kind = match after_char(rest, '|') {
        Some(k) => trim(k),
        None => "system"@,
    };
    package("wu-"@ + decimal(n), title, "installed"@, ver, "windows-update"@, kind, true)
}

/// The updates announced by a list of lines, ranked in order.
pub open spec fn wu_packages_of(ls: Seq<Seq<char>>) -> Seq<PackageView>
    decreases ls.len(),
{
    if ls.len() == 0 {
        Seq::<PackageView>::empty()
    } else {
        let r = wu_packages_of(ls.drop_last());
        if wu_accepts(ls.last()) {
            r.push(wu_package(ls.last(), r.len()))
        } else {
            r
        }
    }
}

/// The updates announced by the output of the Windows Update search script.
pub open spec fn windows_update_packages(text: Seq<char>) -> Seq<PackageView> {
    wu_packages_of(lines(text))
}

fn wu_package_exec(l: &[char], n: usize) -> (p: UpdatePackage)
    requires
        wu_accepts(l@),
    ensures
        p@ == wu_package(l@, n as nat),
{
    let (title_part, rest) = split_once(l, '|');
    let title = trim_string(title_part.as_slice());
    let rest = match rest {
        Some(r) => r,
        None => Vec::new(),
    };
    let (ver_part, kind_part) = split_once(rest.as_slice(), '|');
    let ver = trim_string(ver_part.as_slice());
    let kind = match kind_part {
        Some(k) => trim_string(k.as_slice()),
        None => owned("system"),
    };
    let mut id = owned("wu-");
    push_decimal(&mut id, n as u64);
    make_package(id, title, owned("installed"), ver, "windows-update", kind.as_str(), true)
}

/// Parses the output of the Windows Update search script (one `title|version|kind` per line).
#[verifier::spinoff_prover]
#[verifier::rlimit(50)]
pub fn parse_windows_update(text: &str) -> (pkgs: Vec<UpdatePackage>)
    ensures
        views(pkgs@) == windows_update_packages(text@),
{
    let lv = lines_of(text);
    let ghost ls = lines(text@);
    let bar: Vec<char> = vec!['|'];
    assert(bar@ =~= seq!['|']);
    let mut out: Vec<UpdatePackage> = Vec::new();
    let mut i: usize = 0;
    while i < lv.len()
        invariant
            i <= lv@.len(),
            lv@.len() == ls.len(),
            bar@ == seq!['|'],
            forall|k: int| 0 <= k < lv@.len() ==> lv@[k]@ == ls[k],
            views(out@) == wu_packages_of(ls.subrange(0, i as int)),
            out@.len() <= i,
        decreases lv@.len() - i,
    {
        let l = lv[i].as_slice();
        let t = trim_chars(l);
        assert(ls.subrange(0, i + 1).drop_last() =~= ls.subrange(0, i as int));
        if t.len() > 0 && contains(l, bar.as_slice()) {
            let p = wu_package_exec(l, out.len());
            out.push(p);
            assert(views(out@) =~= views(out@.drop_last()).push(p@));
        }
        i = i + 1;
    }
    assert(ls.subrange(0, ls.len() as int) =~= ls);
    out
}

// ────────────────────────── macOS softwareupdate ──────────────────────────

/// An update of `softwareupdate --list`, ranked `n`.
pub open spec fn su_package(label: Seq<char>, n: nat, critical: bool) -> PackageView {
    package(
        "su-"@ + decimal(n),
        label,
        "N/A"@,
        "latest"@,
        "softwareupdate"@,
        if critical {
            "critical"@
        } else {
            "system"@
        },
        true,
    )
}

/// One step of the `softwareupdate --list` reader: a `* Label:` line opens an
/// update, a `Title:` or `Version:` line closes the open one.
pub open spec fn su_step(
    st: (Seq<PackageView>, Seq<char>),
    line: Seq<char>,
    critical: bool,
) -> (Seq<PackageView>, Seq<char>) {
    let t = trim(line);
    if has_prefix(t, "* Label:"@) {
        (st.0, trim(t.subrange("* Label:"@.len() as int, t.len() as int)))
    } else if has_prefix(t, "Title:"@) || contains_seq(t, "Version:"@) {
        if st.1.len() > 0 {
            (st.0.push(su_package(st.1, st.0.len(), critical)), Seq::<char>::empty())
        } else {
            st
        }
    } else {
        st
    }
}

/// The reader's state after a list of lines.
pub open spec fn su_fold(ls: Seq<Seq<char>>, critical: bool) -> (Seq<PackageView>, Seq<char>)
    decreases ls.len(),
{
    if ls.len() == 0 {
        (Seq::<PackageView>::empty(), Seq::<char>::empty())
    } else {
        su_step(su_fold(ls.drop_last(), critical), ls.last(), critical)
    }
}

/// The updates that `softwareupdate --list` announces (its two streams joined);
/// an update is critical when the text recommends one.
pub open spec fn softwareupdate_packages(text: Seq<char>) -> Seq<PackageView> {
    let critical = contains_seq(text, "Recommended: YES"@);
    let st = su_fold(lines(text), critical);
    if st.1.len() > 0 {
        st.0.push(su_package(st.1, st.0.len(), false))
    } else {
        st.0
    }
}

fn su_package_exec(label: &[char], n: usize, critical: bool) -> (p: UpdatePackage)
    ensures
        p@ == su_package(label@, n as nat, critical),
{
    let mut id = owned("su-");
    push_decimal(&mut id, n as u64);
    make_package(
        id,
        string_of(label),
        owned("N/A"),
        owned("latest"),
        "softwareupdate",
        if critical {
            "critical"
        } else {
            "system"
        },
        true,
    )
}

/// Parses the output of `softwareupdate --list`.
#[verifier::spinoff_prover]
pub fn parse_softwareupdate(text: &str) -> (pkgs: Vec<UpdatePackage>)
    ensures
        views(pkgs@) == softwareupdate_packages(text@),
{
    let all = chars_of(text);
    let rec = chars_of("Recommended: YES");
    let critical = contains(all.as_slice(), rec.as_slice());
    let lv = split_lines(all.as_slice());
    let ghost ls = lines(text@);
    let label_key = chars_of("* Label:");
    let title_key = chars_of("Title:");
    let version_key = chars_of("Version:");
    let mut out: Vec<UpdatePackage> = Vec::new();
    let mut label: Vec<char> = Vec::new();
    let mut i: usize = 0;
    while i < lv.len()
        invariant
            i <= lv@.len(),
            lv@.len() == ls.len(),
            forall|k: int| 0 <= k < lv@.len() ==> lv@[k]@ == ls[k],
            label_key@ == "* Label:"@,
            title_key@ == "Title:"@,
            version_key@ == "Version:"@,
            views(out@) == su_fold(ls.subrange(0, i as int), critical).0,
            label@ == su_fold(ls.subrange(0, i as int), critical).1,
            out@.len() <= i,
        decreases lv@.len() - i,
    {
        let t = trim_chars(lv[i].as_slice());
        assert(ls.subrange(0, i + 1).drop_last() =~= ls.subrange(0, i as int));
        if starts_with(t.as_slice(), label_key.as_slice()) {
            let rest = string_of_range(t.as_slice(), label_key.len(), t.len());
            label = trim_chars(chars_of(rest.as_str()).as_slice());
        } else if starts_with(t.as_slice(), title_key.as_slice()) || contains(
            t.as_slice(),
            version_key.as_slice(),
        ) {
            if label.len() > 0 {
                let p = su_package_exec(label.as_slice(), out.len(), critical);
                out.push(p);
                assert(views(out@) =~= views(out@.drop_last()).push(p@));
                label = Vec::new();
            }
        }
        i = i + 1;
    }
    assert(ls.subrange(0, ls.len() as int) =~= ls);
    if label.len() > 0 {
        let p = su_package_exec(label.as_slice(), out.len(), false);
        out.push(p);
        assert(views(out@) =~= views(out@.drop_last()).push(p@));
    }
    out
}

// ──────────────────────────────── winget ──────────────────────────────────

/// The text of an optional slice, empty when there is none.
pub open spec fn or_empty(o: Option<Seq<char>>) -> Seq<char> {
    match o {
        Some(t) => t,
        None => Seq::<char>::empty(),
    }
}

/// The byte column at which a header names `title`, or a default.
pub open spec fn column_or(header: Seq<char>, title: Seq<char>, default: int) -> int {
    match byte_find(header, title) {
        Some(c) => c,
        None => default,
    }
}

/// The column of the available version: `Available`, else `Disponible`, else 90.
pub open spec fn available_column(header: Seq<char>) -> int {
    match byte_find(header, "Available"@) {
        Some(c) => c,
        None => column_or(header, "Disponible"@, 90),
    }
}

/// A line that starts with `---` separates the header of a winget table from its rows.
pub open spec fn is_rule(l: Seq<char>) -> bool {
    has_prefix(l, "---"@)
}

/// Index of the first separator line.
pub open spec fn first_rule(ls: Seq<Seq<char>>) -> Option<int> {
    if exists|k: int| 0 <= k < ls.len() && is_rule(ls[k]) {
        Some(
            choose|k: int|
                0 <= k < ls.len() && is_rule(ls[k]) && forall|j: int| 0 <= j < k ==> !is_rule(ls[j]),
        )
    } else {
        None
    }
}

/// The columns of a winget table: name (before `id`), id, current version,
/// available version, source.
pub struct WingetColumns {
    pub id: int,
    pub version: int,
    pub available: int,
    pub source: int,
}

/// The columns that a winget header announces, with their defaults.
pub open spec fn winget_columns(header: Seq<char>) -> WingetColumns {
    WingetColumns {
        id: column_or(header, "Id"@, 40),
        version: column_or(header, "Version"@, 70),
        available: available_column(header),
        source: column_or(header, "Source"@, usize::MAX as int),
    }
}

/// The package that one row of the winget table announces.
pub open spec fn winget_line(l: Seq<char>, c: WingetColumns) -> Option<PackageView> {
    if trim(l).len() == 0 || contains_seq(l, "upgrade(s)"@) || contains_seq(l, "mise(s)"@) {
        None
    } else {
        let end = if c.source < utf8_len(l) {
            c.source
        } else {
            utf8_len(l) as int
        };
        let name = trim(or_empty(byte_slice(l, 0, c.id)));
        let id = trim(or_empty(byte_slice(l, c.id, c.version)));
        let cur = trim(or_empty(byte_slice(l, c.version, c.available)));
        let new = trim(or_empty(byte_slice(l, c.available, end)));
        if id.len() > 0 && name.len() > 0 && new.len() > 0 {
            Some(package("winget-"@ + id, name, cur, new, "winget"@, "app"@, false))
        } else {
            None
        }
    }
}

/// The packages that the output of `winget upgrade` announces: the rows after
/// the first separator line, cut at the byte columns of the header above it.
pub open spec fn winget_packages(text: Seq<char>) -> Seq<PackageView> {
    let ls = lines(text);
    match first_rule(ls) {
        None => Seq::<PackageView>::empty(),
        Some(k) => {
            let header = if k >= 1 {
                ls[k - 1]
            } else {
                Seq::<char>::empty()
            };
            let c = winget_columns(header);
            filter_map(ls.subrange(k + 1, ls.len() as int), |l: Seq<char>| winget_line(l, c))
        },
    }
}

proof fn lemma_filter_map_member<A, B>(s: Seq<A>, f: spec_fn(A) -> Option<B>, j: int)
    requires
        0 <= j < s.len(),
        f(s[j]) is Some,
    ensures
        filter_map(s, f).contains(f(s[j]).unwrap()),
    decreases s.len(),
{
    let w = s.drop_last();
    let r = filter_map(w, f);
    if j < s.len() - 1 {
        lemma_filter_map_member(w, f, j);
        assert(w[j] == s[j]);
        let k = choose|k: int| 0 <= k < r.len() && r[k] == f(s[j]).unwrap();
        match f(s.last()) {
            Some(b) => {
                assert(filter_map(s, f) == r.push(b));
                assert(filter_map(s, f)[k] == r[k]);
            },
            None => {},
        }
    } else {
        assert(s[j] == s.last());
        let b = f(s.last()).unwrap();
        assert(filter_map(s, f) == r.push(b));
        assert(filter_map(s, f)[r.len() as int] == b);
    }
}

/// The columns of a winget table, read from its header: each at the byte
/// where the header names it (`Id`, `Version`, `Source`), else at 40, 70 and
/// the end of the line; the available version at `Available`, else at the
/// French `Disponible`, else at 90.
pub proof fn lemma_winget_columns_of_header(header: Seq<char>)
    ensures
        byte_find(header, "Id"@) matches Some(x) ==> winget_columns(header).id == x,
        byte_find(header, "Id"@) is None ==> winget_columns(header).id == 40,
        byte_find(header, "Version"@) matches Some(x) ==> winget_columns(header).version == x,
        byte_find(header, "Version"@) is None ==> winget_columns(header).version == 70,
        byte_find(header, "Available"@) matches Some(x) ==> winget_columns(header).available == x,
        byte_find(header, "Available"@) is None && byte_find(header, "Disponible"@) is Some
            ==> winget_columns(header).available == byte_find(header, "Disponible"@).unwrap(),
        byte_find(header, "Available"@) is None && byte_find(header, "Disponible"@) is None
            ==> winget_columns(header).available == 90,
        byte_find(header, "Source"@) matches Some(x) ==> winget_columns(header).source == x,
{
}

/// Every row of a winget table after its first separator line is read with
/// the columns its header names, the available version at `Available` or
/// else at the French `Disponible`: a row that makes a package under those
/// columns is among the packages found.
pub proof fn lemma_winget_rows_read_at_header_columns(text: Seq<char>, k: int, j: int)
    requires
        first_rule(lines(text)) == Some(k),
        1 <= k < j < lines(text).len(),
    ensures
        ({
            let h = lines(text)[k - 1];
            let cols = WingetColumns {
                id: match byte_find(h, "Id"@) { Some(x) => x, None => 40 },
                version: match byte_find(h, "Version"@) { Some(x) => x, None => 70 },
                available: match byte_find(h, "Available"@) {
                    Some(x) => x,
                    None => match byte_find(h, "Disponible"@) { Some(x) => x, None => 90 },
                },
                source: match byte_find(h, "Source"@) { Some(x) => x, None => usize::MAX as int },
            };
            winget_line(lines(text)[j], cols) matches Some(p) ==> winget_packages(text).contains(p)
        }),
{
    let ls = lines(text);
    let h = ls[k - 1];
    let cols = winget_columns(h);
    let rows = ls.subrange(k + 1, ls.len() as int);
    let f = |l: Seq<char>| winget_line(l, cols);
    assert(rows[j - k - 1] == ls[j]);
    if winget_line(ls[j], cols) is Some {
        lemma_filter_map_member(rows, f, j - k - 1);
    }
}

/// Executable form of the columns, as byte offsets.
struct ColumnsExec {
    id: u128,
    version: u128,
    available: u128,
    source: u128,
}

fn column_exec(h: &[char], offs: &Vec<u128>, title: &str, default: u128) -> (r: u128)
    requires
        offs@.len() == h@.len() + 1,
        forall|k: int| 0 <= k <= h@.len() ==> offs@[k] == byte_offset(h@, k),
    ensures
        r as int == column_or(h@, title@, default as int),
{
    let t = chars_of(title);
    match byte_find_exec(h, offs, t.as_slice()) {
        Some(c) => c,
        None => default,
    }
}

fn winget_columns_exec(header: &[char]) -> (r: ColumnsExec)
    ensures
        r.id as int == winget_columns(header@).id,
        r.version as int == winget_columns(header@).version,
        r.available as int == winget_columns(header@).available,
        r.source as int == winget_columns(header@).source,
{
    let offs = byte_offsets(header);
    let id = column_exec(header, &offs, "Id", 40);
    let version = column_exec(header, &offs, "Version", 70);
    let av = chars_of("Available");
    let available = match byte_find_exec(header, &offs, av.as_slice()) {
        Some(c) => c,
        None => column_exec(header, &offs, "Disponible", 90),
    };
    let source = column_exec(header, &offs, "Source", usize::MAX as u128);
    ColumnsExec { id, version, available, source }
}

fn slice_text(l: &[char], offs: &Vec<u128>, a: u128, b: u128) -> (r: Vec<char>)
    requires
        offs@.len() == l@.len() + 1,
        forall|k: int| 0 <= k <= l@.len() ==> offs@[k] == byte_offset(l@, k),
    ensures
        r@ == trim(or_empty(byte_slice(l@, a as int, b as int))),
{
    match byte_slice_exec(l, offs, a, b) {
        Some(v) => trim_chars(v.as_slice()),
        None => {
            let e: Vec<char> = Vec::new();
            assert(trim(Seq::<char>::empty()) =~= Seq::<char>::empty());
            e
        },
    }
}

fn winget_line_exec(l: &[char], c: &ColumnsExec, Ghost(cs): Ghost<WingetColumns>) -> (r: Option<
    UpdatePackage,
>)
    requires
        c.id as int == cs.id,
        c.version as int == cs.version,
        c.available as int == cs.available,
        c.source as int == cs.source,
    ensures
        match r {
            Some(p) => winget_line(l@, cs) == Some(p@),
            None => winget_line(l@, cs) is None,
        },
{
    let t = trim_chars(l);
    let k1 = chars_of("upgrade(s)");
    let k2 = chars_of("mise(s)");
    if t.len() == 0 || contains(l, k1.as_slice()) || contains(l, k2.as_slice()) {
        return None;
    }
    let offs = byte_offsets(l);
    let len = offs[l.len()];
    assert(l@.subrange(0, l@.len() as int) =~= l@);
    assert(len as int == utf8_len(l@));
    let end = if c.source < len {
        c.source
    } else {
        len
    };
    let name = slice_text(l, &offs, 0, c.id);
    let id = slice_text(l, &offs, c.id, c.version);
    let cur = slice_text(l, &offs, c.version, c.available);
    let new = slice_text(l, &offs, c.available, end);
    if id.len() > 0 && name.len() > 0 && new.len() > 0 {
        Some(
            make_package(
                prefixed("winget-", id.as_slice()),
                string_of(name.as_slice()),
                string_of(cur.as_slice()),
                string_of(new.as_slice()),
                "winget",
                "app",
                false,
            ),
        )
    } else {
        None
    }
}

/// Parses the table printed by `winget upgrade`.
#[verifier::spinoff_prover]
pub fn parse_winget(text: &str) -> (pkgs: Vec<UpdatePackage>)
    ensures
        views(pkgs@) == winget_packages(text@),
{
    let lv = lines_of(text);
    let ghost ls = lines(text@);
    let rule = chars_of("---");
    let mut sep: usize = 0;
    while sep < lv.len()
        invariant
            sep <= lv@.len(),
            lv@.len() == ls.len(),
            rule@ == "---"@,
            forall|k: int| 0 <= k < lv@.len() ==> lv@[k]@ == ls[k],
            forall|j: int| 0 <= j < sep ==> !is_rule(ls[j]),
        ensures
            sep <= lv@.len(),
            sep < lv@.len() ==> is_rule(ls[sep as int]),
            forall|j: int| 0 <= j < sep ==> !is_rule(ls[j]),
        decreases lv@.len() - sep,
    {
        if starts_with(lv[sep].as_slice(), rule.as_slice()) {
            break;
        }
        sep = sep + 1;
    }
    if sep == lv.len() {
        let out: Vec<UpdatePackage> = Vec::new();
        assert(views(out@) =~= Seq::<PackageView>::empty());
        return out;
    }
    proof {
        assert(is_rule(ls[sep as int]));
        let c = choose|k: int|
            0 <= k < ls.len() && is_rule(ls[k]) && forall|j: int| 0 <= j < k ==> !is_rule(ls[j]);
        if c < sep {
        } else if c > sep {
        }
        assert(first_rule(ls) == Some(sep as int));
    }
    let empty: Vec<char> = Vec::new();
    let header: &[char] = if sep >= 1 {
        lv[sep - 1].as_slice()
    } else {
        empty.as_slice()
    };
    let cols = winget_columns_exec(header);
    let ghost cs = winget_columns(header@);
    let ghost g = |l: Seq<char>| winget_line(l, cs);
    let first = sep + 1;
    let mut out: Vec<UpdatePackage> = Vec::new();
    let mut i: usize = first;
    while i < lv.len()
        invariant
            first <= i <= lv@.len(),
            lv@.len() == ls.len(),
            forall|k: int| 0 <= k < lv@.len() ==> lv@[k]@ == ls[k],
            cols.id as int == cs.id,
            cols.version as int == cs.version,
            cols.available as int == cs.available,
            cols.source as int == cs.source,
            g == (|l: Seq<char>| winget_line(l, cs)),
            views(out@) == filter_map(ls.subrange(first as int, i as int), g),
        decreases lv@.len() - i,
    {
        let r = winget_line_exec(lv[i].as_slice(), &cols, Ghost(cs));
        assert(ls.subrange(first as int, i + 1).drop_last() =~= ls.subrange(
            first as int,
            i as int,
        ));
        match r {
            Some(p) => {
                out.push(p);
                assert(views(out@) =~= filter_map(ls.subrange(first as int, i as int), g).push(
                    out@.last()@,
                ));
            },
            None => {},
        }
        i = i + 1;
    }
    proof {
        if sep >= 1 {
            assert(header@ == ls[sep - 1]);
        } else {
            assert(header@ =~= Seq::<char>::empty());
        }
    }
    out
}

// ──────────────────────────────── Homebrew ────────────────────────────────

/// One entry of `brew outdated --json=v2`, as read from the JSON document:
/// its `name`, its first installed version and its current version, each
/// present when the document gives it as a string.
pub struct BrewEntry {
    pub name: Option<String>,
    pub installed: Option<String>,
    pub current: Option<String>,
}

/// A text of an optional string, or a default.
pub open spec fn text_or(o: Option<String>, d: Seq<char>) -> Seq<char> {
    match o {
        Some(t) => t@,
        None => d,
    }
}

/// The package of one Homebrew entry.
pub open spec fn brew_package(e: BrewEntry) -> PackageView {
    let name = text_or(e.name, ""@);
    package(
        "brew-"@ + name,
        name,
        text_or(e.installed, "?"@),
        text_or(e.current, "latest"@),
        "brew"@,
        "app"@,
        false,
    )
}

fn text_or_exec(o: &Option<String>, d: &str) -> (r: String)
    ensures
        r@ == text_or(*o, d@),
{
    match o {
        Some(t) => t.clone(),
        None => owned(d),
    }
}

fn brew_package_exec(e: &BrewEntry) -> (p: UpdatePackage)
    ensures
        p@ == brew_package(*e),
{
    let name = text_or_exec(&e.name, "");
    let mut id = owned("brew-");
    push_str(&mut id, name.as_str());
    make_package(
        id,
        name,
        text_or_exec(&e.installed, "?"),
        text_or_exec(&e.current, "latest"),
        "brew",
        "app",
        false,
    )
}

/// The packages of `brew outdated --json=v2`: formulae first, then casks.
pub fn brew_packages(formulae: &Vec<BrewEntry>, casks: &Vec<BrewEntry>) -> (pkgs: Vec<
    UpdatePackage,
>)
    ensures
        views(pkgs@) == (formulae@ + casks@).map_values(|e: BrewEntry| brew_package(e)),
{
    let ghost all = formulae@ + casks@;
    let mut out: Vec<UpdatePackage> = Vec::new();
    let mut i: usize = 0;
    while i < formulae.len()
        invariant
            i <= formulae@.len(),
            views(out@) == formulae@.subrange(0, i as int).map_values(
                |e: BrewEntry| brew_package(e),
            ),
        decreases formulae@.len() - i,
    {
        let ghost prev = views(out@);
        let p = brew_package_exec(&formulae[i]);
        out.push(p);
        assert(views(out@) =~= prev.push(p@));
        assert(formulae@.subrange(0, i + 1).map_values(|e: BrewEntry| brew_package(e))
            =~= formulae@.subrange(0, i as int).map_values(|e: BrewEntry| brew_package(e)).push(
            brew_package(formulae@[i as int]),
        ));
        i = i + 1;
    }
    let mut j: usize = 0;
    while j < casks.len()
        invariant
            j <= casks@.len(),
            views(out@) == (formulae@ + casks@.subrange(0, j as int)).map_values(
                |e: BrewEntry| brew_package(e),
            ),
        decreases casks@.len() - j,
    {
        proof {
            assert(formulae@.subrange(0, formulae@.len() as int) =~= formulae@);
        }
        let ghost prev = views(out@);
        let p = brew_package_exec(&casks[j]);
        out.push(p);
        assert(views(out@) =~= prev.push(p@));
        assert((formulae@ + casks@.subrange(0, j + 1)).map_values(|e: BrewEntry| brew_package(e))
            =~= (formulae@ + casks@.subrange(0, j as int)).map_values(
            |e: BrewEntry| brew_package(e),
        ).push(brew_package(casks@[j as int])));
        j = j + 1;
    }
    assert(casks@.subrange(0, casks@.len() as int) =~= casks@);
    assert(formulae@.subrange(0, formulae@.len() as int) =~= formulae@);
    out
}

// ──────────────────────────── installation ────────────────────────────────

/// The PowerShell script that downloads and installs the Windows updates whose
/// title contains `name` (single quotes doubled).
pub open spec fn windows_update_install_script(name: Seq<char>) -> Seq<char> {
    "$s=New-Object -ComObject Microsoft.Update.Session;$u=$s.CreateUpdateSearcher();$r=$u.Search(\"IsInstalled=0\");$dl=New-Object -ComObject Microsoft.Update.UpdateColl;foreach($upd in $r.Updates){if($upd.Title -like '*"@
        + replace_char(name, '\'', "''"@)
        + "*'){$dl.Add($upd)|Out-Null}}$d=$s.CreateUpdateDownloader();$d.Updates=$dl;$d.Download();$i=$s.CreateUpdateInstaller();$i.Updates=$dl;$i.Install()"@
}

/// The command that installs one package with its manager, or the error for an
/// unknown manager.
pub open spec fn install_command(p: PackageView) -> Result<CommandView, Seq<char>> {
    let m = p.manager;
    if m == "winget"@ {
        Ok(CommandView {
            program: "cmd"@,
            args: seq![
                "/c"@,
                "chcp 65001 > nul && winget upgrade --id "@ + strip_prefix_or_self(p.id, "winget-"@)
                    + " --silent --force --accept-package-agreements --accept-source-agreements"@,
            ],
        })
    } else if m == "windows-update"@ {
        Ok(CommandView {
            program: "powershell"@,
            args: seq!["-NoProfile"@, "-Command"@, windows_update_install_script(p.name)],
        })
    } else if m == "apt"@ {
        Ok(CommandView { program: "apt-get"@, args: seq!["install"@, "-y"@, p.name] })
    } else if m == "dnf"@ {
        Ok(CommandView { program: "dnf"@, args: seq!["upgrade"@, "-y"@, p.name] })
    } else if m == "pacman"@ {
        Ok(CommandView { program: "pacman"@, args: seq!["-Syu"@, "--noconfirm"@, p.name] })
    } else if m == "snap"@ {
        Ok(CommandView { program: "snap"@, args: seq!["refresh"@, p.name] })
    } else if m == "flatpak"@ {
        Ok(
            CommandView {
                program: "flatpak"@,
                args: seq!["update"@, "-y"@, strip_prefix_or_self(p.id, "flatpak-"@)],
            },
        )
    } else if m == "brew"@ {
        Ok(CommandView { program: "brew"@, args: seq!["upgrade"@, p.name] })
    } else if m == "softwareupdate"@ {
        Ok(CommandView { program: "softwareupdate"@, args: seq!["--install"@, p.name] })
    } else if m == "mas"@ {
        Ok(CommandView { program: "mas"@, args: seq!["upgrade"@, strip_prefix_or_self(p.id, "mas-"@)] })
    } else {
        Err("Unknown manager: "@ + m)
    }
}

fn command1(program: &str, a: String) -> (c: ShellCommand)
    ensures
        c@.program == program@,
        c@.args == seq![a@],
{
    let mut args: Vec<String> = Vec::new();
    args.push(a);
    let c = ShellCommand { program: owned(program), args };
    assert(c@.args =~= seq![a@]);
    c
}

/// The command that installs one package with its manager.
pub fn install_command_for(p: &UpdatePackage) -> (r: Result<ShellCommand, String>)
    ensures
        match r {
            Ok(c) => install_command(p@) == Ok::<CommandView, Seq<char>>(c@),
            Err(e) => install_command(p@) == Err::<CommandView, Seq<char>>(e@),
        },
{
    let m = &p.manager;
    if text_eq(m.as_str(), "winget") {
        let id = chars_of(p.id.as_str());
        let rest = strip_prefix_exec(id.as_slice(), "winget-");
        let mut script = owned("chcp 65001 > nul && winget upgrade --id ");
        push_chars(&mut script, rest.as_slice());
        push_str(
            &mut script,
            " --silent --force --accept-package-agreements --accept-source-agreements",
        );
        Ok(command2("cmd", owned("/c"), script))
    } else if text_eq(m.as_str(), "windows-update") {
        let name = chars_of(p.name.as_str());
        let mut script = owned(
            "$s=New-Object -ComObject Microsoft.Update.Session;$u=$s.CreateUpdateSearcher();$r=$u.Search(\"IsInstalled=0\");$dl=New-Object -ComObject Microsoft.Update.UpdateColl;foreach($upd in $r.Updates){if($upd.Title -like '*",
        );
        let escaped = replace_char_exec(name.as_slice(), '\'', "''");
        push_str(&mut script, escaped.as_str());
        push_str(
            &mut script,
            "*'){$dl.Add($upd)|Out-Null}}$d=$s.CreateUpdateDownloader();$d.Updates=$dl;$d.Download();$i=$s.CreateUpdateInstaller();$i.Updates=$dl;$i.Install()",
        );
        Ok(command3("powershell", owned("-NoProfile"), owned("-Command"), script))
    } else if text_eq(m.as_str(), "apt") {
        Ok(command3("apt-get", owned("install"), owned("-y"), p.name.clone()))
    } else if text_eq(m.as_str(), "dnf") {
        Ok(command3("dnf", owned("upgrade"), owned("-y"), p.name.clone()))
    } else if text_eq(m.as_str(), "pacman") {
        Ok(command3("pacman", owned("-Syu"), owned("--noconfirm"), p.name.clone()))
    } else if text_eq(m.as_str(), "snap") {
        Ok(command2("snap", owned("refresh"), p.name.clone()))
    } else if text_eq(m.as_str(), "flatpak") {
        let id = chars_of(p.id.as_str());
        let rest = strip_prefix_exec(id.as_slice(), "flatpak-");
        Ok(command3("flatpak", owned("update"), owned("-y"), string_of(rest.as_slice())))
    } else if text_eq(m.as_str(), "brew") {
        Ok(command2("brew", owned("upgrade"), p.name.clone()))
    } else if text_eq(m.as_str(), "softwareupdate") {
        Ok(command2("softwareupdate", owned("--install"), p.name.clone()))
    } else if text_eq(m.as_str(), "mas") {
        let id = chars_of(p.id.as_str());
        let rest = strip_prefix_exec(id.as_slice(), "mas-");
        Ok(command2("mas", owned("upgrade"), string_of(rest.as_slice())))
    } else {
        let mut e = owned("Unknown manager: ");
        push_str(&mut e, m.as_str());
        Err(e)
    }
}

/// What an install command's outcome means: success, or the trimmed error output.
pub fn install_outcome(success: bool, stderr: &str) -> (r: Result<(), String>)
    ensures
        success ==> r is Ok,
        !success ==> (r matches Err(e) && e@ == trim(stderr@)),
{
    if success {
        Ok(())
    } else {
        Err(trim_str(stderr))
    }
}

/// The notice added to the update list when Windows waits for a reboot.
pub open spec fn reboot_notice() -> PackageView {
    PackageView {
        id: "wu-reboot"@,
        name: "Redémarrage requis pour finaliser les mises à jour"@,
        current_version: Seq::<char>::empty(),
        new_version: Seq::<char>::empty(),
        manager: "windows-update"@,
        pkg_type: "reboot"@,
        needs_admin: false,
        pending_reboot: true,
    }
}

/// The update-list notice of a pending reboot.
pub fn reboot_pending_package() -> (p: UpdatePackage)
    ensures
        p@ == reboot_notice(),
{
    UpdatePackage {
        id: owned("wu-reboot"),
        name: owned("Redémarrage requis pour finaliser les mises à jour"),
        current_version: String::new(),
        new_version: String::new(),
        manager: owned("windows-update"),
        pkg_type: owned("reboot"),
        needs_admin: false,
        pending_reboot: true,
    }
}

/// The label of the tray item that checks for a new version of the application.
pub open spec fn menu_label(version: Option<Seq<char>>) -> Seq<char> {
    match version {
        Some(v) => if v.len() > 0 {
            "🆕 Nouvelle mise à jour Aura ("@ + v + ")"@
        } else {
            "🔄 Vérifier les mises à jour d'Aura"@
        },
        None => "🔄 Vérifier les mises à jour d'Aura"@,
    }
}

/// Label of the tray item that checks for a new version of the application.
pub fn update_menu_label(version: Option<&str>) -> (r: String)
    ensures
        r@ == menu_label(
            match version {
                Some(v) => Some(v@),
                None => None,
            },
        ),
{
    match version {
        Some(v) => {
            let n = v.unicode_len();
            if n > 0 {
                let mut r = owned("🆕 Nouvelle mise à jour Aura (");
                push_str(&mut r, v);
                push_str(&mut r, ")");
                r
            } else {
                owned("🔄 Vérifier les mises à jour d'Aura")
            }
        },
        None => owned("🔄 Vérifier les mises à jour d'Aura"),
    }
}

/// Download progress in percent: `downloaded * 100 / total` (saturating), or 0
/// when the total is unknown.
pub fn progress_percent(downloaded: u64, total: u64) -> (p: u64)
    ensures
        total == 0 ==> p == 0,
        total > 0 && downloaded * 100 <= u64::MAX ==> p == (downloaded * 100) / (total as int),
        total > 0 && downloaded * 100 > u64::MAX ==> p == (u64::MAX as int) / (total as int),
{
    if total > 0 {
        let scaled = if downloaded <= u64::MAX / 100 {
            downloaded * 100
        } else {
            u64::MAX
        };
        scaled / total
    } else {
        0
    }
}

/// The summary logged after a scan.
pub fn scan_summary(count: usize) -> (r: String)
    ensures
        r@ == "Found "@ + decimal(count as nat) + " update(s)"@,
{
    let mut r = owned("Found ");
    push_decimal(&mut r, count as u64);
    push_str(&mut r, " update(s)");
    r
}

/// The packages of several lists, one list after the other.
pub open spec fn joined_views(lists: Seq<Vec<UpdatePackage>>) -> Seq<PackageView>
    decreases lists.len(),
{
    if lists.len() == 0 {
        Seq::<PackageView>::empty()
    } else {
        joined_views(lists.drop_last()) + views(lists.last()@)
    }
}

/// The update list of a scan: the lists of each package manager in the order
/// they are given (on Windows winget, then Windows Update), then the notice
/// of a pending restart when one is pending.
pub fn merge_updates(lists: Vec<Vec<UpdatePackage>>, reboot_pending: bool) -> (r: Vec<UpdatePackage>)
    ensures
        views(r@) == joined_views(lists@) + (if reboot_pending {
            seq![reboot_notice()]
        } else {
            Seq::<PackageView>::empty()
        }),
{
    let ghost ls = lists@;
    let mut all: Vec<UpdatePackage> = Vec::new();
    let mut lists = lists;
    let mut rest: Vec<Vec<UpdatePackage>> = Vec::new();
    // Taken from the end, so that appending keeps the given order.
    while lists.len() > 0
        invariant
            lists@.len() <= ls.len(),
            lists@ == ls.subrange(0, lists@.len() as int),
            rest@.len() == ls.len() - lists@.len(),
            forall|k: int| 0 <= k < rest@.len() ==> #[trigger] rest@[k] == ls[ls.len() - 1 - k],
        decreases lists@.len(),
    {
        let l = lists.pop().unwrap();
        rest.push(l);
        proof {
            assert(lists@ =~= ls.subrange(0, lists@.len() as int));
        }
    }
    assert(all@ =~= Seq::<UpdatePackage>::empty());
    assert(views(all@) =~= joined_views(ls.subrange(0, 0)));
    let mut i: usize = 0;
    let n = rest.len();
    assert(n == ls.len());
    while i < n
        invariant
            n == ls.len(),
            i <= n,
            forall|k: int| 0 <= k < rest@.len() ==> #[trigger] rest@[k] == ls[ls.len() - 1 - k],
            rest@.len() == n - i,
            views(all@) == joined_views(ls.subrange(0, i as int)),
        decreases n - i,
    {
        let ghost before = all@;
        let ghost rest0 = rest@;
        let mut l = rest.pop().unwrap();
        assert(l == rest0[rest0.len() - 1]);
        assert(l == ls[i as int]);
        all.append(&mut l);
        proof {
            assert(forall|k: int| 0 <= k < rest@.len() ==> rest@[k] == rest0[k]);
            assert(ls.subrange(0, i + 1).drop_last() =~= ls.subrange(0, i as int));
            assert(ls.subrange(0, i + 1).last() == ls[i as int]);
            assert(views(all@) =~= views(before) + views(ls[i as int]@));
        }
        i = i + 1;
    }
    assert(ls.subrange(0, n as int) =~= ls);
    if reboot_pending {
        let ghost before = all@;
        all.push(reboot_pending_package());
        assert(views(all@) =~= views(before) + seq![reboot_notice()]);
    } else {
        assert(views(all@) =~= views(all@) + Seq::<PackageView>::empty());
    }
    all
}

} // verus!
