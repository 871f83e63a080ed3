//! Programs started with the session: how each source lists them, how a
//! registry command line is reduced to its program, and how an item is
//! switched off and on again.
use vstd::prelude::*;

use crate::text::{
    byte_find, byte_find_exec, byte_offsets, byte_slice, byte_slice_exec, chars_of, contains,
    contains_seq, ends_with, find, find_char, find_seq, has_prefix, has_suffix, lines, lines_of,
    ascii_lower, ascii_text, byte_offset, lowercase, owned, push_str, replace_all, replace_all_exec, starts_with, string_of,
    string_of_range, text_eq, to_lowercase, trim, trim_chars, trim_str, utf8_len,
};

verus! {

/// A program started with the session.
pub struct StartupItem {
    pub name: String,
    pub path: String,
    pub enabled: bool,
    /// "registry", "folder", "desktop" or "launchagent".
    pub source: String,
}

/// Model of a [`StartupItem`].
pub struct ItemView {
    pub name: Seq<char>,
    pub path: Seq<char>,
    pub enabled: bool,
    pub source: Seq<char>,
}

impl View for StartupItem {
    type V = ItemView;

    open spec fn view(&self) -> ItemView {
        ItemView { name: self.name@, path: self.path@, enabled: self.enabled, source: self.source@ }
    }
}

/// The models of a list of items.
pub open spec fn item_views(v: Seq<StartupItem>) -> Seq<ItemView> {
    v.map_values(|i: StartupItem| i@)
}

// ─────────────────────────── registry command lines ─────────────────────────

/// A command line without its surrounding quotes: when it starts with `"`,
/// what lies before the next `"` (all of it when there is none).
pub open spec fn unquoted(t: Seq<char>) -> Seq<char> {
    if t.len() > 0 && t[0] == '"' {
        match find_seq(t.drop_first(), seq!['"']) {
            Some(e) => t.drop_first().subrange(0, e),
            None => t,
        }
    } else {
        t
    }
}

/// Where a command line is cut after its program: just after the first
/// `.exe`, else `.bat`, else `.cmd` found in its lower-cased form, as a byte
/// offset.
pub open spec fn program_end(c: Seq<char>) -> Option<int> {
    match byte_find(lowercase(c), ".exe"@) {
        Some(p) => Some(p + 4),
        None => match byte_find(lowercase(c), ".bat"@) {
            Some(p) => Some(p + 4),
            None => match byte_find(lowercase(c), ".cmd"@) {
                Some(p) => Some(p + 4),
                None => None,
            },
        },
    }
}

/// A command line can be cut where its program ends (the cut falls on a
/// character boundary).
pub open spec fn cut_allowed(raw: Seq<char>) -> bool {
    let c = unquoted(trim(raw));
    match program_end(c) {
        Some(k) => byte_slice(c, 0, k) is Some,
        None => true,
    }
}

/// The program of a registry command line, and whether it was cut at an
/// executable's extension (a path the caller then checks on disk).
pub open spec fn registry_program(raw: Seq<char>) -> (Seq<char>, bool) {
    let c = unquoted(trim(raw));
    match program_end(c) {
        Some(k) => (byte_slice(c, 0, k).unwrap(), true),
        None => (c, false),
    }
}

fn find_ext(lower: &[char], lower_offs: &Vec<u128>, ext: &str) -> (r: Option<u128>)
    requires
        lower_offs@.len() == lower@.len() + 1,
        forall|k: int| 0 <= k <= lower@.len() ==> lower_offs@[k] == crate::text::byte_offset(lower@, k),
    ensures
        match r {
            Some(p) => byte_find(lower@, ext@) == Some(p as int) && p <= 4 * lower@.len(),
            None => byte_find(lower@, ext@) is None,
        },
{
    let e = chars_of(ext);
    byte_find_exec(lower, lower_offs, e.as_slice())
}

/// Reduces a registry command line to its program, before the program's
/// existence is checked: trimmed, unquoted, and cut
/// after `.exe`, `.bat` or `.cmd`; the flag says whether it was cut.
pub fn clean_registry_path(raw: &str) -> (r: (String, bool))
    requires
        cut_allowed(raw@),
    ensures
        (r.0@, r.1) == registry_program(raw@),
{
    let c = unquoted_chars(raw);
    let cs = string_of(c.as_slice());
    let coffs = byte_offsets(c.as_slice());
    match cut_point(c.as_slice()) {
        Some(k) => {
            match byte_slice_exec(c.as_slice(), &coffs, 0, k) {
                Some(head) => (string_of(head.as_slice()), true),
                None => (cs, false),
            }
        },
        None => (cs, false),
    }
}

/// The program of a registry command line when it can be cut where its
/// program ends (`clean_registry_path`); `None` where the cut would fall
/// inside a character, where the program's own slicing panics.
pub fn registry_program_of(raw: &str) -> (r: Option<(String, bool)>)
    ensures
        cut_allowed(raw@) ==> (r matches Some(p) && (p.0@, p.1) == registry_program(raw@)),
        !cut_allowed(raw@) ==> r is None,
{
    if registry_cut_allowed(raw) {
        Some(clean_registry_path(raw))
    } else {
        None
    }
}

/// Whether a registry command line can be cut where its program ends, as
/// [`clean_registry_path`] requires.
pub fn registry_cut_allowed(raw: &str) -> (b: bool)
    ensures
        b == cut_allowed(raw@),
{
    let c = unquoted_chars(raw);
    let coffs = byte_offsets(c.as_slice());
    match cut_point(c.as_slice()) {
        Some(k) => byte_slice_exec(c.as_slice(), &coffs, 0, k).is_some(),
        None => true,
    }
}

fn unquoted_chars(raw: &str) -> (c: Vec<char>)
    ensures
        c@ == unquoted(trim(raw@)),
{
    let t = chars_of(raw);
    let tt = trim_chars(t.as_slice());
    if tt.len() > 0 && tt[0] == '"' {
        let rest = crate::text::slice_from(tt.as_slice(), 1);
        let q: Vec<char> = vec!['"'];
        assert(q@ =~= seq!['"']);
        assert(rest@ =~= tt@.drop_first());
        match find(rest.as_slice(), q.as_slice()) {
            Some(e) => crate::text::slice_range(rest.as_slice(), 0, e),
            None => tt,
        }
    } else {
        tt
    }
}

fn cut_point(c: &[char]) -> (r: Option<u128>)
    ensures
        match r {
            Some(k) => program_end(c@) == Some(k as int),
            None => program_end(c@) is None,
        },
{
    let cs = string_of(c);
    let lower = to_lowercase(cs.as_str());
    let lv = chars_of(lower.as_str());
    let loffs = byte_offsets(lv.as_slice());
    let n: usize = lv.len();
    assert(lv@.len() == n);
    let cut = match find_ext(lv.as_slice(), &loffs, ".exe") {
        Some(p) => Some(p),
        None => match find_ext(lv.as_slice(), &loffs, ".bat") {
            Some(p) => Some(p),
            None => find_ext(lv.as_slice(), &loffs, ".cmd"),
        },
    };
    match cut {
        Some(p) => Some(p + 4),
        None => None,
    }
}

/// Remembers which missing programs were already reported, so that each is
/// reported once.
pub struct WarnedPaths {
    paths: Vec<String>,
}

impl View for WarnedPaths {
    type V = Set<Seq<char>>;

    closed spec fn view(&self) -> Set<Seq<char>> {
        Set::new(|p: Seq<char>| exists|i: int| 0 <= i < self.paths@.len() && self.paths@[i]@ == p)
    }
}

impl WarnedPaths {
    /// Nothing reported yet.
    pub fn new() -> (w: Self)
        ensures
            w@ == Set::<Seq<char>>::empty(),
    {
        let w = WarnedPaths { paths: Vec::new() };
        assert(w@ =~= Set::<Seq<char>>::empty());
        w
    }

    /// Records a missing program; says whether it is reported now (the first
    /// time it is seen).
    pub fn first_warning(&mut self, path: &str) -> (first: bool)
        ensures
            first == !old(self)@.contains(path@),
            final(self)@ == old(self)@.insert(path@),
    {
        let mut i: usize = 0;
        while i < self.paths.len()
            invariant
                i <= self.paths@.len(),
                forall|j: int| 0 <= j < i ==> self.paths@[j]@ != path@,
            decreases self.paths@.len() - i,
        {
            if text_eq(self.paths[i].as_str(), path) {
                assert(self@ =~= old(self)@.insert(path@));
                return false;
            }
            i = i + 1;
        }
        let ghost before = self.paths@;
        self.paths.push(owned(path));
        assert(self@ =~= old(self)@.insert(path@)) by {
            assert forall|p: Seq<char>| self@.contains(p) <==> old(self)@.insert(path@).contains(p) by {
                if exists|k: int| 0 <= k < self.paths@.len() && self.paths@[k]@ == p {
                    let k = choose|k: int| 0 <= k < self.paths@.len() && self.paths@[k]@ == p;
                    if k < before.len() {
                        assert(before[k]@ == p);
                    }
                }
                if exists|k: int| 0 <= k < before.len() && before[k]@ == p {
                    let k = choose|k: int| 0 <= k < before.len() && before[k]@ == p;
                    assert(self.paths@[k]@ == p);
                }
                if p == path@ {
                    assert(self.paths@[before.len() as int]@ == p);
                }
            }
        }
        true
    }
}

/// A missing program is reported once: after its first report, reporting it
/// again says nothing new.
pub proof fn lemma_warned_once(s: Set<Seq<char>>, p: Seq<char>)
    ensures
        s.insert(p).contains(p),
        s.insert(p).insert(p) == s.insert(p),
{
    assert(s.insert(p).insert(p) =~= s.insert(p));
}

/// The warning written for a missing program.
pub fn missing_program_warning(path: &str) -> (r: String)
    ensures
        r@ == "Startup path not found (os error 2): "@ + path@,
{
    let mut r = owned("Startup path not found (os error 2): ");
    push_str(&mut r, path);
    r
}

/// The registry items: those of the Run keys, enabled, then those of the
/// backup key, disabled, unless an item of that name is already listed.
pub open spec fn registry_items_of(enabled: Seq<(Seq<char>, Seq<char>)>, disabled: Seq<(Seq<char>, Seq<char>)>) -> Seq<ItemView>
    decreases disabled.len(),
{
    if disabled.len() == 0 {
        enabled.map_values(|e: (Seq<char>, Seq<char>)| ItemView { name: e.0, path: e.1, enabled: true, source: "registry"@ })
    } else {
        let init = registry_items_of(enabled, disabled.drop_last());
        let d = disabled.last();
        if exists|k: int| 0 <= k < init.len() && init[k].name == d.0 {
            init
        } else {
            init.push(ItemView { name: d.0, path: d.1, enabled: false, source: "registry"@ })
        }
    }
}

fn name_listed(items: &Vec<StartupItem>, name: &str) -> (b: bool)
    ensures
        b == exists|k: int| 0 <= k < items@.len() && items@[k].name@ == name@,
{
    let mut i: usize = 0;
    while i < items.len()
        invariant
            i <= items@.len(),
            forall|k: int| 0 <= k < i ==> items@[k].name@ != name@,
        decreases items@.len() - i,
    {
        if text_eq(items[i].name.as_str(), name) {
            return true;
        }
        i = i + 1;
    }
    false
}

/// Lists the registry items, given the (name, program) values of the Run keys
/// and of the backup key.
pub fn registry_items(enabled: &Vec<(String, String)>, disabled: &Vec<(String, String)>) -> (r: Vec<StartupItem>)
    ensures
        item_views(r@) == registry_items_of(
            crate::browsers::pair_texts(enabled@),
            crate::browsers::pair_texts(disabled@),
        ),
{
    let ghost ev = crate::browsers::pair_texts(enabled@);
    let ghost dv = crate::browsers::pair_texts(disabled@);
    let mut items: Vec<StartupItem> = Vec::new();
    let mut i: usize = 0;
    while i < enabled.len()
        invariant
            i <= enabled@.len(),
            ev == crate::browsers::pair_texts(enabled@),
            item_views(items@) == ev.subrange(0, i as int).map_values(
                |e: (Seq<char>, Seq<char>)| ItemView { name: e.0, path: e.1, enabled: true, source: "registry"@ },
            ),
        decreases enabled@.len() - i,
    {
        let ghost before = item_views(items@);
        let it = StartupItem {
            name: enabled[i].0.clone(),
            path: enabled[i].1.clone(),
            enabled: true,
            source: owned("registry"),
        };
        assert(it@ == ItemView { name: ev[i as int].0, path: ev[i as int].1, enabled: true, source: "registry"@ });
        items.push(it);
        assert(item_views(items@) =~= before.push(it@));
        assert(ev.subrange(0, i + 1).map_values(
            |e: (Seq<char>, Seq<char>)| ItemView { name: e.0, path: e.1, enabled: true, source: "registry"@ },
        ) =~= ev.subrange(0, i as int).map_values(
            |e: (Seq<char>, Seq<char>)| ItemView { name: e.0, path: e.1, enabled: true, source: "registry"@ },
        ).push(it@));
        i = i + 1;
    }
    assert(ev.subrange(0, ev.len() as int) =~= ev);
    assert(dv.subrange(0, 0) =~= Seq::<(Seq<char>, Seq<char>)>::empty());
    let mut j: usize = 0;
    while j < disabled.len()
        invariant
            j <= disabled@.len(),
            ev == crate::browsers::pair_texts(enabled@),
            dv == crate::browsers::pair_texts(disabled@),
            item_views(items@) == registry_items_of(ev, dv.subrange(0, j as int)),
        decreases disabled@.len() - j,
    {
        assert(dv.subrange(0, j + 1).drop_last() =~= dv.subrange(0, j as int));
        let listed = name_listed(&items, disabled[j].0.as_str());
        proof {
            let init = registry_items_of(ev, dv.subrange(0, j as int));
            let d = dv[j as int].0;
            assert(init == item_views(items@));
            if listed {
                let k = choose|k: int| 0 <= k < items@.len() && items@[k].name@ == disabled@[j as int].0@;
                assert(init[k].name == d);
            } else {
                assert forall|k: int| 0 <= k < init.len() implies init[k].name != d by {
                    assert(init[k].name == items@[k].name@);
                }
            }
        }
        if !listed {
            let ghost before = item_views(items@);
            items.push(StartupItem {
                name: disabled[j].0.clone(),
                path: disabled[j].1.clone(),
                enabled: false,
                source: owned("registry"),
            });
            assert(item_views(items@) =~= before.push(
                ItemView { name: dv[j as int].0, path: dv[j as int].1, enabled: false, source: "registry"@ },
            ));
        }
        j = j + 1;
    }
    assert(dv.subrange(0, dv.len() as int) =~= dv);
    items
}

// ───────────────────────────── startup folder ─────────────────────────────

/// A name without a suffix matched in its lower-cased form; `None` when
/// cutting it would split a character.
pub open spec fn strip_suffix_ci(n: Seq<char>, suffix: Seq<char>) -> Option<Seq<char>> {
    if has_suffix(lowercase(n), suffix) {
        byte_slice(n, 0, utf8_len(n) - suffix.len())
    } else {
        Some(n)
    }
}

/// A file name without `.disabled` then `.lnk` (in any case).
pub open spec fn base_name(n: Seq<char>) -> Option<Seq<char>> {
    match strip_suffix_ci(n, ".disabled"@) {
        Some(m) => strip_suffix_ci(m, ".lnk"@),
        None => None,
    }
}

fn strip_suffix_ci_exec(n: &str, suffix: &str) -> (r: Option<String>)
    requires
        forall|i: int| 0 <= i < suffix@.len() ==> (suffix@[i] as u32) < 128,
    ensures
        match strip_suffix_ci(n@, suffix@) {
            Some(x) => r matches Some(y) && y@ == x,
            None => r is None,
        },
{
    let l = to_lowercase(n);
    let lv = chars_of(l.as_str());
    let sv = chars_of(suffix);
    if !ends_with(lv.as_slice(), sv.as_slice()) {
        return Some(owned(n));
    }
    let nv = chars_of(n);
    let offs = byte_offsets(nv.as_slice());
    let total = offs[nv.len()];
    assert(nv@.subrange(0, nv@.len() as int) =~= n@);
    proof {
        crate::text::lemma_ascii_utf8_len(suffix@);
    }
    let k = sv.len() as u128;
    if total < k {
        return None;
    }
    match byte_slice_exec(nv.as_slice(), &offs, 0, total - k) {
        Some(v) => Some(string_of(v.as_slice())),
        None => None,
    }
}

/// A file of the startup folder that stands for no item: a hidden file,
/// `desktop.ini`, `thumbs.db`, or an `.ini`, `.db` or `.txt` file.
pub open spec fn junk_file(n: Seq<char>) -> bool {
    let lower = lowercase(n);
    has_prefix(n, "."@) || lower == "desktop.ini"@ || lower == "thumbs.db"@ || has_suffix(lower, ".ini"@)
        || has_suffix(lower, ".db"@) || has_suffix(lower, ".txt"@)
}

/// Whether a file of the startup folder stands for no item.
pub fn is_junk_file(n: &str) -> (b: bool)
    ensures
        b == junk_file(n@),
{
    let v = chars_of(n);
    let dot = chars_of(".");
    let lower = to_lowercase(n);
    let lv = chars_of(lower.as_str());
    let e1 = chars_of(".ini");
    let e2 = chars_of(".db");
    let e3 = chars_of(".txt");
    starts_with(v.as_slice(), dot.as_slice()) || text_eq(lower.as_str(), "desktop.ini") || text_eq(
        lower.as_str(),
        "thumbs.db",
    ) || ends_with(lv.as_slice(), e1.as_slice()) || ends_with(lv.as_slice(), e2.as_slice())
        || ends_with(lv.as_slice(), e3.as_slice())
}

/// The name of a startup item's file can be cut at its extensions: this
/// fails only where a suffix that matches after lower-casing does not end on
/// a character boundary of the name.
pub open spec fn folder_name_ok(n: Seq<char>) -> bool {
    base_name(n) is Some
}

/// The item a file of the startup folder stands for, by its name: none for
/// hidden files and for `desktop.ini`, `thumbs.db` and `.ini`, `.db`, `.txt`
/// files; otherwise its base name, enabled unless it ends with `.disabled`.
pub open spec fn folder_entry_of(n: Seq<char>) -> Option<(Seq<char>, bool)> {
    let lower = lowercase(n);
    if has_prefix(n, "."@) {
        None
    } else if lower == "desktop.ini"@ || lower == "thumbs.db"@ {
        None
    } else if has_suffix(lower, ".ini"@) || has_suffix(lower, ".db"@) || has_suffix(lower, ".txt"@) {
        None
    } else {
        Some((base_name(n).unwrap(), !has_suffix(lower, ".disabled"@)))
    }
}

/// The base name of a file of the startup folder.
pub fn base_name_exec(n: &str) -> (r: Option<String>)
    ensures
        match base_name(n@) {
            Some(x) => r matches Some(y) && y@ == x,
            None => r is None,
        },
{
    proof {
        reveal_strlit(".disabled");
        reveal_strlit(".lnk");
    }
    match strip_suffix_ci_exec(n, ".disabled") {
        Some(m) => strip_suffix_ci_exec(m.as_str(), ".lnk"),
        None => None,
    }
}

/// Reads a file of the startup folder, before the file's existence is
/// checked: its item name and state, if it is one.
pub fn folder_entry(n: &str) -> (r: Option<(String, bool)>)
    requires
        !junk_file(n@) ==> folder_name_ok(n@),
    ensures
        match folder_entry_of(n@) {
            Some((name, enabled)) => r matches Some(x) && x.0@ == name && x.1 == enabled,
            None => r is None,
        },
{
    let v = chars_of(n);
    let dot = chars_of(".");
    if starts_with(v.as_slice(), dot.as_slice()) {
        return None;
    }
    let lower = to_lowercase(n);
    if text_eq(lower.as_str(), "desktop.ini") || text_eq(lower.as_str(), "thumbs.db") {
        return None;
    }
    let lv = chars_of(lower.as_str());
    let e1 = chars_of(".ini");
    let e2 = chars_of(".db");
    let e3 = chars_of(".txt");
    if ends_with(lv.as_slice(), e1.as_slice()) || ends_with(lv.as_slice(), e2.as_slice()) || ends_with(
        lv.as_slice(),
        e3.as_slice(),
    ) {
        return None;
    }
    let d = chars_of(".disabled");
    let disabled = ends_with(lv.as_slice(), d.as_slice());
    match base_name_exec(n) {
        Some(b) => Some((b, !disabled)),
        None => None,
    }
}

/// The name a startup-folder file is renamed to: with `.disabled` appended
/// to switch it off; without its `.disabled` (any case) to switch it back on,
/// and no renaming when it has none.
pub open spec fn toggled_name(n: Seq<char>, enabled: bool) -> Option<Seq<char>> {
    if !enabled {
        Some(n + ".disabled"@)
    } else if has_suffix(lowercase(n), ".disabled"@) {
        strip_suffix_ci(n, ".disabled"@)
    } else {
        None
    }
}

proof fn lemma_utf8_len_concat(a: Seq<char>, b: Seq<char>)
    ensures
        utf8_len(a + b) == utf8_len(a) + utf8_len(b),
    decreases b.len(),
{
    if b.len() == 0 {
        assert(a + b =~= a);
    } else {
        lemma_utf8_len_concat(a, b.drop_last());
        assert((a + b).drop_last() =~= a + b.drop_last());
        assert((a + b).last() == b.last());
    }
}

/// Once `.disabled` is appended to any name, switching on removes exactly
/// that suffix, provided the lowercase of the new name ends with it, as it
/// does for an ASCII name.
proof fn lemma_disable_enable(n: Seq<char>)
    requires
        has_suffix(lowercase(n + ".disabled"@), ".disabled"@),
    ensures
        toggled_name(n + ".disabled"@, true) == Some(n),
        strip_suffix_ci(n + ".disabled"@, ".disabled"@) == Some(n),
{
    reveal_strlit(".disabled");
    let d = ".disabled"@;
    let m = n + d;
    assert(ascii_text(d));
    crate::text::lemma_ascii_utf8_len(d);
    lemma_utf8_len_concat(n, d);
    assert(m.subrange(0, n.len() as int) =~= n);
    assert(m.subrange(0, 0) =~= Seq::<char>::empty());
    assert(byte_offset(m, 0) == 0);
    assert(byte_offset(m, n.len() as int) == utf8_len(n));
    let k = utf8_len(m) - d.len();
    assert(k == utf8_len(n));
    assert(exists|i: int, j: int|
        0 <= i <= j <= m.len() && byte_offset(m, i) == 0 && byte_offset(m, j) == k) by {
        assert(0 <= 0 <= n.len() <= m.len() && byte_offset(m, 0) == 0 && byte_offset(m, n.len() as int) == k);
    }
    let (i, j) = choose|i: int, j: int|
        0 <= i <= j <= m.len() && byte_offset(m, i) == 0 && byte_offset(m, j) == k;
    crate::text::lemma_byte_offset_injective(m, i, 0);
    crate::text::lemma_byte_offset_injective(m, j, n.len() as int);
    assert(byte_slice(m, 0, k) == Some(n));
}

proof fn lemma_ascii_disabled_suffix(n: Seq<char>)
    requires
        ascii_text(n),
        lowercase(n + ".disabled"@) == (n + ".disabled"@).map_values(|c: char| ascii_lower(c)),
    ensures
        has_suffix(lowercase(n + ".disabled"@), ".disabled"@),
{
    reveal_strlit(".disabled");
    let d = ".disabled"@;
    let l = lowercase(n + d);
    assert(l.subrange(l.len() - d.len(), l.len() as int) =~= d);
}

/// The new name of a file of the startup folder: switched off, the name with
/// `.disabled` appended; switched on, the name without its `.disabled` (in
/// any case), or no renaming when it has none. Switching a name off gives a
/// name that switching on turns back into it, whenever the lowercase of the
/// new name ends with `.disabled`, which holds for every ASCII name.
pub fn toggled_file_name(n: &str, enabled: bool) -> (r: Option<String>)
    requires
        strip_suffix_ci(n@, ".disabled"@) is Some,
    ensures
        match toggled_name(n@, enabled) {
            Some(x) => r matches Some(y) && y@ == x,
            None => r is None,
        },
        !enabled ==> (r matches Some(y) && (has_suffix(lowercase(y@), ".disabled"@) ==> toggled_name(y@, true)
            == Some(n@) && strip_suffix_ci(y@, ".disabled"@) == Some(n@))),
        !enabled && ascii_text(n@) ==> (r matches Some(y) && has_suffix(lowercase(y@), ".disabled"@)),
{
    if !enabled {
        let mut r = owned(n);
        push_str(&mut r, ".disabled");
        proof {
            reveal_strlit(".disabled");
        }
        // What switching on reads of the new name: its lowercase.
        let lowered = to_lowercase(r.as_str());
        proof {
            if ascii_text(n@) {
                assert(ascii_text(r@));
                lemma_ascii_disabled_suffix(n@);
            }
            if has_suffix(lowercase(r@), ".disabled"@) {
                lemma_disable_enable(n@);
            }
        }
        return Some(r);
    }
    let lower = to_lowercase(n);
    let lv = chars_of(lower.as_str());
    let d = chars_of(".disabled");
    proof {
        reveal_strlit(".disabled");
    }
    if ends_with(lv.as_slice(), d.as_slice()) {
        strip_suffix_ci_exec(n, ".disabled")
    } else {
        None
    }
}

/// What a file of the startup folder stands for, read by its name.
pub enum FolderFile {
    /// An item, with its name and whether it is on.
    Item { name: String, enabled: bool },
    /// A hidden or system file, or a text, ini or db file: no item.
    Skipped,
    /// A name whose `.disabled` or `.lnk` cannot be cut off at a character
    /// boundary once lower-cased.
    Unreadable,
}

/// Reads a file of the startup folder by its name, first testing that its
/// base name can be cut (which [`folder_entry`] requires).
pub fn read_folder_file(n: &str) -> (r: FolderFile)
    ensures
        !junk_file(n@) && !folder_name_ok(n@) ==> r is Unreadable,
        !(!junk_file(n@) && !folder_name_ok(n@)) ==> match folder_entry_of(n@) {
            Some((name, enabled)) => r matches FolderFile::Item { name: x, enabled: e } && x@ == name && e == enabled,
            None => r is Skipped,
        },
{
    if !is_junk_file(n) && base_name_exec(n).is_none() {
        return FolderFile::Unreadable;
    }
    match folder_entry(n) {
        Some((name, enabled)) => FolderFile::Item { name, enabled },
        None => FolderFile::Skipped,
    }
}

/// What switching an item of the startup folder does to the folder.
pub enum FolderToggle {
    /// Rename the file at this index of the listing to this name.
    Rename { index: usize, new_name: String },
    /// The item is found and keeps its name.
    Unchanged,
    /// No file has the item's name; the error to report.
    Missing { message: String },
    /// The file at this index has a name whose base name cannot be cut.
    Unreadable { index: usize },
}

/// The model of a [`FolderToggle`].
pub enum FolderStep {
    Rename { index: int, new_name: Seq<char> },
    Unchanged,
    Missing,
    Unreadable { index: int },
}

/// Switching an item of the startup folder, looking at the files from the
/// `i`-th on, in order: the first file whose base name is the item's is
/// renamed as [`toggled_name`] says (or kept when it says nothing); a file
/// whose base name cannot be cut before it stops the search.
pub open spec fn folder_step_from(files: Seq<Seq<char>>, name: Seq<char>, enabled: bool, i: int) -> FolderStep
    decreases files.len() - i,
{
    if 0 <= i < files.len() {
        match base_name(files[i]) {
            None => FolderStep::Unreadable { index: i },
            Some(b) => if b == name {
                match toggled_name(files[i], enabled) {
                    Some(x) => FolderStep::Rename { index: i, new_name: x },
                    None => FolderStep::Unchanged,
                }
            } else {
                folder_step_from(files, name, enabled, i + 1)
            },
        }
    } else {
        FolderStep::Missing
    }
}

proof fn lemma_skip_other_files(files: Seq<Seq<char>>, name: Seq<char>, enabled: bool, i: int)
    requires
        0 <= i <= files.len(),
        forall|j: int| 0 <= j < i ==> (#[trigger] base_name(files[j])) is Some && base_name(files[j]).unwrap() != name,
    ensures
        folder_step_from(files, name, enabled, 0) == folder_step_from(files, name, enabled, i),
    decreases i,
{
    if i > 0 {
        lemma_skip_other_files(files, name, enabled, i - 1);
        assert(base_name(files[i - 1]) is Some);
    }
}

/// Decides how to switch an item of the startup folder, given the names of
/// the folder's files in listing order. Switching off an item whose file is
/// on gives a renaming that switching on again, in the renamed folder, undoes,
/// whenever the lowercase of the new name ends with `.disabled` (always so for
/// an ASCII name).
pub fn folder_toggle(files: &Vec<String>, name: &str, enabled: bool) -> (r: FolderToggle)
    ensures
        match folder_step_from(crate::logging::texts_of(files@), name@, enabled, 0) {
            FolderStep::Rename { index, new_name } => r matches FolderToggle::Rename { index: k, new_name: y }
                && k == index && y@ == new_name,
            FolderStep::Unchanged => r is Unchanged,
            FolderStep::Missing => r matches FolderToggle::Missing { message }
                && message@ == "Startup item '"@ + name@ + "' not found in startup folder"@,
            FolderStep::Unreadable { index } => r matches FolderToggle::Unreadable { index: k } && k == index,
        },
        !enabled ==> (r matches FolderToggle::Rename { index, new_name } ==> (
            strip_suffix_ci(files@[index as int]@, ".disabled"@) == Some(files@[index as int]@)
            && has_suffix(lowercase(new_name@), ".disabled"@) ==> folder_step_from(
                crate::logging::texts_of(files@).update(index as int, new_name@),
                name@,
                true,
                0,
            ) == (FolderStep::Rename { index: index as int, new_name: files@[index as int]@ }))),
        !enabled ==> (r matches FolderToggle::Rename { index, new_name } ==> (ascii_text(files@[index as int]@)
            ==> has_suffix(lowercase(new_name@), ".disabled"@))),
{
    let ghost fs = crate::logging::texts_of(files@);
    let mut i: usize = 0;
    while i < files.len()
        invariant
            i <= files@.len(),
            fs == crate::logging::texts_of(files@),
            forall|j: int| 0 <= j < i ==> (#[trigger] base_name(fs[j])) is Some && base_name(fs[j]).unwrap() != name@,
        decreases files@.len() - i,
    {
        proof {
            lemma_skip_other_files(fs, name@, enabled, i as int);
        }
        assert(fs[i as int] == files@[i as int]@);
        match base_name_exec(files[i].as_str()) {
            None => {
                return FolderToggle::Unreadable { index: i };
            },
            Some(b) => {
                if text_eq(b.as_str(), name) {
                    proof {
                        reveal_strlit(".disabled");
                        reveal_strlit(".lnk");
                    }
                    let t = toggled_file_name(files[i].as_str(), enabled);
                    match t {
                        Some(x) => {
                            proof {
                                let f = fs[i as int];
                                let fs2 = fs.update(i as int, x@);
                                if !enabled && strip_suffix_ci(f, ".disabled"@) == Some(f) && has_suffix(
                                    lowercase(x@),
                                    ".disabled"@,
                                ) {
                                    assert forall|j: int| 0 <= j < i implies (#[trigger] base_name(fs2[j])) is Some
                                        && base_name(fs2[j]).unwrap() != name@ by {
                                        assert(fs2[j] == fs[j]);
                                        assert(base_name(fs[j]) is Some);
                                    }
                                    lemma_skip_other_files(fs2, name@, true, i as int);
                                    assert(fs2[i as int] == x@);
                                    assert(base_name(x@) == base_name(f));
                                }
                            }
                            return FolderToggle::Rename { index: i, new_name: x };
                        },
                        None => {
                            return FolderToggle::Unchanged;
                        },
                    }
                }
            },
        }
        i = i + 1;
    }
    proof {
        lemma_skip_other_files(fs, name@, enabled, i as int);
    }
    FolderToggle::Missing { message: folder_item_missing(name) }
}

/// The error when the startup folder is missing.
pub fn startup_folder_missing() -> (r: String)
    ensures
        r@ == "Startup folder not found"@,
{
    owned("Startup folder not found")
}

/// The error when no file of the startup folder has the item's name.
pub fn folder_item_missing(name: &str) -> (r: String)
    ensures
        r@ == "Startup item '"@ + name@ + "' not found in startup folder"@,
{
    let mut r = owned("Startup item '");
    push_str(&mut r, name);
    push_str(&mut r, "' not found in startup folder");
    r
}

/// Where a Windows item is switched.
pub enum ToggleRoute {
    Registry,
    Folder,
}

/// Routes a Windows toggle by the item's source.
pub fn toggle_impl(source: &str) -> (r: Result<ToggleRoute, String>)
    ensures
        source@ == "registry"@ ==> (r matches Ok(ToggleRoute::Registry)),
        source@ == "folder"@ ==> (r matches Ok(ToggleRoute::Folder)),
        source@ != "registry"@ && source@ != "folder"@ ==> (r matches Err(e) && e@
            == "Unknown source type: "@ + source@),
{
    proof {
        reveal_strlit("registry");
        reveal_strlit("folder");
        assert("registry"@[0] != "folder"@[0]);
    }
    if text_eq(source, "registry") {
        Ok(ToggleRoute::Registry)
    } else if text_eq(source, "folder") {
        Ok(ToggleRoute::Folder)
    } else {
        let mut e = owned("Unknown source type: ");
        push_str(&mut e, source);
        Err(e)
    }
}

// ──────────────────────────── Linux and macOS ─────────────────────────────

/// The value of the first `Name=` line of a desktop entry.
pub open spec fn desktop_name(ls: Seq<Seq<char>>) -> Option<Seq<char>>
    decreases ls.len(),
{
    if ls.len() == 0 {
        None
    } else if has_prefix(ls[0], "Name="@) {
        Some(ls[0].subrange(5, ls[0].len() as int))
    } else {
        desktop_name(ls.drop_first())
    }
}

/// A desktop entry hides its program.
pub open spec fn desktop_hidden(ls: Seq<Seq<char>>) -> bool {
    exists|k: int|
        0 <= k < ls.len() && (trim(ls[k]) == "Hidden=true"@ || trim(ls[k])
            == "X-GNOME-Autostart-enabled=false"@)
}

/// A file of the autostart folder is a desktop entry (extension `desktop`).
pub open spec fn is_desktop_file(n: Seq<char>) -> bool {
    has_suffix(n, ".desktop"@) && n.len() >= 9
}

fn desktop_name_exec(ls: &Vec<Vec<char>>) -> (r: Option<String>)
    ensures
        match desktop_name(ls@.map_values(|l: Vec<char>| l@)) {
            Some(x) => r matches Some(y) && y@ == x,
            None => r is None,
        },
{
    let ghost sl = ls@.map_values(|l: Vec<char>| l@);
    let p = chars_of("Name=");
    proof {
        reveal_strlit("Name=");
    }
    assert(sl.subrange(0, sl.len() as int) =~= sl);
    let mut i: usize = 0;
    while i < ls.len()
        invariant
            i <= ls@.len(),
            sl == ls@.map_values(|l: Vec<char>| l@),
            p@ == "Name="@,
            p@.len() == 5,
            desktop_name(sl) == desktop_name(sl.subrange(i as int, sl.len() as int)),
        decreases ls@.len() - i,
    {
        assert(sl.subrange(i as int, sl.len() as int).drop_first() =~= sl.subrange(i + 1, sl.len() as int));
        if starts_with(ls[i].as_slice(), p.as_slice()) {
            let n = ls[i].len();
            return Some(string_of_range(ls[i].as_slice(), 5, n));
        }
        i = i + 1;
    }
    None
}

/// Reads a desktop entry of the autostart folder: its name (the `Name=`
/// line, else the file name) and whether it is enabled.
pub fn desktop_item(file_name: &str, content: &str) -> (r: (String, bool))
    ensures
        r.0@ == match desktop_name(lines(content@)) {
            Some(n) => n,
            None => file_name@,
        },
        r.1 == !desktop_hidden(lines(content@)),
{
    let ls = lines_of(content);
    let ghost sl = lines(content@);
    assert(ls@.map_values(|l: Vec<char>| l@) =~= sl);
    let name = match desktop_name_exec(&ls) {
        Some(n) => n,
        None => owned(file_name),
    };
    let mut hidden = false;
    let mut i: usize = 0;
    while i < ls.len()
        invariant
            i <= ls@.len(),
            sl == lines(content@),
            ls@.len() == sl.len(),
            forall|k: int| 0 <= k < ls@.len() ==> ls@[k]@ == sl[k],
            hidden == exists|k: int|
                0 <= k < i && (trim(sl[k]) == "Hidden=true"@ || trim(sl[k])
                    == "X-GNOME-Autostart-enabled=false"@),
        decreases ls@.len() - i,
    {
        let t = crate::text::trim_string(ls[i].as_slice());
        assert(t@ == trim(sl[i as int]));
        let hit = text_eq(t.as_str(), "Hidden=true") || text_eq(t.as_str(), "X-GNOME-Autostart-enabled=false");
        proof {
            if hit {
                assert(0 <= i < i + 1 && (trim(sl[i as int]) == "Hidden=true"@ || trim(sl[i as int])
                    == "X-GNOME-Autostart-enabled=false"@));
            } else {
                assert forall|k: int| 0 <= k < i + 1 && (trim(sl[k]) == "Hidden=true"@ || trim(sl[k])
                    == "X-GNOME-Autostart-enabled=false"@) implies k < i by {}
            }
        }
        if hit {
            hidden = true;
        }
        i = i + 1;
    }
    (name, !hidden)
}

/// Whether a desktop entry is the item asked for: its `Name=` value (empty
/// when it has none) is the name, or its file name contains the name.
pub open spec fn desktop_matches(content: Seq<char>, file_name: Seq<char>, name: Seq<char>) -> bool {
    (match desktop_name(lines(content)) {
        Some(n) => n,
        None => Seq::<char>::empty(),
    }) == name || contains_seq(file_name, name)
}

/// Whether a desktop entry is the item asked for.
pub fn desktop_entry_matches(content: &str, file_name: &str, name: &str) -> (b: bool)
    ensures
        b == desktop_matches(content@, file_name@, name@),
{
    let ls = lines_of(content);
    assert(ls@.map_values(|l: Vec<char>| l@) =~= lines(content@));
    let n = match desktop_name_exec(&ls) {
        Some(n) => n,
        None => String::new(),
    };
    let f = chars_of(file_name);
    let nv = chars_of(name);
    text_eq(n.as_str(), name) || contains(f.as_slice(), nv.as_slice())
}

/// A desktop entry switched on or off.
pub open spec fn desktop_toggled_of(content: Seq<char>, enabled: bool) -> Seq<char> {
    if enabled {
        replace_all(
            replace_all(content, "Hidden=true"@, "Hidden=false"@),
            "X-GNOME-Autostart-enabled=false"@,
            "X-GNOME-Autostart-enabled=true"@,
        )
    } else if contains_seq(content, "Hidden="@) {
        replace_all(content, "Hidden=false"@, "Hidden=true"@)
    } else {
        content + "\nHidden=true\n"@
    }
}

/// Switches a desktop entry on or off, once the entry is found.
pub fn desktop_toggled(content: &str, enabled: bool) -> (r: String)
    ensures
        r@ == desktop_toggled_of(content@, enabled),
{
    proof {
        reveal_strlit("Hidden=true");
        reveal_strlit("Hidden=false");
        reveal_strlit("X-GNOME-Autostart-enabled=false");
    }
    if enabled {
        let a = replace_all_exec(content, "Hidden=true", "Hidden=false");
        replace_all_exec(a.as_str(), "X-GNOME-Autostart-enabled=false", "X-GNOME-Autostart-enabled=true")
    } else {
        let c = chars_of(content);
        let h = chars_of("Hidden=");
        if contains(c.as_slice(), h.as_slice()) {
            replace_all_exec(content, "Hidden=false", "Hidden=true")
        } else {
            let mut r = owned(content);
            push_str(&mut r, "\nHidden=true\n");
            r
        }
    }
}

/// A file of the launch agents folder is a property list (extension `plist`).
pub open spec fn is_plist_file(n: Seq<char>) -> bool {
    has_suffix(n, ".plist"@) && n.len() >= 7
}

/// The name of a launch agent: its file name without `.plist`.
pub fn agent_name(file_name: &str) -> (r: String)
    requires
        is_plist_file(file_name@),
    ensures
        r@ == file_name@.subrange(0, file_name@.len() - 6),
{
    proof {
        reveal_strlit(".plist");
    }
    let v = chars_of(file_name);
    let n = v.len();
    string_of_range(v.as_slice(), 0, n - 6)
}

/// A launch agent is disabled: it has a `Disabled` key and a `<true/>` value.
pub open spec fn plist_disabled(content: Seq<char>) -> bool {
    contains_seq(content, "<key>Disabled</key>"@) && contains_seq(content, "<true/>"@)
}

/// Whether a launch agent is enabled.
pub fn agent_enabled(content: &str) -> (b: bool)
    ensures
        b == !plist_disabled(content@),
{
    let c = chars_of(content);
    let k = chars_of("<key>Disabled</key>");
    let t = chars_of("<true/>");
    !(contains(c.as_slice(), k.as_slice()) && contains(c.as_slice(), t.as_slice()))
}

/// A launch agent switched on or off.
pub open spec fn plist_toggled_of(content: Seq<char>, enabled: bool) -> Seq<char> {
    if enabled {
        replace_all(content, "<key>Disabled</key>\n\t<true/>"@, "<key>Disabled</key>\n\t<false/>"@)
    } else if contains_seq(content, "<key>Disabled</key>"@) {
        replace_all(content, "<key>Disabled</key>\n\t<false/>"@, "<key>Disabled</key>\n\t<true/>"@)
    } else {
        replace_all(content, "</dict>"@, "<key>Disabled</key>\n\t<true/>\n</dict>"@)
    }
}

/// Switches a launch agent on or off, once the agent is found.
pub fn plist_toggled(content: &str, enabled: bool) -> (r: String)
    ensures
        r@ == plist_toggled_of(content@, enabled),
{
    proof {
        reveal_strlit("<key>Disabled</key>\n\t<true/>");
        reveal_strlit("<key>Disabled</key>\n\t<false/>");
        reveal_strlit("</dict>");
    }
    if enabled {
        replace_all_exec(content, "<key>Disabled</key>\n\t<true/>", "<key>Disabled</key>\n\t<false/>")
    } else {
        let c = chars_of(content);
        let k = chars_of("<key>Disabled</key>");
        if contains(c.as_slice(), k.as_slice()) {
            replace_all_exec(content, "<key>Disabled</key>\n\t<false/>", "<key>Disabled</key>\n\t<true/>")
        } else {
            replace_all_exec(content, "</dict>", "<key>Disabled</key>\n\t<true/>\n</dict>")
        }
    }
}

/// The errors when no entry matches, on Linux and on macOS.
pub fn toggle_not_found(mac: bool) -> (r: String)
    ensures
        r@ == if mac { "Launch agent not found"@ } else { "Startup item not found"@ },
{
    if mac {
        owned("Launch agent not found")
    } else {
        owned("Startup item not found")
    }
}

} // verus!
