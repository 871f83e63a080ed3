//! Processes: which ones the dashboard lists as heavy, which ones the game
//! mode pauses, and the commands and report of the game mode.
use vstd::prelude::*;

use crate::config::{profile_views, ProfileView, TurboProfile};
use crate::shell::{command2, powershell, CommandView, ShellCommand};
use crate::text::{
    chars_of, contains, contains_seq, decimal, join, lowercase, owned, push_decimal, push_str,
    text_eq, to_lowercase,
};

verus! {

// ──────────────────────────── heavy processes ─────────────────────────────

/// A running process as the list reads it: its id, name and memory in bytes.
pub struct ProcessEntry {
    pub pid: u32,
    pub name: String,
    pub memory_bytes: u64,
}

/// A process the list may show: it has a name, and it is neither the idle
/// process nor a service host.
pub open spec fn listable(name: Seq<char>) -> bool {
    name.len() > 0 && name != "System Idle Process"@ && name != "svchost.exe"@
}

/// Memory in whole MB.
pub open spec fn memory_mb(bytes: u64) -> nat {
    bytes as nat / 1048576
}

/// The (index, MB) of the listable processes, in order.
pub open spec fn listable_entries(ps: Seq<ProcessEntry>) -> Seq<(int, nat)>
    decreases ps.len(),
{
    if ps.len() == 0 {
        Seq::<(int, nat)>::empty()
    } else {
        let init = listable_entries(ps.drop_last());
        if listable(ps.last().name@) {
            init.push(((ps.len() - 1) as int, memory_mb(ps.last().memory_bytes)))
        } else {
            init
        }
    }
}

/// `x` placed after every entry using at least as much memory.
pub open spec fn insert_by_memory(s: Seq<(int, nat)>, x: (int, nat)) -> Seq<(int, nat)>
    decreases s.len(),
{
    if s.len() == 0 {
        seq![x]
    } else if s[0].1 < x.1 {
        seq![x] + s
    } else {
        seq![s[0]] + insert_by_memory(s.drop_first(), x)
    }
}

/// Entries sorted by memory, largest first, equal ones keeping their order.
pub open spec fn sort_by_memory(s: Seq<(int, nat)>) -> Seq<(int, nat)>
    decreases s.len(),
{
    if s.len() == 0 {
        s
    } else {
        insert_by_memory(sort_by_memory(s.drop_last()), s.last())
    }
}

/// How many processes the list shows at most.
pub open spec fn heavy_limit() -> nat {
    30
}

/// The processes listed as heavy: the listable ones by memory, largest
/// first, at most thirty; given as indices into the process list.
pub open spec fn heavy_processes(ps: Seq<ProcessEntry>) -> Seq<int> {
    let sorted = sort_by_memory(listable_entries(ps));
    let kept = if sorted.len() > 30 { sorted.take(30) } else { sorted };
    kept.map_values(|e: (int, nat)| e.0)
}

proof fn lemma_insert_by_memory_at(s: Seq<(int, nat)>, x: (int, nat), k: int)
    requires
        0 <= k <= s.len(),
        forall|j: int| 0 <= j < k ==> (#[trigger] s[j]).1 >= x.1,
        k < s.len() ==> s[k].1 < x.1,
    ensures
        insert_by_memory(s, x) == s.insert(k, x),
    decreases s.len(),
{
    if s.len() == 0 {
        assert(s.insert(k, x) =~= seq![x]);
    } else if k == 0 {
        assert(s.insert(0, x) =~= seq![x] + s);
    } else {
        let t = s.drop_first();
        assert forall|j: int| 0 <= j < k - 1 implies (#[trigger] t[j]).1 >= x.1 by {
            assert(t[j] == s[j + 1]);
        }
        lemma_insert_by_memory_at(t, x, k - 1);
        assert(s.insert(k, x) =~= seq![s[0]] + t.insert(k - 1, x));
    }
}

/// A list whose memory figures never increase.
pub open spec fn by_memory_desc(s: Seq<(int, nat)>) -> bool {
    forall|i: int, j: int| 0 <= i < j < s.len() ==> (#[trigger] s[i]).1 >= (#[trigger] s[j]).1
}

proof fn lemma_insert_by_memory(s: Seq<(int, nat)>, x: (int, nat))
    requires
        by_memory_desc(s),
    ensures
        by_memory_desc(insert_by_memory(s, x)),
        insert_by_memory(s, x).len() == s.len() + 1,
        forall|k: int|
            0 <= k < insert_by_memory(s, x).len() ==> #[trigger] insert_by_memory(s, x)[k] == x
                || s.contains(insert_by_memory(s, x)[k]),
    decreases s.len(),
{
    let r = insert_by_memory(s, x);
    if s.len() == 0 {
    } else if s[0].1 < x.1 {
        assert forall|k: int| 0 <= k < r.len() implies #[trigger] r[k] == x || s.contains(r[k]) by {
            if k > 0 {
                assert(r[k] == s[k - 1]);
            }
        }
    } else {
        let t = s.drop_first();
        assert(by_memory_desc(t)) by {
            assert forall|i: int, j: int| 0 <= i < j < t.len() implies (#[trigger] t[i]).1 >= (
            #[trigger] t[j]).1 by {
                assert(t[i] == s[i + 1] && t[j] == s[j + 1]);
            }
        }
        lemma_insert_by_memory(t, x);
        let u = insert_by_memory(t, x);
        assert(r == seq![s[0]] + u);
        assert forall|k: int| 0 <= k < r.len() implies #[trigger] r[k] == x || s.contains(r[k]) by {
            if k == 0 {
                assert(s.contains(s[0]));
            } else {
                assert(r[k] == u[k - 1]);
                if u[k - 1] != x {
                    let m = choose|m: int| 0 <= m < t.len() && t[m] == u[k - 1];
                    assert(s[m + 1] == t[m]);
                }
            }
        }
        assert forall|i: int, j: int| 0 <= i < j < r.len() implies (#[trigger] r[i]).1 >= (
        #[trigger] r[j]).1 by {
            if i == 0 {
                assert(r[j] == u[j - 1]);
                if u[j - 1] == x {
                } else {
                    let m = choose|m: int| 0 <= m < t.len() && t[m] == u[j - 1];
                    assert(s[m + 1] == t[m]);
                }
            } else {
                assert(r[i] == u[i - 1] && r[j] == u[j - 1]);
            }
        }
    }
}

proof fn lemma_sort_by_memory(s: Seq<(int, nat)>)
    ensures
        by_memory_desc(sort_by_memory(s)),
        sort_by_memory(s).len() == s.len(),
        forall|k: int| 0 <= k < sort_by_memory(s).len() ==> s.contains(#[trigger] sort_by_memory(s)[k]),
    decreases s.len(),
{
    if s.len() > 0 {
        let p = s.drop_last();
        lemma_sort_by_memory(p);
        lemma_insert_by_memory(sort_by_memory(p), s.last());
        let r = sort_by_memory(s);
        assert forall|k: int| 0 <= k < r.len() implies s.contains(#[trigger] r[k]) by {
            if r[k] == s.last() {
                assert(s[s.len() - 1] == s.last());
            } else {
                let q = sort_by_memory(p);
                let m = choose|m: int| 0 <= m < q.len() && q[m] == r[k];
                assert(p.contains(q[m]));
                let n = choose|n: int| 0 <= n < p.len() && p[n] == q[m];
                assert(s[n] == p[n]);
            }
        }
    }
}

proof fn lemma_listable_entries(ps: Seq<ProcessEntry>)
    ensures
        forall|k: int|
            0 <= k < listable_entries(ps).len() ==> {
                let e = #[trigger] listable_entries(ps)[k];
                &&& 0 <= e.0 < ps.len()
                &&& listable(ps[e.0].name@)
                &&& e.1 == memory_mb(ps[e.0].memory_bytes)
            },
    decreases ps.len(),
{
    if ps.len() > 0 {
        let p = ps.drop_last();
        lemma_listable_entries(p);
        let init = listable_entries(p);
        assert forall|k: int| 0 <= k < init.len() implies {
            let e = #[trigger] init[k];
            &&& 0 <= e.0 < ps.len()
            &&& listable(ps[e.0].name@)
            &&& e.1 == memory_mb(ps[e.0].memory_bytes)
        } by {
            assert(ps[init[k].0] == p[init[k].0]);
        }
    }
}

/// The processes listed as heavy are at most thirty listable processes of the
/// list, shown by decreasing memory.
pub proof fn lemma_heavy_processes(ps: Seq<ProcessEntry>)
    ensures
        heavy_processes(ps).len() <= heavy_limit(),
        forall|k: int|
            0 <= k < heavy_processes(ps).len() ==> 0 <= #[trigger] heavy_processes(ps)[k] < ps.len()
                && listable(ps[heavy_processes(ps)[k]].name@),
        forall|i: int, j: int|
            0 <= i < j < heavy_processes(ps).len() ==> memory_mb(
                ps[#[trigger] heavy_processes(ps)[i]].memory_bytes,
            ) >= memory_mb(ps[#[trigger] heavy_processes(ps)[j]].memory_bytes),
{
    let l = listable_entries(ps);
    lemma_listable_entries(ps);
    lemma_sort_by_memory(l);
    let sorted = sort_by_memory(l);
    let kept = if sorted.len() > 30 { sorted.take(30) } else { sorted };
    let h = heavy_processes(ps);
    assert(h == kept.map_values(|e: (int, nat)| e.0));
    assert forall|k: int| 0 <= k < kept.len() implies {
        let e = #[trigger] kept[k];
        &&& 0 <= e.0 < ps.len()
        &&& listable(ps[e.0].name@)
        &&& e.1 == memory_mb(ps[e.0].memory_bytes)
    } by {
        assert(kept[k] == sorted[k]);
        let m = choose|m: int| 0 <= m < l.len() && l[m] == sorted[k];
        assert(l[m] == kept[k]);
    }
    assert forall|i: int, j: int| 0 <= i < j < h.len() implies memory_mb(
        ps[#[trigger] h[i]].memory_bytes,
    ) >= memory_mb(ps[#[trigger] h[j]].memory_bytes) by {
        assert(h[i] == kept[i].0 && h[j] == kept[j].0);
        assert(kept[i] == sorted[i] && kept[j] == sorted[j]);
    }
}

fn is_listable(name: &str) -> (b: bool)
    ensures
        b == listable(name@),
{
    !name.is_empty() && !text_eq(name, "System Idle Process") && !text_eq(name, "svchost.exe")
}

/// The heavy processes among those read: the indices of those to show, in
/// the order shown.
pub fn get_heavy_processes(ps: &Vec<ProcessEntry>) -> (r: Vec<usize>)
    ensures
        r@.map_values(|i: usize| i as int) == heavy_processes(ps@),
{
    let mut sorted: Vec<(usize, u64)> = Vec::new();
    let mut i: usize = 0;
    while i < ps.len()
        invariant
            i <= ps@.len(),
            sorted@.map_values(|e: (usize, u64)| (e.0 as int, e.1 as nat)) == sort_by_memory(
                listable_entries(ps@.subrange(0, i as int)),
            ),
        decreases ps@.len() - i,
    {
        let ghost sub = ps@.subrange(0, i + 1);
        assert(sub.drop_last() =~= ps@.subrange(0, i as int));
        if is_listable(ps[i].name.as_str()) {
            let mb = ps[i].memory_bytes / 1048576;
            let mut pos: usize = 0;
            while pos < sorted.len()
                invariant
                    pos <= sorted@.len(),
                    forall|j: int| 0 <= j < pos ==> (#[trigger] sorted@[j]).1 >= mb,
                ensures
                    pos <= sorted@.len(),
                    forall|j: int| 0 <= j < pos ==> (#[trigger] sorted@[j]).1 >= mb,
                    pos < sorted@.len() ==> sorted@[pos as int].1 < mb,
                decreases sorted@.len() - pos,
            {
                if sorted[pos].1 < mb {
                    break;
                }
                pos = pos + 1;
            }
            let ghost before = sorted@.map_values(|e: (usize, u64)| (e.0 as int, e.1 as nat));
            let ghost x = (i as int, mb as nat);
            proof {
                lemma_insert_by_memory_at(before, x, pos as int);
            }
            sorted.insert(pos, (i, mb));
            assert(sorted@.map_values(|e: (usize, u64)| (e.0 as int, e.1 as nat)) =~= before.insert(
                pos as int,
                x,
            ));
            let ghost l = listable_entries(sub);
            assert(l.drop_last() =~= listable_entries(ps@.subrange(0, i as int)));
        }
        i = i + 1;
    }
    assert(ps@.subrange(0, ps@.len() as int) =~= ps@);
    let n = if sorted.len() > 30 {
        30
    } else {
        sorted.len()
    };
    let mut r: Vec<usize> = Vec::new();
    let mut k: usize = 0;
    while k < n
        invariant
            k <= n <= sorted@.len(),
            r@.len() == k,
            forall|j: int| 0 <= j < k ==> r@[j] == (#[trigger] sorted@[j]).0,
        decreases n - k,
    {
        r.push(sorted[k].0);
        k = k + 1;
    }
    let ghost sv = sorted@.map_values(|e: (usize, u64)| (e.0 as int, e.1 as nat));
    assert(r@.map_values(|i: usize| i as int) =~= (if sv.len() > 30 {
        sv.take(30)
    } else {
        sv
    }).map_values(|e: (int, nat)| e.0));
    r
}

/// The outcome of a request to end a process.
pub fn kill_outcome(found: bool, pid: u32) -> (r: Result<bool, String>)
    ensures
        found ==> r == Ok::<bool, String>(true),
        !found ==> (r matches Err(e) && e@ == "Process "@ + decimal(pid as nat) + " not found"@),
{
    if found {
        Ok(true)
    } else {
        let mut e = owned("Process ");
        push_decimal(&mut e, pid as u64);
        push_str(&mut e, " not found");
        Err(e)
    }
}

// ─────────────────────────────── game mode ────────────────────────────────

/// The programs the game mode pauses unless the profile spares them.
pub open spec fn default_targets() -> Seq<Seq<char>> {
    seq![
        "chrome"@, "msedge"@, "spotify"@, "discord"@, "teams"@, "adobe"@, "onedrive"@,
        "searchindexer"@, "widgets"@, "cortana"@, "yourphone"@, "gamebar"@, "skype"@, "slack"@,
        "zoom"@, "dropbox"@, "googledrive"@, "icloud"@,
    ]
}

/// Some fragment of the list occurs in the name.
pub open spec fn mentions_any(name: Seq<char>, fragments: Seq<Seq<char>>) -> bool {
    exists|k: int| 0 <= k < fragments.len() && contains_seq(name, fragments[k])
}

/// The lower-cased fragments of a list.
pub open spec fn lowered(v: Seq<Seq<char>>) -> Seq<Seq<char>> {
    v.map_values(|s: Seq<char>| lowercase(s))
}

/// Whether the game mode pauses a process: its lower-cased name holds no
/// whitelisted fragment, and holds a default target or a blacklisted fragment.
pub open spec fn is_target(name: Seq<char>, profile: Option<ProfileView>) -> bool {
    let n = lowercase(name);
    let (white, black) = match profile {
        Some(p) => (lowered(p.whitelist), lowered(p.blacklist)),
        None => (Seq::<Seq<char>>::empty(), Seq::<Seq<char>>::empty()),
    };
    !mentions_any(n, white) && (mentions_any(n, default_targets()) || mentions_any(n, black))
}

fn default_target_list() -> (v: Vec<Vec<char>>)
    ensures
        v@.map_values(|x: Vec<char>| x@) == default_targets(),
{
    let mut v: Vec<Vec<char>> = Vec::new();
    v.push(chars_of("chrome"));
    v.push(chars_of("msedge"));
    v.push(chars_of("spotify"));
    v.push(chars_of("discord"));
    v.push(chars_of("teams"));
    v.push(chars_of("adobe"));
    v.push(chars_of("onedrive"));
    v.push(chars_of("searchindexer"));
    v.push(chars_of("widgets"));
    v.push(chars_of("cortana"));
    v.push(chars_of("yourphone"));
    v.push(chars_of("gamebar"));
    v.push(chars_of("skype"));
    v.push(chars_of("slack"));
    v.push(chars_of("zoom"));
    v.push(chars_of("dropbox"));
    v.push(chars_of("googledrive"));
    v.push(chars_of("icloud"));
    assert(v@.map_values(|x: Vec<char>| x@) =~= default_targets());
    v
}

fn lowered_list(v: &Vec<String>) -> (r: Vec<Vec<char>>)
    ensures
        r@.map_values(|x: Vec<char>| x@) == lowered(v@.map_values(|s: String| s@)),
{
    let mut r: Vec<Vec<char>> = Vec::new();
    let mut i: usize = 0;
    while i < v.len()
        invariant
            i <= v@.len(),
            r@.len() == i,
            forall|k: int| 0 <= k < i ==> (#[trigger] r@[k])@ == lowercase(v@[k]@),
        decreases v@.len() - i,
    {
        let l = to_lowercase(v[i].as_str());
        r.push(chars_of(l.as_str()));
        i = i + 1;
    }
    assert(r@.map_values(|x: Vec<char>| x@) =~= lowered(v@.map_values(|s: String| s@)));
    r
}

fn mentions_any_exec(name: &[char], fragments: &Vec<Vec<char>>) -> (b: bool)
    ensures
        b == mentions_any(name@, fragments@.map_values(|x: Vec<char>| x@)),
{
    let ghost fv = fragments@.map_values(|x: Vec<char>| x@);
    let mut k: usize = 0;
    while k < fragments.len()
        invariant
            k <= fragments@.len(),
            fv == fragments@.map_values(|x: Vec<char>| x@),
            forall|j: int| 0 <= j < k ==> !contains_seq(name@, #[trigger] fv[j]),
        decreases fragments@.len() - k,
    {
        if contains(name, fragments[k].as_slice()) {
            assert(contains_seq(name@, fv[k as int]));
            return true;
        }
        k = k + 1;
    }
    false
}

/// The processes the game mode pauses or resumes, in order.
pub open spec fn game_targets(procs: Seq<(u32, String)>, profile: Option<ProfileView>) -> Seq<(u32, Seq<char>)>
    decreases procs.len(),
{
    if procs.len() == 0 {
        Seq::<(u32, Seq<char>)>::empty()
    } else {
        let init = game_targets(procs.drop_last(), profile);
        if is_target(procs.last().1@, profile) {
            init.push((procs.last().0, procs.last().1@))
        } else {
            init
        }
    }
}

proof fn lemma_game_targets_members(procs: Seq<(u32, String)>, profile: Option<ProfileView>)
    ensures
        forall|i: int| 0 <= i < procs.len() && is_target(#[trigger] procs[i].1@, profile)
            ==> game_targets(procs, profile).contains((procs[i].0, procs[i].1@)),
        forall|t: (u32, Seq<char>)| game_targets(procs, profile).contains(t) ==> exists|i: int|
            0 <= i < procs.len() && t == (procs[i].0, procs[i].1@) && is_target(#[trigger] procs[i].1@, profile),
    decreases procs.len(),
{
    if procs.len() > 0 {
        let w = procs.drop_last();
        lemma_game_targets_members(w, profile);
        let init = game_targets(w, profile);
        let last = procs.last();
        assert forall|i: int| 0 <= i < procs.len() && is_target(#[trigger] procs[i].1@, profile)
            implies game_targets(procs, profile).contains((procs[i].0, procs[i].1@)) by {
            if i < w.len() {
                assert(procs[i] == w[i]);
                assert(is_target(w[i].1@, profile));
                assert(init.contains((w[i].0, w[i].1@)));
                let j = choose|j: int| 0 <= j < init.len() && init[j] == (w[i].0, w[i].1@);
                if is_target(last.1@, profile) {
                    assert(game_targets(procs, profile)[j] == init[j]);
                }
            } else {
                assert(procs[i] == last);
                let g = game_targets(procs, profile);
                assert(g[init.len() as int] == (last.0, last.1@));
            }
        }
        assert forall|t: (u32, Seq<char>)| game_targets(procs, profile).contains(t) implies exists|i: int|
            0 <= i < procs.len() && t == (procs[i].0, procs[i].1@) && is_target(#[trigger] procs[i].1@, profile) by {
            let g = game_targets(procs, profile);
            let j = choose|j: int| 0 <= j < g.len() && g[j] == t;
            if is_target(last.1@, profile) && j == init.len() {
                assert(procs[procs.len() - 1] == last);
            } else {
                assert(init[j] == t);
                assert(init.contains(t));
                let i = choose|i: int| 0 <= i < w.len() && t == (w[i].0, w[i].1@) && is_target(#[trigger] w[i].1@, profile);
                assert(procs[i] == w[i]);
            }
        }
    }
}

/// Who the game mode pauses, with a profile: a process whose lowercase name
/// holds the lowercase of some blacklisted fragment, or one of the default
/// targets, and the lowercase of no whitelisted fragment, is a target; every
/// target is such a process. Case plays no part on either list.
pub proof fn lemma_game_targets_case_insensitive(procs: Seq<(u32, String)>, p: ProfileView)
    ensures
        forall|i: int| 0 <= i < procs.len()
            && (exists|b: int| 0 <= b < p.blacklist.len() && contains_seq(lowercase(#[trigger] procs[i].1@), lowercase(p.blacklist[b])))
            && !(exists|w: int| 0 <= w < p.whitelist.len() && contains_seq(lowercase(procs[i].1@), lowercase(p.whitelist[w])))
            ==> game_targets(procs, Some(p)).contains((procs[i].0, procs[i].1@)),
        forall|t: (u32, Seq<char>)| #[trigger] game_targets(procs, Some(p)).contains(t) ==> {
            &&& !(exists|w: int| 0 <= w < p.whitelist.len() && contains_seq(lowercase(t.1), lowercase(p.whitelist[w])))
            &&& (exists|d: int| 0 <= d < default_targets().len() && contains_seq(lowercase(t.1), default_targets()[d]))
                || (exists|b: int| 0 <= b < p.blacklist.len() && contains_seq(lowercase(t.1), lowercase(p.blacklist[b])))
        },
{
    lemma_game_targets_members(procs, Some(p));
    let white = lowered(p.whitelist);
    let black = lowered(p.blacklist);
    assert forall|i: int| 0 <= i < procs.len()
        && (exists|b: int| 0 <= b < p.blacklist.len() && contains_seq(lowercase(#[trigger] procs[i].1@), lowercase(p.blacklist[b])))
        && !(exists|w: int| 0 <= w < p.whitelist.len() && contains_seq(lowercase(procs[i].1@), lowercase(p.whitelist[w])))
        implies game_targets(procs, Some(p)).contains((procs[i].0, procs[i].1@)) by {
        let n = lowercase(procs[i].1@);
        let b = choose|b: int| 0 <= b < p.blacklist.len() && contains_seq(n, lowercase(p.blacklist[b]));
        assert(black[b] == lowercase(p.blacklist[b]));
        assert(mentions_any(n, black));
        if mentions_any(n, white) {
            let w = choose|w: int| 0 <= w < white.len() && contains_seq(n, white[w]);
            assert(white[w] == lowercase(p.whitelist[w]));
        }
        assert(is_target(procs[i].1@, Some(p)));
    }
    assert forall|t: (u32, Seq<char>)| #[trigger] game_targets(procs, Some(p)).contains(t) implies {
        &&& !(exists|w: int| 0 <= w < p.whitelist.len() && contains_seq(lowercase(t.1), lowercase(p.whitelist[w])))
        &&& (exists|d: int| 0 <= d < default_targets().len() && contains_seq(lowercase(t.1), default_targets()[d]))
            || (exists|b: int| 0 <= b < p.blacklist.len() && contains_seq(lowercase(t.1), lowercase(p.blacklist[b])))
    } by {
        let i = choose|i: int| 0 <= i < procs.len() && t == (procs[i].0, procs[i].1@) && is_target(#[trigger] procs[i].1@, Some(p));
        let n = lowercase(t.1);
        assert(is_target(t.1, Some(p)));
        if exists|w: int| 0 <= w < p.whitelist.len() && contains_seq(n, lowercase(p.whitelist[w])) {
            let w = choose|w: int| 0 <= w < p.whitelist.len() && contains_seq(n, lowercase(p.whitelist[w]));
            assert(white[w] == lowercase(p.whitelist[w]));
            assert(mentions_any(n, white));
        }
        if mentions_any(n, black) {
            let b = choose|b: int| 0 <= b < black.len() && contains_seq(n, black[b]);
            assert(black[b] == lowercase(p.blacklist[b]));
        }
    }
}

/// The processes the game mode pauses or resumes, given the processes
/// running and the turbo profile in use.
pub fn game_mode_targets(procs: &Vec<(u32, String)>, profile: Option<&TurboProfile>) -> (r: Vec<(u32, String)>)
    ensures
        r@.map_values(|p: (u32, String)| (p.0, p.1@)) == game_targets(
            procs@,
            match profile {
                Some(t) => Some(t@),
                None => None,
            },
        ),
{
    let ghost pv = match profile {
        Some(t) => Some(t@),
        None => None::<ProfileView>,
    };
    let defaults = default_target_list();
    let (white, black) = match profile {
        Some(p) => (lowered_list(&p.whitelist), lowered_list(&p.blacklist)),
        None => (Vec::new(), Vec::new()),
    };
    proof {
        match profile {
            None => {
                assert(white@.map_values(|x: Vec<char>| x@) =~= Seq::<Seq<char>>::empty());
                assert(black@.map_values(|x: Vec<char>| x@) =~= Seq::<Seq<char>>::empty());
            },
            Some(_) => {},
        }
    }
    let mut r: Vec<(u32, String)> = Vec::new();
    let mut i: usize = 0;
    while i < procs.len()
        invariant
            i <= procs@.len(),
            defaults@.map_values(|x: Vec<char>| x@) == default_targets(),
            white@.map_values(|x: Vec<char>| x@) == match pv {
                Some(p) => lowered(p.whitelist),
                None => Seq::<Seq<char>>::empty(),
            },
            black@.map_values(|x: Vec<char>| x@) == match pv {
                Some(p) => lowered(p.blacklist),
                None => Seq::<Seq<char>>::empty(),
            },
            r@.map_values(|p: (u32, String)| (p.0, p.1@)) == game_targets(
                procs@.subrange(0, i as int),
                pv,
            ),
        decreases procs@.len() - i,
    {
        assert(procs@.subrange(0, i + 1).drop_last() =~= procs@.subrange(0, i as int));
        let lname = to_lowercase(procs[i].1.as_str());
        let lv = chars_of(lname.as_str());
        let hit = !mentions_any_exec(lv.as_slice(), &white) && (mentions_any_exec(lv.as_slice(), &defaults)
            || mentions_any_exec(lv.as_slice(), &black));
        let ghost r0 = r@.map_values(|p: (u32, String)| (p.0, p.1@));
        assert(hit == is_target(procs@[i as int].1@, pv));
        if hit {
            let e = (procs[i].0, procs[i].1.clone());
            r.push(e);
            assert(r@.map_values(|p: (u32, String)| (p.0, p.1@)) =~= r0.push((procs@[i as int].0, procs@[i as int].1@)));
        }
        i = i + 1;
    }
    assert(procs@.subrange(0, procs@.len() as int) =~= procs@);
    r
}

/// The line reporting one process paused or resumed: the command or signal,
/// its name and its id.
pub fn affected_line(verb: &str, name: &str, pid: u32) -> (r: String)
    ensures
        r@ == verb@ + ": "@ + name@ + " (PID "@ + decimal(pid as nat) + ")"@,
{
    let mut r = owned(verb);
    push_str(&mut r, ": ");
    push_str(&mut r, name);
    push_str(&mut r, " (PID ");
    push_decimal(&mut r, pid as u64);
    push_str(&mut r, ")");
    r
}

/// The PowerShell command that pauses (or resumes) processes by id.
pub fn suspend_script(pids: &Vec<u32>, activate: bool) -> (r: String)
    ensures
        r@ == "$pids=@("@ + join(pids@.map_values(|p: u32| decimal(p as nat)), seq![','])
            + "); $pids | ForEach-Object { "@ + (if activate { "Suspend-Process"@ } else { "Resume-Process"@ })
            + " -Id $_ -ErrorAction SilentlyContinue }"@,
{
    let mut list = String::new();
    let ghost ds = pids@.map_values(|p: u32| decimal(p as nat));
    let mut i: usize = 0;
    while i < pids.len()
        invariant
            i <= pids@.len(),
            ds == pids@.map_values(|p: u32| decimal(p as nat)),
            list@ == join(ds.subrange(0, i as int), seq![',']),
        decreases pids@.len() - i,
    {
        let ghost prev = ds.subrange(0, i as int);
        assert(ds.subrange(0, i + 1) =~= prev.push(ds[i as int]));
        assert(ds.subrange(0, i + 1).drop_last() =~= prev);
        if i > 0 {
            crate::text::push_char(&mut list, ',');
        }
        push_decimal(&mut list, pids[i] as u64);
        proof {
            if i == 0 {
                assert(prev.len() == 0);
            }
        }
        i = i + 1;
    }
    assert(ds.subrange(0, ds.len() as int) =~= ds);
    let mut r = owned("$pids=@(");
    push_str(&mut r, list.as_str());
    push_str(&mut r, "); $pids | ForEach-Object { ");
    push_str(&mut r, if activate { "Suspend-Process" } else { "Resume-Process" });
    push_str(&mut r, " -Id $_ -ErrorAction SilentlyContinue }");
    r
}

/// The services the game mode stops, and starts again afterwards.
pub open spec fn game_services() -> Seq<Seq<char>> {
    seq!["SysMain"@, "WSearch"@, "TabletInputService"@, "MapsBroker"@, "wuauserv"@, "BITS"@, "DusmSvc"@]
}

/// The script that stops (or starts) the services.
pub open spec fn services_script_of(activate: bool) -> Seq<char> {
    let action = if activate { "stop"@ } else { "start"@ };
    join(
        game_services().map_values(|svc: Seq<char>| "sc.exe "@ + action + seq![' '] + svc + " 2>$null"@),
        "; "@,
    )
}

/// Builds the script that stops (or starts) the services.
pub fn services_script(activate: bool) -> (r: String)
    ensures
        r@ == services_script_of(activate),
{
    let action = if activate { "stop" } else { "start" };
    let mut r = String::new();
    let names = ["SysMain", "WSearch", "TabletInputService", "MapsBroker", "wuauserv", "BITS", "DusmSvc"];
    let ghost parts = game_services().map_values(|svc: Seq<char>| "sc.exe "@ + action@ + seq![' '] + svc + " 2>$null"@);
    let mut i: usize = 0;
    assert(names@.map_values(|n: &str| n@) =~= game_services());
    while i < 7
        invariant
            i <= 7,
            names@.len() == 7,
            names@.map_values(|n: &str| n@) == game_services(),
            parts == game_services().map_values(|svc: Seq<char>| "sc.exe "@ + action@ + seq![' '] + svc + " 2>$null"@),
            r@ == join(parts.subrange(0, i as int), "; "@),
        decreases 7 - i,
    {
        let ghost prev = parts.subrange(0, i as int);
        assert(parts.subrange(0, i + 1) =~= prev.push(parts[i as int]));
        assert(parts.subrange(0, i + 1).drop_last() =~= prev);
        let ghost r0 = r@;
        if i > 0 {
            push_str(&mut r, "; ");
        }
        push_str(&mut r, "sc.exe ");
        push_str(&mut r, action);
        crate::text::push_char(&mut r, ' ');
        push_str(&mut r, names[i]);
        push_str(&mut r, " 2>$null");
        proof {
            assert(names@[i as int]@ == game_services()[i as int]);
            if i == 0 {
                assert(prev.len() == 0);
                assert(r@ =~= parts[0]);
            } else {
                assert(r@ =~= r0 + "; "@ + parts[i as int]);
            }
        }
        i = i + 1;
    }
    assert(parts.subrange(0, 7) =~= parts);
    r
}

/// The report lines that follow the processes on Windows.
pub open spec fn windows_game_report(activate: bool) -> Seq<Seq<char>> {
    seq![
        "Services: "@ + (if activate { "stopped"@ } else { "restarted"@ }) + " 7"@,
        "PowerPlan: "@ + (if activate { "Ultimate Performance"@ } else { "Balanced"@ }),
        "System: "@ + (if activate { "max performance"@ } else { "restored"@ }),
    ]
}

/// Builds the report lines that follow the processes on Windows.
pub fn windows_game_lines(activate: bool) -> (r: Vec<String>)
    ensures
        r@.map_values(|s: String| s@) == windows_game_report(activate),
{
    let mut a = owned("Services: ");
    push_str(&mut a, if activate { "stopped" } else { "restarted" });
    push_str(&mut a, " 7");
    let mut b = owned("PowerPlan: ");
    push_str(&mut b, if activate { "Ultimate Performance" } else { "Balanced" });
    let mut c = owned("System: ");
    push_str(&mut c, if activate { "max performance" } else { "restored" });
    let mut r: Vec<String> = Vec::new();
    r.push(a);
    r.push(b);
    r.push(c);
    assert(r@.map_values(|s: String| s@) =~= windows_game_report(activate));
    r
}

/// The signal that pauses (or resumes) a process elsewhere.
pub fn game_signal(activate: bool) -> (r: String)
    ensures
        r@ == if activate { "STOP"@ } else { "CONT"@ },
{
    if activate {
        owned("STOP")
    } else {
        owned("CONT")
    }
}

/// The report off Windows of the targets signalled for game mode: one line
/// per target, in order, with the signal sent, its name and its pid.
pub open spec fn signal_lines_of(activate: bool, targets: Seq<(u32, Seq<char>)>) -> Seq<Seq<char>> {
    targets.map_values(|t: (u32, Seq<char>)|
        (if activate { "STOP"@ } else { "CONT"@ }) + ": "@ + t.1 + " (PID "@ + decimal(t.0 as nat) + ")"@)
}

/// Reports the targets signalled for game mode off Windows: every target is
/// listed, whatever its signal gave.
pub fn signal_lines(activate: bool, targets: &Vec<(u32, String)>) -> (r: Vec<String>)
    ensures
        r@.map_values(|l: String| l@) == signal_lines_of(
            activate,
            targets@.map_values(|t: (u32, String)| (t.0, t.1@)),
        ),
{
    let ghost tv = targets@.map_values(|t: (u32, String)| (t.0, t.1@));
    let sig = game_signal(activate);
    let mut r: Vec<String> = Vec::new();
    let mut i: usize = 0;
    while i < targets.len()
        invariant
            i <= targets@.len(),
            tv == targets@.map_values(|t: (u32, String)| (t.0, t.1@)),
            sig@ == if activate { "STOP"@ } else { "CONT"@ },
            r@.len() == i,
            r@.map_values(|l: String| l@) == signal_lines_of(activate, tv.subrange(0, i as int)),
        decreases targets@.len() - i,
    {
        let line = affected_line(sig.as_str(), targets[i].1.as_str(), targets[i].0);
        let ghost before = r@;
        r.push(line);
        proof {
            assert(tv[i as int] == (targets@[i as int].0, targets@[i as int].1@));
            assert(r@ == before.push(line));
            assert(signal_lines_of(activate, tv.subrange(0, i + 1))[i as int] == line@);
            assert forall|k: int| 0 <= k < i implies #[trigger] signal_lines_of(activate, tv.subrange(0, i + 1))[k]
                == signal_lines_of(activate, tv.subrange(0, i as int))[k] by {
                assert(tv.subrange(0, i + 1)[k] == tv.subrange(0, i as int)[k]);
            }
            let now_v = r@.map_values(|l: String| l@);
            let before_v = before.map_values(|l: String| l@);
            assert forall|k: int| 0 <= k < i implies #[trigger] now_v[k] == before_v[k] by {
                assert(r@[k] == before[k]);
            }
            assert(tv.subrange(0, i + 1) =~= tv.subrange(0, i as int).push(tv[i as int]));
            assert(r@.map_values(|l: String| l@) =~= signal_lines_of(activate, tv.subrange(0, i + 1)));
        }
        i = i + 1;
    }
    assert(tv.subrange(0, tv.len() as int) =~= tv);
    r
}

/// The command that sends the signal to a process.
pub fn signal_command(activate: bool, pid: u32) -> (c: ShellCommand)
    ensures
        c@ == (CommandView {
            program: "kill"@,
            args: seq![seq!['-'] + (if activate { "STOP"@ } else { "CONT"@ }), decimal(pid as nat)],
        }),
{
    let mut sig = owned("-");
    push_str(&mut sig, if activate { "STOP" } else { "CONT" });
    proof {
        reveal_strlit("-");
    }
    assert(sig@ =~= seq!['-'] + (if activate { "STOP"@ } else { "CONT"@ }));
    let p = crate::text::u64_to_string(pid as u64);
    command2("kill", sig, p)
}

/// Switches to the Ultimate Performance plan (else High Performance) with the processor unparked and unthrottled.
pub const POWER_BOOST_SCRIPT: &'static str = r#"
# Try Ultimate Performance first, fall back to High Performance
$ultimate = powercfg /list | Select-String "e9a42b02-d5df-448d-aa00-03f14749eb61"
if ($ultimate) {
    powercfg /setactive e9a42b02-d5df-448d-aa00-03f14749eb61
} else {
    # Create Ultimate Performance if not present
    $result = powercfg /duplicatescheme e9a42b02-d5df-448d-aa00-03f14749eb61 2>$null
    if ($LASTEXITCODE -eq 0) { powercfg /setactive e9a42b02-d5df-448d-aa00-03f14749eb61 }
    else { powercfg /setactive 8c5e7fda-e8bf-4a96-9a85-a6e23a8c635c }
}
# Max CPU state
powercfg /setacvalueindex scheme_current sub_processor bc5038f7-23e0-4960-96da-33abaf5935ec 100
powercfg /setacvalueindex scheme_current sub_processor 893dee8e-2bef-41e0-89c6-b55d0929964c 100
# Disable CPU parking
powercfg /setacvalueindex scheme_current sub_processor 0cc5b647-c1df-4637-891a-dec35c318583 100
# Disable power throttling
powercfg /setacvalueindex scheme_current sub_processor 3b04d4fd-1cc7-4f23-ab1c-d1337819c4bb 0 2>$null
powercfg /setactive scheme_current
"#;

/// Returns to the Balanced plan with the processor's usual limits.
pub const POWER_RESTORE_SCRIPT: &'static str = r#"
powercfg /setactive 381b4222-f694-41f0-9685-ff5bb260df2e
powercfg /setacvalueindex scheme_current sub_processor 893dee8e-2bef-41e0-89c6-b55d0929964c 5
powercfg /setacvalueindex scheme_current sub_processor 0cc5b647-c1df-4637-891a-dec35c318583 50
powercfg /setactive scheme_current
"#;

/// Puts an NVIDIA GPU at full power and asks DirectX for the high-performance GPU.
pub const GPU_GAME_SCRIPT: &'static str = r#"
$nvsmi = $null
foreach ($p in @("$env:ProgramFiles\NVIDIA Corporation\NVSMI\nvidia-smi.exe","$env:windir\System32\nvidia-smi.exe","nvidia-smi.exe")) {
    if (Get-Command $p -ErrorAction SilentlyContinue) { $nvsmi = $p; break }
}
if ($nvsmi) {
    & $nvsmi -pm 1 2>$null | Out-Null
    try {
        $maxW = [math]::Floor([double]((& $nvsmi --query-gpu=power.max_limit --format=csv,noheader,nounits 2>$null).Trim()))
        if ($maxW -gt 0) { & $nvsmi -pl $maxW 2>$null | Out-Null }
    } catch {}
    # Prefer max performance in NVIDIA Control Panel
    $regPath = "HKLM:\SYSTEM\CurrentControlSet\Control\Class\{4d36e968-e325-11ce-bfc1-08002be10318}\0000"
    if (Test-Path $regPath) {
        Set-ItemProperty -Path $regPath -Name "PerfLevelSrc" -Value 0x2222 -ErrorAction SilentlyContinue
        Set-ItemProperty -Path $regPath -Name "PowerMizerEnable" -Value 1 -ErrorAction SilentlyContinue
        Set-ItemProperty -Path $regPath -Name "PowerMizerLevel" -Value 1 -ErrorAction SilentlyContinue
        Set-ItemProperty -Path $regPath -Name "PowerMizerLevelAC" -Value 1 -ErrorAction SilentlyContinue
    }
}
# System-wide GPU preference: High Performance
$regGpu = "HKCU:\Software\Microsoft\DirectX\UserGpuPreferences"
if (!(Test-Path $regGpu)) { New-Item -Path $regGpu -Force | Out-Null }
Set-ItemProperty -Path $regGpu -Name "DirectXUserGlobalSettings" -Value "SwapEffectUpgradeEnable=1;VRROptimizeEnable=1;" -ErrorAction SilentlyContinue 2>$null
"#;

/// Returns an NVIDIA GPU to its defaults.
pub const GPU_RESTORE_SCRIPT: &'static str = r#"
$nvsmi = $null
foreach ($p in @("$env:ProgramFiles\NVIDIA Corporation\NVSMI\nvidia-smi.exe","$env:windir\System32\nvidia-smi.exe","nvidia-smi.exe")) {
    if (Get-Command $p -ErrorAction SilentlyContinue) { $nvsmi = $p; break }
}
if ($nvsmi) {
    & $nvsmi --reset-applications-clocks 2>$null | Out-Null
    & $nvsmi -pm 0 2>$null | Out-Null
    $regPath = "HKLM:\SYSTEM\CurrentControlSet\Control\Class\{4d36e968-e325-11ce-bfc1-08002be10318}\0000"
    if (Test-Path $regPath) {
        Set-ItemProperty -Path $regPath -Name "PerfLevelSrc" -Value 0x3322 -ErrorAction SilentlyContinue
        Set-ItemProperty -Path $regPath -Name "PowerMizerLevel" -Value 0 -ErrorAction SilentlyContinue
        Set-ItemProperty -Path $regPath -Name "PowerMizerLevelAC" -Value 0 -ErrorAction SilentlyContinue
    }
}
"#;

/// Applies the memory, visual-effect, timer, throttling and network settings of the game mode.
pub const SYSTEM_GAME_SCRIPT: &'static str = r#"
# Clear standby memory (frees RAM)
try {
    $MemBytes = [System.Runtime.InteropServices.Marshal]::SizeOf([Type][IntPtr])
    # Increase working set
    $proc = Get-Process -Id $PID
    $proc.MinWorkingSet = 200MB
} catch {}

# Disable visual effects for performance
try {
    Set-ItemProperty -Path "HKCU:\Software\Microsoft\Windows\CurrentVersion\Explorer\VisualEffects" -Name "VisualFXSetting" -Value 2 -ErrorAction SilentlyContinue
    Set-ItemProperty -Path "HKCU:\Control Panel\Desktop" -Name "UserPreferencesMask" -Value ([byte[]](0x90,0x12,0x03,0x80,0x10,0x00,0x00,0x00)) -ErrorAction SilentlyContinue
} catch {}

# Set timer resolution to 1ms (better frame pacing)
try {
    $ntdll = [System.Runtime.InteropServices.RuntimeEnvironment]::GetRuntimeDirectory()
    Add-Type -TypeDefinition @"
using System.Runtime.InteropServices;
public class NtDll {
    [DllImport("ntdll.dll")] public static extern int NtSetTimerResolution(int DesiredResolution, bool SetResolution, out int CurrentResolution);
}
"@ -ErrorAction SilentlyContinue
    $current = 0
    [NtDll]::NtSetTimerResolution(5000, $true, [ref]$current) | Out-Null
} catch {}

# Disable power throttling
try {
    Set-ItemProperty -Path "HKLM:\SYSTEM\CurrentControlSet\Control\Power\PowerThrottling" -Name "PowerThrottlingOff" -Value 1 -Type DWord -ErrorAction SilentlyContinue
} catch {}

# Network optimization: disable Nagle's algorithm for lower latency
try {
    $adapters = Get-ChildItem "HKLM:\SYSTEM\CurrentControlSet\Services\Tcpip\Parameters\Interfaces" -ErrorAction SilentlyContinue
    foreach ($a in $adapters) {
        Set-ItemProperty -Path $a.PSPath -Name "TcpAckFrequency" -Value 1 -Type DWord -ErrorAction SilentlyContinue
        Set-ItemProperty -Path $a.PSPath -Name "TCPNoDelay" -Value 1 -Type DWord -ErrorAction SilentlyContinue
    }
} catch {}
"#;

/// Restores the visual-effect, throttling and network settings.
pub const SYSTEM_RESTORE_SCRIPT: &'static str = r#"
# Restore visual effects to defaults
try {
    Set-ItemProperty -Path "HKCU:\Software\Microsoft\Windows\CurrentVersion\Explorer\VisualEffects" -Name "VisualFXSetting" -Value 0 -ErrorAction SilentlyContinue
} catch {}
# Restore power throttling
try {
    Remove-ItemProperty -Path "HKLM:\SYSTEM\CurrentControlSet\Control\Power\PowerThrottling" -Name "PowerThrottlingOff" -ErrorAction SilentlyContinue
} catch {}
# Restore Nagle's algorithm
try {
    $adapters = Get-ChildItem "HKLM:\SYSTEM\CurrentControlSet\Services\Tcpip\Parameters\Interfaces" -ErrorAction SilentlyContinue
    foreach ($a in $adapters) {
        Remove-ItemProperty -Path $a.PSPath -Name "TcpAckFrequency" -ErrorAction SilentlyContinue
        Remove-ItemProperty -Path $a.PSPath -Name "TCPNoDelay" -ErrorAction SilentlyContinue
    }
} catch {}
"#;

} // verus!
