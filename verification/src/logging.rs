//! The log: the format of its lines, the daily file name, which old files
//! are purged, which one is the latest, the tail sent with a crash report,
//! and the header written when a session starts.
use vstd::prelude::*;
use vstd::relations::{sorted_by, total_ordering};

use crate::text::{
    chars_of, decimal, ends_with, has_prefix, has_suffix, join, lines, lines_of, owned, push_char,
    push_chars, push_decimal, push_str, starts_with, string_of, trim, trim_str,
};

verus! {

// ─────────────────────────────── log lines ────────────────────────────────

/// A log line: the time, the level and the message, ending with a newline.
pub open spec fn log_line(stamp: Seq<char>, level: Seq<char>, message: Seq<char>) -> Seq<char> {
    seq!['['] + stamp + "] ["@ + level + "] "@ + message + seq!['\n']
}

/// Formats a log line.
pub fn format_log_line(stamp: &str, level: &str, message: &str) -> (r: String)
    ensures
        r@ == log_line(stamp@, level@, message@),
{
    let mut r = owned("[");
    push_str(&mut r, stamp);
    push_str(&mut r, "] [");
    push_str(&mut r, level);
    push_str(&mut r, "] ");
    push_str(&mut r, message);
    push_char(&mut r, '\n');
    proof {
        reveal_strlit("[");
    }
    assert(r@ =~= log_line(stamp@, level@, message@));
    r
}

/// The chrono patterns of the times this program writes: a log line's stamp
/// (`%Y-%m-%d %H:%M:%S%.3f`), a log file's date (`%Y-%m-%d`), a session's
/// start (`%Y-%m-%d %H:%M:%S`) and a run id's stamp (`%Y%m%dT%H%M%S`).
pub open spec fn time_pattern(p: Seq<char>) -> bool {
    ||| p == "%Y-%m-%d %H:%M:%S%.3f"@
    ||| p == "%Y-%m-%d"@
    ||| p == "%Y-%m-%d %H:%M:%S"@
    ||| p == "%Y%m%dT%H%M%S"@
}

/// The local time written with a chrono pattern
/// (`chrono::Local::now().format(pattern).to_string()`). It reads the clock
/// and the time zone, so nothing is promised of the text. The pattern is one
/// of those above, whose specifiers chrono knows: with an unknown one the
/// formatting fails and `to_string` panics.
#[verifier::external_body]
fn local_now_formatted(pattern: &str) -> (r: String)
    requires
        time_pattern(pattern@),
{
    chrono::Local::now().format(pattern).to_string()
}

/// A log line stamped with the current time.
pub fn stamped_line(level: &str, message: &str) -> (r: String)
    ensures
        exists|stamp: Seq<char>| r@ == log_line(stamp, level@, message@),
{
    let stamp = local_now_formatted("%Y-%m-%d %H:%M:%S%.3f");
    format_log_line(stamp.as_str(), level, message)
}

/// The INFO line of a message; the caller writes it to the log
/// file and to the error output.
pub fn log_info(message: &str) -> (r: String)
    ensures
        exists|stamp: Seq<char>| r@ == log_line(stamp, "INFO"@, message@),
{
    stamped_line("INFO", message)
}

/// The WARN line of a message.
pub fn log_warn(message: &str) -> (r: String)
    ensures
        exists|stamp: Seq<char>| r@ == log_line(stamp, "WARN"@, message@),
{
    stamped_line("WARN", message)
}

/// The ERROR line of a message.
pub fn log_error(message: &str) -> (r: String)
    ensures
        exists|stamp: Seq<char>| r@ == log_line(stamp, "ERROR"@, message@),
{
    stamped_line("ERROR", message)
}

/// The PANIC line of a message, used by the crash reporter.
pub fn log_panic(message: &str) -> (r: String)
    ensures
        exists|stamp: Seq<char>| r@ == log_line(stamp, "PANIC"@, message@),
{
    stamped_line("PANIC", message)
}

/// The name of the log file of a day.
pub open spec fn log_file_name_of(date: Seq<char>) -> Seq<char> {
    "aura_update_"@ + date + ".log"@
}

/// The log file name for a date.
pub fn log_file_name(date: &str) -> (r: String)
    ensures
        r@ == log_file_name_of(date@),
{
    let mut r = owned("aura_update_");
    push_str(&mut r, date);
    push_str(&mut r, ".log");
    r
}

/// Today's log file name.
pub fn todays_log_file_name() -> (r: String)
    ensures
        exists|date: Seq<char>| r@ == log_file_name_of(date),
{
    let d = local_now_formatted("%Y-%m-%d");
    log_file_name(d.as_str())
}

// ───────────────────────────── ordering texts ─────────────────────────────

/// Lexicographic order on texts, character by character.
pub open spec fn text_le(a: Seq<char>, b: Seq<char>) -> bool
    decreases a.len(),
{
    if a.len() == 0 {
        true
    } else if b.len() == 0 {
        false
    } else if a[0] < b[0] {
        true
    } else if a[0] > b[0] {
        false
    } else {
        text_le(a.drop_first(), b.drop_first())
    }
}

pub proof fn lemma_text_le_refl(a: Seq<char>)
    ensures
        text_le(a, a),
    decreases a.len(),
{
    if a.len() > 0 {
        lemma_text_le_refl(a.drop_first());
    }
}

pub proof fn lemma_text_le_total(a: Seq<char>, b: Seq<char>)
    ensures
        text_le(a, b) || text_le(b, a),
    decreases a.len(),
{
    if a.len() > 0 && b.len() > 0 && a[0] == b[0] {
        lemma_text_le_total(a.drop_first(), b.drop_first());
    }
}

pub proof fn lemma_text_le_antisym(a: Seq<char>, b: Seq<char>)
    requires
        text_le(a, b),
        text_le(b, a),
    ensures
        a == b,
    decreases a.len(),
{
    if a.len() == 0 {
        assert(b.len() == 0);
        assert(a =~= b);
    } else {
        assert(b.len() > 0);
        assert(a[0] == b[0]);
        lemma_text_le_antisym(a.drop_first(), b.drop_first());
        assert(a =~= seq![a[0]] + a.drop_first());
        assert(b =~= seq![b[0]] + b.drop_first());
    }
}

pub proof fn lemma_text_le_trans(a: Seq<char>, b: Seq<char>, c: Seq<char>)
    requires
        text_le(a, b),
        text_le(b, c),
    ensures
        text_le(a, c),
    decreases a.len(),
{
    if a.len() > 0 && b.len() > 0 && c.len() > 0 {
        if a[0] == b[0] && b[0] == c[0] {
            lemma_text_le_trans(a.drop_first(), b.drop_first(), c.drop_first());
        }
    }
}

/// The lexicographic order, as a relation.
pub open spec fn text_order() -> spec_fn(Seq<char>, Seq<char>) -> bool {
    |a: Seq<char>, b: Seq<char>| text_le(a, b)
}

/// The lexicographic order on texts is a total order.
pub proof fn lemma_text_order_total()
    ensures
        total_ordering(text_order()),
{
    assert forall|a: Seq<char>| #[trigger] text_order()(a, a) by {
        lemma_text_le_refl(a);
    }
    assert forall|a: Seq<char>, b: Seq<char>|
        #[trigger] text_order()(a, b) && #[trigger] text_order()(b, a) implies a == b by {
        lemma_text_le_antisym(a, b);
    }
    assert forall|a: Seq<char>, b: Seq<char>, c: Seq<char>|
        #[trigger] text_order()(a, b) && #[trigger] text_order()(b, c) implies text_order()(a, c) by {
        lemma_text_le_trans(a, b, c);
    }
    assert forall|a: Seq<char>, b: Seq<char>|
        #[trigger] text_order()(a, b) || text_order()(b, a) by {
        lemma_text_le_total(a, b);
    }
}

/// Compares two texts lexicographically.
pub fn text_le_exec(a: &[char], b: &[char]) -> (r: bool)
    ensures
        r == text_le(a@, b@),
{
    let mut i: usize = 0;
    assert(a@.subrange(0, a@.len() as int) =~= a@);
    assert(b@.subrange(0, b@.len() as int) =~= b@);
    while i < a.len() && i < b.len()
        invariant
            i <= a@.len(),
            i <= b@.len(),
            text_le(a@, b@) == text_le(a@.subrange(i as int, a@.len() as int), b@.subrange(
                i as int,
                b@.len() as int,
            )),
        decreases a@.len() - i,
    {
        let ghost sa = a@.subrange(i as int, a@.len() as int);
        let ghost sb = b@.subrange(i as int, b@.len() as int);
        assert(sa[0] == a@[i as int]);
        assert(sb[0] == b@[i as int]);
        if a[i] < b[i] {
            return true;
        }
        if a[i] > b[i] {
            return false;
        }
        assert(sa.drop_first() =~= a@.subrange(i + 1, a@.len() as int));
        assert(sb.drop_first() =~= b@.subrange(i + 1, b@.len() as int));
        i = i + 1;
    }
    i == a.len()
}

/// The texts of a list of strings.
pub open spec fn texts_of(v: Seq<String>) -> Seq<Seq<char>> {
    v.map_values(|s: String| s@)
}

/// Sorts texts in lexicographic order.
pub fn sort_texts(v: Vec<String>) -> (r: Vec<String>)
    ensures
        texts_of(r@) == texts_of(v@).sort_by(text_order()),
{
    let ghost input = texts_of(v@);
    let mut r: Vec<String> = Vec::new();
    let mut i: usize = 0;
    let mut src = v;
    proof {
        lemma_text_order_total();
        assert(input.subrange(0, 0) =~= Seq::<Seq<char>>::empty());
        assert(texts_of(r@) =~= Seq::<Seq<char>>::empty());
    }
    while i < src.len()
        invariant
            i <= src@.len(),
            texts_of(src@) == input,
            total_ordering(text_order()),
            sorted_by(texts_of(r@), text_order()),
            texts_of(r@).to_multiset() == input.subrange(0, i as int).to_multiset(),
        decreases src@.len() - i,
    {
        let x = src[i].clone();
        let xv = chars_of(x.as_str());
        let mut pos: usize = 0;
        while pos < r.len()
            invariant
                pos <= r@.len(),
                xv@ == x@,
                forall|j: int| 0 <= j < pos ==> !text_le(x@, #[trigger] texts_of(r@)[j]),
            ensures
                pos <= r@.len(),
                forall|j: int| 0 <= j < pos ==> !text_le(x@, #[trigger] texts_of(r@)[j]),
                pos < r@.len() ==> text_le(x@, texts_of(r@)[pos as int]),
            decreases r@.len() - pos,
        {
            let cv = chars_of(r[pos].as_str());
            if text_le_exec(xv.as_slice(), cv.as_slice()) {
                break;
            }
            pos = pos + 1;
        }
        let ghost before = texts_of(r@);
        proof {
            broadcast use vstd::seq_lib::group_to_multiset_ensures;
            assert forall|j: int| 0 <= j < pos implies text_le(#[trigger] before[j], x@) by {
                lemma_text_le_total(before[j], x@);
            }
        }
        r.insert(pos, x);
        proof {
            broadcast use vstd::seq_lib::group_to_multiset_ensures;
            let after = texts_of(r@);
            assert(after =~= before.insert(pos as int, x@));
            assert(input.subrange(0, i + 1) =~= input.subrange(0, i as int).push(x@));
            assert(after.to_multiset() =~= input.subrange(0, i + 1).to_multiset());
            assert forall|a: int, b: int| 0 <= a < b < after.len() implies #[trigger] text_order()(after[a], after[b]) by {
                if b < pos {
                    assert(text_order()(before[a], before[b]));
                } else if a > pos {
                    assert(text_order()(before[a - 1], before[b - 1]));
                } else if a == pos {
                    if pos < before.len() {
                        assert(text_le(x@, before[pos as int]));
                        if b - 1 > pos {
                            assert(text_order()(before[pos as int], before[b - 1]));
                            lemma_text_le_trans(x@, before[pos as int], before[b - 1]);
                        }
                    }
                } else if b == pos {
                    assert(text_le(before[a], x@));
                } else {
                    assert(text_le(before[a], x@));
                    assert(text_le(x@, before[pos as int]));
                    lemma_text_le_trans(before[a], x@, before[pos as int]);
                    if b - 1 > pos {
                        assert(text_order()(before[pos as int], before[b - 1]));
                        lemma_text_le_trans(before[a], before[pos as int], before[b - 1]);
                    }
                }
            }
        }
        i = i + 1;
    }
    proof {
        assert(input.subrange(0, input.len() as int) =~= input);
        input.lemma_sort_by_ensures(text_order());
        vstd::seq_lib::lemma_sorted_unique(texts_of(r@), input.sort_by(text_order()), text_order());
    }
    r
}

// ─────────────────────────────── log files ────────────────────────────────

/// A file of the log directory that is one of the application's logs.
pub open spec fn is_log_file(name: Seq<char>) -> bool {
    has_prefix(name, "aura_update_"@) && has_suffix(name, ".log"@)
}

/// The application's log files among the names of a directory, in order.
pub open spec fn log_files(names: Seq<Seq<char>>) -> Seq<Seq<char>>
    decreases names.len(),
{
    if names.len() == 0 {
        Seq::<Seq<char>>::empty()
    } else if is_log_file(names.last()) {
        log_files(names.drop_last()).push(names.last())
    } else {
        log_files(names.drop_last())
    }
}

/// The log files in name order, which is the order of their dates.
pub open spec fn sorted_logs(names: Seq<Seq<char>>) -> Seq<Seq<char>> {
    log_files(names).sort_by(text_order())
}

/// The log files to delete so that only the `keep` most recent remain.
pub open spec fn logs_to_purge(names: Seq<Seq<char>>, keep: nat) -> Seq<Seq<char>> {
    let s = sorted_logs(names);
    if s.len() > keep {
        s.take(s.len() - keep)
    } else {
        Seq::<Seq<char>>::empty()
    }
}

fn select_log_files(names: &Vec<String>) -> (r: Vec<String>)
    ensures
        texts_of(r@) == log_files(texts_of(names@)),
{
    let ghost ns = texts_of(names@);
    let prefix = chars_of("aura_update_");
    let suffix = chars_of(".log");
    let mut r: Vec<String> = Vec::new();
    let mut i: usize = 0;
    while i < names.len()
        invariant
            i <= names@.len(),
            ns == texts_of(names@),
            prefix@ == "aura_update_"@,
            suffix@ == ".log"@,
            texts_of(r@) == log_files(ns.subrange(0, i as int)),
        decreases names@.len() - i,
    {
        let v = chars_of(names[i].as_str());
        assert(ns.subrange(0, i + 1).drop_last() =~= ns.subrange(0, i as int));
        if starts_with(v.as_slice(), prefix.as_slice()) && ends_with(v.as_slice(), suffix.as_slice()) {
            r.push(names[i].clone());
            assert(texts_of(r@) =~= log_files(ns.subrange(0, i + 1)));
        }
        i = i + 1;
    }
    assert(ns.subrange(0, ns.len() as int) =~= ns);
    r
}

/// The log files to delete so that only the `keep` most recent remain
/// (given the names the log directory holds).
pub fn purge_old_logs(names: &Vec<String>, keep: usize) -> (r: Vec<String>)
    ensures
        texts_of(r@) == logs_to_purge(texts_of(names@), keep as nat),
{
    let logs = select_log_files(names);
    let sorted = sort_texts(logs);
    let mut r: Vec<String> = Vec::new();
    if sorted.len() > keep {
        let n = sorted.len() - keep;
        let mut i: usize = 0;
        while i < n
            invariant
                i <= n,
                n <= sorted@.len(),
                texts_of(r@) == texts_of(sorted@).take(i as int),
            decreases n - i,
        {
            let a = sorted[i].clone();
            let ghost r0 = texts_of(r@);
            r.push(a);
            assert(a@ == texts_of(sorted@)[i as int]);
            assert(texts_of(r@) =~= r0.push(a@));
            assert(texts_of(sorted@).take(i + 1) =~= texts_of(sorted@).take(i as int).push(texts_of(sorted@)[i as int]));
            i = i + 1;
        }
    } else {
        assert(texts_of(r@) =~= Seq::<Seq<char>>::empty());
    }
    r
}

/// The most recent log file, given the names the log directory holds: the
/// last in name order.
pub fn get_latest_log_path(names: &Vec<String>) -> (r: Option<String>)
    ensures
        sorted_logs(texts_of(names@)).len() == 0 ==> r is None,
        sorted_logs(texts_of(names@)).len() > 0 ==> (r matches Some(x) && x@ == sorted_logs(
            texts_of(names@),
        ).last()),
{
    let logs = select_log_files(names);
    let sorted = sort_texts(logs);
    if sorted.len() == 0 {
        None
    } else {
        Some(sorted[sorted.len() - 1].clone())
    }
}

/// Purging keeps exactly the `keep` most recent log files: every log file
/// purged is older than every log file kept, and nothing but log files is
/// ever purged.
pub proof fn lemma_purge_keeps_newest(names: Seq<Seq<char>>, keep: nat, i: int, j: int)
    requires
        sorted_logs(names).len() > keep,
        0 <= i < logs_to_purge(names, keep).len(),
        logs_to_purge(names, keep).len() <= j < sorted_logs(names).len(),
    ensures
        logs_to_purge(names, keep).len() == sorted_logs(names).len() - keep,
        text_le(logs_to_purge(names, keep)[i], sorted_logs(names)[j]),
        is_log_file(logs_to_purge(names, keep)[i]),
{
    lemma_text_order_total();
    log_files(names).lemma_sort_by_ensures(text_order());
    let s = sorted_logs(names);
    assert(text_order()(s[i], s[j]));
    lemma_log_files_are_logs(names);
    let x = s[i];
    assert(s.contains(x));
    assert(log_files(names).contains(x));
}

proof fn lemma_log_files_are_logs(names: Seq<Seq<char>>)
    ensures
        forall|k: int| 0 <= k < log_files(names).len() ==> is_log_file(#[trigger] log_files(names)[k]),
    decreases names.len(),
{
    if names.len() > 0 {
        lemma_log_files_are_logs(names.drop_last());
        let prev = log_files(names.drop_last());
        if is_log_file(names.last()) {
            assert forall|k: int| 0 <= k < log_files(names).len() implies is_log_file(
                #[trigger] log_files(names)[k],
            ) by {
                if k < prev.len() {
                    assert(log_files(names)[k] == prev[k]);
                }
            }
        }
    }
}

// ───────────────────────────── crash reports ──────────────────────────────

/// Number of log lines sent with a crash report.
pub open spec fn tail_lines() -> nat {
    50
}

/// The last fifty lines of a log, joined by newlines.
pub open spec fn log_tail_of(content: Seq<char>) -> Seq<char> {
    let ls = lines(content);
    let start = if ls.len() > 50 { ls.len() - 50 } else { 0 };
    join(ls.subrange(start, ls.len() as int), seq!['\n'])
}

fn join_lines(ls: &Vec<Vec<char>>, start: usize) -> (r: String)
    requires
        start <= ls@.len(),
    ensures
        r@ == join(ls@.subrange(start as int, ls@.len() as int).map_values(|l: Vec<char>| l@), seq!['\n']),
{
    let ghost all = ls@.map_values(|l: Vec<char>| l@);
    let mut r = String::new();
    let mut i = start;
    assert(ls@.subrange(start as int, start as int).map_values(|l: Vec<char>| l@) =~= Seq::<Seq<char>>::empty());
    while i < ls.len()
        invariant
            start <= i <= ls@.len(),
            all == ls@.map_values(|l: Vec<char>| l@),
            r@ == join(ls@.subrange(start as int, i as int).map_values(|l: Vec<char>| l@), seq!['\n']),
        decreases ls@.len() - i,
    {
        let ghost prev = ls@.subrange(start as int, i as int).map_values(|l: Vec<char>| l@);
        let ghost next = ls@.subrange(start as int, i + 1).map_values(|l: Vec<char>| l@);
        assert(next =~= prev.push(ls@[i as int]@));
        assert(next.drop_last() =~= prev);
        if i > start {
            push_char(&mut r, '\n');
        }
        push_chars(&mut r, ls[i].as_slice());
        proof {
            if i > start {
                assert(r@ =~= join(prev, seq!['\n']) + seq!['\n'] + ls@[i as int]@);
            } else {
                assert(prev.len() == 0);
                assert(r@ =~= ls@[i as int]@);
            }
        }
        i = i + 1;
    }
    r
}

/// The log tail sent with a crash report.
pub fn log_tail(content: &str) -> (r: String)
    ensures
        r@ == log_tail_of(content@),
{
    let ls = lines_of(content);
    let ghost spec_ls = lines(content@);
    let start = if ls.len() > 50 {
        ls.len() - 50
    } else {
        0
    };
    let r = join_lines(&ls, start);
    assert(ls@.subrange(start as int, ls@.len() as int).map_values(|l: Vec<char>| l@) =~= spec_ls.subrange(
        start as int,
        spec_ls.len() as int,
    ));
    r
}

/// The error of a crash report that could not be sent.
pub fn crash_report_error(reason: &str) -> (r: String)
    ensures
        r@ == "Failed to send crash report: "@ + reason@,
{
    let mut r = owned("Failed to send crash report: ");
    push_str(&mut r, reason);
    r
}

// ──────────────────────────── session header ──────────────────────────────

/// The OS line of the header: the long OS name (or the platform name) with
/// the kernel version in parentheses.
pub fn header_os(long_name: Option<&str>, platform: &str, kernel: Option<&str>) -> (r: String)
    ensures
        r@ == match long_name {
            Some(n) => n@,
            None => platform@,
        } + " ("@ + match kernel {
            Some(k) => k@,
            None => Seq::<char>::empty(),
        } + ")"@,
{
    let mut r = match long_name {
        Some(n) => owned(n),
        None => owned(platform),
    };
    push_str(&mut r, " (");
    match kernel {
        Some(k) => push_str(&mut r, k),
        None => {},
    }
    push_str(&mut r, ")");
    r
}

/// The CPU line of the header: the first processor's brand, trimmed, with
/// the thread count; "Unknown" when none is listed.
pub fn header_cpu(first_brand: Option<&str>, count: usize) -> (r: String)
    ensures
        r@ == match first_brand {
            Some(b) => trim(b@) + " ("@ + decimal(count as nat) + " Threads)"@,
            None => "Unknown"@,
        },
{
    match first_brand {
        Some(b) => {
            let mut r = trim_str(b);
            push_str(&mut r, " (");
            push_decimal(&mut r, count as u64);
            push_str(&mut r, " Threads)");
            r
        },
        None => owned("Unknown"),
    }
}

/// The messages of the header written when a session starts.
pub open spec fn header_messages(now: Seq<char>, os: Seq<char>, cpu: Seq<char>, ram: Seq<char>, version: Seq<char>, admin: bool) -> Seq<Seq<char>> {
    seq![
        "=== Aura Update started — "@ + now + " ==="@,
        "OS: "@ + os,
        "CPU: "@ + cpu,
        "RAM: "@ + ram + " GB Total"@,
        "App Version: "@ + version + " (Admin Mode: "@ + (if admin { "true"@ } else { "false"@ }) + ")"@,
        "================================================="@,
    ]
}

/// The header's messages, stamped with the given time; `ram` is the total
/// memory already written with one decimal.
pub fn header_lines(now: &str, os: &str, cpu: &str, ram: &str, version: &str, admin: bool) -> (r: Vec<String>)
    ensures
        texts_of(r@) == header_messages(now@, os@, cpu@, ram@, version@, admin),
{
    let mut r: Vec<String> = Vec::new();
    let mut a = owned("=== Aura Update started — ");
    push_str(&mut a, now);
    push_str(&mut a, " ===");
    r.push(a);
    let mut b = owned("OS: ");
    push_str(&mut b, os);
    r.push(b);
    let mut c = owned("CPU: ");
    push_str(&mut c, cpu);
    r.push(c);
    let mut d = owned("RAM: ");
    push_str(&mut d, ram);
    push_str(&mut d, " GB Total");
    r.push(d);
    let mut e = owned("App Version: ");
    push_str(&mut e, version);
    push_str(&mut e, " (Admin Mode: ");
    push_str(&mut e, if admin { "true" } else { "false" });
    push_str(&mut e, ")");
    r.push(e);
    r.push(owned("================================================="));
    assert(texts_of(r@) =~= header_messages(now@, os@, cpu@, ram@, version@, admin));
    r
}

/// The header of a session that starts now.
pub fn session_header(os: &str, cpu: &str, ram: &str, version: &str, admin: bool) -> (r: Vec<String>)
    ensures
        exists|now: Seq<char>| texts_of(r@) == header_messages(now, os@, cpu@, ram@, version@, admin),
{
    let now = local_now_formatted("%Y-%m-%d %H:%M:%S");
    header_lines(now.as_str(), os, cpu, ram, version, admin)
}

} // verus!
