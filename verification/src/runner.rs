//! Running an external maintenance command: the registry through which a
//! running task can be cancelled, the handling of its output lines, the
//! decisions taken while it runs, and the outcome reported when it ends.
use rand::Rng;
use vstd::prelude::*;

use crate::text::{
    byte_offsets, byte_slice, byte_slice_exec, chars_of, decimal, owned, push_char, push_chars,
    push_decimal, push_i32, push_str, signed_decimal, string_of, text_eq, trim, trim_chars,
    utf8_len,
};

verus! {

// ───────────────────────────── cancel registry ────────────────────────────

/// The tasks that are running, each with the flag that asks it to stop.
pub struct CancelRegistry {
    entries: Vec<(String, bool)>,
}

/// Index of the entry with key `k` (meaningful when there is one).
pub open spec fn entry_index(s: Seq<(String, bool)>, k: Seq<char>) -> int {
    choose|i: int| 0 <= i < s.len() && s[i].0@ == k
}

/// No key occurs twice.
pub open spec fn unique_keys(s: Seq<(String, bool)>) -> bool {
    forall|i: int, j: int| 0 <= i < j < s.len() ==> s[i].0@ != s[j].0@
}

/// The map from task names to their cancel flags.
pub open spec fn entries_map(s: Seq<(String, bool)>) -> Map<Seq<char>, bool> {
    Map::new(
        |k: Seq<char>| exists|i: int| 0 <= i < s.len() && s[i].0@ == k,
        |k: Seq<char>| s[entry_index(s, k)].1,
    )
}

impl View for CancelRegistry {
    type V = Map<Seq<char>, bool>;

    closed spec fn view(&self) -> Map<Seq<char>, bool> {
        entries_map(self.entries@)
    }
}

proof fn lemma_entry_index(s: Seq<(String, bool)>, i: int)
    requires
        unique_keys(s),
        0 <= i < s.len(),
    ensures
        entry_index(s, s[i].0@) == i,
        entries_map(s).contains_key(s[i].0@),
        entries_map(s)[s[i].0@] == s[i].1,
{
    let k = s[i].0@;
    assert(0 <= i < s.len() && s[i].0@ == k);
    let c = entry_index(s, k);
    if c != i {
        if c < i {
            assert(s[c].0@ != s[i].0@);
        } else {
            assert(s[i].0@ != s[c].0@);
        }
    }
}

impl CancelRegistry {
    #[verifier::type_invariant]
    spec fn keys_unique(self) -> bool {
        unique_keys(self.entries@)
    }

    /// An empty registry.
    pub fn new() -> (r: Self)
        ensures
            r@ == Map::<Seq<char>, bool>::empty(),
    {
        let r = CancelRegistry { entries: Vec::new() };
        assert(r@ =~= Map::<Seq<char>, bool>::empty());
        r
    }

    fn position(&self, task: &str) -> (r: Option<usize>)
        ensures
            match r {
                Some(i) => i < self.entries@.len() && self.entries@[i as int].0@ == task@,
                None => !self@.contains_key(task@),
            },
    {
        let mut i: usize = 0;
        while i < self.entries.len()
            invariant
                i <= self.entries@.len(),
                forall|j: int| 0 <= j < i ==> self.entries@[j].0@ != task@,
            decreases self.entries@.len() - i,
        {
            if text_eq(self.entries[i].0.as_str(), task) {
                return Some(i);
            }
            i = i + 1;
        }
        None
    }

    /// Registers a run of `task` with a cleared flag (a previous run of the
    /// same task is forgotten).
    pub fn register(&mut self, task: &str)
        ensures
            final(self)@ == old(self)@.insert(task@, false),
    {
        proof {
            use_type_invariant(&*self);
        }
        let ghost s0 = self.entries@;
        match self.position(task) {
            Some(i) => {
                let mut entries: Vec<(String, bool)> = Vec::new();
                std::mem::swap(&mut entries, &mut self.entries);
                entries.set(i, (owned(task), false));
                let ghost s1 = entries@;
                assert(unique_keys(s1)) by {
                    assert forall|a: int, b: int| 0 <= a < b < s1.len() implies s1[a].0@ != s1[b].0@ by {
                        if a != i && b != i {
                            assert(s0[a].0@ != s0[b].0@);
                        } else if a == i {
                            assert(s0[a].0@ != s0[b].0@);
                        } else {
                            assert(s0[a].0@ != s0[b].0@);
                        }
                    }
                }
                self.entries = entries;
                proof {
                    assert forall|k: Seq<char>| #[trigger] self@.contains_key(k) == old(self)@.insert(task@, false).contains_key(k) by {
                        if exists|j: int| 0 <= j < s0.len() && s0[j].0@ == k {
                            let j = choose|j: int| 0 <= j < s0.len() && s0[j].0@ == k;
                            assert(s1[j].0@ == k);
                        }
                        if exists|j: int| 0 <= j < s1.len() && s1[j].0@ == k {
                            let j = choose|j: int| 0 <= j < s1.len() && s1[j].0@ == k;
                            assert(s0[j].0@ == k);
                        }
                    }
                    assert forall|k: Seq<char>| #[trigger] self@.contains_key(k) implies self@[k] == old(self)@.insert(task@, false)[k] by {
                        let j = choose|j: int| 0 <= j < s1.len() && s1[j].0@ == k;
                        lemma_entry_index(s1, j);
                        if j != i {
                            lemma_entry_index(s0, j);
                        }
                    }
                    assert(self@ =~= old(self)@.insert(task@, false));
                }
            },
            None => {
                let mut entries: Vec<(String, bool)> = Vec::new();
                std::mem::swap(&mut entries, &mut self.entries);
                entries.push((owned(task), false));
                let ghost s1 = entries@;
                assert(unique_keys(s1)) by {
                    assert forall|a: int, b: int| 0 <= a < b < s1.len() implies s1[a].0@ != s1[b].0@ by {
                        if b == s0.len() {
                            assert(s0[a].0@ == s1[a].0@);
                        } else {
                            assert(s0[a].0@ != s0[b].0@);
                        }
                    }
                }
                self.entries = entries;
                proof {
                    assert forall|k: Seq<char>| #[trigger] self@.contains_key(k) == old(self)@.insert(task@, false).contains_key(k) by {
                        if exists|j: int| 0 <= j < s0.len() && s0[j].0@ == k {
                            let j = choose|j: int| 0 <= j < s0.len() && s0[j].0@ == k;
                            assert(s1[j].0@ == k);
                        }
                        if k == task@ {
                            assert(s1[s0.len() as int].0@ == k);
                        }
                        if exists|j: int| 0 <= j < s1.len() && s1[j].0@ == k {
                            let j = choose|j: int| 0 <= j < s1.len() && s1[j].0@ == k;
                            if j < s0.len() {
                                assert(s0[j].0@ == k);
                            }
                        }
                    }
                    assert forall|k: Seq<char>| #[trigger] self@.contains_key(k) implies self@[k] == old(self)@.insert(task@, false)[k] by {
                        let j = choose|j: int| 0 <= j < s1.len() && s1[j].0@ == k;
                        lemma_entry_index(s1, j);
                        if j < s0.len() {
                            lemma_entry_index(s0, j);
                        }
                    }
                    assert(self@ =~= old(self)@.insert(task@, false));
                }
            },
        }
    }

    /// Whether the run of `task` was asked to stop.
    pub fn is_cancel_requested(&self, task: &str) -> (r: bool)
        ensures
            r == (self@.contains_key(task@) && self@[task@]),
    {
        proof {
            use_type_invariant(self);
        }
        match self.position(task) {
            Some(i) => {
                proof {
                    lemma_entry_index(self.entries@, i as int);
                }
                self.entries[i].1
            },
            None => false,
        }
    }

    /// Forgets the run of `task`.
    pub fn unregister(&mut self, task: &str)
        ensures
            final(self)@ == old(self)@.remove(task@),
    {
        proof {
            use_type_invariant(&*self);
        }
        let ghost s0 = self.entries@;
        match self.position(task) {
            Some(i) => {
                let mut entries: Vec<(String, bool)> = Vec::new();
                std::mem::swap(&mut entries, &mut self.entries);
                entries.remove(i);
                let ghost s1 = entries@;
                assert(s1 =~= s0.remove(i as int));
                assert(unique_keys(s1)) by {
                    assert forall|a: int, b: int| 0 <= a < b < s1.len() implies s1[a].0@ != s1[b].0@ by {
                        if b < i {
                            assert(s0[a].0@ != s0[b].0@);
                        } else if a < i {
                            assert(s0[a].0@ != s0[b + 1].0@);
                        } else {
                            assert(s0[a + 1].0@ != s0[b + 1].0@);
                        }
                    }
                }
                self.entries = entries;
                proof {
                    assert forall|k: Seq<char>| #[trigger] self@.contains_key(k) == old(self)@.remove(task@).contains_key(k) by {
                        if exists|j: int| 0 <= j < s0.len() && s0[j].0@ == k {
                            let j = choose|j: int| 0 <= j < s0.len() && s0[j].0@ == k;
                            if j < i {
                                assert(s1[j].0@ == k);
                            } else if j > i {
                                assert(s1[j - 1].0@ == k);
                            }
                        }
                        if exists|j: int| 0 <= j < s1.len() && s1[j].0@ == k {
                            let j = choose|j: int| 0 <= j < s1.len() && s1[j].0@ == k;
                            if j < i {
                                assert(s0[j].0@ == k);
                                assert(s0[j].0@ != s0[i as int].0@);
                            } else {
                                assert(s0[j + 1].0@ == k);
                                assert(s0[i as int].0@ != s0[j + 1].0@);
                            }
                        }
                    }
                    assert forall|k: Seq<char>| #[trigger] self@.contains_key(k) implies self@[k] == old(self)@.remove(task@)[k] by {
                        let j = choose|j: int| 0 <= j < s1.len() && s1[j].0@ == k;
                        lemma_entry_index(s1, j);
                        if j < i {
                            lemma_entry_index(s0, j);
                        } else {
                            lemma_entry_index(s0, j + 1);
                        }
                    }
                    assert(self@ =~= old(self)@.remove(task@));
                }
            },
            None => {
                assert(self@ =~= old(self)@.remove(task@));
            },
        }
    }

    fn raise(&mut self, i: usize)
        requires
            i < old(self).entries@.len(),
        ensures
            final(self)@ == old(self)@.insert(old(self).entries@[i as int].0@, true),
            final(self).entries@.len() == old(self).entries@.len(),
    {
        proof {
            use_type_invariant(&*self);
        }
        let ghost s0 = self.entries@;
        let ghost key = s0[i as int].0@;
        let mut entries: Vec<(String, bool)> = Vec::new();
                std::mem::swap(&mut entries, &mut self.entries);
        let name = entries[i].0.clone();
        entries.set(i, (name, true));
        let ghost s1 = entries@;
        assert(s1[i as int].0@ == key);
        assert(unique_keys(s1)) by {
            assert forall|a: int, b: int| 0 <= a < b < s1.len() implies s1[a].0@ != s1[b].0@ by {
                assert(s0[a].0@ != s0[b].0@);
            }
        }
        self.entries = entries;
        proof {
            assert forall|k: Seq<char>| #[trigger] self@.contains_key(k) == old(self)@.insert(key, true).contains_key(k) by {
                if exists|j: int| 0 <= j < s0.len() && s0[j].0@ == k {
                    let j = choose|j: int| 0 <= j < s0.len() && s0[j].0@ == k;
                    assert(s1[j].0@ == k);
                }
                if exists|j: int| 0 <= j < s1.len() && s1[j].0@ == k {
                    let j = choose|j: int| 0 <= j < s1.len() && s1[j].0@ == k;
                    assert(s0[j].0@ == k);
                }
            }
            assert forall|k: Seq<char>| #[trigger] self@.contains_key(k) implies self@[k] == old(self)@.insert(key, true)[k] by {
                let j = choose|j: int| 0 <= j < s1.len() && s1[j].0@ == k;
                lemma_entry_index(s1, j);
                if j != i {
                    lemma_entry_index(s0, j);
                }
            }
            assert(self@ =~= old(self)@.insert(key, true));
        }
    }
}

/// Asks the running task `task` to stop: `true` when such a
/// run is registered, whose flag is then raised; otherwise nothing changes.
pub fn request_cancel(registry: &mut CancelRegistry, task: &str) -> (r: bool)
    ensures
        r == old(registry)@.contains_key(task@),
        r ==> final(registry)@ == old(registry)@.insert(task@, true),
        !r ==> final(registry)@ == old(registry)@,
{
    match registry.position(task) {
        Some(i) => {
            registry.raise(i);
            true
        },
        None => false,
    }
}

/// A cancel request reaches the run it names: after registering `task` and
/// asking it to stop, its flag is raised; a request for another task leaves it
/// alone; once the run is forgotten, a request finds nothing.
pub proof fn lemma_cancel_reaches_registered_run(
    m: Map<Seq<char>, bool>,
    task: Seq<char>,
    other: Seq<char>,
)
    requires
        other != task,
    ensures
        m.insert(task, false).contains_key(task),
        m.insert(task, false).insert(task, true)[task],
        !m.insert(task, false)[task],
        (m.insert(task, false).contains_key(other) ==> m.insert(task, false).insert(other, true)[task]
            == m.insert(task, false)[task]),
        !m.insert(task, false).remove(task).contains_key(task),
{
}

// ───────────────────────────── output lines ───────────────────────────────

/// Longest output line, in bytes, that is kept whole.
pub open spec fn line_cap() -> nat {
    1400
}

/// A line may be capped: it is short enough, or byte 1400 falls on a
/// character boundary.
pub open spec fn cap_allowed(v: Seq<char>) -> bool {
    utf8_len(v) <= line_cap() || byte_slice(v, 0, line_cap() as int) is Some
}

/// A line as it is shown: whole when at most 1400 bytes long, else its first
/// 1400 bytes followed by `…`.
pub open spec fn capped(v: Seq<char>) -> Seq<char> {
    if utf8_len(v) <= line_cap() {
        v
    } else {
        byte_slice(v, 0, line_cap() as int).unwrap().push('…')
    }
}

/// Caps an output line.
pub fn cap_line(v: &str) -> (r: String)
    requires
        cap_allowed(v@),
    ensures
        r@ == capped(v@),
{
    let cs = chars_of(v);
    let offs = byte_offsets(cs.as_slice());
    let total = offs[cs.len()];
    assert(cs@.subrange(0, cs@.len() as int) =~= v@);
    if total <= 1400 {
        owned(v)
    } else {
        match byte_slice_exec(cs.as_slice(), &offs, 0, 1400) {
            Some(head) => {
                let mut r = string_of(head.as_slice());
                push_char(&mut r, '…');
                r
            },
            None => owned(v),
        }
    }
}

/// The combined output after one more line from `stream`: blank lines are
/// skipped; others are trimmed, tagged with their stream and put on a line of
/// their own.
pub open spec fn appended(combined: Seq<char>, stream: Seq<char>, line: Seq<char>) -> Seq<char> {
    if trim(line).len() == 0 {
        combined
    } else {
        let tagged = seq!['['] + stream + "] "@ + trim(line);
        if combined.len() == 0 {
            tagged
        } else {
            combined.push('\n') + tagged
        }
    }
}

/// Adds one output line to the combined output.
pub fn append_output_line(combined: &mut String, stream: &str, line: &str)
    ensures
        final(combined)@ == appended(old(combined)@, stream@, line@),
{
    let lv = chars_of(line);
    let t = trim_chars(lv.as_slice());
    if t.len() == 0 {
        return;
    }
    let ghost c0 = combined@;
    if !combined.as_str().is_empty() {
        push_char(combined, '\n');
    }
    let ghost c1 = combined@;
    push_char(combined, '[');
    push_str(combined, stream);
    push_str(combined, "] ");
    push_chars(combined, t.as_slice());
    proof {
        reveal_strlit("] ");
        assert(combined@ =~= c1 + (seq!['['] + stream@ + "] "@ + trim(line@)));
    }
}

// ─────────────────────────────── run ids ──────────────────────────────────

/// The run id of an action: the action, the UTC start time and a four-digit
/// nonce, joined by `-`.
pub open spec fn run_id_text(action: Seq<char>, stamp: Seq<char>, nonce: u32) -> Seq<char> {
    action + seq!['-'] + stamp + seq!['-'] + decimal(nonce as nat)
}

/// Builds a run id from its parts.
pub fn format_run_id(action: &str, stamp: &str, nonce: u32) -> (r: String)
    ensures
        r@ == run_id_text(action@, stamp@, nonce),
{
    let mut r = owned(action);
    push_char(&mut r, '-');
    push_str(&mut r, stamp);
    push_char(&mut r, '-');
    push_decimal(&mut r, nonce as u64);
    r
}

/// The current UTC time written with a chrono pattern
/// (`chrono::Utc::now().format(pattern).to_string()`). It reads the clock, so
/// nothing is promised of the text. The pattern is one whose specifiers
/// chrono knows (`time_pattern`): with an unknown one the formatting fails
/// and `to_string` panics.
#[verifier::external_body]
fn utc_now_formatted(pattern: &str) -> (r: String)
    requires
        crate::logging::time_pattern(pattern@),
{
    chrono::Utc::now().format(pattern).to_string()
}

/// A random number in `lo..=hi` from the thread's generator
/// (`rand::Rng::gen_range` on `rand::thread_rng()`); the crate documents that
/// the result lies in the range and panics only on an empty range.
#[verifier::external_body]
fn random_in_range(lo: u32, hi: u32) -> (r: u32)
    requires
        lo <= hi,
    ensures
        lo <= r <= hi,
{
    rand::thread_rng().gen_range(lo..=hi)
}

/// A fresh run id for an action.
pub fn make_run_id(action: &str) -> (r: String)
    ensures
        exists|stamp: Seq<char>, nonce: u32|
            1000 <= nonce <= 9999 && r@ == run_id_text(action@, stamp, nonce),
{
    let stamp = utc_now_formatted("%Y%m%dT%H%M%S");
    let nonce = random_in_range(1000, 9999);
    format_run_id(action, stamp.as_str(), nonce)
}

// ───────────────────────────── a command run ──────────────────────────────

/// What to run and how to report it.
pub struct RunSpec {
    pub task: String,
    pub action: String,
    pub step: String,
    pub program: String,
    pub args: Vec<String>,
    pub timeout_secs: u64,
    pub start_percent: u8,
    pub done_percent: u8,
}

/// Model of a [`RunSpec`].
pub struct RunSpecView {
    pub task: Seq<char>,
    pub action: Seq<char>,
    pub step: Seq<char>,
    pub program: Seq<char>,
    pub args: Seq<Seq<char>>,
    pub timeout_secs: u64,
    pub start_percent: u8,
    pub done_percent: u8,
}

impl View for RunSpec {
    type V = RunSpecView;

    open spec fn view(&self) -> RunSpecView {
        RunSpecView {
            task: self.task@,
            action: self.action@,
            step: self.step@,
            program: self.program@,
            args: self.args@.map_values(|a: String| a@),
            timeout_secs: self.timeout_secs,
            start_percent: self.start_percent,
            done_percent: self.done_percent,
        }
    }
}

/// How a command run ended.
pub struct CommandRunResult {
    pub run_id: String,
    pub output: String,
    pub success: bool,
    pub canceled: bool,
    pub timed_out: bool,
}

/// Model of a [`CommandRunResult`].
pub struct RunResultView {
    pub run_id: Seq<char>,
    pub output: Seq<char>,
    pub success: bool,
    pub canceled: bool,
    pub timed_out: bool,
}

impl View for CommandRunResult {
    type V = RunResultView;

    open spec fn view(&self) -> RunResultView {
        RunResultView {
            run_id: self.run_id@,
            output: self.output@,
            success: self.success,
            canceled: self.canceled,
            timed_out: self.timed_out,
        }
    }
}

/// The message shown when a run starts: its step followed by `…`.
pub fn start_message(step: &str) -> (r: String)
    ensures
        r@ == step@.push('…'),
{
    let mut r = owned(step);
    push_char(&mut r, '…');
    r
}

/// The error reported when the program cannot be started.
pub fn spawn_failure_message(program: &str, reason: &str) -> (r: String)
    ensures
        r@ == "Impossible d'exécuter "@ + program@ + ": "@ + reason@,
{
    let mut r = owned("Impossible d'exécuter ");
    push_str(&mut r, program);
    push_str(&mut r, ": ");
    push_str(&mut r, reason);
    r
}

/// The message of a heartbeat, `elapsed_ms` after the start.
pub open spec fn heartbeat_text(elapsed_ms: u64) -> Seq<char> {
    "Action en cours… "@ + decimal((elapsed_ms / 1000) as nat) + seq!['s']
}

/// Builds the message of a heartbeat.
pub fn heartbeat_message(elapsed_ms: u64) -> (r: String)
    ensures
        r@ == heartbeat_text(elapsed_ms),
{
    let mut r = owned("Action en cours… ");
    push_decimal(&mut r, elapsed_ms / 1000);
    push_char(&mut r, 's');
    r
}

/// What happens while a command runs, as the caller observes it.
pub enum RunEvent {
    /// A line on the program's `stream` ("stdout" or "stderr").
    Output { stream: String, line: String },
    /// The periodic heartbeat, `elapsed_ms` after the start.
    Tick { elapsed_ms: u64 },
    /// The run's cancel flag was found raised.
    CancelRequested,
    /// The deadline passed.
    DeadlinePassed,
    /// The program ended, with its exit code when it has one.
    Exited { code: Option<i32> },
}

/// What the caller must do next.
pub enum RunAction {
    /// Report a progress line.
    EmitProgress { line: String },
    /// Report a heartbeat.
    EmitHeartbeat { message: String },
    /// Stop the program; the run is over.
    KillChild,
    /// Nothing to do.
    Nothing,
}

/// The state of a run between events.
pub struct RunProgress {
    pub combined: String,
    pub canceled: bool,
    pub timed_out: bool,
    pub exit_code: Option<i32>,
    pub finished: bool,
}

/// Model of a [`RunProgress`].
pub struct ProgressView {
    pub combined: Seq<char>,
    pub canceled: bool,
    pub timed_out: bool,
    pub exit_code: Option<i32>,
    pub finished: bool,
}

impl View for RunProgress {
    type V = ProgressView;

    open spec fn view(&self) -> ProgressView {
        ProgressView {
            combined: self.combined@,
            canceled: self.canceled,
            timed_out: self.timed_out,
            exit_code: self.exit_code,
            finished: self.finished,
        }
    }
}

/// Whether an event can be handled: an output line must be cappable.
pub open spec fn event_allowed(e: RunEvent) -> bool {
    match e {
        RunEvent::Output { stream, line } => cap_allowed(line@),
        _ => true,
    }
}

/// The state after an event. Once the run is over, lines still buffered are
/// added to the output and every other event is ignored; before that, a cancel
/// request or the deadline ends the run and marks why, and the program's exit
/// ends it with its code.
pub open spec fn progressed(p: ProgressView, e: RunEvent) -> ProgressView {
    match e {
        RunEvent::Output { stream, line } => ProgressView {
            combined: appended(p.combined, stream@, capped(line@)),
            ..p
        },
        RunEvent::Tick { elapsed_ms } => p,
        RunEvent::CancelRequested => if p.finished {
            p
        } else {
            ProgressView { canceled: true, finished: true, ..p }
        },
        RunEvent::DeadlinePassed => if p.finished {
            p
        } else {
            ProgressView { timed_out: true, finished: true, ..p }
        },
        RunEvent::Exited { code } => if p.finished {
            p
        } else {
            ProgressView { exit_code: code, finished: true, ..p }
        },
    }
}

/// The action an event calls for, in the state before it.
pub open spec fn action_for(p: ProgressView, e: RunEvent, a: RunAction) -> bool {
    if p.finished {
        a is Nothing
    } else {
        match e {
            RunEvent::Output { stream, line } => (a matches RunAction::EmitProgress { line: l }
                && l@ == capped(line@)),
            RunEvent::Tick { elapsed_ms } => (a matches RunAction::EmitHeartbeat { message }
                && message@ == heartbeat_text(elapsed_ms)),
            RunEvent::CancelRequested => a is KillChild,
            RunEvent::DeadlinePassed => a is KillChild,
            RunEvent::Exited { code } => a is Nothing,
        }
    }
}

impl RunProgress {
    /// The state when a run starts.
    pub fn new() -> (r: Self)
        ensures
            r@ == (ProgressView {
                combined: Seq::<char>::empty(),
                canceled: false,
                timed_out: false,
                exit_code: None,
                finished: false,
            }),
    {
        RunProgress {
            combined: String::new(),
            canceled: false,
            timed_out: false,
            exit_code: None,
            finished: false,
        }
    }

    /// Handles one event and says what to do next.
    pub fn step(&mut self, event: RunEvent) -> (a: RunAction)
        requires
            event_allowed(event),
        ensures
            final(self)@ == progressed(old(self)@, event),
            action_for(old(self)@, event, a),
    {
        match event {
            RunEvent::Output { stream, line } => {
                let l = cap_line(line.as_str());
                append_output_line(&mut self.combined, stream.as_str(), l.as_str());
                if self.finished {
                    RunAction::Nothing
                } else {
                    RunAction::EmitProgress { line: l }
                }
            },
            RunEvent::Tick { elapsed_ms } => {
                if self.finished {
                    RunAction::Nothing
                } else {
                    RunAction::EmitHeartbeat { message: heartbeat_message(elapsed_ms) }
                }
            },
            RunEvent::CancelRequested => {
                if self.finished {
                    RunAction::Nothing
                } else {
                    self.canceled = true;
                    self.finished = true;
                    RunAction::KillChild
                }
            },
            RunEvent::DeadlinePassed => {
                if self.finished {
                    RunAction::Nothing
                } else {
                    self.timed_out = true;
                    self.finished = true;
                    RunAction::KillChild
                }
            },
            RunEvent::Exited { code } => {
                if !self.finished {
                    self.exit_code = code;
                    self.finished = true;
                }
                RunAction::Nothing
            },
        }
    }
}

// ─────────────────────────────── outcome ──────────────────────────────────

/// The exit code, -1 when there is none.
pub open spec fn code_or_minus_one(c: Option<i32>) -> int {
    match c {
        Some(v) => v as int,
        None => -1,
    }
}

/// A run succeeds when it was neither cancelled nor timed out and the program
/// exited with code 0.
pub open spec fn run_succeeded(p: ProgressView) -> bool {
    !p.canceled && !p.timed_out && code_or_minus_one(p.exit_code) == 0
}

/// The final status reported for a run.
pub open spec fn final_status(p: ProgressView) -> Seq<char> {
    if p.canceled {
        "canceled"@
    } else if p.timed_out {
        "error"@
    } else if run_succeeded(p) {
        "done"@
    } else {
        "error"@
    }
}

/// The message shown when a run is cancelled.
pub open spec fn canceled_text() -> Seq<char> {
    "Action annulée par l'utilisateur"@
}

/// The final message reported for a run.
pub open spec fn final_message(p: ProgressView, step: Seq<char>, run_id: Seq<char>, timeout_secs: u64) -> Seq<char> {
    if p.canceled {
        canceled_text()
    } else if p.timed_out {
        "Délai dépassé après "@ + decimal(timeout_secs as nat) + seq!['s']
    } else if run_succeeded(p) {
        if trim(p.combined).len() == 0 {
            step + " terminé avec succès (run_id: "@ + run_id + seq![')']
        } else {
            p.combined
        }
    } else if trim(p.combined).len() == 0 {
        "Erreur (code "@ + signed_decimal(code_or_minus_one(p.exit_code)) + seq![')']
    } else {
        p.combined
    }
}

/// The error a failed run is answered with.
pub open spec fn failure_text(p: ProgressView, message: Seq<char>, timeout_secs: u64) -> Seq<char> {
    if p.canceled {
        canceled_text()
    } else if p.timed_out {
        "Timeout de "@ + decimal(timeout_secs as nat) + "s atteint"@
    } else {
        message
    }
}

/// How a finished run is reported: the last event's status, message and
/// percentage, and the answer to the caller.
pub struct RunOutcome {
    pub status: String,
    pub message: String,
    pub percent: u8,
    pub result: Result<CommandRunResult, String>,
}

/// What is reported of a finished run.
pub open spec fn outcome_matches(
    o: RunOutcome,
    p: ProgressView,
    step: Seq<char>,
    run_id: Seq<char>,
    timeout_secs: u64,
    start_percent: u8,
    done_percent: u8,
) -> bool {
    let msg = final_message(p, step, run_id, timeout_secs);
    &&& o.status@ == final_status(p)
    &&& o.message@ == msg
    &&& o.percent == if run_succeeded(p) { done_percent } else { start_percent }
    &&& match o.result {
        Ok(r) => run_succeeded(p) && r@ == (RunResultView {
            run_id: run_id,
            output: msg,
            success: true,
            canceled: p.canceled,
            timed_out: p.timed_out,
        }),
        Err(e) => !run_succeeded(p) && e@ == failure_text(p, msg, timeout_secs),
    }
}

fn is_blank(s: &str) -> (b: bool)
    ensures
        b == (trim(s@).len() == 0),
{
    let v = chars_of(s);
    trim_chars(v.as_slice()).len() == 0
}

/// Reports a finished run.
pub fn conclude(spec: &RunSpec, run_id: String, progress: &RunProgress) -> (o: RunOutcome)
    ensures
        outcome_matches(
            o,
            progress@,
            spec.step@,
            run_id@,
            spec.timeout_secs,
            spec.start_percent,
            spec.done_percent,
        ),
{
    let p = progress;
    let code: i32 = match p.exit_code {
        Some(c) => c,
        None => -1,
    };
    let success = !p.canceled && !p.timed_out && code == 0;
    let status = if p.canceled {
        owned("canceled")
    } else if p.timed_out {
        owned("error")
    } else if success {
        owned("done")
    } else {
        owned("error")
    };
    let message = if p.canceled {
        owned("Action annulée par l'utilisateur")
    } else if p.timed_out {
        let mut m = owned("Délai dépassé après ");
        push_decimal(&mut m, spec.timeout_secs);
        push_char(&mut m, 's');
        assert(m@ =~= "Délai dépassé après "@ + decimal(spec.timeout_secs as nat) + seq!['s']);
        m
    } else if success {
        if is_blank(p.combined.as_str()) {
            let mut m = owned(spec.step.as_str());
            push_str(&mut m, " terminé avec succès (run_id: ");
            push_str(&mut m, run_id.as_str());
            push_char(&mut m, ')');
            assert(m@ =~= spec.step@ + " terminé avec succès (run_id: "@ + run_id@ + seq![')']);
            m
        } else {
            p.combined.clone()
        }
    } else if is_blank(p.combined.as_str()) {
        let mut m = owned("Erreur (code ");
        push_i32(&mut m, code);
        push_char(&mut m, ')');
        assert(m@ =~= "Erreur (code "@ + signed_decimal(code as int) + seq![')']);
        m
    } else {
        p.combined.clone()
    };
    let percent = if success {
        spec.done_percent
    } else {
        spec.start_percent
    };
    let result = if success {
        Ok(
            CommandRunResult {
                run_id,
                output: message.clone(),
                success: true,
                canceled: p.canceled,
                timed_out: p.timed_out,
            },
        )
    } else if p.canceled {
        Err(owned("Action annulée par l'utilisateur"))
    } else if p.timed_out {
        let mut e = owned("Timeout de ");
        push_decimal(&mut e, spec.timeout_secs);
        push_str(&mut e, "s atteint");
        Err(e)
    } else {
        Err(message.clone())
    };
    RunOutcome { status, message, percent, result }
}

/// A run is answered with success exactly when its final status is "done"; a
/// cancelled run is never a success and is answered with the cancellation
/// message; a run that timed out is never a success.
pub proof fn lemma_outcome_consistent(
    o: RunOutcome,
    p: ProgressView,
    step: Seq<char>,
    run_id: Seq<char>,
    timeout_secs: u64,
    start_percent: u8,
    done_percent: u8,
)
    requires
        outcome_matches(o, p, step, run_id, timeout_secs, start_percent, done_percent),
    ensures
        (o.result is Ok) <==> o.status@ == "done"@,
        p.canceled ==> (o.result matches Err(e) && e@ == canceled_text()) && o.status@ == "canceled"@,
        p.timed_out ==> o.result is Err,
{
    reveal_strlit("done");
    reveal_strlit("error");
    reveal_strlit("canceled");
    assert("error"@[0] != "done"@[0]);
    assert("canceled"@[0] != "done"@[0]);
}

} // verus!
