//! The health score and the system readings behind it: the score's four
//! parts, its cache, the quick estimate used by the remote dashboard, the
//! choice of sensors and root disk, the battery, and the system badges.
//!
//! Temperatures are handled as whole thousandths of a degree Celsius.
use vstd::prelude::*;

use crate::text::{
    chars_of, contains, contains_seq, decimal, find, lines, lines_of, lowercase, owned,
    parse_u8, parse_u8_chars, push_decimal, push_str, string_of_range, text_eq, to_lowercase,
    trim, trim_chars, trim_str,
};

verus! {

/// The health score and how it was reached.
pub struct HealthScore {
    /// 0 to 100.
    pub total: u8,
    /// Up to 40 points.
    pub update_score: u8,
    /// Up to 20 points.
    pub disk_score: u8,
    /// Up to 20 points.
    pub startup_score: u8,
    /// Up to 20 points.
    pub temp_score: u8,
    pub pending_updates: usize,
    pub startup_count: usize,
    pub temp_size_mb: u64,
    pub disk_free_gb: u64,
}

/// Points for the pending updates.
pub open spec fn update_points(n: nat) -> u8 {
    if n == 0 {
        40
    } else if n <= 3 {
        30
    } else if n <= 10 {
        15
    } else {
        0
    }
}

/// Points for the free space of the root disk, in GB.
pub open spec fn disk_points(gb: nat) -> u8 {
    if gb >= 50 {
        20
    } else if gb >= 20 {
        15
    } else if gb >= 10 {
        10
    } else if gb >= 5 {
        5
    } else {
        0
    }
}

/// Points for the programs enabled at startup.
pub open spec fn startup_points(n: nat) -> u8 {
    if n <= 5 {
        20
    } else if n <= 10 {
        15
    } else if n <= 15 {
        10
    } else {
        5
    }
}

/// Points for the temporary files, in MB.
pub open spec fn temp_points(mb: nat) -> u8 {
    if mb <= 100 {
        20
    } else if mb <= 500 {
        15
    } else if mb <= 2000 {
        10
    } else {
        5
    }
}

/// Bytes in a megabyte (MiB).
pub open spec fn mib() -> nat {
    1048576
}

/// Bytes in a gigabyte (GiB).
pub open spec fn gib() -> nat {
    1073741824
}

/// The score reached from the four readings.
pub open spec fn health_score_of(pending: nat, disk_free_gb: nat, startup_enabled: nat, temp_bytes: nat) -> (u8, u8, u8, u8, nat) {
    let u = update_points(pending);
    let d = disk_points(disk_free_gb);
    let s = startup_points(startup_enabled);
    let t = temp_points(temp_bytes / mib());
    let sum = u + d + s + t;
    (u, d, s, t, if sum > 100 { 100 } else { sum as nat })
}

/// Computes the health score from the number of pending updates, the free
/// space of the root disk, the number of startup programs enabled and the
/// size of the temporary files.
pub fn compute_health_score(pending_updates: usize, disk_free_gb: u64, startup_enabled: usize, temp_bytes: u64) -> (h: HealthScore)
    ensures
        (h.update_score, h.disk_score, h.startup_score, h.temp_score, h.total as nat) == health_score_of(
            pending_updates as nat,
            disk_free_gb as nat,
            startup_enabled as nat,
            temp_bytes as nat,
        ),
        h.pending_updates == pending_updates,
        h.startup_count == startup_enabled,
        h.temp_size_mb == temp_bytes / 1048576,
        h.disk_free_gb == disk_free_gb,
{
    let u: u8 = if pending_updates == 0 {
        40
    } else if pending_updates <= 3 {
        30
    } else if pending_updates <= 10 {
        15
    } else {
        0
    };
    let d: u8 = disk_score_of(disk_free_gb);
    let s: u8 = if startup_enabled <= 5 {
        20
    } else if startup_enabled <= 10 {
        15
    } else if startup_enabled <= 15 {
        10
    } else {
        5
    };
    let temp_mb = temp_bytes / 1048576;
    let t: u8 = if temp_mb <= 100 {
        20
    } else if temp_mb <= 500 {
        15
    } else if temp_mb <= 2000 {
        10
    } else {
        5
    };
    let sum: u8 = u + d + s + t;
    let total = if sum > 100 {
        100
    } else {
        sum
    };
    HealthScore {
        total,
        update_score: u,
        disk_score: d,
        startup_score: s,
        temp_score: t,
        pending_updates,
        startup_count: startup_enabled,
        temp_size_mb: temp_mb,
        disk_free_gb,
    }
}

fn disk_score_of(gb: u64) -> (d: u8)
    ensures
        d == disk_points(gb as nat),
{
    if gb >= 50 {
        20
    } else if gb >= 20 {
        15
    } else if gb >= 10 {
        10
    } else if gb >= 5 {
        5
    } else {
        0
    }
}

/// The bands of the health score: 40 points with no pending update, 30 for
/// one to three, 15 for four to ten, none beyond; 20 points with at least
/// 50 GB free, 15 from 20 GB, 10 from 10 GB, 5 from 5 GB, none below; 20
/// points for at most five startup programs, 15 up to ten, 10 up to fifteen,
/// 5 beyond; 20 points for at most 100 MB of temporary files, 15 up to
/// 500 MB, 10 up to 2000 MB, 5 beyond; the total is the sum of the four.
pub proof fn lemma_health_score_bands(pending: nat, gb: nat, startup: nat, temp_bytes: nat)
    ensures
        pending == 0 ==> health_score_of(pending, gb, startup, temp_bytes).0 == 40,
        1 <= pending <= 3 ==> health_score_of(pending, gb, startup, temp_bytes).0 == 30,
        4 <= pending <= 10 ==> health_score_of(pending, gb, startup, temp_bytes).0 == 15,
        pending > 10 ==> health_score_of(pending, gb, startup, temp_bytes).0 == 0,
        gb >= 50 ==> health_score_of(pending, gb, startup, temp_bytes).1 == 20,
        20 <= gb < 50 ==> health_score_of(pending, gb, startup, temp_bytes).1 == 15,
        10 <= gb < 20 ==> health_score_of(pending, gb, startup, temp_bytes).1 == 10,
        5 <= gb < 10 ==> health_score_of(pending, gb, startup, temp_bytes).1 == 5,
        gb < 5 ==> health_score_of(pending, gb, startup, temp_bytes).1 == 0,
        startup <= 5 ==> health_score_of(pending, gb, startup, temp_bytes).2 == 20,
        6 <= startup <= 10 ==> health_score_of(pending, gb, startup, temp_bytes).2 == 15,
        11 <= startup <= 15 ==> health_score_of(pending, gb, startup, temp_bytes).2 == 10,
        startup > 15 ==> health_score_of(pending, gb, startup, temp_bytes).2 == 5,
        temp_bytes / 1048576 <= 100 ==> health_score_of(pending, gb, startup, temp_bytes).3 == 20,
        100 < temp_bytes / 1048576 <= 500 ==> health_score_of(pending, gb, startup, temp_bytes).3 == 15,
        500 < temp_bytes / 1048576 <= 2000 ==> health_score_of(pending, gb, startup, temp_bytes).3 == 10,
        temp_bytes / 1048576 > 2000 ==> health_score_of(pending, gb, startup, temp_bytes).3 == 5,
        health_score_of(pending, gb, startup, temp_bytes).4 == health_score_of(pending, gb, startup, temp_bytes).0
            + health_score_of(pending, gb, startup, temp_bytes).1 + health_score_of(pending, gb, startup, temp_bytes).2
            + health_score_of(pending, gb, startup, temp_bytes).3,
{
}

/// The score never exceeds 100, and is the sum of its parts; fewer pending
/// updates, more free space, fewer startup programs or fewer temporary files
/// never lower it.
pub proof fn lemma_health_score_monotone(
    p1: nat,
    p2: nat,
    g1: nat,
    g2: nat,
    s1: nat,
    s2: nat,
    b1: nat,
    b2: nat,
)
    requires
        p1 <= p2,
        g1 >= g2,
        s1 <= s2,
        b1 <= b2,
    ensures
        health_score_of(p1, g1, s1, b1).4 <= 100,
        health_score_of(p1, g1, s1, b1).4 == health_score_of(p1, g1, s1, b1).0
            + health_score_of(p1, g1, s1, b1).1 + health_score_of(p1, g1, s1, b1).2
            + health_score_of(p1, g1, s1, b1).3,
        health_score_of(p1, g1, s1, b1).4 >= health_score_of(p2, g2, s2, b2).4,
{
    assert(b1 / mib() <= b2 / mib()) by (nonlinear_arith)
        requires
            b1 <= b2,
    ;
}

/// The last health score computed, 0 until there is one.
pub struct HealthCache {
    pub value: u8,
}

impl HealthCache {
    /// An empty cache.
    pub fn new() -> (c: Self)
        ensures
            c.value == 0,
    {
        HealthCache { value: 0 }
    }

    /// Remembers a score.
    pub fn store(&mut self, total: u8)
        ensures
            final(self).value == total,
    {
        self.value = total;
    }
}

/// The cached score: `None` before any score was
/// computed (or when the last one was 0).
pub fn get_cached_health_score(cache: &HealthCache) -> (r: Option<u8>)
    ensures
        cache.value == 0 ==> r is None,
        cache.value != 0 ==> r == Some(cache.value),
{
    if cache.value == 0 {
        None
    } else {
        Some(cache.value)
    }
}

/// Points for the hottest temperature, in thousandths of a degree.
pub open spec fn heat_points(milli: int) -> u8 {
    if milli < 60000 {
        20
    } else if milli < 75000 {
        15
    } else if milli < 85000 {
        10
    } else {
        5
    }
}

/// A missing reading counts as 0.
pub open spec fn reading_or_zero(t: Option<i64>) -> int {
    match t {
        Some(v) => v as int,
        None => 0,
    }
}

/// The quick estimate: disk and temperature points (up to 40) scaled to 100.
pub open spec fn quick_score(disk_free_gb: nat, cpu_milli: Option<i64>, gpu_milli: Option<i64>) -> nat {
    let hottest = if reading_or_zero(cpu_milli) >= reading_or_zero(gpu_milli) {
        reading_or_zero(cpu_milli)
    } else {
        reading_or_zero(gpu_milli)
    };
    let raw = ((disk_points(disk_free_gb) + heat_points(hottest)) * 100 / 40) as nat;
    if raw > 100 {
        100
    } else {
        raw
    }
}

/// Quick health estimate from the disk and the temperatures only
/// (given its readings).
pub fn get_health_score_sync(disk_free_gb: u64, cpu_milli: Option<i64>, gpu_milli: Option<i64>) -> (r: u8)
    ensures
        r as nat == quick_score(disk_free_gb as nat, cpu_milli, gpu_milli),
{
    let d = disk_score_of(disk_free_gb);
    let c: i64 = match cpu_milli {
        Some(v) => v,
        None => 0,
    };
    let g: i64 = match gpu_milli {
        Some(v) => v,
        None => 0,
    };
    let hottest = if c >= g {
        c
    } else {
        g
    };
    let t: u8 = if hottest < 60000 {
        20
    } else if hottest < 75000 {
        15
    } else if hottest < 85000 {
        10
    } else {
        5
    };
    let raw: u16 = (d as u16 + t as u16) * 100 / 40;
    if raw > 100 {
        100
    } else {
        raw as u8
    }
}

/// The quick estimate stays within 0..=100, and cooler readings or more free
/// space never lower it.
pub proof fn lemma_quick_score_monotone(g1: nat, g2: nat, c1: i64, c2: i64)
    requires
        g1 >= g2,
        c1 <= c2,
    ensures
        quick_score(g1, Some(c1), None) <= 100,
        quick_score(g1, Some(c1), None) >= quick_score(g2, Some(c2), None),
{
    let a = disk_points(g1) + heat_points(if c1 >= 0 { c1 as int } else { 0 });
    let b = disk_points(g2) + heat_points(if c2 >= 0 { c2 as int } else { 0 });
    assert(a * 100 / 40 >= b * 100 / 40) by (nonlinear_arith)
        requires
            a >= b,
            b >= 0,
    ;
}

// ───────────────────────────── readings ──────────────────────────────────

/// Whether a mount point is the root disk.
pub open spec fn is_root_mount(m: Seq<char>) -> bool {
    m == "/"@ || crate::text::has_prefix(m, "C:"@)
}

/// The free space of the first root disk, in whole GB; 0 when there is none.
pub open spec fn root_disk_free(disks: Seq<(Seq<char>, u64)>) -> nat
    decreases disks.len(),
{
    if disks.len() == 0 {
        0
    } else if is_root_mount(disks[0].0) {
        disks[0].1 as nat / gib()
    } else {
        root_disk_free(disks.drop_first())
    }
}

/// The models of (mount point, available bytes) pairs.
pub open spec fn disk_texts(v: Seq<(String, u64)>) -> Seq<(Seq<char>, u64)> {
    v.map_values(|d: (String, u64)| (d.0@, d.1))
}

/// Free space of the root disk (given the disks listed).
pub fn get_disk_free_gb(disks: &Vec<(String, u64)>) -> (r: u64)
    ensures
        r as nat == root_disk_free(disk_texts(disks@)),
{
    let ghost ds = disk_texts(disks@);
    let c = chars_of("C:");
    assert(ds.subrange(0, ds.len() as int) =~= ds);
    let mut i: usize = 0;
    while i < disks.len()
        invariant
            i <= disks@.len(),
            ds == disk_texts(disks@),
            c@ == "C:"@,
            root_disk_free(ds) == root_disk_free(ds.subrange(i as int, ds.len() as int)),
        decreases disks@.len() - i,
    {
        let m = chars_of(disks[i].0.as_str());
        assert(ds.subrange(i as int, ds.len() as int).drop_first() =~= ds.subrange(i + 1, ds.len() as int));
        if text_eq(disks[i].0.as_str(), "/") || crate::text::starts_with(m.as_slice(), c.as_slice()) {
            return disks[i].1 / 1073741824;
        }
        i = i + 1;
    }
    0
}

/// The disk of a path: the first whose mount point starts the path, or that
/// the path starts.
pub open spec fn disk_of(target: Seq<char>, disks: Seq<(Seq<char>, u64)>) -> Option<u64>
    decreases disks.len(),
{
    if disks.len() == 0 {
        None
    } else if crate::text::has_prefix(target, disks[0].0) || crate::text::has_prefix(disks[0].0, target) {
        Some(disks[0].1)
    } else {
        disk_of(target, disks.drop_first())
    }
}

/// The path looked up when none is given: the system drive.
pub open spec fn default_disk_path(p: crate::maintenance::Platform) -> Seq<char> {
    if p == crate::maintenance::Platform::Windows {
        "C:\\"@
    } else {
        "/"@
    }
}

/// Free bytes of the disk that holds a path, given the disks listed as
/// (mount point, available bytes).
pub fn get_disk_free_space(path: Option<String>, p: crate::maintenance::Platform, disks: &Vec<(String, u64)>) -> (r: Result<u64, String>)
    ensures
        match disk_of(
            match path {
                Some(t) => t@,
                None => default_disk_path(p),
            },
            disk_texts(disks@),
        ) {
            Some(b) => r == Ok::<u64, String>(b),
            None => (r matches Err(e) && e@ == "Disk not found"@),
        },
{
    let ghost want: Seq<char> = match &path {
        Some(t) => t@,
        None => default_disk_path(p),
    };
    let target = match path {
        Some(t) => t,
        None => match p {
            crate::maintenance::Platform::Windows => owned("C:\\"),
            _ => owned("/"),
        },
    };
    let tv = chars_of(target.as_str());
    let ghost ds = disk_texts(disks@);
    assert(ds.subrange(0, ds.len() as int) =~= ds);
    let mut i: usize = 0;
    while i < disks.len()
        invariant
            i <= disks@.len(),
            ds == disk_texts(disks@),
            tv@ == target@,
            target@ == want,
            want == (match path {
                Some(t) => t@,
                None => default_disk_path(p),
            }),
            disk_of(target@, ds) == disk_of(target@, ds.subrange(i as int, ds.len() as int)),
        decreases disks@.len() - i,
    {
        let m = chars_of(disks[i].0.as_str());
        assert(ds.subrange(i as int, ds.len() as int).drop_first() =~= ds.subrange(i + 1, ds.len() as int));
        if crate::text::starts_with(tv.as_slice(), m.as_slice()) || crate::text::starts_with(
            m.as_slice(),
            tv.as_slice(),
        ) {
            return Ok(disks[i].1);
        }
        i = i + 1;
    }
    Err(owned("Disk not found"))
}

/// A sensor label names a CPU reading.
pub open spec fn is_cpu_label(l: Seq<char>) -> bool {
    contains_seq(l, "cpu"@) || contains_seq(l, "core"@) || contains_seq(l, "tctl"@) || contains_seq(
        l,
        "package"@,
    )
}

/// A sensor label names a GPU reading.
pub open spec fn is_gpu_label(l: Seq<char>) -> bool {
    contains_seq(l, "gpu"@) || contains_seq(l, "edge"@) || contains_seq(l, "junction"@)
        || contains_seq(l, "nvidia"@) || contains_seq(l, "amdgpu"@)
}

/// Index of the first sensor whose lower-cased label satisfies `f`.
pub open spec fn first_sensor(labels: Seq<Seq<char>>, f: spec_fn(Seq<char>) -> bool) -> Option<int> {
    if exists|i: int| 0 <= i < labels.len() && f(lowercase(labels[i])) {
        Some(
            choose|i: int|
                0 <= i < labels.len() && f(lowercase(labels[i])) && forall|j: int|
                    0 <= j < i ==> !f(lowercase(labels[j])),
        )
    } else {
        None
    }
}

fn has_any(l: &[char], words: &Vec<Vec<char>>) -> (b: bool)
    ensures
        b == exists|k: int| 0 <= k < words@.len() && contains_seq(l@, words@[k]@),
{
    let mut k: usize = 0;
    while k < words.len()
        invariant
            k <= words@.len(),
            forall|j: int| 0 <= j < k ==> !contains_seq(l@, words@[j]@),
        decreases words@.len() - k,
    {
        if contains(l, words[k].as_slice()) {
            return true;
        }
        k = k + 1;
    }
    false
}

fn words_of(a: &str, b: &str, c: &str, d: &str, e: Option<&str>) -> (v: Vec<Vec<char>>)
    ensures
        e is None ==> v@.len() == 4,
        e is Some ==> v@.len() == 5 && v@[4]@ == e->0@,
        v@[0]@ == a@,
        v@[1]@ == b@,
        v@[2]@ == c@,
        v@[3]@ == d@,
{
    let mut v: Vec<Vec<char>> = Vec::new();
    v.push(chars_of(a));
    v.push(chars_of(b));
    v.push(chars_of(c));
    v.push(chars_of(d));
    match e {
        Some(x) => v.push(chars_of(x)),
        None => {},
    }
    v
}

/// The sensors read as the CPU and GPU temperatures: the first whose
/// lower-cased label names each.
pub fn pick_sensors(labels: &Vec<String>) -> (r: (Option<usize>, Option<usize>))
    ensures
        match r.0 {
            Some(i) => first_sensor(labels@.map_values(|s: String| s@), |l: Seq<char>| is_cpu_label(l))
                == Some(i as int),
            None => first_sensor(labels@.map_values(|s: String| s@), |l: Seq<char>| is_cpu_label(l))
                is None,
        },
        match r.1 {
            Some(i) => first_sensor(labels@.map_values(|s: String| s@), |l: Seq<char>| is_gpu_label(l))
                == Some(i as int),
            None => first_sensor(labels@.map_values(|s: String| s@), |l: Seq<char>| is_gpu_label(l))
                is None,
        },
{
    let ghost ls = labels@.map_values(|s: String| s@);
    let cpu_words = words_of("cpu", "core", "tctl", "package", None);
    let gpu_words = words_of("gpu", "edge", "junction", "nvidia", Some("amdgpu"));
    let mut cpu: Option<usize> = None;
    let mut gpu: Option<usize> = None;
    let mut i: usize = 0;
    while i < labels.len()
        invariant
            i <= labels@.len(),
            ls == labels@.map_values(|s: String| s@),
            cpu_words@.len() == 4,
            cpu_words@[0]@ == "cpu"@ && cpu_words@[1]@ == "core"@ && cpu_words@[2]@ == "tctl"@
                && cpu_words@[3]@ == "package"@,
            gpu_words@.len() == 5,
            gpu_words@[0]@ == "gpu"@ && gpu_words@[1]@ == "edge"@ && gpu_words@[2]@ == "junction"@
                && gpu_words@[3]@ == "nvidia"@ && gpu_words@[4]@ == "amdgpu"@,
            match cpu {
                Some(c) => c < i && is_cpu_label(lowercase(ls[c as int])) && forall|j: int|
                    0 <= j < c ==> !is_cpu_label(lowercase(ls[j])),
                None => forall|j: int| 0 <= j < i ==> !is_cpu_label(lowercase(ls[j])),
            },
            match gpu {
                Some(c) => c < i && is_gpu_label(lowercase(ls[c as int])) && forall|j: int|
                    0 <= j < c ==> !is_gpu_label(lowercase(ls[j])),
                None => forall|j: int| 0 <= j < i ==> !is_gpu_label(lowercase(ls[j])),
            },
        decreases labels@.len() - i,
    {
        let lower = to_lowercase(labels[i].as_str());
        let lv = chars_of(lower.as_str());
        if cpu.is_none() {
            let hit = has_any(lv.as_slice(), &cpu_words);
            proof {
                if hit {
                    let k = choose|k: int| 0 <= k < cpu_words@.len() && contains_seq(lv@, cpu_words@[k]@);
                    assert(is_cpu_label(lowercase(ls[i as int])));
                } else {
                    assert(!contains_seq(lv@, cpu_words@[0]@));
                    assert(!contains_seq(lv@, cpu_words@[1]@));
                    assert(!contains_seq(lv@, cpu_words@[2]@));
                    assert(!contains_seq(lv@, cpu_words@[3]@));
                }
            }
            if hit {
                cpu = Some(i);
            }
        }
        if gpu.is_none() {
            let hit = has_any(lv.as_slice(), &gpu_words);
            proof {
                if hit {
                    let k = choose|k: int| 0 <= k < gpu_words@.len() && contains_seq(lv@, gpu_words@[k]@);
                    assert(is_gpu_label(lowercase(ls[i as int])));
                } else {
                    assert(!contains_seq(lv@, gpu_words@[0]@));
                    assert(!contains_seq(lv@, gpu_words@[1]@));
                    assert(!contains_seq(lv@, gpu_words@[2]@));
                    assert(!contains_seq(lv@, gpu_words@[3]@));
                    assert(!contains_seq(lv@, gpu_words@[4]@));
                }
            }
            if hit {
                gpu = Some(i);
            }
        }
        i = i + 1;
    }
    proof {
        lemma_first_sensor_is(ls, |l: Seq<char>| is_cpu_label(l), cpu);
        lemma_first_sensor_is(ls, |l: Seq<char>| is_gpu_label(l), gpu);
    }
    (cpu, gpu)
}

proof fn lemma_first_sensor_is(ls: Seq<Seq<char>>, f: spec_fn(Seq<char>) -> bool, r: Option<usize>)
    requires
        match r {
            Some(c) => c < ls.len() && f(lowercase(ls[c as int])) && forall|j: int|
                0 <= j < c ==> !f(lowercase(ls[j])),
            None => forall|j: int| 0 <= j < ls.len() ==> !f(lowercase(ls[j])),
        },
    ensures
        match r {
            Some(c) => first_sensor(ls, f) == Some(c as int),
            None => first_sensor(ls, f) is None,
        },
{
    match r {
        Some(c) => {
            assert(0 <= c < ls.len() && f(lowercase(ls[c as int])));
            let k = choose|k: int|
                0 <= k < ls.len() && f(lowercase(ls[k])) && forall|j: int|
                    0 <= j < k ==> !f(lowercase(ls[j]));
            assert(0 <= c as int && c < ls.len() && f(lowercase(ls[c as int])) && forall|j: int|
                0 <= j < c ==> !f(lowercase(ls[j])));
            if k < c {
                assert(!f(lowercase(ls[k])));
            } else if k > c {
                assert(!f(lowercase(ls[c as int])));
            }
        },
        None => {},
    }
}

// ─────────────────────────────── battery ───────────────────────────────────

/// The battery as Windows reports it: the charge, capped at 100, and whether
/// it is charging (status 2); a missing status counts as 0.
pub fn battery_from_wmi(charge: Option<u64>, status: Option<u64>) -> (r: (Option<u8>, bool))
    ensures
        match charge {
            Some(c) => r.0 == Some((if c > 100 { 100 } else { c }) as u8),
            None => r.0 is None,
        },
        r.1 == (status == Some(2u64)),
{
    let pct = match charge {
        Some(c) => Some(if c > 100 {
            100u8
        } else {
            c as u8
        }),
        None => None,
    };
    let charging = match status {
        Some(s) => s == 2,
        None => false,
    };
    (pct, charging)
}

/// The battery as the kernel reports it: the capacity file parsed as a byte,
/// and whether the status file, lower-cased, mentions charging.
pub fn battery_from_sysfs(capacity: Option<&str>, status: Option<&str>) -> (r: (Option<u8>, bool))
    ensures
        r.0 == match capacity {
            Some(c) => parse_u8(trim(c@)),
            None => None,
        },
        r.1 == match status {
            Some(s) => contains_seq(lowercase(trim(s@)), "charging"@),
            None => false,
        },
{
    let pct = match capacity {
        Some(c) => {
            let v = chars_of(c);
            let t = trim_chars(v.as_slice());
            parse_u8_chars(t.as_slice())
        },
        None => None,
    };
    let charging = match status {
        Some(s) => {
            let t = trim_str(s);
            let l = to_lowercase(t.as_str());
            let lv = chars_of(l.as_str());
            let w = chars_of("charging");
            contains(lv.as_slice(), w.as_slice())
        },
        None => false,
    };
    (pct, charging)
}

/// A cached battery reading is reused while younger than a minute.
pub fn battery_cache_fresh(age_secs: u64) -> (b: bool)
    ensures
        b == (age_secs < 60),
{
    age_secs < 60
}

// ───────────────────────────── system badges ──────────────────────────────

/// The OS badge: name and version, trimmed.
pub fn os_label(name: &str, version: &str) -> (r: String)
    ensures
        r@ == trim(name@ + seq![' '] + version@),
{
    let mut s = owned(name);
    crate::text::push_char(&mut s, ' ');
    push_str(&mut s, version);
    assert(s@ =~= name@ + seq![' '] + version@);
    trim_str(s.as_str())
}

/// The CPU badge: the first processor's brand, trimmed, with the thread count
/// when there are several; "Unknown CPU" when none is listed.
pub fn cpu_label(first_brand: Option<&str>, count: usize) -> (r: String)
    ensures
        match first_brand {
            Some(b) => if count > 1 {
                r@ == trim(b@) + " ("@ + decimal(count as nat) + " Threads)"@
            } else {
                r@ == trim(b@)
            },
            None => r@ == "Unknown CPU"@,
        },
{
    match first_brand {
        Some(b) => {
            let mut r = trim_str(b);
            if count > 1 {
                push_str(&mut r, " (");
                push_decimal(&mut r, count as u64);
                push_str(&mut r, " Threads)");
            }
            r
        },
        None => owned("Unknown CPU"),
    }
}

/// A line of `lspci` that describes a display adapter.
pub open spec fn is_display_line(l: Seq<char>) -> bool {
    let lower = lowercase(l);
    contains_seq(lower, "vga"@) || contains_seq(lower, "3d controller"@) || contains_seq(
        lower,
        "display"@,
    )
}

/// The adapter name on a display line: what follows its first ": ", trimmed.
pub open spec fn display_name(l: Seq<char>) -> Option<Seq<char>> {
    match crate::text::find_seq(l, ": "@) {
        Some(p) => Some(trim(l.subrange(p + 2, l.len() as int))),
        None => None,
    }
}

/// The GPU name from `lspci`: that of the first display line that has one.
pub open spec fn lspci_gpu_of(ls: Seq<Seq<char>>) -> Option<Seq<char>>
    decreases ls.len(),
{
    if ls.len() == 0 {
        None
    } else if is_display_line(ls[0]) && display_name(ls[0]) is Some {
        display_name(ls[0])
    } else {
        lspci_gpu_of(ls.drop_first())
    }
}

/// Finds the GPU name in the output of `lspci`.
#[verifier::rlimit(40)]
pub fn lspci_gpu_name(text: &str) -> (r: Option<String>)
    ensures
        match lspci_gpu_of(lines(text@)) {
            Some(n) => r matches Some(x) && x@ == n,
            None => r is None,
        },
{
    let ls = lines_of(text);
    let ghost spec_ls = lines(text@);
    let sep = chars_of(": ");
    proof {
        reveal_strlit(": ");
    }
    assert(spec_ls.subrange(0, spec_ls.len() as int) =~= spec_ls);
    let mut i: usize = 0;
    while i < ls.len()
        invariant
            i <= ls@.len(),
            ls@.len() == spec_ls.len(),
            spec_ls == lines(text@),
            sep@ == ": "@,
            sep@.len() == 2,
            forall|k: int| 0 <= k < ls@.len() ==> ls@[k]@ == spec_ls[k],
            lspci_gpu_of(spec_ls) == lspci_gpu_of(spec_ls.subrange(i as int, spec_ls.len() as int)),
        decreases ls@.len() - i,
    {
        let line = &ls[i];
        assert(spec_ls.subrange(i as int, spec_ls.len() as int).drop_first() =~= spec_ls.subrange(
            i + 1,
            spec_ls.len() as int,
        ));
        let s = crate::text::string_of(line.as_slice());
        let lower = to_lowercase(s.as_str());
        let lv = chars_of(lower.as_str());
        let w1 = chars_of("vga");
        let w2 = chars_of("3d controller");
        let w3 = chars_of("display");
        if contains(lv.as_slice(), w1.as_slice()) || contains(lv.as_slice(), w2.as_slice()) || contains(
            lv.as_slice(),
            w3.as_slice(),
        ) {
            match find(line.as_slice(), sep.as_slice()) {
                Some(p) => {
                    let n = line.len();
                    assert(p + 2 <= n);
                    let tail = string_of_range(line.as_slice(), p + 2, n);
                    return Some(trim_str(tail.as_str()));
                },
                None => {},
            }
        }
        i = i + 1;
    }
    None
}

// ─────────────────────────────── auto-pilot ───────────────────────────────

/// The progress message shown while an update is installed by the auto-pilot.
pub fn autopilot_install_message(name: &str) -> (r: String)
    ensures
        r@ == "Installing "@ + name@ + "…"@,
{
    let mut r = owned("Installing ");
    push_str(&mut r, name);
    push_str(&mut r, "…");
    r
}

/// A stage of the auto-pilot.
#[derive(Clone, Copy)]
pub enum AutopilotStage {
    Snapshot,
    Updates,
    Cleanup,
    Residues,
    Done,
}

/// The stages of the auto-pilot, in order: a safety snapshot, the updates
/// (each one found is installed), the cleanup of temporary files, the OS
/// residues, and the end, where the new health score is computed.
pub fn autopilot_plan() -> (r: Vec<AutopilotStage>)
    ensures
        r@.len() == 5,
        r@[0] is Snapshot,
        r@[1] is Updates,
        r@[2] is Cleanup,
        r@[3] is Residues,
        r@[4] is Done,
{
    let mut r: Vec<AutopilotStage> = Vec::new();
    r.push(AutopilotStage::Snapshot);
    r.push(AutopilotStage::Updates);
    r.push(AutopilotStage::Cleanup);
    r.push(AutopilotStage::Residues);
    r.push(AutopilotStage::Done);
    r
}

/// The step name and message announced when a stage starts.
pub fn autopilot_announcement(stage: &AutopilotStage) -> (r: (String, String))
    ensures
        (stage is Snapshot) ==> r.0@ == "snapshot"@ && r.1@ == "Creating safety snapshot…"@,
        (stage is Updates) ==> r.0@ == "updates"@ && r.1@ == "Checking for updates…"@,
        (stage is Cleanup) ==> r.0@ == "cleanup"@ && r.1@ == "Cleaning temporary files…"@,
        (stage is Residues) ==> r.0@ == "residues"@ && r.1@ == "Cleaning OS residues…"@,
        (stage is Done) ==> r.0@ == "done"@ && r.1@ == "Auto-pilot complete!"@,
{
    match stage {
        AutopilotStage::Snapshot => (owned("snapshot"), owned("Creating safety snapshot…")),
        AutopilotStage::Updates => (owned("updates"), owned("Checking for updates…")),
        AutopilotStage::Cleanup => (owned("cleanup"), owned("Cleaning temporary files…")),
        AutopilotStage::Residues => (owned("residues"), owned("Cleaning OS residues…")),
        AutopilotStage::Done => (owned("done"), owned("Auto-pilot complete!")),
    }
}

/// The label of the snapshot the auto-pilot takes first.
pub fn autopilot_snapshot_label() -> (r: String)
    ensures
        r@ == "Aura Auto-Pilot"@,
{
    owned("Aura Auto-Pilot")
}

} // verus!
