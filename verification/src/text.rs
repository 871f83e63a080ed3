//! Character-level text toolkit shared by every parser of the library.
//!
//! Text is modelled as `Seq<char>` (the view of `str` and `String`).  The
//! spec functions below state what trimming, splitting, searching and number
//! formatting mean; the executable functions are proved against them.
use vstd::prelude::*;
use vstd::string::*;

verus! {

// ───────────────────────────── specifications ─────────────────────────────

/// Unicode `White_Space` property, the set used by `char::is_whitespace`.
pub open spec fn is_ws(c: char) -> bool {
    let u = c as u32;
    (0x9 <= u && u <= 0xd) || u == 0x20 || u == 0x85 || u == 0xa0 || u == 0x1680 || (0x2000
        <= u && u <= 0x200a) || u == 0x2028 || u == 0x2029 || u == 0x202f || u == 0x205f || u
        == 0x3000
}

/// Removes leading whitespace.
pub open spec fn trim_start(s: Seq<char>) -> Seq<char>
    decreases s.len(),
{
    if s.len() == 0 {
        s
    } else if is_ws(s[0]) {
        trim_start(s.subrange(1, s.len() as int))
    } else {
        s
    }
}

/// Removes trailing whitespace.
pub open spec fn trim_end(s: Seq<char>) -> Seq<char>
    decreases s.len(),
{
    if s.len() == 0 {
        s
    } else if is_ws(s.last()) {
        trim_end(s.drop_last())
    } else {
        s
    }
}

/// Removes leading and trailing whitespace (`str::trim`).
pub open spec fn trim(s: Seq<char>) -> Seq<char> {
    trim_end(trim_start(s))
}

/// `p` is a prefix of `s`.
pub open spec fn has_prefix(s: Seq<char>, p: Seq<char>) -> bool {
    p.len() <= s.len() && s.subrange(0, p.len() as int) == p
}

/// `p` is a suffix of `s`.
pub open spec fn has_suffix(s: Seq<char>, p: Seq<char>) -> bool {
    p.len() <= s.len() && s.subrange(s.len() - p.len(), s.len() as int) == p
}

/// `n` occurs in `s` starting at index `i`.
pub open spec fn occurs_at(s: Seq<char>, n: Seq<char>, i: int) -> bool {
    0 <= i && i + n.len() <= s.len() && s.subrange(i, i + n.len()) == n
}

/// `n` occurs somewhere in `s` (`str::contains`).
pub open spec fn contains_seq(s: Seq<char>, n: Seq<char>) -> bool {
    exists|i: int| occurs_at(s, n, i)
}

/// Index of the first occurrence of `n` in `s`, if any (`str::find`, on characters).
pub open spec fn find_seq(s: Seq<char>, n: Seq<char>) -> Option<int> {
    if contains_seq(s, n) {
        Some(choose|i: int| occurs_at(s, n, i) && forall|j: int| 0 <= j < i ==> !occurs_at(s, n, j))
    } else {
        None
    }
}

/// The pieces of `s` between occurrences of `sep` (`str::split` with a char);
/// always at least one piece.
pub open spec fn split_char(s: Seq<char>, sep: char) -> Seq<Seq<char>>
    decreases s.len(),
{
    if s.len() == 0 {
        seq![Seq::<char>::empty()]
    } else {
        let init = split_char(s.drop_last(), sep);
        if s.last() == sep {
            init.push(Seq::<char>::empty())
        } else {
            init.update(init.len() - 1, init.last().push(s.last()))
        }
    }
}

/// The pieces of `s` between whitespace characters; always at least one piece.
pub open spec fn split_ws(s: Seq<char>) -> Seq<Seq<char>>
    decreases s.len(),
{
    if s.len() == 0 {
        seq![Seq::<char>::empty()]
    } else {
        let init = split_ws(s.drop_last());
        if is_ws(s.last()) {
            init.push(Seq::<char>::empty())
        } else {
            init.update(init.len() - 1, init.last().push(s.last()))
        }
    }
}

/// Drops the empty pieces of a list, keeping the order of the others.
pub open spec fn drop_empty(ps: Seq<Seq<char>>) -> Seq<Seq<char>>
    decreases ps.len(),
{
    if ps.len() == 0 {
        ps
    } else {
        let r = drop_empty(ps.drop_last());
        if ps.last().len() == 0 {
            r
        } else {
            r.push(ps.last())
        }
    }
}

/// The words of `s` (`str::split_whitespace`).
pub open spec fn words(s: Seq<char>) -> Seq<Seq<char>> {
    drop_empty(split_ws(s))
}

/// Removes one trailing carriage return.
pub open spec fn strip_cr(s: Seq<char>) -> Seq<char> {
    if s.len() > 0 && s.last() == '\r' {
        s.drop_last()
    } else {
        s
    }
}

/// The lines of `s` (`str::lines`): split at `\n`, a `\r` before a `\n` is
/// removed, and a final empty line is not produced.
pub open spec fn lines(s: Seq<char>) -> Seq<Seq<char>> {
    let p = split_char(s, '\n');
    let init = p.drop_last().map_values(|l: Seq<char>| strip_cr(l));
    if p.last().len() == 0 {
        init
    } else {
        init.push(p.last())
    }
}

/// Joins pieces with a separator.
pub open spec fn join(ps: Seq<Seq<char>>, sep: Seq<char>) -> Seq<char>
    decreases ps.len(),
{
    if ps.len() == 0 {
        Seq::<char>::empty()
    } else if ps.len() == 1 {
        ps[0]
    } else {
        join(ps.drop_last(), sep) + sep + ps.last()
    }
}

/// Decimal digit character.
pub open spec fn digit_char(d: nat) -> char {
    if d == 0 {
        '0'
    } else if d == 1 {
        '1'
    } else if d == 2 {
        '2'
    } else if d == 3 {
        '3'
    } else if d == 4 {
        '4'
    } else if d == 5 {
        '5'
    } else if d == 6 {
        '6'
    } else if d == 7 {
        '7'
    } else if d == 8 {
        '8'
    } else {
        '9'
    }
}

/// Decimal representation of a natural number (`to_string` on an unsigned integer).
pub open spec fn decimal(n: nat) -> Seq<char>
    decreases n,
{
    if n < 10 {
        seq![digit_char(n)]
    } else {
        decimal(n / 10).push(digit_char(n % 10))
    }
}

/// ASCII digit test.
pub open spec fn is_digit(c: char) -> bool {
    '0' <= c && c <= '9'
}

/// Value of a string of ASCII digits.
pub open spec fn digits_value(s: Seq<char>) -> nat
    decreases s.len(),
{
    if s.len() == 0 {
        0
    } else {
        digits_value(s.drop_last()) * 10 + ((s.last() as u32) - ('0' as u32)) as nat
    }
}

/// The digits part of an unsigned number: the text without one leading `+`.
pub open spec fn unsigned_digits(s: Seq<char>) -> Seq<char> {
    if s.len() > 0 && s[0] == '+' {
        s.drop_first()
    } else {
        s
    }
}

/// `str::parse::<u8>`: an optional `+`, then at least one ASCII digit, with a
/// value of at most 255.
pub open spec fn parse_u8(s: Seq<char>) -> Option<u8> {
    let d = unsigned_digits(s);
    if d.len() == 0 || !(forall|i: int| 0 <= i < d.len() ==> is_digit(d[i])) {
        None
    } else if digits_value(d) <= 255 {
        Some(digits_value(d) as u8)
    } else {
        None
    }
}

/// Number of bytes of the UTF-8 encoding of one character.
pub open spec fn utf8_width(c: char) -> nat {
    let u = c as u32;
    if u < 0x80 {
        1
    } else if u < 0x800 {
        2
    } else if u < 0x10000 {
        3
    } else {
        4
    }
}

/// Number of bytes of the UTF-8 encoding of a text (`str::len`).
pub open spec fn utf8_len(s: Seq<char>) -> nat
    decreases s.len(),
{
    if s.len() == 0 {
        0
    } else {
        utf8_len(s.drop_last()) + utf8_width(s.last())
    }
}

/// ASCII lowercase of one character (`char::to_ascii_lowercase`).
pub open spec fn ascii_lower(c: char) -> char {
    if 'A' <= c && c <= 'Z' {
        (((c as u32) + 32) as u8) as char
    } else {
        c
    }
}

/// A text of ASCII characters only.
pub open spec fn ascii_text(s: Seq<char>) -> bool {
    forall|i: int| 0 <= i < s.len() ==> (s[i] as u32) < 128
}

/// Equality up to ASCII case (`str::eq_ignore_ascii_case`).
pub open spec fn eq_ignore_ascii_case(a: Seq<char>, b: Seq<char>) -> bool {
    a.len() == b.len() && forall|i: int| 0 <= i < a.len() ==> ascii_lower(a[i]) == ascii_lower(
        b[i],
    )
}

/// What `str::to_lowercase` makes of a text: its lowercase under the full
/// Unicode mapping, which depends on the text alone (one character may become
/// several, of another UTF-8 width).
pub uninterp spec fn lowercase(s: Seq<char>) -> Seq<char>;

// ─────────────────────────────── lemmas ───────────────────────────────────

pub proof fn lemma_trim_start(s: Seq<char>, i: int)
    requires
        0 <= i <= s.len(),
        forall|k: int| 0 <= k < i ==> is_ws(s[k]),
        i == s.len() || !is_ws(s[i]),
    ensures
        trim_start(s) == s.subrange(i, s.len() as int),
    decreases i,
{
    if i == 0 {
        assert(s.subrange(0, s.len() as int) =~= s);
    } else {
        let t = s.subrange(1, s.len() as int);
        lemma_trim_start(t, i - 1);
        assert(t.subrange(i - 1, t.len() as int) =~= s.subrange(i, s.len() as int));
    }
}

pub proof fn lemma_trim_end(s: Seq<char>, j: int)
    requires
        0 <= j <= s.len(),
        forall|k: int| j <= k < s.len() ==> is_ws(s[k]),
        j == 0 || !is_ws(s[j - 1]),
    ensures
        trim_end(s) == s.subrange(0, j),
    decreases s.len() - j,
{
    if j == s.len() {
        assert(s.subrange(0, s.len() as int) =~= s);
    } else {
        let t = s.drop_last();
        lemma_trim_end(t, j);
        assert(t.subrange(0, j) =~= s.subrange(0, j));
    }
}

pub proof fn lemma_split_char_len(s: Seq<char>, sep: char)
    ensures
        split_char(s, sep).len() >= 1,
    decreases s.len(),
{
    if s.len() > 0 {
        lemma_split_char_len(s.drop_last(), sep);
    }
}

pub proof fn lemma_split_ws_len(s: Seq<char>)
    ensures
        split_ws(s).len() >= 1,
    decreases s.len(),
{
    if s.len() > 0 {
        lemma_split_ws_len(s.drop_last());
    }
}

pub proof fn lemma_decimal_nonempty(n: nat)
    ensures
        decimal(n).len() >= 1,
    decreases n,
{
    if n >= 10 {
        lemma_decimal_nonempty(n / 10);
    }
}

// ─────────────────────────── conversions ──────────────────────────────────

/// The characters of a text.
pub fn chars_of(s: &str) -> (v: Vec<char>)
    ensures
        v@ == s@,
{
    broadcast use vstd::string::group_string_axioms;
    let mut v: Vec<char> = Vec::new();
    for c in it: s.chars()
        invariant
            it.seq() == s@,
            v@ == it.seq().subrange(0, it.index() as int),
    {
        v.push(c);
        assert(v@ =~= it.seq().subrange(0, it.index() + 1));
    }
    assert(v@ =~= s@);
    v
}

/// Appends one character (`String::push`): the text afterwards is the text
/// before with the character added at its end, as std documents.
#[verifier::external_body]
pub(crate) fn push_char(s: &mut String, c: char)
    ensures
        final(s)@ == old(s)@.push(c),
{
    s.push(c);
}

/// Appends a text.
pub fn push_str(s: &mut String, t: &str)
    ensures
        final(s)@ == old(s)@ + t@,
{
    s.append(t);
}

/// Builds a text from characters.
pub fn string_of(v: &[char]) -> (s: String)
    ensures
        s@ == v@,
{
    let mut s = String::new();
    let mut i: usize = 0;
    while i < v.len()
        invariant
            i <= v@.len(),
            s@ == v@.subrange(0, i as int),
        decreases v@.len() - i,
    {
        push_char(&mut s, v[i]);
        assert(s@ =~= v@.subrange(0, i + 1));
        i = i + 1;
    }
    assert(v@.subrange(0, v@.len() as int) =~= v@);
    s
}

/// Builds a text from the characters `v[lo..hi]`.
pub fn string_of_range(v: &[char], lo: usize, hi: usize) -> (s: String)
    requires
        lo <= hi <= v@.len(),
    ensures
        s@ == v@.subrange(lo as int, hi as int),
{
    let mut s = String::new();
    let mut i: usize = lo;
    while i < hi
        invariant
            lo <= i <= hi,
            hi <= v@.len(),
            s@ == v@.subrange(lo as int, i as int),
        decreases hi - i,
    {
        push_char(&mut s, v[i]);
        assert(s@ =~= v@.subrange(lo as int, i + 1));
        i = i + 1;
    }
    s
}

/// Copies a text into a fresh `String`.
pub fn owned(s: &str) -> (r: String)
    ensures
        r@ == s@,
{
    s.to_owned()
}

/// Lowercase under the full Unicode mapping (`str::to_lowercase`): the
/// contract names the result, `lowercase` of the text, and states it for an
/// ASCII text, where it is the ASCII lowercase of each character (the mapping
/// of `str::to_ascii_lowercase`, as std documents for ASCII letters).
#[verifier::external_body]
pub(crate) fn to_lowercase(s: &str) -> (r: String)
    ensures
        r@ == lowercase(s@),
        ascii_text(s@) ==> r@ == s@.map_values(|c: char| ascii_lower(c)),
{
    s.to_lowercase()
}

// ─────────────────────────── searching ────────────────────────────────────

/// Tests whether `n` occurs in `s` at index `i`.
pub fn matches_at(s: &[char], n: &[char], i: usize) -> (b: bool)
    ensures
        b == occurs_at(s@, n@, i as int),
{
    if i > s.len() || n.len() > s.len() - i {
        return false;
    }
    let mut k: usize = 0;
    while k < n.len()
        invariant
            i + n@.len() <= s@.len(),
            s@.len() == s.len(),
            k <= n@.len(),
            forall|t: int| 0 <= t < k ==> s@[i + t] == n@[t],
        decreases n@.len() - k,
    {
        if s[i + k] != n[k] {
            assert(s@.subrange(i as int, i + n@.len())[k as int] != n@[k as int]);
            return false;
        }
        k = k + 1;
    }
    assert(s@.subrange(i as int, i + n@.len()) =~= n@);
    true
}

/// First index at which `n` occurs in `s` (`str::find`, on characters).
pub fn find(s: &[char], n: &[char]) -> (r: Option<usize>)
    ensures
        match r {
            Some(i) => occurs_at(s@, n@, i as int) && forall|j: int|
                0 <= j < i ==> !occurs_at(s@, n@, j),
            None => !contains_seq(s@, n@),
        },
        r is Some <==> contains_seq(s@, n@),
        match r {
            Some(i) => find_seq(s@, n@) == Some(i as int),
            None => find_seq(s@, n@) is None,
        },
{
    let mut i: usize = 0;
    while i < s.len()
        invariant
            i <= s@.len(),
            forall|j: int| 0 <= j < i ==> !occurs_at(s@, n@, j),
        decreases s@.len() - i,
    {
        if matches_at(s, n, i) {
            proof {
                lemma_first_occurrence(s@, n@, i as int);
            }
            return Some(i);
        }
        i = i + 1;
    }
    if matches_at(s, n, i) {
        proof {
            lemma_first_occurrence(s@, n@, i as int);
        }
        return Some(i);
    }
    assert forall|j: int| !occurs_at(s@, n@, j) by {
        if 0 <= j && j <= i {
        }
    }
    None
}

proof fn lemma_first_occurrence(s: Seq<char>, n: Seq<char>, i: int)
    requires
        occurs_at(s, n, i),
        forall|j: int| 0 <= j < i ==> !occurs_at(s, n, j),
    ensures
        find_seq(s, n) == Some(i),
{
    let c = choose|c: int| occurs_at(s, n, c) && forall|j: int| 0 <= j < c ==> !occurs_at(s, n, j);
    assert(occurs_at(s, n, c));
    if c < i {
    } else if c > i {
        assert(!occurs_at(s, n, i));
    }
}

/// `n` occurs in `s` (`str::contains`).
pub fn contains(s: &[char], n: &[char]) -> (b: bool)
    ensures
        b == contains_seq(s@, n@),
{
    find(s, n).is_some()
}

/// `s` starts with `p` (`str::starts_with`).
pub fn starts_with(s: &[char], p: &[char]) -> (b: bool)
    ensures
        b == has_prefix(s@, p@),
{
    matches_at(s, p, 0)
}

/// `s` ends with `p` (`str::ends_with`).
pub fn ends_with(s: &[char], p: &[char]) -> (b: bool)
    ensures
        b == has_suffix(s@, p@),
{
    if p.len() > s.len() {
        false
    } else {
        matches_at(s, p, s.len() - p.len())
    }
}

/// First index of character `c` in `s`.
pub fn find_char(s: &[char], c: char) -> (r: Option<usize>)
    ensures
        match r {
            Some(i) => i < s@.len() && s@[i as int] == c && forall|j: int| 0 <= j < i ==> s@[j] != c,
            None => forall|j: int| 0 <= j < s@.len() ==> s@[j] != c,
        },
{
    let mut i: usize = 0;
    while i < s.len()
        invariant
            i <= s@.len(),
            forall|j: int| 0 <= j < i ==> s@[j] != c,
        decreases s@.len() - i,
    {
        if s[i] == c {
            return Some(i);
        }
        i = i + 1;
    }
    None
}

// ──────────────────────────── trimming ────────────────────────────────────

/// Unicode whitespace test (`char::is_whitespace`).
pub fn is_whitespace(c: char) -> (b: bool)
    ensures
        b == is_ws(c),
{
    let u = c as u32;
    (0x9 <= u && u <= 0xd) || u == 0x20 || u == 0x85 || u == 0xa0 || u == 0x1680 || (0x2000 <= u
        && u <= 0x200a) || u == 0x2028 || u == 0x2029 || u == 0x202f || u == 0x205f || u == 0x3000
}

/// Bounds of the trimmed part of `s`: `trim(s) == s[lo..hi]`.
pub fn trim_bounds(s: &[char]) -> (r: (usize, usize))
    ensures
        r.0 <= r.1 <= s@.len(),
        trim(s@) == s@.subrange(r.0 as int, r.1 as int),
{
    let mut lo: usize = 0;
    while lo < s.len() && is_whitespace(s[lo])
        invariant
            lo <= s@.len(),
            forall|k: int| 0 <= k < lo ==> is_ws(s@[k]),
        decreases s@.len() - lo,
    {
        lo = lo + 1;
    }
    proof {
        lemma_trim_start(s@, lo as int);
    }
    let mut hi: usize = s.len();
    while hi > lo && is_whitespace(s[hi - 1])
        invariant
            lo <= hi <= s@.len(),
            forall|k: int| hi <= k < s@.len() ==> is_ws(s@[k]),
        decreases hi,
    {
        hi = hi - 1;
    }
    proof {
        let t = s@.subrange(lo as int, s@.len() as int);
        lemma_trim_end(t, hi - lo);
        assert(t.subrange(0, hi - lo) =~= s@.subrange(lo as int, hi as int));
    }
    (lo, hi)
}

/// The trimmed text (`str::trim`).
pub fn trim_chars(s: &[char]) -> (r: Vec<char>)
    ensures
        r@ == trim(s@),
{
    let (lo, hi) = trim_bounds(s);
    let mut r: Vec<char> = Vec::new();
    let mut i = lo;
    while i < hi
        invariant
            lo <= i <= hi,
            hi <= s@.len(),
            r@ == s@.subrange(lo as int, i as int),
        decreases hi - i,
    {
        r.push(s[i]);
        assert(r@ =~= s@.subrange(lo as int, i + 1));
        i = i + 1;
    }
    r
}

/// The trimmed text as a `String`.
pub fn trim_string(s: &[char]) -> (r: String)
    ensures
        r@ == trim(s@),
{
    let (lo, hi) = trim_bounds(s);
    string_of_range(s, lo, hi)
}

/// Trims a `str`.
pub fn trim_str(s: &str) -> (r: String)
    ensures
        r@ == trim(s@),
{
    let v = chars_of(s);
    trim_string(v.as_slice())
}

// ──────────────────────────── splitting ───────────────────────────────────

/// Splits at every occurrence of `sep` (`str::split` with a char).
pub fn split_at_char(s: &[char], sep: char) -> (r: Vec<Vec<char>>)
    ensures
        r@.len() == split_char(s@, sep).len(),
        forall|k: int| 0 <= k < r@.len() ==> r@[k]@ == split_char(s@, sep)[k],
{
    let mut done: Vec<Vec<char>> = Vec::new();
    let mut cur: Vec<char> = Vec::new();
    let mut i: usize = 0;
    while i < s.len()
        invariant
            i <= s@.len(),
            done@.len() + 1 == split_char(s@.subrange(0, i as int), sep).len(),
            forall|k: int|
                0 <= k < done@.len() ==> done@[k]@ == split_char(s@.subrange(0, i as int), sep)[k],
            cur@ == split_char(s@.subrange(0, i as int), sep).last(),
        decreases s@.len() - i,
    {
        let ghost pre = s@.subrange(0, i as int);
        let ghost nxt = s@.subrange(0, i + 1);
        assert(nxt.drop_last() =~= pre);
        proof {
            lemma_split_char_len(pre, sep);
        }
        if s[i] == sep {
            done.push(cur);
            cur = Vec::new();
            assert(cur@ =~= split_char(nxt, sep).last());
        } else {
            cur.push(s[i]);
        }
        i = i + 1;
    }
    assert(s@.subrange(0, s@.len() as int) =~= s@);
    done.push(cur);
    done
}

/// Splits at every whitespace character.
pub fn split_at_ws(s: &[char]) -> (r: Vec<Vec<char>>)
    ensures
        r@.len() == split_ws(s@).len(),
        forall|k: int| 0 <= k < r@.len() ==> r@[k]@ == split_ws(s@)[k],
{
    let mut done: Vec<Vec<char>> = Vec::new();
    let mut cur: Vec<char> = Vec::new();
    let mut i: usize = 0;
    while i < s.len()
        invariant
            i <= s@.len(),
            done@.len() + 1 == split_ws(s@.subrange(0, i as int)).len(),
            forall|k: int|
                0 <= k < done@.len() ==> done@[k]@ == split_ws(s@.subrange(0, i as int))[k],
            cur@ == split_ws(s@.subrange(0, i as int)).last(),
        decreases s@.len() - i,
    {
        let ghost pre = s@.subrange(0, i as int);
        let ghost nxt = s@.subrange(0, i + 1);
        assert(nxt.drop_last() =~= pre);
        proof {
            lemma_split_ws_len(pre);
        }
        if is_whitespace(s[i]) {
            done.push(cur);
            cur = Vec::new();
            assert(cur@ =~= split_ws(nxt).last());
        } else {
            cur.push(s[i]);
        }
        i = i + 1;
    }
    assert(s@.subrange(0, s@.len() as int) =~= s@);
    done.push(cur);
    done
}

/// The words of `s` (`str::split_whitespace`).
pub fn split_words(s: &[char]) -> (r: Vec<Vec<char>>)
    ensures
        r@.len() == words(s@).len(),
        forall|k: int| 0 <= k < r@.len() ==> r@[k]@ == words(s@)[k],
{
    let parts = split_at_ws(s);
    let ghost ps = split_ws(s@);
    let mut r: Vec<Vec<char>> = Vec::new();
    let mut i: usize = 0;
    while i < parts.len()
        invariant
            i <= parts@.len(),
            parts@.len() == ps.len(),
            forall|k: int| 0 <= k < parts@.len() ==> parts@[k]@ == ps[k],
            r@.len() == drop_empty(ps.subrange(0, i as int)).len(),
            forall|k: int|
                0 <= k < r@.len() ==> r@[k]@ == drop_empty(ps.subrange(0, i as int))[k],
        decreases parts@.len() - i,
    {
        assert(ps.subrange(0, i + 1).drop_last() =~= ps.subrange(0, i as int));
        if parts[i].len() > 0 {
            r.push(parts[i].clone());
        }
        i = i + 1;
    }
    assert(ps.subrange(0, ps.len() as int) =~= ps);
    r
}

/// The lines of `s` (`str::lines`).
pub fn split_lines(s: &[char]) -> (r: Vec<Vec<char>>)
    ensures
        r@.len() == lines(s@).len(),
        forall|k: int| 0 <= k < r@.len() ==> r@[k]@ == lines(s@)[k],
{
    let parts = split_at_char(s, '\n');
    let ghost ps = split_char(s@, '\n');
    proof {
        lemma_split_char_len(s@, '\n');
    }
    let n = parts.len();
    let mut r: Vec<Vec<char>> = Vec::new();
    let mut i: usize = 0;
    while i + 1 < n
        invariant
            n == parts@.len(),
            n == ps.len(),
            n >= 1,
            i + 1 <= n,
            forall|k: int| 0 <= k < parts@.len() ==> parts@[k]@ == ps[k],
            r@.len() == i,
            forall|k: int| 0 <= k < i ==> r@[k]@ == strip_cr(ps[k]),
        decreases n - i,
    {
        let p = &parts[i];
        let plen = p.len();
        if plen > 0 && p[plen - 1] == '\r' {
            let mut q: Vec<char> = Vec::new();
            let mut k: usize = 0;
            while k + 1 < plen
                invariant
                    plen == p@.len(),
                    plen > 0,
                    k + 1 <= plen,
                    q@ == p@.subrange(0, k as int),
                decreases plen - k,
            {
                q.push(p[k]);
                assert(q@ =~= p@.subrange(0, k + 1));
                k = k + 1;
            }
            assert(q@ =~= p@.drop_last());
            r.push(q);
        } else {
            r.push(p.clone());
        }
        i = i + 1;
    }
    let ghost init = ps.drop_last().map_values(|l: Seq<char>| strip_cr(l));
    if parts[n - 1].len() > 0 {
        r.push(parts[n - 1].clone());
    }
    proof {
        if ps.last().len() == 0 {
            assert(lines(s@) == init);
        } else {
            assert(lines(s@) == init.push(ps.last()));
        }
    }
    r
}

/// Lines of a `str`.
pub fn lines_of(s: &str) -> (r: Vec<Vec<char>>)
    ensures
        r@.len() == lines(s@).len(),
        forall|k: int| 0 <= k < r@.len() ==> r@[k]@ == lines(s@)[k],
{
    let v = chars_of(s);
    split_lines(v.as_slice())
}

// ──────────────────────────── numbers ─────────────────────────────────────

/// Decimal digit character.
pub fn digit(d: u64) -> (c: char)
    requires
        d < 10,
    ensures
        c == digit_char(d as nat),
{
    if d == 0 {
        '0'
    } else if d == 1 {
        '1'
    } else if d == 2 {
        '2'
    } else if d == 3 {
        '3'
    } else if d == 4 {
        '4'
    } else if d == 5 {
        '5'
    } else if d == 6 {
        '6'
    } else if d == 7 {
        '7'
    } else if d == 8 {
        '8'
    } else {
        '9'
    }
}

/// Decimal representation (`u64::to_string`).
pub fn decimal_chars(n: u64) -> (r: Vec<char>)
    ensures
        r@ == decimal(n as nat),
    decreases n,
{
    if n < 10 {
        let mut r = Vec::new();
        r.push(digit(n));
        assert(r@ =~= decimal(n as nat));
        r
    } else {
        let mut r = decimal_chars(n / 10);
        r.push(digit(n % 10));
        r
    }
}

/// Decimal representation as a `String`.
pub fn u64_to_string(n: u64) -> (s: String)
    ensures
        s@ == decimal(n as nat),
{
    let v = decimal_chars(n);
    string_of(v.as_slice())
}

/// Appends the decimal representation of `n`.
pub fn push_decimal(s: &mut String, n: u64)
    ensures
        final(s)@ == old(s)@ + decimal(n as nat),
{
    let v = decimal_chars(n);
    let mut i: usize = 0;
    let ghost s0 = s@;
    while i < v.len()
        invariant
            i <= v@.len(),
            v@ == decimal(n as nat),
            s@ == s0 + v@.subrange(0, i as int),
        decreases v@.len() - i,
    {
        push_char(s, v[i]);
        assert(s@ =~= s0 + v@.subrange(0, i + 1));
        i = i + 1;
    }
    assert(v@.subrange(0, v@.len() as int) =~= v@);
}

/// Decimal representation of an integer, with a leading `-` when negative.
pub open spec fn signed_decimal(n: int) -> Seq<char> {
    if n < 0 {
        seq!['-'] + decimal((-n) as nat)
    } else {
        decimal(n as nat)
    }
}

/// Appends the decimal representation of a signed integer.
pub fn push_i32(s: &mut String, n: i32)
    ensures
        final(s)@ == old(s)@ + signed_decimal(n as int),
{
    if n < 0 {
        let ghost s0 = s@;
        push_char(s, '-');
        let m: i64 = 0i64 - (n as i64);
        push_decimal(s, m as u64);
        assert(s@ =~= s0 + signed_decimal(n as int));
    } else {
        push_decimal(s, n as u64);
    }
}

/// Parses an unsigned byte (`str::parse::<u8>`).
pub fn parse_u8_chars(s: &[char]) -> (r: Option<u8>)
    ensures
        r == parse_u8(s@),
{
    let start: usize = if s.len() > 0 && s[0] == '+' {
        1
    } else {
        0
    };
    let ghost d = unsigned_digits(s@);
    assert(d =~= s@.subrange(start as int, s@.len() as int));
    if start == s.len() {
        return None;
    }
    let mut acc: u64 = 0;
    let mut i: usize = start;
    while i < s.len()
        invariant
            start <= i <= s@.len(),
            d == unsigned_digits(s@),
            d == s@.subrange(start as int, s@.len() as int),
            forall|k: int| start <= k < i ==> is_digit(s@[k]),
            acc == if digits_value(s@.subrange(start as int, i as int)) < 256 {
                digits_value(s@.subrange(start as int, i as int))
            } else {
                256
            },
        decreases s@.len() - i,
    {
        let c = s[i];
        if !('0' <= c && c <= '9') {
            assert(d[i - start] == c);
            assert(!is_digit(d[i - start]));
            assert(!(forall|k: int| 0 <= k < d.len() ==> is_digit(d[k])));
            return None;
        }
        let dv = (c as u32 - '0' as u32) as u64;
        let ghost pre = s@.subrange(start as int, i as int);
        let ghost nxt = s@.subrange(start as int, i + 1);
        assert(nxt.drop_last() =~= pre);
        assert(digits_value(nxt) == digits_value(pre) * 10 + dv);
        let t = acc * 10 + dv;
        acc = if t < 256 {
            t
        } else {
            256
        };
        i = i + 1;
    }
    assert(s@.subrange(start as int, s@.len() as int) =~= d);
    if acc < 256 {
        Some(acc as u8)
    } else {
        None
    }
}

// ─────────────────────────── case folding ─────────────────────────────────

/// ASCII lowercase of one character.
pub fn to_ascii_lower(c: char) -> (r: char)
    ensures
        r == ascii_lower(c),
{
    let u = c as u32;
    if 65 <= u && u <= 90 {
        let b = (u + 32) as u8;
        b as char
    } else {
        c
    }
}

/// Equality up to ASCII case (`str::eq_ignore_ascii_case`).
pub fn eq_ascii_case(a: &[char], b: &[char]) -> (r: bool)
    ensures
        r == eq_ignore_ascii_case(a@, b@),
{
    if a.len() != b.len() {
        return false;
    }
    let mut i: usize = 0;
    while i < a.len()
        invariant
            a@.len() == b@.len(),
            i <= a@.len(),
            forall|k: int| 0 <= k < i ==> ascii_lower(a@[k]) == ascii_lower(b@[k]),
        decreases a@.len() - i,
    {
        if to_ascii_lower(a[i]) != to_ascii_lower(b[i]) {
            return false;
        }
        i = i + 1;
    }
    true
}

/// Byte length of the UTF-8 encoding of one character (`char::len_utf8`).
pub fn char_width(c: char) -> (w: usize)
    ensures
        w == utf8_width(c),
{
    let u = c as u32;
    if u < 0x80 {
        1
    } else if u < 0x800 {
        2
    } else if u < 0x10000 {
        3
    } else {
        4
    }
}

} // verus!

verus! {

// ──────────────────────── pieces around a character ───────────────────────

/// The text before the first `c`, or the whole text (`split(c).next()`).
pub open spec fn before_char(s: Seq<char>, c: char) -> Seq<char> {
    match find_seq(s, seq![c]) {
        Some(i) => s.subrange(0, i),
        None => s,
    }
}

/// The text after the first `c`, if there is one (`splitn(2, c).nth(1)`).
pub open spec fn after_char(s: Seq<char>, c: char) -> Option<Seq<char>> {
    match find_seq(s, seq![c]) {
        Some(i) => Some(s.subrange(i + 1, s.len() as int)),
        None => None,
    }
}

/// Keeps, in order, the images of the items on which `f` gives a value
/// (`Iterator::filter_map`).
pub open spec fn filter_map<A, B>(s: Seq<A>, f: spec_fn(A) -> Option<B>) -> Seq<B>
    decreases s.len(),
{
    if s.len() == 0 {
        Seq::<B>::empty()
    } else {
        let r = filter_map(s.drop_last(), f);
        match f(s.last()) {
            Some(b) => r.push(b),
            None => r,
        }
    }
}

/// Splits `s` at its first `c`: the part before it and, when `c` occurs, the part after it.
pub fn split_once(s: &[char], c: char) -> (r: (Vec<char>, Option<Vec<char>>))
    ensures
        r.0@ == before_char(s@, c),
        match r.1 {
            Some(t) => after_char(s@, c) == Some(t@),
            None => after_char(s@, c) is None,
        },
{
    let needle: Vec<char> = vec![c];
    assert(needle@ =~= seq![c]);
    match find(s, needle.as_slice()) {
        Some(i) => {
            let n = s.len();
            assert(needle@.len() == 1);
            assert(i + 1 <= n);
            let start = i + 1;
            let mut a: Vec<char> = Vec::new();
            let mut k: usize = 0;
            while k < i
                invariant
                    k <= i,
                    i < s@.len(),
                    a@ == s@.subrange(0, k as int),
                decreases i - k,
            {
                a.push(s[k]);
                assert(a@ =~= s@.subrange(0, k + 1));
                k = k + 1;
            }
            let mut b: Vec<char> = Vec::new();
            let mut k: usize = start;
            while k < s.len()
                invariant
                    start == i + 1,
                    i + 1 <= k <= s@.len(),
                    b@ == s@.subrange(i + 1, k as int),
                decreases s@.len() - k,
            {
                b.push(s[k]);
                assert(b@ =~= s@.subrange(i + 1, k + 1));
                k = k + 1;
            }
            (a, Some(b))
        },
        None => (vstd::slice::slice_to_vec(s), None),
    }
}

/// A text made of a literal prefix followed by characters.
pub fn prefixed(prefix: &str, rest: &[char]) -> (r: String)
    ensures
        r@ == prefix@ + rest@,
{
    let mut r = owned(prefix);
    let t = string_of(rest);
    push_str(&mut r, t.as_str());
    r
}

/// Appends characters to a text.
pub fn push_chars(s: &mut String, v: &[char])
    ensures
        final(s)@ == old(s)@ + v@,
{
    let t = string_of(v);
    push_str(s, t.as_str());
}

} // verus!

verus! {

// ─────────────────────────── UTF-8 byte offsets ───────────────────────────

/// Byte offset, in the UTF-8 encoding of `s`, of the character at index `i`.
pub open spec fn byte_offset(s: Seq<char>, i: int) -> nat {
    utf8_len(s.subrange(0, i))
}

/// `str::get(a..b)`: the characters between the byte offsets `a` and `b`, when
/// both fall on character boundaries and `a <= b`.
pub open spec fn byte_slice(s: Seq<char>, a: int, b: int) -> Option<Seq<char>> {
    if exists|i: int, j: int|
        0 <= i <= j <= s.len() && byte_offset(s, i) == a && byte_offset(s, j) == b {
        let (i, j) = choose|i: int, j: int|
            0 <= i <= j <= s.len() && byte_offset(s, i) == a && byte_offset(s, j) == b;
        Some(s.subrange(i, j))
    } else {
        None
    }
}

/// `str::find` with its byte offset result.
pub open spec fn byte_find(s: Seq<char>, n: Seq<char>) -> Option<int> {
    match find_seq(s, n) {
        Some(i) => Some(byte_offset(s, i) as int),
        None => None,
    }
}

pub proof fn lemma_byte_offset_step(s: Seq<char>, i: int)
    requires
        0 <= i < s.len(),
    ensures
        byte_offset(s, i + 1) == byte_offset(s, i) + utf8_width(s[i]),
{
    assert(s.subrange(0, i + 1).drop_last() =~= s.subrange(0, i));
}

pub proof fn lemma_byte_offset_strict(s: Seq<char>, i: int, j: int)
    requires
        0 <= i < j <= s.len(),
    ensures
        byte_offset(s, i) < byte_offset(s, j),
    decreases j - i,
{
    lemma_byte_offset_step(s, j - 1);
    if i < j - 1 {
        lemma_byte_offset_strict(s, i, j - 1);
    }
}

pub proof fn lemma_byte_offset_injective(s: Seq<char>, i: int, j: int)
    requires
        0 <= i <= s.len(),
        0 <= j <= s.len(),
        byte_offset(s, i) == byte_offset(s, j),
    ensures
        i == j,
{
    if i < j {
        lemma_byte_offset_strict(s, i, j);
    } else if j < i {
        lemma_byte_offset_strict(s, j, i);
    }
}

/// Byte offsets of every character index of `s` (the last one is the byte length).
pub fn byte_offsets(s: &[char]) -> (r: Vec<u128>)
    ensures
        r@.len() == s@.len() + 1,
        forall|k: int| 0 <= k <= s@.len() ==> r@[k] == byte_offset(s@, k),
{
    let mut r: Vec<u128> = Vec::new();
    let mut off: u128 = 0;
    r.push(0);
    assert(s@.subrange(0, 0) =~= Seq::<char>::empty());
    let mut i: usize = 0;
    while i < s.len()
        invariant
            i <= s@.len(),
            r@.len() == i + 1,
            off == byte_offset(s@, i as int),
            off <= 4 * i,
            forall|k: int| 0 <= k <= i ==> r@[k] == byte_offset(s@, k),
        decreases s@.len() - i,
    {
        proof {
            lemma_byte_offset_step(s@, i as int);
        }
        off = off + char_width(s[i]) as u128;
        r.push(off);
        i = i + 1;
    }
    r
}

/// `str::get(a..b)` on byte offsets.
pub fn byte_slice_exec(s: &[char], offs: &Vec<u128>, a: u128, b: u128) -> (r: Option<Vec<char>>)
    requires
        offs@.len() == s@.len() + 1,
        forall|k: int| 0 <= k <= s@.len() ==> offs@[k] == byte_offset(s@, k),
    ensures
        match r {
            Some(v) => byte_slice(s@, a as int, b as int) == Some(v@),
            None => byte_slice(s@, a as int, b as int) is None,
        },
{
    let mut ia: Option<usize> = None;
    let mut ib: Option<usize> = None;
    let mut i: usize = 0;
    while i < offs.len()
        invariant
            i <= offs@.len(),
            offs@.len() == s@.len() + 1,
            forall|k: int| 0 <= k <= s@.len() ==> offs@[k] == byte_offset(s@, k),
            match ia {
                Some(x) => x < i && byte_offset(s@, x as int) == a,
                None => forall|k: int| 0 <= k < i ==> byte_offset(s@, k) != a,
            },
            match ib {
                Some(x) => x < i && byte_offset(s@, x as int) == b,
                None => forall|k: int| 0 <= k < i ==> byte_offset(s@, k) != b,
            },
        decreases offs@.len() - i,
    {
        if offs[i] == a {
            ia = Some(i);
        }
        if offs[i] == b {
            ib = Some(i);
        }
        i = i + 1;
    }
    match (ia, ib) {
        (Some(x), Some(y)) => {
            if x <= y {
                let v = vstd::slice::slice_to_vec(s);
                let mut out: Vec<char> = Vec::new();
                let mut k = x;
                while k < y
                    invariant
                        x <= k <= y,
                        y <= s@.len(),
                        v@ == s@,
                        out@ == s@.subrange(x as int, k as int),
                    decreases y - k,
                {
                    out.push(v[k]);
                    assert(out@ =~= s@.subrange(x as int, k + 1));
                    k = k + 1;
                }
                proof {
                    let (p, q) = choose|p: int, q: int|
                        0 <= p <= q <= s@.len() && byte_offset(s@, p) == a && byte_offset(s@, q)
                            == b;
                    lemma_byte_offset_injective(s@, p, x as int);
                    lemma_byte_offset_injective(s@, q, y as int);
                }
                Some(out)
            } else {
                proof {
                    assert forall|p: int, q: int|
                        !(0 <= p <= q <= s@.len() && byte_offset(s@, p) == a && byte_offset(s@, q)
                            == b) by {
                        if 0 <= p <= q <= s@.len() && byte_offset(s@, p) == a && byte_offset(s@, q)
                            == b {
                            lemma_byte_offset_injective(s@, p, x as int);
                            lemma_byte_offset_injective(s@, q, y as int);
                        }
                    }
                }
                None
            }
        },
        _ => {
            proof {
                assert forall|p: int, q: int|
                    !(0 <= p <= q <= s@.len() && byte_offset(s@, p) == a && byte_offset(s@, q)
                        == b) by {
                    if 0 <= p <= q <= s@.len() && byte_offset(s@, p) == a && byte_offset(s@, q)
                        == b {
                        assert(p < offs@.len() && q < offs@.len());
                    }
                }
            }
            None
        },
    }
}

/// A text of ASCII characters takes one byte per character.
pub proof fn lemma_ascii_utf8_len(s: Seq<char>)
    requires
        forall|i: int| 0 <= i < s.len() ==> (s[i] as u32) < 128,
    ensures
        utf8_len(s) == s.len(),
    decreases s.len(),
{
    if s.len() > 0 {
        lemma_ascii_utf8_len(s.drop_last());
    }
}

/// Byte offsets grow by at most four per character.
pub proof fn lemma_byte_offset_le(s: Seq<char>, k: int)
    requires
        0 <= k <= s.len(),
    ensures
        byte_offset(s, k) <= 4 * k,
    decreases k,
{
    if k > 0 {
        lemma_byte_offset_le(s, k - 1);
        lemma_byte_offset_step(s, k - 1);
    } else {
        assert(s.subrange(0, 0) =~= Seq::<char>::empty());
    }
}

/// `str::find`, as a byte offset.
pub fn byte_find_exec(s: &[char], offs: &Vec<u128>, n: &[char]) -> (r: Option<u128>)
    requires
        offs@.len() == s@.len() + 1,
        forall|k: int| 0 <= k <= s@.len() ==> offs@[k] == byte_offset(s@, k),
    ensures
        match r {
            Some(c) => byte_find(s@, n@) == Some(c as int) && c <= 4 * s@.len(),
            None => byte_find(s@, n@) is None,
        },
{
    match find(s, n) {
        Some(i) => {
            proof {
                lemma_byte_offset_le(s@, i as int);
            }
            Some(offs[i])
        },
        None => None,
    }
}

/// The characters of `s` from index `k` on.
pub fn slice_from(s: &[char], k: usize) -> (r: Vec<char>)
    requires
        k <= s@.len(),
    ensures
        r@ == s@.subrange(k as int, s@.len() as int),
{
    slice_range(s, k, s.len())
}

/// The characters of `s` between indices `a` and `b`.
pub fn slice_range(s: &[char], a: usize, b: usize) -> (r: Vec<char>)
    requires
        a <= b <= s@.len(),
    ensures
        r@ == s@.subrange(a as int, b as int),
{
    let mut r: Vec<char> = Vec::new();
    let mut i = a;
    while i < b
        invariant
            a <= i <= b <= s@.len(),
            r@ == s@.subrange(a as int, i as int),
        decreases b - i,
    {
        r.push(s[i]);
        assert(r@ =~= s@.subrange(a as int, i + 1));
        i = i + 1;
    }
    r
}

} // verus!

verus! {

// ───────────────────────────── rewriting ──────────────────────────────────

/// `s` without the prefix `p` when it has it (`strip_prefix(p).unwrap_or(s)`).
pub open spec fn strip_prefix_or_self(s: Seq<char>, p: Seq<char>) -> Seq<char> {
    if has_prefix(s, p) {
        s.subrange(p.len() as int, s.len() as int)
    } else {
        s
    }
}

/// Every `c` of `s` replaced by `r` (`str::replace` with a char pattern).
pub open spec fn replace_char(s: Seq<char>, c: char, r: Seq<char>) -> Seq<char>
    decreases s.len(),
{
    if s.len() == 0 {
        s
    } else {
        replace_char(s.drop_last(), c, r) + if s.last() == c {
            r
        } else {
            seq![s.last()]
        }
    }
}

/// `s.strip_prefix(p).unwrap_or(s)`.
pub fn strip_prefix_exec(s: &[char], p: &str) -> (r: Vec<char>)
    ensures
        r@ == strip_prefix_or_self(s@, p@),
{
    let pv = chars_of(p);
    if starts_with(s, pv.as_slice()) {
        let mut r: Vec<char> = Vec::new();
        let mut k = pv.len();
        while k < s.len()
            invariant
                pv@.len() <= k <= s@.len(),
                r@ == s@.subrange(pv@.len() as int, k as int),
            decreases s@.len() - k,
        {
            r.push(s[k]);
            assert(r@ =~= s@.subrange(pv@.len() as int, k + 1));
            k = k + 1;
        }
        r
    } else {
        vstd::slice::slice_to_vec(s)
    }
}

/// Replaces every `c` of `s` by the text `r`.
pub fn replace_char_exec(s: &[char], c: char, r: &str) -> (out: String)
    ensures
        out@ == replace_char(s@, c, r@),
{
    let mut out = String::new();
    let mut i: usize = 0;
    while i < s.len()
        invariant
            i <= s@.len(),
            out@ == replace_char(s@.subrange(0, i as int), c, r@),
        decreases s@.len() - i,
    {
        assert(s@.subrange(0, i + 1).drop_last() =~= s@.subrange(0, i as int));
        if s[i] == c {
            push_str(&mut out, r);
        } else {
            push_char(&mut out, s[i]);
            assert(out@ =~= replace_char(s@.subrange(0, i as int), c, r@) + seq![s@[i as int]]);
        }
        i = i + 1;
    }
    assert(s@.subrange(0, s@.len() as int) =~= s@);
    out
}

/// Every occurrence of `from` replaced by `to`, scanning from the left
/// without overlaps (`str::replace`, for a non-empty pattern).
pub open spec fn replace_all(s: Seq<char>, from: Seq<char>, to: Seq<char>) -> Seq<char>
    decreases s.len(),
{
    if from.len() == 0 || s.len() < from.len() {
        s
    } else if s.subrange(0, from.len() as int) == from {
        to + replace_all(s.subrange(from.len() as int, s.len() as int), from, to)
    } else {
        seq![s[0]] + replace_all(s.drop_first(), from, to)
    }
}

/// Replaces every occurrence of a non-empty pattern (`str::replace`).
pub fn replace_all_exec(s: &str, from: &str, to: &str) -> (out: String)
    requires
        from@.len() > 0,
    ensures
        out@ == replace_all(s@, from@, to@),
{
    let v = chars_of(s);
    let f = chars_of(from);
    let n = f.len();
    let mut out = String::new();
    let mut i: usize = 0;
    assert(v@.subrange(0, v@.len() as int) =~= v@);
    while i < v.len()
        invariant
            i <= v@.len(),
            v@ == s@,
            f@ == from@,
            n == f@.len(),
            n > 0,
            out@ + replace_all(v@.subrange(i as int, v@.len() as int), f@, to@) == replace_all(s@, from@, to@),
        decreases v@.len() - i,
    {
        let ghost rest = v@.subrange(i as int, v@.len() as int);
        if matches_at(v.as_slice(), f.as_slice(), i) {
            assert(rest.subrange(0, n as int) =~= v@.subrange(i as int, i + n));
            assert(rest.subrange(n as int, rest.len() as int) =~= v@.subrange(i + n, v@.len() as int));
            let ghost o0 = out@;
            push_str(&mut out, to);
            assert(out@ + replace_all(v@.subrange(i + n, v@.len() as int), f@, to@) =~= o0 + replace_all(rest, f@, to@));
            i = i + n;
        } else {
            proof {
                if rest.len() >= n as nat {
                    assert(rest.subrange(0, n as int) =~= v@.subrange(i as int, i + n));
                }
            }
            assert(rest.drop_first() =~= v@.subrange(i + 1, v@.len() as int));
            let ghost o0 = out@;
            push_char(&mut out, v[i]);
            assert(out@ + replace_all(v@.subrange(i + 1, v@.len() as int), f@, to@) =~= o0 + replace_all(rest, f@, to@));
            i = i + 1;
        }
    }
    assert(v@.subrange(i as int, v@.len() as int) =~= Seq::<char>::empty());
    assert(out@ =~= out@ + Seq::<char>::empty());
    out
}

} // verus!

verus! {

/// Equality of two texts.
pub fn text_eq(a: &str, b: &str) -> (r: bool)
    ensures
        r == (a@ == b@),
{
    let x = chars_of(a);
    let y = chars_of(b);
    if x.len() != y.len() {
        return false;
    }
    let r = starts_with(x.as_slice(), y.as_slice());
    proof {
        assert(x@.subrange(0, y@.len() as int) =~= x@);
    }
    r
}

} // verus!
