//! Character-sequence utilities: the string operations the rules perform
//! on node texts (equality, substring search, prefix/suffix tests,
//! trimming), stated over `Seq<char>` and proved, plus the conversions
//! between bytes, `String` and `Vec<char>` that std performs.

use vstd::prelude::*;
use vstd::utf8::*;
use vstd::string::*;

verus! {

// ─── Conversions std performs ──────────────────────────────────────────────

/// What `String::from_utf8_lossy` produces for a byte sequence.
pub uninterp spec fn utf8_lossy(bytes: Seq<u8>) -> Seq<char>;

/// Calls `String::from_utf8_lossy`. Its documentation states that valid
/// UTF-8 input is decoded unchanged (invalid sequences are replaced by
/// U+FFFD); the result on invalid input is only named, not described.
#[verifier::external_body]
pub(crate) fn utf8_lossy_string(bytes: &[u8]) -> (res: String)
    ensures
        res@ == utf8_lossy(bytes@),
        valid_utf8(bytes@) ==> res@ == decode_utf8(bytes@),
{
    String::from_utf8_lossy(bytes).into_owned()
}

/// Calls `str::chars` and collects the characters in order.
#[verifier::external_body]
pub(crate) fn chars_of(s: &str) -> (res: Vec<char>)
    ensures
        res@ == s@,
{
    s.chars().collect()
}

/// Collects characters into a `String` (std's `FromIterator<char>`).
#[verifier::external_body]
pub(crate) fn string_of_chars(v: &[char]) -> (res: String)
    ensures
        res@ == v@,
{
    v.iter().collect()
}

// ─── Specifications of the string operations ───────────────────────────────

/// `t` occurs in `s` starting at index `i`.
pub open spec fn occurs_at(s: Seq<char>, t: Seq<char>, i: int) -> bool {
    0 <= i && i + t.len() <= s.len() && s.subrange(i, i + t.len()) == t
}

/// `t` occurs somewhere in `s` (`str::contains`).
pub open spec fn contains_seq(s: Seq<char>, t: Seq<char>) -> bool {
    exists|i: int| occurs_at(s, t, i)
}

/// `str::starts_with`.
pub open spec fn starts_with_seq(s: Seq<char>, t: Seq<char>) -> bool {
    t.len() <= s.len() && s.subrange(0, t.len() as int) == t
}

/// `str::ends_with`.
pub open spec fn ends_with_seq(s: Seq<char>, t: Seq<char>) -> bool {
    t.len() <= s.len() && s.subrange(s.len() - t.len(), s.len() as int) == t
}

/// `s` contains the character `c`.
pub open spec fn has_char(s: Seq<char>, c: char) -> bool {
    exists|i: int| 0 <= i < s.len() && s[i] == c
}

/// The characters that `char::is_whitespace` accepts (Unicode `White_Space`).
pub open spec fn is_unicode_whitespace(c: char) -> bool {
    ||| '\u{9}' <= c <= '\u{d}'
    ||| c == ' '
    ||| c == '\u{85}'
    ||| c == '\u{a0}'
    ||| c == '\u{1680}'
    ||| '\u{2000}' <= c <= '\u{200a}'
    ||| c == '\u{2028}'
    ||| c == '\u{2029}'
    ||| c == '\u{202f}'
    ||| c == '\u{205f}'
    ||| c == '\u{3000}'
}

/// The character classes that the rules trim from both ends of a text.
#[derive(Clone, Copy, Debug, PartialEq, Eq, Structural)]
pub enum TrimSet {
    /// `str::trim`
    Whitespace,
    /// `trim_matches('"')`
    DoubleQuote,
    /// `trim_matches(|c| c == '"' || c == '`')`
    QuoteOrBacktick,
    /// `trim_matches(|c| c == '"' || c == '\'')`
    QuoteOrApostrophe,
    /// `trim_matches(|c| c == '"' || c == '\'' || c == '`')`
    AnyQuote,
}

pub open spec fn in_trim_set(set: TrimSet, c: char) -> bool {
    match set {
        TrimSet::Whitespace => is_unicode_whitespace(c),
        TrimSet::DoubleQuote => c == '"',
        TrimSet::QuoteOrBacktick => c == '"' || c == '`',
        TrimSet::QuoteOrApostrophe => c == '"' || c == '\'',
        TrimSet::AnyQuote => c == '"' || c == '\'' || c == '`',
    }
}

/// Drops leading characters of the set.
pub open spec fn trim_start_set(s: Seq<char>, set: TrimSet) -> Seq<char>
    decreases s.len(),
{
    if s.len() > 0 && in_trim_set(set, s[0]) {
        trim_start_set(s.drop_first(), set)
    } else {
        s
    }
}

/// Drops trailing characters of the set.
pub open spec fn trim_end_set(s: Seq<char>, set: TrimSet) -> Seq<char>
    decreases s.len(),
{
    if s.len() > 0 && in_trim_set(set, s.last()) {
        trim_end_set(s.drop_last(), set)
    } else {
        s
    }
}

/// Drops leading and trailing characters of the set (`str::trim_matches`).
pub open spec fn trim_set(s: Seq<char>, set: TrimSet) -> Seq<char> {
    trim_end_set(trim_start_set(s, set), set)
}

/// Index of the first `c` in `s`, or the length when there is none.
pub open spec fn first_index(s: Seq<char>, c: char) -> int
    decreases s.len(),
{
    if s.len() == 0 {
        0
    } else if s[0] == c {
        0
    } else {
        1 + first_index(s.drop_first(), c)
    }
}

/// Index of the last `c` in `s`, or -1 when there is none.
pub open spec fn last_index(s: Seq<char>, c: char) -> int
    decreases s.len(),
{
    if s.len() == 0 {
        -1
    } else if s.last() == c {
        s.len() - 1
    } else {
        last_index(s.drop_last(), c)
    }
}

/// The part of `s` after its last `c`, all of `s` when there is none
/// (`s.rsplit(c).next()`).
pub open spec fn after_last(s: Seq<char>, c: char) -> Seq<char> {
    s.subrange(last_index(s, c) + 1, s.len() as int)
}

pub proof fn lemma_first_index(s: Seq<char>, c: char, i: int)
    requires
        0 <= i <= s.len(),
        i < s.len() ==> s[i] == c,
        forall|k: int| 0 <= k < i ==> s[k] != c,
    ensures
        first_index(s, c) == i,
    decreases s.len(),
{
    if s.len() > 0 && i > 0 {
        assert forall|k: int| 0 <= k < i - 1 implies s.drop_first()[k] != c by {
            assert(s.drop_first()[k] == s[k + 1]);
        }
        lemma_first_index(s.drop_first(), c, i - 1);
    }
}

pub proof fn lemma_last_index(s: Seq<char>, c: char, i: int)
    requires
        -1 <= i < s.len(),
        i >= 0 ==> s[i] == c,
        forall|k: int| i < k < s.len() ==> s[k] != c,
    ensures
        last_index(s, c) == i,
    decreases s.len(),
{
    if s.len() > 0 && i < s.len() - 1 {
        assert forall|k: int| i < k < s.len() - 1 implies s.drop_last()[k] != c by {
            assert(s.drop_last()[k] == s[k]);
        }
        lemma_last_index(s.drop_last(), c, i);
    }
}

// ─── Executable operations ────────────────────────────────────────────────

pub fn in_set(set: TrimSet, c: char) -> (res: bool)
    ensures
        res == in_trim_set(set, c),
{
    match set {
        TrimSet::Whitespace => {
            ('\u{9}' <= c && c <= '\u{d}') || c == ' ' || c == '\u{85}' || c == '\u{a0}'
                || c == '\u{1680}' || ('\u{2000}' <= c && c <= '\u{200a}') || c == '\u{2028}'
                || c == '\u{2029}' || c == '\u{202f}' || c == '\u{205f}' || c == '\u{3000}'
        },
        TrimSet::DoubleQuote => c == '"',
        TrimSet::QuoteOrBacktick => c == '"' || c == '`',
        TrimSet::QuoteOrApostrophe => c == '"' || c == '\'',
        TrimSet::AnyQuote => c == '"' || c == '\'' || c == '`',
    }
}

/// Copies `s[from..to]` into a new vector.
pub fn sub_chars(s: &[char], from: usize, to: usize) -> (res: Vec<char>)
    requires
        from <= to <= s@.len(),
    ensures
        res@ == s@.subrange(from as int, to as int),
{
    let mut out: Vec<char> = Vec::new();
    let mut i = from;
    while i < to
        invariant
            from <= i <= to <= s@.len(),
            out@ == s@.subrange(from as int, i as int),
        decreases to - i,
    {
        out.push(s[i]);
        i = i + 1;
        assert(out@ =~= s@.subrange(from as int, i as int));
    }
    out
}

/// `a == b` on character slices.
pub fn chars_eq(a: &[char], b: &[char]) -> (res: bool)
    ensures
        res == (a@ == b@),
{
    if a.len() != b.len() {
        return false;
    }
    let mut i: usize = 0;
    while i < a.len()
        invariant
            a@.len() == b@.len(),
            i <= a@.len(),
            forall|k: int| 0 <= k < i ==> a@[k] == b@[k],
        decreases a@.len() - i,
    {
        if a[i] != b[i] {
            return false;
        }
        i = i + 1;
    }
    assert(a@ =~= b@);
    true
}

/// `a == lit` where `lit` is a string.
pub fn chars_eq_str(a: &[char], lit: &str) -> (res: bool)
    ensures
        res == (a@ == lit@),
{
    let l = chars_of(lit);
    chars_eq(a, l.as_slice())
}

/// `a == b` on strings.
pub fn str_eq(a: &str, b: &str) -> (res: bool)
    ensures
        res == (a@ == b@),
{
    let x = chars_of(a);
    let y = chars_of(b);
    chars_eq(x.as_slice(), y.as_slice())
}

/// Whether `t` occurs in `s` at index `i`.
pub fn occurs_at_exec(s: &[char], t: &[char], i: usize) -> (res: bool)
    ensures
        res == occurs_at(s@, t@, i as int),
{
    if i > s.len() || t.len() > s.len() - i {
        return false;
    }
    let mut k: usize = 0;
    while k < t.len()
        invariant
            i + t@.len() <= s@.len() <= usize::MAX,
            k <= t@.len(),
            forall|j: int| 0 <= j < k ==> s@[i + j] == t@[j],
        decreases t@.len() - k,
    {
        if s[i + k] != t[k] {
            assert(s@.subrange(i as int, i + t@.len())[k as int] != t@[k as int]);
            return false;
        }
        k = k + 1;
    }
    assert(s@.subrange(i as int, i + t@.len()) =~= t@);
    true
}

/// `str::contains` on character slices.
pub fn contains_chars(s: &[char], t: &[char]) -> (res: bool)
    ensures
        res == contains_seq(s@, t@),
{
    if t.len() > s.len() {
        assert forall|i: int| !occurs_at(s@, t@, i) by {}
        return false;
    }
    if t.len() == 0 {
        assert(s@.subrange(0, 0) =~= t@);
        assert(occurs_at(s@, t@, 0));
        return true;
    }
    let mut i: usize = 0;
    while i <= s.len() - t.len()
        invariant
            1 <= t@.len() <= s@.len() <= usize::MAX,
            i <= s@.len() - t@.len() + 1,
            forall|j: int| 0 <= j < i ==> !occurs_at(s@, t@, j),
        decreases s@.len() - t@.len() + 1 - i,
    {
        if occurs_at_exec(s, t, i) {
            return true;
        }
        i = i + 1;
    }
    assert forall|j: int| !occurs_at(s@, t@, j) by {}
    false
}

/// `str::contains` with a string needle.
pub fn contains_str(s: &[char], lit: &str) -> (res: bool)
    ensures
        res == contains_seq(s@, lit@),
{
    let l = chars_of(lit);
    contains_chars(s, l.as_slice())
}

/// `str::starts_with` with a string prefix.
pub fn starts_with_str(s: &[char], lit: &str) -> (res: bool)
    ensures
        res == starts_with_seq(s@, lit@),
{
    let l = chars_of(lit);
    let r = occurs_at_exec(s, l.as_slice(), 0);
    proof {
        if r {
            assert(s@.subrange(0, l@.len() as int) == l@);
        }
    }
    r
}

/// `str::ends_with` with a string suffix.
pub fn ends_with_str(s: &[char], lit: &str) -> (res: bool)
    ensures
        res == ends_with_seq(s@, lit@),
{
    let l = chars_of(lit);
    if l.len() > s.len() {
        return false;
    }
    occurs_at_exec(s, l.as_slice(), s.len() - l.len())
}

/// Whether `c` occurs in `s`.
pub fn has_char_exec(s: &[char], c: char) -> (res: bool)
    ensures
        res == has_char(s@, c),
{
    let mut i: usize = 0;
    while i < s.len()
        invariant
            i <= s@.len(),
            forall|k: int| 0 <= k < i ==> s@[k] != c,
        decreases s@.len() - i,
    {
        if s[i] == c {
            return true;
        }
        i = i + 1;
    }
    false
}

proof fn lemma_trim_start_step(s: Seq<char>, set: TrimSet, i: int)
    requires
        0 <= i < s.len(),
        in_trim_set(set, s[i]),
    ensures
        trim_start_set(s.subrange(i, s.len() as int), set) == trim_start_set(
            s.subrange(i + 1, s.len() as int),
            set,
        ),
{
    assert(s.subrange(i, s.len() as int).drop_first() =~= s.subrange(i + 1, s.len() as int));
}

proof fn lemma_trim_end_step(s: Seq<char>, set: TrimSet, j: int)
    requires
        0 < j <= s.len(),
        in_trim_set(set, s[j - 1]),
    ensures
        trim_end_set(s.subrange(0, j), set) == trim_end_set(s.subrange(0, j - 1), set),
{
    assert(s.subrange(0, j).drop_last() =~= s.subrange(0, j - 1));
}

/// `trim_matches` for one of the rule character classes.
pub fn trim_chars(s: &[char], set: TrimSet) -> (res: Vec<char>)
    ensures
        res@ == trim_set(s@, set),
{
    let n = s.len();
    let mut i: usize = 0;
    assert(s@.subrange(0, n as int) =~= s@);
    while i < n && in_set(set, s[i])
        invariant
            i <= n == s@.len(),
            trim_start_set(s@, set) == trim_start_set(s@.subrange(i as int, n as int), set),
        decreases n - i,
    {
        proof {
            lemma_trim_start_step(s@, set, i as int);
        }
        i = i + 1;
    }
    let ghost mid = s@.subrange(i as int, n as int);
    assert(trim_start_set(s@, set) == mid);
    let mut j: usize = n;
    assert(mid.subrange(0, (j - i) as int) =~= mid);
    while j > i && in_set(set, s[j - 1])
        invariant
            i <= j <= n == s@.len(),
            mid == s@.subrange(i as int, n as int),
            trim_end_set(mid, set) == trim_end_set(mid.subrange(0, (j - i) as int), set),
        decreases j - i,
    {
        proof {
            lemma_trim_end_step(mid, set, (j - i) as int);
            assert(mid.subrange(0, (j - i - 1) as int) =~= mid.subrange(0, (j - 1 - i) as int));
        }
        j = j - 1;
    }
    assert(mid.subrange(0, (j - i) as int) =~= s@.subrange(i as int, j as int));
    sub_chars(s, i, j)
}

/// Index of the first occurrence of `c`.
pub fn find_char(s: &[char], c: char) -> (res: Option<usize>)
    ensures
        match res {
            Some(i) => i < s@.len() && s@[i as int] == c && (forall|k: int|
                0 <= k < i ==> s@[k] != c) && first_index(s@, c) == i,
            None => !has_char(s@, c) && first_index(s@, c) == s@.len(),
        },
{
    let mut i: usize = 0;
    while i < s.len()
        invariant
            i <= s@.len(),
            forall|k: int| 0 <= k < i ==> s@[k] != c,
        decreases s@.len() - i,
    {
        if s[i] == c {
            proof {
                lemma_first_index(s@, c, i as int);
            }
            return Some(i);
        }
        i = i + 1;
    }
    proof {
        lemma_first_index(s@, c, s@.len() as int);
    }
    None
}

/// Index of the last occurrence of `c`.
pub fn rfind_char(s: &[char], c: char) -> (res: Option<usize>)
    ensures
        match res {
            Some(i) => i < s@.len() && s@[i as int] == c && (forall|k: int|
                i < k < s@.len() ==> s@[k] != c) && last_index(s@, c) == i,
            None => !has_char(s@, c) && last_index(s@, c) == -1,
        },
{
    let mut j: usize = s.len();
    while j > 0
        invariant
            j <= s@.len(),
            forall|k: int| j <= k < s@.len() ==> s@[k] != c,
        decreases j,
    {
        if s[j - 1] == c {
            proof {
                lemma_last_index(s@, c, j - 1);
            }
            return Some(j - 1);
        }
        j = j - 1;
    }
    proof {
        lemma_last_index(s@, c, -1);
    }
    None
}

/// The part of `s` after its last `c` (`rsplit(c).next()`).
pub fn after_last_char(s: &[char], c: char) -> (res: Vec<char>)
    ensures
        res@ == after_last(s@, c),
{
    let n = s.len();
    match rfind_char(s, c) {
        Some(i) => sub_chars(s, i + 1, n),
        None => sub_chars(s, 0, s.len()),
    }
}

/// Whether `v` holds the characters of `s`.
pub fn chars_eq_string(v: &[char], s: &String) -> (res: bool)
    ensures
        res == (v@ == s@),
{
    chars_eq_str(v, s.as_str())
}

/// Appends the characters of `tail` to `out`.
pub fn push_chars(out: &mut Vec<char>, tail: &[char])
    ensures
        final(out)@ == old(out)@ + tail@,
{
    let mut i: usize = 0;
    while i < tail.len()
        invariant
            i <= tail@.len(),
            out@ == old(out)@ + tail@.subrange(0, i as int),
        decreases tail@.len() - i,
    {
        out.push(tail[i]);
        i = i + 1;
        assert(out@ =~= old(out)@ + tail@.subrange(0, i as int));
    }
    assert(tail@.subrange(0, tail@.len() as int) =~= tail@);
}

/// Appends the characters of a string to `out`.
pub fn push_str(out: &mut Vec<char>, lit: &str)
    ensures
        final(out)@ == old(out)@ + lit@,
{
    let l = chars_of(lit);
    push_chars(out, l.as_slice());
}

} // verus!

verus! {

// ─── UTF-8 length ─────────────────────────────────────────────────────────

/// Bytes that UTF-8 uses for `c` (`char::len_utf8`).
pub open spec fn char_utf8_width(c: char) -> nat {
    if (c as u32) < 0x80 {
        1
    } else if (c as u32) < 0x800 {
        2
    } else if (c as u32) < 0x10000 {
        3
    } else {
        4
    }
}

/// Length in bytes of the UTF-8 encoding of `s` (`str::len`).
pub open spec fn utf8_len(s: Seq<char>) -> nat
    decreases s.len(),
{
    if s.len() == 0 {
        0
    } else {
        utf8_len(s.drop_last()) + char_utf8_width(s.last())
    }
}

pub fn char_width_exec(c: char) -> (res: usize)
    ensures
        res == char_utf8_width(c),
{
    let u = c as u32;
    if u < 0x80 {
        1
    } else if u < 0x800 {
        2
    } else if u < 0x10000 {
        3
    } else {
        4
    }
}

/// Whether the UTF-8 encoding of `s` is at least `k` bytes long.
pub fn utf8_len_at_least(s: &[char], k: usize) -> (res: bool)
    requires
        k < usize::MAX - 4,
    ensures
        res == (utf8_len(s@) >= k),
{
    if k == 0 {
        return true;
    }
    let mut acc: usize = 0;
    let mut i: usize = 0;
    assert(s@.subrange(0, 0) =~= Seq::<char>::empty());
    while i < s.len()
        invariant
            i <= s@.len(),
            k < usize::MAX - 4,
            acc == utf8_len(s@.subrange(0, i as int)),
            acc < k,
        decreases s@.len() - i,
    {
        assert(s@.subrange(0, i + 1).drop_last() =~= s@.subrange(0, i as int));
        acc = acc + char_width_exec(s[i]);
        i = i + 1;
        if acc >= k {
            proof {
                lemma_utf8_len_prefix(s@, i as int);
            }
            return true;
        }
    }
    assert(s@.subrange(0, i as int) =~= s@);
    false
}

/// The encoding of a prefix is no longer than that of the whole.
pub proof fn lemma_utf8_len_prefix(s: Seq<char>, i: int)
    requires
        0 <= i <= s.len(),
    ensures
        utf8_len(s.subrange(0, i)) <= utf8_len(s),
    decreases s.len() - i,
{
    if i < s.len() {
        lemma_utf8_len_prefix(s, i + 1);
        assert(s.subrange(0, i + 1).drop_last() =~= s.subrange(0, i));
    } else {
        assert(s.subrange(0, i) =~= s);
    }
}

} // verus!

verus! {

// ─── ASCII case ───────────────────────────────────────────────────────────

/// `char::to_ascii_uppercase`.
pub open spec fn ascii_upper(c: char) -> char {
    if 'a' <= c && c <= 'z' {
        ((c as int) - 32) as char
    } else {
        c
    }
}

pub fn ascii_upper_exec(c: char) -> (res: char)
    ensures
        res == ascii_upper(c),
{
    if 'a' <= c && c <= 'z' {
        ((c as u8) - 32) as char
    } else {
        c
    }
}

} // verus!

verus! {

// ─── Splitting ────────────────────────────────────────────────────────────

/// `s` split at every `c` (`str::split`): always at least one piece.
pub open spec fn split_from(s: Seq<char>, c: char, from: int, i: int) -> Seq<Seq<char>>
    decreases s.len() - i,
{
    if i >= s.len() {
        seq![s.subrange(from, s.len() as int)]
    } else if s[i] == c {
        seq![s.subrange(from, i)] + split_from(s, c, i + 1, i + 1)
    } else {
        split_from(s, c, from, i + 1)
    }
}

pub open spec fn split_on(s: Seq<char>, c: char) -> Seq<Seq<char>> {
    split_from(s, c, 0, 0)
}

pub fn split_pieces(s: &[char], c: char) -> (res: Vec<Vec<char>>)
    ensures
        res@.map_values(|v: Vec<char>| v@) == split_on(s@, c),
{
    let n = s.len();
    let mut out: Vec<Vec<char>> = Vec::new();
    let mut from: usize = 0;
    let mut i: usize = 0;
    while i < n
        invariant
            n == s@.len(),
            from <= i <= n,
            out@.map_values(|v: Vec<char>| v@) + split_from(s@, c, from as int, i as int) == split_on(
                s@,
                c,
            ),
        decreases n - i,
    {
        if s[i] == c {
            let piece = sub_chars(s, from, i);
            let ghost before = out@;
            out.push(piece);
            assert(out@.map_values(|v: Vec<char>| v@) =~= before.map_values(|v: Vec<char>| v@).push(
                piece@,
            ));
            assert(out@.map_values(|v: Vec<char>| v@) + split_from(s@, c, i + 1, i + 1) =~= before.map_values(
                |v: Vec<char>| v@,
            ) + split_from(s@, c, from as int, i as int));
            from = i + 1;
        }
        i = i + 1;
    }
    let piece = sub_chars(s, from, n);
    let ghost before = out@;
    out.push(piece);
    assert(out@.map_values(|v: Vec<char>| v@) =~= before.map_values(|v: Vec<char>| v@).push(piece@));
    out
}

} // verus!

verus! {

// ─── Building strings ─────────────────────────────────────────────────────

/// The string made of the characters `a`, then `b`.
pub fn join2(a: &[char], b: &str) -> (res: String)
    ensures
        res@ == a@ + b@,
{
    let mut v: Vec<char> = Vec::new();
    push_chars(&mut v, a);
    push_str(&mut v, b);
    string_of_chars(v.as_slice())
}

/// The string made of `a`, then the characters `b`, then `c`.
pub fn join3(a: &str, b: &[char], c: &str) -> (res: String)
    ensures
        res@ == a@ + b@ + c@,
{
    let mut v: Vec<char> = Vec::new();
    push_str(&mut v, a);
    push_chars(&mut v, b);
    push_str(&mut v, c);
    string_of_chars(v.as_slice())
}

} // verus!

verus! {

/// `char::to_ascii_lowercase`.
pub open spec fn ascii_lower(c: char) -> char {
    if 'A' <= c && c <= 'Z' {
        ((c as int) + 32) as char
    } else {
        c
    }
}

pub fn ascii_lower_exec(c: char) -> (res: char)
    ensures
        res == ascii_lower(c),
{
    if 'A' <= c && c <= 'Z' {
        ((c as u8) + 32) as char
    } else {
        c
    }
}

/// The text with every ASCII letter lower-cased.
pub fn to_ascii_lower(s: &str) -> (res: Vec<char>)
    ensures
        res@ == s@.map_values(|c: char| ascii_lower(c)),
{
    let cs = chars_of(s);
    let mut out: Vec<char> = Vec::new();
    let mut i: usize = 0;
    while i < cs.len()
        invariant
            i <= cs@.len(),
            cs@ == s@,
            out@ == cs@.subrange(0, i as int).map_values(|c: char| ascii_lower(c)),
        decreases cs@.len() - i,
    {
        out.push(ascii_lower_exec(cs[i]));
        assert(cs@.subrange(0, i + 1) =~= cs@.subrange(0, i as int).push(cs@[i as int]));
        assert(out@ =~= cs@.subrange(0, i + 1).map_values(|c: char| ascii_lower(c)));
        i = i + 1;
    }
    assert(cs@.subrange(0, cs@.len() as int) =~= cs@);
    out
}

} // verus!

verus! {

/// `str::split` always yields at least one piece.
pub proof fn lemma_split_nonempty(s: Seq<char>, c: char, from: int, i: int)
    ensures
        split_from(s, c, from, i).len() >= 1,
    decreases s.len() - i,
{
    if i < s.len() {
        lemma_split_nonempty(s, c, i + 1, i + 1);
        lemma_split_nonempty(s, c, from, i + 1);
    }
}

} // verus!

verus! {

/// The UTF-8 bytes of the text, copied.
pub fn bytes_of(s: &str) -> (res: Vec<u8>)
    ensures
        res@ == s.spec_bytes(),
{
    let b = s.as_bytes();
    let mut out: Vec<u8> = Vec::new();
    let mut i: usize = 0;
    while i < b.len()
        invariant
            i <= b@.len(),
            b@ == s.spec_bytes(),
            out@ == b@.subrange(0, i as int),
        decreases b@.len() - i,
    {
        out.push(b[i]);
        assert(out@ =~= b@.subrange(0, i + 1));
        i = i + 1;
    }
    assert(b@.subrange(0, b@.len() as int) =~= b@);
    out
}

} // verus!

verus! {

/// The offset starts a character (or is the end).
pub open spec fn char_boundary(b: Seq<u8>, off: int) -> bool {
    off == b.len() || (0 <= off < b.len() && !(0x80 <= b[off] <= 0xbf))
}

} // verus!
