//! Character-level text helpers shared by the parsers and formatters.
use vstd::prelude::*;
use vstd::utf8::{decode_utf8, valid_utf8};

verus! {

/// Appends one character to a `String` (`String::push`).
#[verifier::external_body]
fn push_char(s: &mut String, c: char)
    ensures
        final(s)@ == old(s)@.push(c),
{
    s.push(c)
}

/// The characters of `s`, in order.
pub fn chars_of(s: &str) -> (v: Vec<char>)
    ensures
        v@ == s@,
{
    let mut v: Vec<char> = Vec::new();
    for c in it: s.chars()
        invariant
            v@ == it.seq().take(it.index() as int),
    {
        v.push(c);
    }
    v
}

/// A `String` whose characters are exactly `v`.
pub fn string_of(v: &Vec<char>) -> (s: String)
    ensures
        s@ == v@,
{
    let mut s = String::new();
    let mut i: usize = 0;
    while i < v.len()
        invariant
            i <= v.len(),
            s@ == v@.take(i as int),
        decreases v.len() - i,
    {
        push_char(&mut s, v[i]);
        assert(v@.take(i as int + 1) == v@.take(i as int).push(v@[i as int]));
        i += 1;
    }
    assert(v@.take(v.len() as int) == v@);
    s
}


// ── Character classes ───────────────────────────────────────────────────────

/// ASCII lower-casing of one character (`char::to_ascii_lowercase`).
pub open spec fn lower_char(c: char) -> char {
    if 'A' <= c && c <= 'Z' {
        ((c as u32) + 32) as char
    } else {
        c
    }
}

/// ASCII lower-casing of a whole text (`str::to_ascii_lowercase`).
pub open spec fn lower_seq(s: Seq<char>) -> Seq<char> {
    s.map_values(|c: char| lower_char(c))
}

pub fn ascii_lower_char(c: char) -> (r: char)
    ensures
        r == lower_char(c),
{
    if 'A' <= c && c <= 'Z' {
        ((c as u8) + 32) as char
    } else {
        c
    }
}

pub fn ascii_lower(v: &Vec<char>) -> (r: Vec<char>)
    ensures
        r@ == lower_seq(v@),
{
    let mut r: Vec<char> = Vec::new();
    let mut i: usize = 0;
    while i < v.len()
        invariant
            i <= v.len(),
            r@ == lower_seq(v@.take(i as int)),
        decreases v.len() - i,
    {
        r.push(ascii_lower_char(v[i]));
        assert(v@.take(i as int + 1) == v@.take(i as int).push(v@[i as int]));
        i += 1;
    }
    assert(v@.take(v.len() as int) == v@);
    r
}

/// Every occurrence of `a` replaced by `b` (`str::replace` with one-character patterns).
pub open spec fn replace_seq(s: Seq<char>, a: char, b: char) -> Seq<char> {
    s.map_values(|c: char| if c == a { b } else { c })
}

pub fn replace_char(v: &Vec<char>, a: char, b: char) -> (r: Vec<char>)
    ensures
        r@ == replace_seq(v@, a, b),
{
    let mut r: Vec<char> = Vec::new();
    let mut i: usize = 0;
    while i < v.len()
        invariant
            i <= v.len(),
            r@ == replace_seq(v@.take(i as int), a, b),
        decreases v.len() - i,
    {
        let c = v[i];
        r.push(if c == a { b } else { c });
        assert(v@.take(i as int + 1) == v@.take(i as int).push(v@[i as int]));
        i += 1;
    }
    assert(v@.take(v.len() as int) == v@);
    r
}

/// The characters `v[a..b]`.
pub fn slice_chars(v: &Vec<char>, a: usize, b: usize) -> (r: Vec<char>)
    requires
        a <= b <= v.len(),
    ensures
        r@ == v@.subrange(a as int, b as int),
{
    let mut r: Vec<char> = Vec::new();
    let mut i: usize = a;
    while i < b
        invariant
            a <= i <= b <= v.len(),
            r@ == v@.subrange(a as int, i as int),
        decreases b - i,
    {
        r.push(v[i]);
        assert(v@.subrange(a as int, i as int + 1) == v@.subrange(a as int, i as int).push(
            v@[i as int],
        ));
        i += 1;
    }
    r
}

// ── Searching ───────────────────────────────────────────────────────────────

/// Whether `pat` occurs in `s` at position `i`.
pub open spec fn occurs_at(s: Seq<char>, pat: Seq<char>, i: int) -> bool {
    0 <= i && i + pat.len() <= s.len() && s.subrange(i, i + pat.len()) == pat
}

/// The first position at or after `i` where `pat` occurs.
pub open spec fn find_from(s: Seq<char>, pat: Seq<char>, i: int) -> Option<int>
    decreases s.len() + 1 - i,
{
    if i < 0 || i + pat.len() > s.len() {
        None
    } else if occurs_at(s, pat, i) {
        Some(i)
    } else {
        find_from(s, pat, i + 1)
    }
}

/// The first position where `pat` occurs (`str::find`).
pub open spec fn find_seq(s: Seq<char>, pat: Seq<char>) -> Option<int> {
    find_from(s, pat, 0)
}

/// `find_from` gives the least position of an occurrence.
pub proof fn lemma_find_from(s: Seq<char>, pat: Seq<char>, i: int)
    requires
        0 <= i,
    ensures
        match find_from(s, pat, i) {
            Some(k) => i <= k && occurs_at(s, pat, k) && forall|j: int|
                i <= j < k ==> !occurs_at(s, pat, j),
            None => forall|j: int| i <= j ==> !occurs_at(s, pat, j),
        },
    decreases s.len() + 1 - i,
{
    if i + pat.len() > s.len() {
    } else if occurs_at(s, pat, i) {
    } else {
        lemma_find_from(s, pat, i + 1);
    }
}

pub fn occurs_at_exec(v: &Vec<char>, pat: &Vec<char>, i: usize) -> (r: bool)
    ensures
        r == occurs_at(v@, pat@, i as int),
{
    if i > v.len() || pat.len() > v.len() - i {
        return false;
    }
    let mut j: usize = 0;
    while j < pat.len()
        invariant
            j <= pat.len(),
            i + pat.len() <= v.len(),
            forall|k: int| 0 <= k < j ==> v@[i + k] == pat@[k],
        decreases pat.len() - j,
    {
        if v[i + j] != pat[j] {
            assert(v@.subrange(i as int, i + pat.len())[j as int] != pat@[j as int]);
            return false;
        }
        j += 1;
    }
    assert(v@.subrange(i as int, i + pat.len()) == pat@);
    true
}

pub fn find_sub(v: &Vec<char>, pat: &Vec<char>) -> (r: Option<usize>)
    ensures
        match r {
            Some(i) => find_seq(v@, pat@) == Some(i as int),
            None => find_seq(v@, pat@) is None,
        },
{
    if pat.len() > v.len() {
        return None;
    }
    if pat.len() == 0 {
        assert(v@.subrange(0, 0) == pat@);
        return Some(0);
    }
    let mut i: usize = 0;
    while i <= v.len() - pat.len()
        invariant
            1 <= pat.len() <= v.len(),
            i <= v.len() - pat.len() + 1,
            find_seq(v@, pat@) == find_from(v@, pat@, i as int),
        decreases v.len() - pat.len() + 1 - i,
    {
        if occurs_at_exec(v, pat, i) {
            return Some(i);
        }
        i += 1;
    }
    None
}

/// Whether `s` begins with `pat` (`str::starts_with`).
pub open spec fn starts_with_seq(s: Seq<char>, pat: Seq<char>) -> bool {
    occurs_at(s, pat, 0)
}

/// The last position of `c` in `s`.
pub open spec fn last_index_from(s: Seq<char>, c: char, n: int) -> Option<int>
    decreases n,
{
    if n <= 0 {
        None
    } else if s[n - 1] == c {
        Some(n - 1)
    } else {
        last_index_from(s, c, n - 1)
    }
}

/// A found position is in range and holds the character.
pub proof fn lemma_last_index_from(s: Seq<char>, c: char, n: int)
    requires
        n <= s.len(),
    ensures
        match last_index_from(s, c, n) {
            Some(i) => 0 <= i < n && s[i] == c,
            None => true,
        },
    decreases n,
{
    if n > 0 && s[n - 1] != c {
        lemma_last_index_from(s, c, n - 1);
    }
}

pub open spec fn last_index_of(s: Seq<char>, c: char) -> Option<int> {
    last_index_from(s, c, s.len() as int)
}

pub fn last_index_exec(v: &Vec<char>, c: char) -> (r: Option<usize>)
    ensures
        match r {
            Some(i) => last_index_of(v@, c) == Some(i as int),
            None => last_index_of(v@, c) is None,
        },
{
    let mut n: usize = v.len();
    while n > 0
        invariant
            n <= v.len(),
            last_index_of(v@, c) == last_index_from(v@, c, n as int),
        decreases n,
    {
        if v[n - 1] == c {
            return Some(n - 1);
        }
        n -= 1;
    }
    None
}

// ── Splitting ───────────────────────────────────────────────────────────────

/// The pieces of `s` between occurrences of `d` (`str::split` on a character):
/// always at least one piece.
pub open spec fn split_seq(s: Seq<char>, d: char) -> Seq<Seq<char>>
    decreases s.len(),
{
    if s.len() == 0 {
        seq![Seq::<char>::empty()]
    } else {
        let rest = split_seq(s.drop_first(), d);
        if s[0] == d {
            seq![Seq::<char>::empty()] + rest
        } else {
            rest.update(0, seq![s[0]] + rest[0])
        }
    }
}

pub proof fn lemma_split_nonempty(s: Seq<char>, d: char)
    ensures
        split_seq(s, d).len() >= 1,
    decreases s.len(),
{
    if s.len() > 0 {
        lemma_split_nonempty(s.drop_first(), d);
    }
}

/// The split of `t`, with `cur` put in front of its first piece.
pub open spec fn split_acc(cur: Seq<char>, t: Seq<char>, d: char) -> Seq<Seq<char>> {
    let r = split_seq(t, d);
    r.update(0, cur + r[0])
}

pub fn split_on(v: &Vec<char>, d: char) -> (r: Vec<Vec<char>>)
    ensures
        r.len() == split_seq(v@, d).len(),
        forall|i: int| 0 <= i < r.len() ==> #[trigger] r[i]@ == split_seq(v@, d)[i],
{
    let mut done: Vec<Vec<char>> = Vec::new();
    let mut cur: Vec<char> = Vec::new();
    let mut i: usize = 0;
    proof {
        lemma_split_nonempty(v@, d);
        assert(v@.skip(0) == v@);
        assert(split_acc(cur@, v@, d) == split_seq(v@, d));
    }
    while i < v.len()
        invariant
            i <= v.len(),
            split_seq(v@, d).len() == done.len() + split_seq(v@.skip(i as int), d).len(),
            forall|k: int| 0 <= k < done.len() ==> #[trigger] done[k]@ == split_seq(v@, d)[k],
            forall|k: int|
                0 <= k < split_seq(v@.skip(i as int), d).len() ==> split_seq(v@, d)[done.len()
                    + k] == #[trigger] split_acc(cur@, v@.skip(i as int), d)[k],
        decreases v.len() - i,
    {
        let ghost t = v@.skip(i as int);
        let ghost t1 = v@.skip(i as int + 1);
        proof {
            assert(t.drop_first() == t1);
            lemma_split_nonempty(t1, d);
        }
        let c = v[i];
        if c == d {
            proof {
                assert(split_seq(t, d) == seq![Seq::<char>::empty()] + split_seq(t1, d));
                assert forall|k: int| 0 <= k < split_seq(t1, d).len() implies split_seq(v@, d)[
                    done.len() + 1 + k] == #[trigger] split_acc(Seq::<char>::empty(), t1, d)[k] by {
                    assert(split_acc(cur@, t, d)[k + 1] == split_seq(t1, d)[k]);
                    assert(Seq::<char>::empty() + split_seq(t1, d)[0] == split_seq(t1, d)[0]);
                }
                assert(split_acc(cur@, t, d)[0] == cur@);
            }
            done.push(cur);
            cur = Vec::new();
        } else {
            proof {
                assert forall|k: int| 0 <= k < split_seq(t1, d).len() implies split_seq(v@, d)[
                    done.len() + k] == #[trigger] split_acc(cur@.push(c), t1, d)[k] by {
                    assert(split_acc(cur@, t, d)[k] == split_acc(cur@.push(c), t1, d)[k]) by {
                        if k == 0 {
                            assert(cur@ + (seq![c] + split_seq(t1, d)[0]) == cur@.push(c)
                                + split_seq(t1, d)[0]);
                        }
                    }
                }
            }
            cur.push(c);
        }
        i += 1;
    }
    proof {
        assert(v@.skip(i as int) == Seq::<char>::empty());
        assert(split_acc(cur@, Seq::<char>::empty(), d)[0] == cur@);
    }
    done.push(cur);
    done
}


// ── Trimming ────────────────────────────────────────────────────────────────

/// Unicode `White_Space`, the class that `str::trim` removes.
pub open spec fn is_ws(c: char) -> bool {
    ||| ('\u{9}' <= c && c <= '\u{d}')
    ||| c == ' '
    ||| c == '\u{85}'
    ||| c == '\u{a0}'
    ||| c == '\u{1680}'
    ||| ('\u{2000}' <= c && c <= '\u{200a}')
    ||| c == '\u{2028}'
    ||| c == '\u{2029}'
    ||| c == '\u{202f}'
    ||| c == '\u{205f}'
    ||| c == '\u{3000}'
}

pub fn is_ws_exec(c: char) -> (r: bool)
    ensures
        r == is_ws(c),
{
    ('\u{9}' <= c && c <= '\u{d}') || c == ' ' || c == '\u{85}' || c == '\u{a0}' || c
        == '\u{1680}' || ('\u{2000}' <= c && c <= '\u{200a}') || c == '\u{2028}' || c
        == '\u{2029}' || c == '\u{202f}' || c == '\u{205f}' || c == '\u{3000}'
}

/// Number of leading characters of `s` satisfying `p`.
pub open spec fn lead_count(s: Seq<char>, p: spec_fn(char) -> bool) -> nat
    decreases s.len(),
{
    if s.len() > 0 && p(s[0]) {
        1 + lead_count(s.drop_first(), p)
    } else {
        0
    }
}

/// Number of trailing characters of `s` satisfying `p`.
pub open spec fn trail_count(s: Seq<char>, p: spec_fn(char) -> bool) -> nat
    decreases s.len(),
{
    if s.len() > 0 && p(s.last()) {
        1 + trail_count(s.drop_last(), p)
    } else {
        0
    }
}

pub proof fn lemma_lead_count_le(s: Seq<char>, p: spec_fn(char) -> bool)
    ensures
        lead_count(s, p) <= s.len(),
    decreases s.len(),
{
    if s.len() > 0 && p(s[0]) {
        lemma_lead_count_le(s.drop_first(), p);
    }
}

pub proof fn lemma_trail_count_le(s: Seq<char>, p: spec_fn(char) -> bool)
    ensures
        trail_count(s, p) <= s.len(),
    decreases s.len(),
{
    if s.len() > 0 && p(s.last()) {
        lemma_trail_count_le(s.drop_last(), p);
    }
}

/// `s` without its leading and trailing characters that satisfy `p`
/// (`str::trim_matches`).
pub open spec fn trim_by(s: Seq<char>, p: spec_fn(char) -> bool) -> Seq<char> {
    let a = s.skip(lead_count(s, p) as int);
    a.take(a.len() - trail_count(a, p))
}

pub open spec fn ws_pred() -> spec_fn(char) -> bool {
    |c: char| is_ws(c)
}

pub open spec fn eq_pred(t: char) -> spec_fn(char) -> bool {
    |c: char| c == t
}

/// `str::trim`.
pub open spec fn trim_ws(s: Seq<char>) -> Seq<char> {
    trim_by(s, ws_pred())
}

/// `str::trim_matches` with a single character.
pub open spec fn trim_char(s: Seq<char>, t: char) -> Seq<char> {
    trim_by(s, eq_pred(t))
}

fn trim_hit(c: char, ws: bool, t: char) -> (r: bool)
    ensures
        r == (if ws {
            is_ws(c)
        } else {
            c == t
        }),
{
    if ws {
        is_ws_exec(c)
    } else {
        c == t
    }
}

/// Trims by `is_ws` when `ws`, else by equality with `t`.
fn trim_impl(v: &Vec<char>, ws: bool, t: char) -> (r: Vec<char>)
    ensures
        ws ==> r@ == trim_ws(v@),
        !ws ==> r@ == trim_char(v@, t),
{
    let ghost p: spec_fn(char) -> bool = if ws {
        ws_pred()
    } else {
        eq_pred(t)
    };
    let mut a: usize = 0;
    assert(v@.skip(0) == v@);
    while a < v.len() && trim_hit(v[a], ws, t)
        invariant
            a <= v.len(),
            p == (if ws {
                ws_pred()
            } else {
                eq_pred(t)
            }),
            lead_count(v@, p) == a + lead_count(v@.skip(a as int), p),
        decreases v.len() - a,
    {
        assert(v@.skip(a as int).drop_first() == v@.skip(a as int + 1));
        a += 1;
    }
    proof {
        if a < v.len() {
            assert(v@.skip(a as int)[0] == v@[a as int]);
        } else {
            assert(v@.skip(a as int).len() == 0);
        }
        assert(lead_count(v@.skip(a as int), p) == 0);
    }
    let ghost rest = v@.skip(a as int);
    let mut b: usize = v.len();
    while b > a && trim_hit(v[b - 1], ws, t)
        invariant
            a <= b <= v.len(),
            p == (if ws {
                ws_pred()
            } else {
                eq_pred(t)
            }),
            rest == v@.skip(a as int),
            trail_count(rest, p) == (v.len() - b) + trail_count(v@.subrange(a as int, b as int), p),
        decreases b,
    {
        assert(v@.subrange(a as int, b as int).drop_last() == v@.subrange(a as int, b - 1));
        assert(v@.subrange(a as int, b as int).last() == v@[b - 1]);
        b -= 1;
    }
    proof {
        if b > a {
            assert(v@.subrange(a as int, b as int).last() == v@[b - 1]);
        }
        assert(trail_count(v@.subrange(a as int, b as int), p) == 0);
        assert(rest.take(rest.len() - trail_count(rest, p)) == v@.subrange(a as int, b as int));
        assert(trim_by(v@, p) == v@.subrange(a as int, b as int));
    }
    slice_chars(v, a, b)
}

pub fn trim_ws_exec(v: &Vec<char>) -> (r: Vec<char>)
    ensures
        r@ == trim_ws(v@),
{
    trim_impl(v, true, ' ')
}

pub fn trim_char_exec(v: &Vec<char>, t: char) -> (r: Vec<char>)
    ensures
        r@ == trim_char(v@, t),
{
    trim_impl(v, false, t)
}

/// Equality of two character vectors.
pub fn chars_eq(a: &Vec<char>, b: &Vec<char>) -> (r: bool)
    ensures
        r == (a@ == b@),
{
    if a.len() != b.len() {
        return false;
    }
    let mut i: usize = 0;
    while i < a.len()
        invariant
            i <= a.len() == b.len(),
            forall|k: int| 0 <= k < i ==> a@[k] == b@[k],
        decreases a.len() - i,
    {
        if a[i] != b[i] {
            return false;
        }
        i += 1;
    }
    assert(a@ == b@);
    true
}

/// Equality of two strings, character by character.
pub fn str_is(a: &str, b: &str) -> (r: bool)
    ensures
        r == (a@ == b@),
{
    chars_eq(&chars_of(a), &chars_of(b))
}

/// Whether `pat` occurs in `s` (`str::contains`).
pub fn contains_str(s: &str, pat: &str) -> (r: bool)
    ensures
        r == find_seq(s@, pat@) is Some,
{
    find_sub(&chars_of(s), &chars_of(pat)).is_some()
}

/// What `str::to_lowercase` gives for a string: its Unicode lower case.
pub uninterp spec fn unicode_lower(s: Seq<char>) -> Seq<char>;

/// `str::to_lowercase`.
#[verifier::external_body]
pub(crate) fn to_lowercase(s: &str) -> (r: String)
    ensures
        r@ == unicode_lower(s@),
{
    s.to_lowercase()
}

/// The text that `bytes` encode in UTF-8, when they are valid UTF-8
/// (`std::str::from_utf8`).
#[verifier::external_body]
pub(crate) fn utf8_text(bytes: &[u8]) -> (r: Option<String>)
    ensures
        match r {
            Some(s) => valid_utf8(bytes@) && s@ == decode_utf8(bytes@),
            None => !valid_utf8(bytes@),
        },
{
    std::str::from_utf8(bytes).ok().map(|s| s.to_string())
}

/// `String::from_utf8`: the text the bytes encode when they are valid
/// UTF-8, else the error's message.
#[verifier::external_body]
pub(crate) fn utf8_string(bytes: Vec<u8>) -> (r: Result<String, String>)
    ensures
        match r {
            Ok(s) => valid_utf8(bytes@) && s@ == decode_utf8(bytes@),
            Err(_) => !valid_utf8(bytes@),
        },
{
    String::from_utf8(bytes).map_err(|e| e.to_string())
}

/// A `String` holding the characters of `s`.
pub fn owned(s: &str) -> (r: String)
    ensures
        r@ == s@,
{
    string_of(&chars_of(s))
}


// ── Building text ───────────────────────────────────────────────────────────

/// Appends the characters of `s`.
pub fn append_str(v: &mut Vec<char>, s: &str)
    ensures
        final(v)@ == old(v)@ + s@,
{
    let ghost start = v@;
    for c in it: s.chars()
        invariant
            v@ == start + it.seq().take(it.index() as int),
            it.seq() == s@,
    {
        v.push(c);
        proof {
            assert(it.seq().take(it.index() as int + 1) == it.seq().take(it.index() as int).push(
                c,
            ));
        }
    }
    proof {
        assert(s@.take(s@.len() as int) == s@);
    }
}

/// Appends the characters of `w`.
pub fn append_chars(v: &mut Vec<char>, w: &Vec<char>)
    ensures
        final(v)@ == old(v)@ + w@,
{
    let ghost start = v@;
    let mut i: usize = 0;
    while i < w.len()
        invariant
            i <= w.len(),
            v@ == start + w@.take(i as int),
        decreases w.len() - i,
    {
        v.push(w[i]);
        assert(w@.take(i as int + 1) == w@.take(i as int).push(w@[i as int]));
        i += 1;
    }
    assert(w@.take(w.len() as int) == w@);
}

/// Appends the bytes of `b`.
pub fn append_bytes(v: &mut Vec<u8>, b: &[u8])
    ensures
        final(v)@ == old(v)@ + b@,
{
    let ghost start = v@;
    let mut i: usize = 0;
    while i < b.len()
        invariant
            i <= b.len(),
            v@ == start + b@.take(i as int),
        decreases b.len() - i,
    {
        v.push(b[i]);
        assert(b@.take(i as int + 1) == b@.take(i as int).push(b@[i as int]));
        i += 1;
    }
    assert(b@.take(b.len() as int) == b@);
}

} // verus!
