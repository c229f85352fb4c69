//! Task manager: reading the instance names of the performance counters
//! (GPU engines per process, network interfaces) out of the counter buffers.
use vstd::prelude::*;
use crate::localsend::{digits_value, is_digit};
use crate::text::{
    ascii_lower, chars_eq, chars_of, contains_str, find_seq, lower_seq, occurs_at, occurs_at_exec,
    slice_chars, starts_with_seq,
};

verus! {

/// PIDs below this are system pseudo-processes and are ignored.
pub const MIN_PID: u32 = 4;

/// The leading run of ASCII digits of `s`.
pub open spec fn digit_run(s: Seq<char>) -> Seq<char>
    decreases s.len(),
{
    if s.len() > 0 && is_digit(s[0]) {
        seq![s[0]] + digit_run(s.drop_first())
    } else {
        seq![]
    }
}

/// The PID of a GPU engine instance name `pid_<pid>_luid_…`: the digits
/// after `pid_`, when there are some, the value fits a `u32` and it is at
/// least `MIN_PID`.
pub open spec fn pid_of_instance(s: Seq<char>) -> Option<u32> {
    if starts_with_seq(s, "pid_"@) {
        let d = digit_run(s.skip(4));
        if d.len() > 0 && digits_value(d) <= u32::MAX && digits_value(d) >= MIN_PID {
            Some(digits_value(d) as u32)
        } else {
            None
        }
    } else {
        None
    }
}

proof fn lemma_digit_run(s: Seq<char>)
    ensures
        digit_run(s).len() <= s.len(),
        forall|i: int| 0 <= i < digit_run(s).len() ==> digit_run(s)[i] == s[i] && is_digit(s[i]),
        digit_run(s).len() < s.len() ==> !is_digit(s[digit_run(s).len() as int]),
    decreases s.len(),
{
    if s.len() > 0 && is_digit(s[0]) {
        lemma_digit_run(s.drop_first());
        let r = digit_run(s.drop_first());
        assert(digit_run(s) == seq![s[0]] + r);
        assert forall|i: int| 0 <= i < digit_run(s).len() implies digit_run(s)[i] == s[i] && is_digit(s[i]) by {
            if i > 0 {
                assert(digit_run(s)[i] == r[i - 1]);
                assert(r[i - 1] == s.drop_first()[i - 1]);
                assert(s.drop_first()[i - 1] == s[i]);
            } else {
                assert(digit_run(s)[0] == s[0]);
            }
        }
        if digit_run(s).len() < s.len() {
            assert(r.len() < s.drop_first().len());
            assert(s.drop_first()[r.len() as int] == s[digit_run(s).len() as int]);
        }
    }
}

proof fn lemma_digit_run_prefix(s: Seq<char>, k: int)
    requires
        0 <= k <= s.len(),
        forall|i: int| 0 <= i < k ==> is_digit(#[trigger] s[i]),
        k == s.len() || !is_digit(s[k]),
    ensures
        digit_run(s) == s.take(k),
    decreases s.len(),
{
    if s.len() > 0 && is_digit(s[0]) {
        assert(k > 0);
        assert forall|i: int| 0 <= i < k - 1 implies is_digit(#[trigger] s.drop_first()[i]) by {
            assert(s.drop_first()[i] == s[i + 1]);
        }
        lemma_digit_run_prefix(s.drop_first(), k - 1);
        assert(seq![s[0]] + s.drop_first().take(k - 1) =~= s.take(k));
    } else {
        assert(k == 0);
        assert(s.take(0) =~= Seq::<char>::empty());
    }
}

/// The PID in a GPU engine instance name.
pub fn parse_pid_from_instance(instance: &str) -> (r: Option<u32>)
    ensures
        r == pid_of_instance(instance@),
{
    let v = chars_of(instance);
    if !occurs_at_exec(&v, &chars_of("pid_"), 0) {
        return None;
    }
    proof {
        reveal_strlit("pid_");
    }
    let mut i: usize = 4;
    let mut val: u64 = 0;
    while i < v.len() && '0' <= v[i] && v[i] <= '9'
        invariant
            4 <= i <= v.len(),
            v@ == instance@,
            forall|k: int| 4 <= k < i ==> is_digit(#[trigger] v@[k]),
            val == digits_value(v@.subrange(4, i as int)) || (val == u64::MAX && digits_value(
                v@.subrange(4, i as int),
            ) > u32::MAX),
            val <= u32::MAX || val == u64::MAX,
        decreases v.len() - i,
    {
        let dig = ((v[i] as u32) - 48) as u64;
        let ghost prev = digits_value(v@.subrange(4, i as int));
        assert(v@.subrange(4, i as int + 1).drop_last() == v@.subrange(4, i as int));
        assert(digits_value(v@.subrange(4, i as int + 1)) == prev * 10 + dig);
        if val == u64::MAX {
        } else {
            let nv = val * 10 + dig;
            if nv > 0xFFFF_FFFF {
                val = u64::MAX;
            } else {
                val = nv;
            }
        }
        i += 1;
    }
    let ghost rest = v@.skip(4);
    proof {
        assert forall|k: int| 0 <= k < i - 4 implies is_digit(#[trigger] rest[k]) by {
            assert(rest[k] == v@[k + 4]);
        }
        if i < v.len() {
            assert(rest[i - 4] == v@[i as int]);
        }
        lemma_digit_run_prefix(rest, i - 4);
        assert(rest.take(i - 4) == v@.subrange(4, i as int));
    }
    if i == 4 || val == u64::MAX || val < MIN_PID as u64 {
        return None;
    }
    Some(val as u32)
}

/// The engine class of a GPU engine instance: the text after its last
/// `engtype_`, ignoring ASCII case.
#[derive(Debug, Clone, Copy, PartialEq, Eq, Structural)]
pub enum EngineKind {
    /// `3d`: counted as the process's GPU load.
    Gpu,
    /// `neural`: counted as its NPU load.
    Npu,
    Other,
}

/// The text after the last `pat` in `s`, or all of `s` without one
/// (`rsplit(pat).next()`).
pub open spec fn after_last(s: Seq<char>, pat: Seq<char>, n: int) -> Seq<char>
    decreases n + 1,
{
    if n < 0 {
        s
    } else if occurs_at(s, pat, n) {
        s.skip(n + pat.len())
    } else {
        after_last(s, pat, n - 1)
    }
}

pub open spec fn engine_kind_of(name: Seq<char>) -> EngineKind {
    let t = lower_seq(after_last(name, "engtype_"@, name.len() - "engtype_"@.len()));
    if t == "3d"@ {
        EngineKind::Gpu
    } else if t == "neural"@ {
        EngineKind::Npu
    } else {
        EngineKind::Other
    }
}

fn after_last_exec(v: &Vec<char>, pat: &Vec<char>) -> (r: Vec<char>)
    requires
        pat@.len() > 0,
    ensures
        r@ == after_last(v@, pat@, v@.len() - pat@.len()),
{
    if pat.len() > v.len() {
        return slice_chars(v, 0, v.len());
    }
    let mut m: usize = v.len() - pat.len() + 1;
    while m > 0
        invariant
            pat@.len() <= v@.len(),
            m <= v@.len() - pat@.len() + 1,
            after_last(v@, pat@, v@.len() - pat@.len()) == after_last(v@, pat@, m - 1),
        decreases m,
    {
        if occurs_at_exec(v, pat, m - 1) {
            assert(occurs_at(v@, pat@, m - 1));
            assert(m - 1 + pat@.len() <= v@.len());
            assert(v@.len() == v.len());
            assert(v@.subrange(m - 1 + pat@.len(), v@.len() as int) == v@.skip(m - 1 + pat@.len()));
            return slice_chars(v, m - 1 + pat.len(), v.len());
        }
        m -= 1;
    }
    assert(v@.subrange(0, v@.len() as int) == v@);
    slice_chars(v, 0, v.len())
}

pub fn engine_kind(name: &str) -> (k: EngineKind)
    ensures
        k == engine_kind_of(name@),
{
    proof {
        reveal_strlit("engtype_");
    }
    let tail = after_last_exec(&chars_of(name), &chars_of("engtype_"));
    let t = ascii_lower(&tail);
    if chars_eq(&t, &chars_of("3d")) {
        EngineKind::Gpu
    } else if chars_eq(&t, &chars_of("neural")) {
        EngineKind::Npu
    } else {
        EngineKind::Other
    }
}

/// Counter items are 24 bytes: the name pointer, the status, the value.
pub const ITEM_SIZE: usize = 24;

/// A counter buffer is read only for 1 to 4096 items that it can hold.
pub fn buffer_holds(data_len: usize, item_count: usize) -> (ok: bool)
    ensures
        ok == (0 < item_count <= 4096 && data_len >= item_count * 24),
{
    if item_count == 0 || item_count > 4096 {
        return false;
    }
    data_len >= item_count * ITEM_SIZE
}

/// The UTF-16 code units of a NUL-terminated string at `pos` (stopping at
/// the end of the data), and the position after the string and its NUL.
pub open spec fn wide_units(data: Seq<u8>, pos: nat) -> (Seq<u16>, nat)
    decreases data.len() - pos,
{
    if pos + 1 < data.len() {
        let u = (data[pos as int] as int + (data[pos + 1 as int] as int) * 256) as u16;
        if u == 0 {
            (seq![], pos + 2)
        } else {
            let (rest, end) = wide_units(data, pos + 2);
            (seq![u] + rest, end)
        }
    } else {
        (seq![], pos)
    }
}

pub fn read_wide_units(data: &[u8], pos: usize) -> (r: (Vec<u16>, usize))
    ensures
        r.0@ == wide_units(data@, pos as nat).0,
        r.1 == wide_units(data@, pos as nat).1,
{
    let mut units: Vec<u16> = Vec::new();
    let mut p = pos;
    while p < data.len() && p + 1 < data.len()
        invariant
            pos <= p,
            wide_units(data@, pos as nat).1 == wide_units(data@, p as nat).1,
            wide_units(data@, pos as nat).0 == units@ + wide_units(data@, p as nat).0,
            (p - pos) % 2 == 0,
        decreases data.len() - p,
    {
        let u: u16 = data[p] as u16 + (data[p + 1] as u16) * 256;
        if u == 0 {
            assert(wide_units(data@, p as nat).0 == Seq::<u16>::empty());
            return (units, p + 2);
        }
        let ghost before = units@;
        units.push(u);
        assert(units@ + wide_units(data@, (p + 2) as nat).0 =~= before + (seq![u] + wide_units(
            data@,
            (p + 2) as nat,
        ).0));
        p += 2;
    }
    assert(wide_units(data@, p as nat).0 == Seq::<u16>::empty());
    assert(units@ + Seq::<u16>::empty() =~= units@);
    (units, p)
}

/// What `String::from_utf16_lossy` gives for a sequence of UTF-16 units: a
/// unit outside the surrogate range is its own character, a high surrogate
/// followed by a low one is the character they pair to, and any other
/// surrogate becomes U+FFFD.
pub closed spec fn utf16_lossy(units: Seq<u16>) -> Seq<char>
    decreases units.len(),
{
    if units.len() == 0 {
        Seq::empty()
    } else {
        let a = units[0] as int;
        if a < 0xD800 || a > 0xDFFF {
            seq![a as char] + utf16_lossy(units.skip(1))
        } else if a <= 0xDBFF && units.len() >= 2 && 0xDC00 <= units[1] <= 0xDFFF {
            seq![(0x10000 + (a - 0xD800) * 0x400 + (units[1] - 0xDC00)) as char] + utf16_lossy(
                units.skip(2),
            )
        } else {
            seq!['\u{FFFD}'] + utf16_lossy(units.skip(1))
        }
    }
}

/// `String::from_utf16_lossy`: the text the units encode, invalid units
/// replaced by U+FFFD.
#[verifier::external_body]
fn from_utf16_lossy(units: &[u16]) -> (s: String)
    ensures
        s@ == utf16_lossy(units@),
{
    String::from_utf16_lossy(units)
}

/// The NUL-terminated UTF-16 string at `pos` of a counter buffer, and the
/// position after it.
pub fn read_wide_string(data: &[u8], pos: usize) -> (r: (String, usize))
    ensures
        r.0@ == utf16_lossy(wide_units(data@, pos as nat).0),
        r.1 == wide_units(data@, pos as nat).1,
{
    let (units, end) = read_wide_units(data, pos);
    (from_utf16_lossy(units.as_slice()), end)
}

/// Pseudo network interfaces (ISATAP, Teredo, loopback) that are not shown.
pub open spec fn pseudo_interface(name: Seq<char>) -> bool {
    find_seq(name, "isatap"@) is Some || find_seq(name, "Teredo"@) is Some || find_seq(
        name,
        "Loopback"@,
    ) is Some
}

pub fn is_pseudo_interface(name: &str) -> (r: bool)
    ensures
        r == pseudo_interface(name@),
{
    contains_str(name, "isatap") || contains_str(name, "Teredo") || contains_str(name, "Loopback")
}

} // verus!
