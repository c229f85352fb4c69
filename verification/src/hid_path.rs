//! HID device-interface paths: normalisation and the rules by which a raw
//! input device is recognised as the touchpad.
use vstd::prelude::*;
use crate::text::{
    ascii_lower, chars_eq, chars_of, find_seq, find_sub, last_index_exec, last_index_from,
    last_index_of, lemma_find_from, lower_seq, occurs_at_exec, replace_char, replace_seq,
    slice_chars, split_on, split_seq, starts_with_seq, string_of, trim_char, trim_char_exec,
};

verus! {

/// Number of bytes that `c` takes in UTF-8.
pub open spec fn utf8_len(c: char) -> int {
    if (c as u32) <= 0x7f {
        1
    } else if (c as u32) <= 0x7ff {
        2
    } else if (c as u32) <= 0xffff {
        3
    } else {
        4
    }
}

/// The characters covering exactly `n` bytes of UTF-8 from character `i` on,
/// or `None` when the window runs past the end or splits a character
/// (what `str::get(a..a + n)` gives when `a` is the byte offset of character `i`).
pub open spec fn byte_window(s: Seq<char>, i: int, n: int) -> Option<Seq<char>>
    decreases n,
{
    if n <= 0 {
        Some(Seq::<char>::empty())
    } else if i < 0 || i >= s.len() || utf8_len(s[i]) > n {
        None
    } else {
        match byte_window(s, i + 1, n - utf8_len(s[i])) {
            Some(w) => Some(seq![s[i]] + w),
            None => None,
        }
    }
}

/// The part of `s` before the first occurrence of `pat`, or all of `s`.
pub open spec fn before_first(s: Seq<char>, pat: Seq<char>) -> Seq<char> {
    match find_seq(s, pat) {
        Some(i) => s.take(i),
        None => s,
    }
}

pub open spec fn nt_prefix() -> Seq<char> {
    seq!['\\', '?', '?', '\\']
}

pub open spec fn win32_prefix() -> Seq<char> {
    seq!['\\', '\\', '?', '\\']
}

/// NULs trimmed, `/` turned into `\`, ASCII lower-cased, and the NT prefix
/// `\??\` rewritten as the Win32 prefix `\\?\`.
pub open spec fn normalize_spec(p: Seq<char>) -> Seq<char> {
    let q = lower_seq(replace_seq(trim_char(p, '\0'), '/', '\\'));
    if starts_with_seq(q, nt_prefix()) {
        win32_prefix() + q.skip(4)
    } else {
        q
    }
}

/// The hardware-id segment (second `#` field) without its `&col..` suffix.
pub open spec fn hardware_key_spec(p: Seq<char>) -> Option<Seq<char>> {
    let parts = split_seq(normalize_spec(p), '#');
    if parts.len() < 2 {
        None
    } else {
        Some(before_first(parts[1], seq!['&', 'c', 'o', 'l']))
    }
}

/// `vid_xxxx&pid_xxxx` taken from the hardware-id segment.
pub open spec fn vid_pid_key_spec(p: Seq<char>) -> Option<Seq<char>> {
    let parts = split_seq(normalize_spec(p), '#');
    if parts.len() < 2 {
        None
    } else {
        let hw = lower_seq(parts[1]);
        match (find_seq(hw, seq!['v', 'i', 'd', '_']), find_seq(hw, seq!['p', 'i', 'd', '_'])) {
            (Some(vp), Some(pp)) => match (byte_window(hw, vp, 8), byte_window(hw, pp, 8)) {
                (Some(vid), Some(pid)) => Some(vid + seq!['&'] + pid),
                _ => None,
            },
            _ => None,
        }
    }
}

/// The device-instance segment (third `#` field); when it has the form
/// `..&0&nnnn`, its last `&`-field is dropped.
pub open spec fn instance_root_spec(p: Seq<char>) -> Option<Seq<char>> {
    let parts = split_seq(normalize_spec(p), '#');
    if parts.len() < 3 {
        None
    } else {
        let inst = lower_seq(parts[2]);
        if find_seq(inst, seq!['&', '0', '&']) is Some {
            match last_index_of(inst, '&') {
                Some(k) => Some(inst.take(k)),
                None => Some(inst),
            }
        } else {
            Some(inst)
        }
    }
}

/// Whether a raw-input device path names the touchpad: the same path, or the
/// same VID/PID with the same instance root, or the same hardware id.
pub open spec fn is_touchpad_spec(raw: Seq<char>, tp: Seq<char>) -> bool {
    let rn = normalize_spec(raw);
    let tn = normalize_spec(tp);
    if rn == tn {
        true
    } else if vid_pid_key_spec(rn) is Some && vid_pid_key_spec(tn) is Some && vid_pid_key_spec(rn)
        == vid_pid_key_spec(tn) && instance_root_spec(rn) is Some && instance_root_spec(rn)
        == instance_root_spec(tn) {
        true
    } else {
        match (hardware_key_spec(rn), hardware_key_spec(tn)) {
            (Some(a), Some(b)) => a == b,
            _ => false,
        }
    }
}

fn utf8_len_exec(c: char) -> (r: usize)
    ensures
        r == utf8_len(c),
{
    let u = c as u32;
    if u <= 0x7f {
        1
    } else if u <= 0x7ff {
        2
    } else if u <= 0xffff {
        3
    } else {
        4
    }
}

fn byte_window_exec(v: &Vec<char>, i: usize, n: usize) -> (r: Option<Vec<char>>)
    requires
        n <= 8,
    ensures
        match byte_window(v@, i as int, n as int) {
            Some(w) => r matches Some(x) && x@ == w,
            None => r is None,
        },
{
    let mut acc: Vec<char> = Vec::new();
    let mut j: usize = i;
    let mut left: usize = n;
    while left > 0
        invariant
            i <= j,
            left <= n <= 8,
            byte_window(v@, i as int, n as int) == (match byte_window(v@, j as int, left as int) {
                Some(w) => Some(acc@ + w),
                None => None::<Seq<char>>,
            }),
        decreases left,
    {
        if j >= v.len() {
            return None;
        }
        let l = utf8_len_exec(v[j]);
        if l > left {
            return None;
        }
        proof {
            assert(acc@ + (seq![v@[j as int]] + Seq::<char>::empty()) == acc@.push(v@[j as int])
                + Seq::<char>::empty());
            assert forall|w: Seq<char>| acc@ + (seq![v@[j as int]] + w) == #[trigger] (acc@.push(
                v@[j as int],
            ) + w) by {
                assert(acc@ + (seq![v@[j as int]] + w) =~= acc@.push(v@[j as int]) + w);
            }
        }
        acc.push(v[j]);
        j += 1;
        left -= l;
    }
    assert(acc@ + Seq::<char>::empty() == acc@);
    Some(acc)
}

fn before_first_exec(v: &Vec<char>, pat: &Vec<char>) -> (r: Vec<char>)
    ensures
        r@ == before_first(v@, pat@),
{
    match find_sub(v, pat) {
        Some(i) => {
            proof {
                lemma_find_from(v@, pat@, 0);
            }
            slice_chars(v, 0, i)
        },
        None => slice_chars(v, 0, v.len()),
    }
}

fn normalize_chars(p: &Vec<char>) -> (r: Vec<char>)
    ensures
        r@ == normalize_spec(p@),
{
    let t = trim_char_exec(p, '\0');
    let q = ascii_lower(&replace_char(&t, '/', '\\'));
    let nt = vec!['\\', '?', '?', '\\'];
    assert(nt@ == nt_prefix());
    if occurs_at_exec(&q, &nt, 0) {
        let mut r = vec!['\\', '\\', '?', '\\'];
        assert(r@ == win32_prefix());
        let mut i: usize = 4;
        while i < q.len()
            invariant
                4 <= i <= q.len(),
                r@ == win32_prefix() + q@.subrange(4, i as int),
            decreases q.len() - i,
        {
            r.push(q[i]);
            assert(q@.subrange(4, i as int + 1) == q@.subrange(4, i as int).push(q@[i as int]));
            i += 1;
        }
        assert(q@.subrange(4, q.len() as int) == q@.skip(4));
        r
    } else {
        q
    }
}

/// Normalises a HID device path for comparison.
pub fn normalize_hid_path(path: &str) -> (r: String)
    ensures
        r@ == normalize_spec(path@),
{
    string_of(&normalize_chars(&chars_of(path)))
}

fn hardware_key_chars(p: &Vec<char>) -> (r: Option<Vec<char>>)
    ensures
        match hardware_key_spec(p@) {
            Some(k) => r matches Some(x) && x@ == k,
            None => r is None,
        },
{
    let n = normalize_chars(p);
    let parts = split_on(&n, '#');
    if parts.len() < 2 {
        return None;
    }
    let col = vec!['&', 'c', 'o', 'l'];
    Some(before_first_exec(&parts[1], &col))
}

/// The hardware id of a HID path, e.g. `bltp7853` for
/// `\\?\hid#bltp7853&col04#...`.
pub fn hid_hardware_key(path: &str) -> (r: Option<String>)
    ensures
        match hardware_key_spec(path@) {
            Some(k) => r matches Some(x) && x@ == k,
            None => r is None,
        },
{
    match hardware_key_chars(&chars_of(path)) {
        Some(k) => Some(string_of(&k)),
        None => None,
    }
}

fn vid_pid_key_chars(p: &Vec<char>) -> (r: Option<Vec<char>>)
    ensures
        match vid_pid_key_spec(p@) {
            Some(k) => r matches Some(x) && x@ == k,
            None => r is None,
        },
{
    let n = normalize_chars(p);
    let parts = split_on(&n, '#');
    if parts.len() < 2 {
        return None;
    }
    let hw = ascii_lower(&parts[1]);
    let vid_pat = vec!['v', 'i', 'd', '_'];
    let pid_pat = vec!['p', 'i', 'd', '_'];
    assert(vid_pat@ == seq!['v', 'i', 'd', '_']);
    assert(pid_pat@ == seq!['p', 'i', 'd', '_']);
    let vp = match find_sub(&hw, &vid_pat) {
        Some(k) => k,
        None => return None,
    };
    let pp = match find_sub(&hw, &pid_pat) {
        Some(k) => k,
        None => return None,
    };
    let vid = match byte_window_exec(&hw, vp, 8) {
        Some(w) => w,
        None => return None,
    };
    let pid = match byte_window_exec(&hw, pp, 8) {
        Some(w) => w,
        None => return None,
    };
    let ghost vid_s = vid@;
    let mut r = vid;
    r.push('&');
    let mut i: usize = 0;
    assert(r@ == vid_s + seq!['&'] + pid@.take(0));
    while i < pid.len()
        invariant
            i <= pid.len(),
            r@ == vid_s + seq!['&'] + pid@.take(i as int),
        decreases pid.len() - i,
    {
        r.push(pid[i]);
        assert(pid@.take(i as int + 1) == pid@.take(i as int).push(pid@[i as int]));
        i += 1;
    }
    assert(pid@.take(pid.len() as int) == pid@);
    Some(r)
}

/// `vid_xxxx&pid_xxxx` of a HID path, whatever its `mi_`/`col` suffixes.
pub fn hid_vid_pid_key(path: &str) -> (r: Option<String>)
    ensures
        match vid_pid_key_spec(path@) {
            Some(k) => r matches Some(x) && x@ == k,
            None => r is None,
        },
{
    match vid_pid_key_chars(&chars_of(path)) {
        Some(k) => Some(string_of(&k)),
        None => None,
    }
}

fn instance_root_chars(p: &Vec<char>) -> (r: Option<Vec<char>>)
    ensures
        match instance_root_spec(p@) {
            Some(k) => r matches Some(x) && x@ == k,
            None => r is None,
        },
{
    let n = normalize_chars(p);
    let parts = split_on(&n, '#');
    if parts.len() < 3 {
        return None;
    }
    let inst = ascii_lower(&parts[2]);
    if find_sub(&inst, &vec!['&', '0', '&']).is_some() {
        match last_index_exec(&inst, '&') {
            Some(k) => {
                proof {
                    lemma_last_index_bound(inst@, '&', inst@.len() as int);
                }
                return Some(slice_chars(&inst, 0, k));
            },
            None => {},
        }
    }
    Some(inst)
}

proof fn lemma_last_index_bound(s: Seq<char>, c: char, n: int)
    requires
        n <= s.len(),
    ensures
        last_index_from(s, c, n) matches Some(k) ==> 0 <= k < n,
    decreases n,
{
    if n > 0 && s[n - 1] != c {
        lemma_last_index_bound(s, c, n - 1);
    }
}

/// The device-instance root of a HID path, ignoring the collection suffix.
pub fn hid_instance_root(path: &str) -> (r: Option<String>)
    ensures
        match instance_root_spec(path@) {
            Some(k) => r matches Some(x) && x@ == k,
            None => r is None,
        },
{
    match instance_root_chars(&chars_of(path)) {
        Some(k) => Some(string_of(&k)),
        None => None,
    }
}

fn opt_chars_eq(a: &Option<Vec<char>>, b: &Option<Vec<char>>) -> (r: bool)
    ensures
        r == (match (a, b) {
            (Some(x), Some(y)) => x@ == y@,
            (None, None) => true,
            _ => false,
        }),
{
    match (a, b) {
        (Some(x), Some(y)) => chars_eq(x, y),
        (None, None) => true,
        _ => false,
    }
}

/// Whether the raw-input device `raw_input_path` is the touchpad whose
/// interface path is `touchpad_path`.
pub fn is_touchpad_device_path(raw_input_path: &str, touchpad_path: &str) -> (r: bool)
    ensures
        r == is_touchpad_spec(raw_input_path@, touchpad_path@),
{
    let raw_norm = normalize_chars(&chars_of(raw_input_path));
    let tp_norm = normalize_chars(&chars_of(touchpad_path));
    if chars_eq(&raw_norm, &tp_norm) {
        return true;
    }
    let raw_vp = vid_pid_key_chars(&raw_norm);
    let tp_vp = vid_pid_key_chars(&tp_norm);
    if raw_vp.is_some() && tp_vp.is_some() {
        let raw_root = instance_root_chars(&raw_norm);
        let tp_root = instance_root_chars(&tp_norm);
        if opt_chars_eq(&raw_vp, &tp_vp) && raw_root.is_some() && opt_chars_eq(&raw_root, &tp_root) {
            return true;
        }
    }
    let rk = hardware_key_chars(&raw_norm);
    let tk = hardware_key_chars(&tp_norm);
    match (rk, tk) {
        (Some(a), Some(b)) => chars_eq(&a, &b),
        _ => false,
    }
}

} // verus!
