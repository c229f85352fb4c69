//! Windows Defender: the MpCmdRun command lines, reading their results, the
//! threat list, the protection status and the dates it reports.
use vstd::prelude::*;
use vstd::utf8::encode_utf8;
use crate::iotservice::{decimal, decimal_u64};
use crate::text::{
    append_chars, append_str, chars_of, find_seq, find_sub, split_on, split_seq, starts_with_seq,
    string_of, trim_ws, trim_ws_exec, occurs_at_exec,
};

pub use crate::errors::HardwareError;

verus! {

#[derive(Debug, Clone, Copy, PartialEq, Eq, Structural)]
pub enum ScanType {
    Quick,
    Full,
    Custom,
    SignatureUpdate,
}

#[derive(Debug, Clone, Copy, PartialEq, Eq, Structural)]
pub enum ScanStatus {
    /// No threats found.
    Clean,
    /// Threats were detected and acted on.
    ThreatsDetected,
    InProgress,
    /// The scan failed or was cancelled.
    Error,
    /// Signatures were updated.
    Updated,
}

#[derive(Debug, Clone, PartialEq, Eq)]
pub struct SecurityScanResult {
    pub scan_type: ScanType,
    /// 0 clean, 2 malware found, anything else an error.
    pub exit_code: i32,
    pub status: ScanStatus,
    /// MpCmdRun's output (stdout, or stderr when stdout is empty), trimmed.
    pub output: String,
    pub duration_secs: u64,
}

#[derive(Debug, Clone, PartialEq, Eq)]
pub struct ThreatEntry {
    pub threat_name: String,
    pub severity_id: Option<u32>,
    pub severity_name: Option<String>,
    pub category_id: Option<u32>,
    pub category_name: Option<String>,
    pub action_success: bool,
    pub action_id: Option<u32>,
    pub action_name: Option<String>,
    pub initial_detection_time: Option<String>,
    pub remediation_time: Option<String>,
    pub resources: Vec<String>,
}

#[derive(Debug, Clone, PartialEq, Eq)]
pub struct ThreatHistory {
    pub threats: Vec<ThreatEntry>,
    pub total_count: usize,
}

#[derive(Debug, Clone, PartialEq, Eq)]
pub struct DefenderStatus {
    pub installed: bool,
    pub enabled: bool,
    pub antivirus_enabled: bool,
    pub antispyware_enabled: bool,
    pub real_time_protection: bool,
    pub definitions_updated: Option<String>,
    pub engine_version: Option<String>,
    pub product_version: Option<String>,
    pub signature_version: Option<String>,
    pub last_scan_time: Option<String>,
}

// ── Commands ────────────────────────────────────────────────────────────────

/// An MpCmdRun invocation.
#[derive(Debug, Clone, PartialEq, Eq)]
pub struct ScanCommand {
    pub scan_type: ScanType,
    pub args: Vec<String>,
}

pub open spec fn args_view(v: Seq<String>) -> Seq<Seq<char>> {
    v.map_values(|s: String| s@)
}

fn str_of(s: &str) -> (r: String)
    ensures
        r@ == s@,
{
    string_of(&chars_of(s))
}

/// `-Scan -ScanType 1`.
pub fn quick_scan() -> (c: ScanCommand)
    ensures
        c.scan_type == ScanType::Quick,
        args_view(c.args@) == seq!["-Scan"@, "-ScanType"@, "1"@],
{
    let args = vec![str_of("-Scan"), str_of("-ScanType"), str_of("1")];
    assert(args_view(args@) == seq!["-Scan"@, "-ScanType"@, "1"@]);
    ScanCommand { scan_type: ScanType::Quick, args }
}

/// `-Scan -ScanType 2`.
pub fn full_scan() -> (c: ScanCommand)
    ensures
        c.scan_type == ScanType::Full,
        args_view(c.args@) == seq!["-Scan"@, "-ScanType"@, "2"@],
{
    let args = vec![str_of("-Scan"), str_of("-ScanType"), str_of("2")];
    assert(args_view(args@) == seq!["-Scan"@, "-ScanType"@, "2"@]);
    ScanCommand { scan_type: ScanType::Full, args }
}

/// `-Scan -ScanType 3 -File <canonical path>`; `canonical` is `None` when
/// `path` does not exist.
pub fn custom_scan(path: &str, canonical: Option<String>) -> (r: Result<ScanCommand, HardwareError>)
    ensures
        match canonical {
            None => r matches Err(HardwareError::Other(m)) && m@ == "Scan path does not exist: "@
                + path@,
            Some(c) => r matches Ok(cmd) && cmd.scan_type == ScanType::Custom && args_view(cmd.args@)
                == seq!["-Scan"@, "-ScanType"@, "3"@, "-File"@, c@],
        },
{
    match canonical {
        None => {
            let mut m = chars_of("Scan path does not exist: ");
            append_str(&mut m, path);
            Err(HardwareError::Other(string_of(&m)))
        },
        Some(c) => {
            let ghost cv = c@;
            let args = vec![str_of("-Scan"), str_of("-ScanType"), str_of("3"), str_of("-File"), c];
            assert(args_view(args@) == seq!["-Scan"@, "-ScanType"@, "3"@, "-File"@, cv]);
            Ok(ScanCommand { scan_type: ScanType::Custom, args })
        },
    }
}

/// `-SignatureUpdate`.
pub fn update_signatures() -> (c: ScanCommand)
    ensures
        c.scan_type == ScanType::SignatureUpdate,
        args_view(c.args@) == seq!["-SignatureUpdate"@],
{
    let args = vec![str_of("-SignatureUpdate")];
    assert(args_view(args@) == seq!["-SignatureUpdate"@]);
    ScanCommand { scan_type: ScanType::SignatureUpdate, args }
}

// ── Results ─────────────────────────────────────────────────────────────────

pub open spec fn status_of(scan_type: ScanType, exit_code: i32) -> ScanStatus {
    if scan_type == ScanType::SignatureUpdate {
        if exit_code == 0 {
            ScanStatus::Updated
        } else {
            ScanStatus::Error
        }
    } else if exit_code == 0 {
        ScanStatus::Clean
    } else if exit_code == 2 {
        ScanStatus::ThreatsDetected
    } else {
        ScanStatus::Error
    }
}

/// A signature update is reported updated exactly when MpCmdRun exited
/// with 0; any other exit code is an error, never "updated". A scan is
/// clean only on 0, has threats only on 2, and never reports "updated".
pub proof fn law_exit_codes(scan_type: ScanType, c: i32)
    ensures
        scan_type == ScanType::SignatureUpdate ==> (status_of(scan_type, c) == ScanStatus::Updated
            <==> c == 0),
        scan_type == ScanType::SignatureUpdate && c != 0 ==> status_of(scan_type, c)
            == ScanStatus::Error,
        scan_type != ScanType::SignatureUpdate ==> status_of(scan_type, c) != ScanStatus::Updated,
        scan_type != ScanType::SignatureUpdate ==> (status_of(scan_type, c) == ScanStatus::Clean
            <==> c == 0),
        scan_type != ScanType::SignatureUpdate ==> (status_of(scan_type, c)
            == ScanStatus::ThreatsDetected <==> c == 2),
{
}

/// The status an exit code means for a scan (0 clean, 2 threats, else
/// error) or a signature update (0 updated, else error).
pub fn scan_status(scan_type: ScanType, exit_code: i32) -> (s: ScanStatus)
    ensures
        s == status_of(scan_type, exit_code),
        scan_type == ScanType::SignatureUpdate ==> (s == ScanStatus::Updated <==> exit_code == 0),
        scan_type == ScanType::SignatureUpdate && exit_code != 0 ==> s == ScanStatus::Error,
{
    match scan_type {
        ScanType::SignatureUpdate => if exit_code == 0 {
            ScanStatus::Updated
        } else {
            ScanStatus::Error
        },
        _ => if exit_code == 0 {
            ScanStatus::Clean
        } else if exit_code == 2 {
            ScanStatus::ThreatsDetected
        } else {
            ScanStatus::Error
        },
    }
}

/// The result of a finished MpCmdRun run; `exit_code` is `None` when the
/// process was killed by a signal (reported as -1).
pub fn scan_result(
    scan_type: ScanType,
    exit_code: Option<i32>,
    stdout: &str,
    stderr: &str,
    duration_secs: u64,
) -> (r: SecurityScanResult)
    ensures
        r.scan_type == scan_type,
        r.exit_code == (match exit_code {
            Some(c) => c,
            None => -1i32,
        }),
        r.status == status_of(scan_type, r.exit_code),
        scan_type == ScanType::SignatureUpdate ==> (r.status == ScanStatus::Updated <==> exit_code
            == Some(0i32)),
        r.output@ == (if trim_ws(stdout@).len() == 0 {
            trim_ws(stderr@)
        } else {
            trim_ws(stdout@)
        }),
        r.duration_secs == duration_secs,
{
    let code = match exit_code {
        Some(c) => c,
        None => -1,
    };
    let out = trim_ws_exec(&chars_of(stdout));
    let combined = if out.len() == 0 {
        trim_ws_exec(&chars_of(stderr))
    } else {
        out
    };
    SecurityScanResult {
        scan_type,
        exit_code: code,
        status: scan_status(scan_type, code),
        output: string_of(&combined),
        duration_secs,
    }
}

// ── Threat list ─────────────────────────────────────────────────────────────

/// Whether a trimmed output line names a threat.
pub open spec fn threat_line(t: Seq<char>) -> bool {
    &&& t.len() > 0
    &&& !starts_with_seq(t, "MpCmdRun"@)
    &&& !starts_with_seq(t, "Copyright"@)
    &&& (find_seq(t, "Threat"@) is Some || find_seq(t, "Malware"@) is Some || find_seq(
        t,
        "Virus"@,
    ) is Some)
}

/// The threat names in MpCmdRun's restore listing: each line, trimmed, that
/// is not a banner line and mentions Threat, Malware or Virus.
pub open spec fn threat_names(lines: Seq<Seq<char>>) -> Seq<Seq<char>>
    decreases lines.len(),
{
    if lines.len() == 0 {
        Seq::<Seq<char>>::empty()
    } else {
        let t = trim_ws(lines.last());
        threat_names(lines.drop_last()) + if threat_line(t) {
            seq![t]
        } else {
            Seq::<Seq<char>>::empty()
        }
    }
}

/// A threat known only by name.
pub open spec fn named_threat(e: ThreatEntry, name: Seq<char>) -> bool {
    &&& e.threat_name@ == name
    &&& e.severity_id is None && e.severity_name is None
    &&& e.category_id is None && e.category_name is None
    &&& e.action_success
    &&& e.action_id is None && e.action_name is None
    &&& e.initial_detection_time is None && e.remediation_time is None
    &&& e.resources@.len() == 0
}

fn has_sub(v: &Vec<char>, s: &str) -> (r: bool)
    ensures
        r == (find_seq(v@, s@) is Some),
{
    find_sub(v, &chars_of(s)).is_some()
}

fn starts_with_str(v: &Vec<char>, s: &str) -> (r: bool)
    ensures
        r == starts_with_seq(v@, s@),
{
    occurs_at_exec(v, &chars_of(s), 0)
}

/// The threats listed in MpCmdRun's output.
pub fn parse_threat_list(output: &str) -> (r: Vec<ThreatEntry>)
    ensures
        r.len() == threat_names(split_seq(output@, '\n')).len(),
        forall|i: int| 0 <= i < r.len() ==> named_threat(#[trigger] r[i], threat_names(split_seq(output@, '\n'))[i]),
{
    let lines = split_on(&chars_of(output), '\n');
    let ghost ls = split_seq(output@, '\n');
    let mut r: Vec<ThreatEntry> = Vec::new();
    let mut i: usize = 0;
    while i < lines.len()
        invariant
            i <= lines.len() == ls.len(),
            forall|k: int| 0 <= k < lines.len() ==> #[trigger] lines[k]@ == ls[k],
            r.len() == threat_names(ls.take(i as int)).len(),
            forall|k: int| 0 <= k < r.len() ==> named_threat(#[trigger] r[k], threat_names(ls.take(i as int))[k]),
        decreases lines.len() - i,
    {
        let t = trim_ws_exec(&lines[i]);
        let ghost prev = threat_names(ls.take(i as int));
        proof {
            assert(ls.take(i as int + 1).drop_last() == ls.take(i as int));
            assert(ls.take(i as int + 1).last() == ls[i as int]);
        }
        if t.len() > 0 && !starts_with_str(&t, "MpCmdRun") && !starts_with_str(&t, "Copyright") && (
        has_sub(&t, "Threat") || has_sub(&t, "Malware") || has_sub(&t, "Virus")) {
            let ghost tv = t@;
            r.push(
                ThreatEntry {
                    threat_name: string_of(&t),
                    severity_id: None,
                    severity_name: None,
                    category_id: None,
                    category_name: None,
                    action_success: true,
                    action_id: None,
                    action_name: None,
                    initial_detection_time: None,
                    remediation_time: None,
                    resources: Vec::new(),
                },
            );
            assert(threat_names(ls.take(i as int + 1)) == prev + seq![tv]);
        } else {
            assert(threat_names(ls.take(i as int + 1)) == prev + Seq::<Seq<char>>::empty());
            assert(prev + Seq::<Seq<char>>::empty() == prev);
        }
        i += 1;
    }
    assert(ls.take(ls.len() as int) == ls);
    r
}

/// The threat history from MpCmdRun's `-Restore -ListAll` output.
pub fn get_threat_history(output: &str) -> (h: ThreatHistory)
    ensures
        h.total_count == h.threats.len(),
        h.threats.len() == threat_names(split_seq(output@, '\n')).len(),
        forall|i: int| 0 <= i < h.threats.len() ==> named_threat(#[trigger] h.threats[i], threat_names(split_seq(output@, '\n'))[i]),
{
    let threats = parse_threat_list(output);
    ThreatHistory { total_count: threats.len(), threats }
}


// ── Dates ───────────────────────────────────────────────────────────────────

/// Year, month and day of the proleptic Gregorian calendar for a count of
/// days since 1970-01-01 (civil-from-days).
pub open spec fn civil_from_days(days: int) -> (int, int, int) {
    let z = days + 719_468;
    let era = z / 146_097;
    let doe = z - era * 146_097;
    let yoe = (doe - doe / 1460 + doe / 36_524 - doe / 146_096) / 365;
    let y = yoe + era * 400;
    let doy = doe - (365 * yoe + yoe / 4 - yoe / 100);
    let mp = (5 * doy + 2) / 153;
    let d = doy - (153 * mp + 2) / 5 + 1;
    let m = if mp < 10 {
        mp + 3
    } else {
        mp - 9
    };
    (if m <= 2 {
        y + 1
    } else {
        y
    }, m, d)
}

/// Days since 1970-01-01 of a proleptic Gregorian date (days-from-civil).
pub open spec fn days_from_civil(y: int, m: int, d: int) -> int {
    let y1 = if m <= 2 {
        y - 1
    } else {
        y
    };
    let era = y1 / 400;
    let yoe = y1 - era * 400;
    let mp = if m > 2 {
        m - 3
    } else {
        m + 9
    };
    let doy = (153 * mp + 2) / 5 + d - 1;
    let doe = yoe * 365 + yoe / 4 - yoe / 100 + doy;
    era * 146_097 + doe - 719_468
}

/// `n` in decimal, zero-padded to `w` characters, a minus sign counted in
/// the width (Rust's `{:0w}`).
pub open spec fn pad_dec(n: int, w: int) -> Seq<char> {
    let digits = if n < 0 {
        decimal((-n) as nat)
    } else {
        decimal(n as nat)
    };
    let sign: int = if n < 0 {
        1
    } else {
        0
    };
    let zeros = if w - sign - digits.len() > 0 {
        w - sign - digits.len()
    } else {
        0
    };
    (if n < 0 {
        seq!['-']
    } else {
        Seq::<char>::empty()
    }) + Seq::new(zeros as nat, |i: int| '0') + digits
}

fn push_pad(out: &mut Vec<char>, n: i64, w: usize)
    requires
        w <= 8,
    ensures
        final(out)@ == old(out)@ + pad_dec(n as int, w as int),
{
    let ghost start = out@;
    let digits = if n < 0 {
        let a: u64 = if n == i64::MIN {
            9_223_372_036_854_775_808u64
        } else {
            (-n) as u64
        };
        decimal_u64(a)
    } else {
        decimal_u64(n as u64)
    };
    let sign: usize = if n < 0 {
        1
    } else {
        0
    };
    if n < 0 {
        out.push('-');
    }
    let zeros: usize = if w > sign && w - sign > digits.len() {
        w - sign - digits.len()
    } else {
        0
    };
    let ghost before_zeros = out@;
    let mut i: usize = 0;
    while i < zeros
        invariant
            i <= zeros,
            out@ == before_zeros + Seq::new(i as nat, |k: int| '0'),
        decreases zeros - i,
    {
        out.push('0');
        assert(Seq::new((i + 1) as nat, |k: int| '0') == Seq::new(i as nat, |k: int| '0').push('0'));
        i += 1;
    }
    append_chars(out, &digits);
    assert(out@ == start + pad_dec(n as int, w as int));
}

/// `a / b` rounded down.
fn floor_div(a: i64, b: i64) -> (q: i64)
    requires
        0 < b <= 200_000,
    ensures
        q == a as int / b as int,
{
    if a >= 0 {
        ((a as u64) / (b as u64)) as i64
    } else {
        let n: u64 = (-(a + 1)) as u64;
        let q: i64 = -(((n / (b as u64)) as i64)) - 1;
        assert(q == a as int / b as int) by (nonlinear_arith)
            requires
                a < 0,
                b > 0,
                n == -(a + 1),
                q == -((n / (b as u64)) as int) - 1,
        ;
        q
    }
}

/// Civil-from-days on a day count of a 64-bit timestamp.
#[verifier::rlimit(40)]
fn civil_exec(days: i64) -> (r: (i64, u64, u64))
    requires
        -200_000_000_000_000 < days < 200_000_000_000_000,
    ensures
        civil_from_days(days as int) == (r.0 as int, r.1 as int, r.2 as int),
{
    let z: i64 = days + 719_468;
    let era: i64 = floor_div(z, 146_097);
    let doe_i: i64 = z - era * 146_097;
    assert(0 <= doe_i < 146_097) by (nonlinear_arith)
        requires
            era == z as int / 146_097,
            doe_i == z - era * 146_097,
    ;
    let doe: u64 = doe_i as u64;
    let yoe: u64 = (doe - doe / 1460 + doe / 36_524 - doe / 146_096) / 365;
    assert(yoe <= 400) by (nonlinear_arith)
        requires
            doe < 146_097,
            yoe == (doe - doe / 1460 + doe / 36_524 - doe / 146_096) / 365,
    ;
    let y: i64 = yoe as i64 + era * 400;
    assert(365 * yoe + yoe / 4 - yoe / 100 <= doe) by (nonlinear_arith)
        requires
            doe < 146_097,
            yoe == (doe - doe / 1460 + doe / 36_524 - doe / 146_096) / 365,
    ;
    let doy: u64 = doe - (365 * yoe + yoe / 4 - yoe / 100);
    assert(doy < 366) by (nonlinear_arith)
        requires
            doe < 146_097,
            yoe == (doe - doe / 1460 + doe / 36_524 - doe / 146_096) / 365,
            doy == doe - (365 * yoe + yoe / 4 - yoe / 100),
    ;
    let mp: u64 = (5 * doy + 2) / 153;
    assert((153 * mp + 2) / 5 <= doy) by (nonlinear_arith)
        requires
            mp == (5 * doy + 2) / 153,
    ;
    let d: u64 = doy - (153 * mp + 2) / 5 + 1;
    let m: u64 = if mp < 10 {
        mp + 3
    } else {
        mp - 9
    };
    let y2: i64 = if m <= 2 {
        y + 1
    } else {
        y
    };
    (y2, m, d)
}

/// The calendar date and time of a Unix timestamp, `YYYY-MM-DD HH:MM:SS`
/// (UTC); always `Some`.
pub fn format_unix_secs(secs: i64) -> (r: Option<String>)
    ensures
        r matches Some(s) && ({
            let days = secs as int / 86_400;
            let rem = secs as int % 86_400;
            let (y, m, d) = civil_from_days(days);
            s@ == pad_dec(y, 4) + seq!['-'] + pad_dec(m, 2) + seq!['-'] + pad_dec(d, 2) + seq![' ']
                + pad_dec(rem / 3600, 2) + seq![':'] + pad_dec((rem % 3600) / 60, 2) + seq![':']
                + pad_dec(rem % 60, 2)
        }),
{
    let days: i64 = floor_div(secs, 86_400);
    let rem: i64 = if secs >= 0 {
        ((secs as u64) % 86_400) as i64
    } else {
        let n: u64 = (-(secs + 1)) as u64;
        let r: i64 = 86_399 - ((n % 86_400) as i64);
        assert(r == secs as int % 86_400) by (nonlinear_arith)
            requires
                secs < 0,
                n == -(secs + 1),
                r == 86_399 - (n % 86_400) as int,
        ;
        r
    };
    let hh = rem / 3600;
    let mi = (rem % 3600) / 60;
    let ss = rem % 60;
    assert(-200_000_000_000_000 < days < 200_000_000_000_000) by (nonlinear_arith)
        requires
            days == secs as int / 86_400,
    ;
    let (y2, m, d) = civil_exec(days);
    let mut out: Vec<char> = Vec::new();
    push_pad(&mut out, y2, 4);
    out.push('-');
    push_pad(&mut out, m as i64, 2);
    out.push('-');
    push_pad(&mut out, d as i64, 2);
    out.push(' ');
    push_pad(&mut out, hh, 2);
    out.push(':');
    push_pad(&mut out, mi, 2);
    out.push(':');
    push_pad(&mut out, ss, 2);
    Some(string_of(&out))
}


/// The date that a day count is formatted as is a real calendar date and
/// counts back to the same day: civil-from-days is inverted by
/// days-from-civil, months run 1..=12 and days 1..=31.
pub proof fn law_calendar_roundtrip(days: int)
    ensures
        ({
            let (y, m, d) = civil_from_days(days);
            &&& 1 <= m <= 12
            &&& 1 <= d <= 31
            &&& days_from_civil(y, m, d) == days
        }),
{
    let z = days + 719_468;
    let era = z / 146_097;
    let doe = z - era * 146_097;
    assert(0 <= doe < 146_097) by (nonlinear_arith)
        requires
            era == z / 146_097,
            doe == z - era * 146_097,
    ;
    let a = doe / 1460;
    let b = doe / 36_524;
    let c = doe / 146_096;
    let f = doe - a + b - c;
    assert(0 <= f <= 145_999);
    let yoe = f / 365;
    assert(0 <= yoe <= 399);
    let doy = doe - (365 * yoe + yoe / 4 - yoe / 100);
    assert(0 <= doy <= 365);
    let mp = (5 * doy + 2) / 153;
    assert(0 <= mp <= 11);
    let d = doy - (153 * mp + 2) / 5 + 1;
    assert(1 <= d <= 31);
    let m = if mp < 10 {
        mp + 3
    } else {
        mp - 9
    };
    let y = yoe + era * 400;
    let y2 = if m <= 2 {
        y + 1
    } else {
        y
    };
    assert(civil_from_days(days) == (y2, m, d));
    let y1 = if m <= 2 {
        y2 - 1
    } else {
        y2
    };
    assert(y1 == y);
    assert(y1 / 400 == era) by (nonlinear_arith)
        requires
            y1 == yoe + era * 400,
            0 <= yoe < 400,
    ;
    assert(y1 - era * 400 == yoe);
    let mp2 = if m > 2 {
        m - 3
    } else {
        m + 9
    };
    assert(mp2 == mp);
}


pub open spec fn is_date_byte(b: u8) -> bool {
    (0x30 <= b <= 0x39) || (0x21 <= b <= 0x2F) || (0x3A <= b <= 0x40) || (0x5B <= b <= 0x60) || (
    0x7B <= b <= 0x7E)
}

pub open spec fn le64(b: Seq<u8>) -> int
    decreases b.len(),
{
    if b.len() == 0 {
        0
    } else {
        b[0] as int + 256 * le64(b.drop_first())
    }
}

/// Seconds from 1601-01-01 (the FILETIME epoch) to 1970-01-01.
pub const EPOCH_OFFSET_SECS: u64 = 11_644_473_600;

/// A registry date value: kept when it is already digits and punctuation;
/// an 8-byte FILETIME (100 ns ticks since 1601, little-endian) at or after
/// 1970 becomes `YYYY-MM-DD HH:MM:SS`; anything else is kept.
pub open spec fn filetime_text(raw: Seq<char>) -> Option<i64> {
    let b = encode_utf8(raw);
    if forall|i: int| 0 <= i < b.len() ==> is_date_byte(#[trigger] b[i]) {
        None
    } else if b.len() == 8 && le64(b) >= EPOCH_OFFSET_SECS * 10_000_000 {
        Some((le64(b) / 10_000_000 - EPOCH_OFFSET_SECS) as i64)
    } else {
        None
    }
}

/// Reads a registry date value (see `filetime_text`).
pub fn format_registry_filetime(raw: String) -> (r: String)
    ensures
        match filetime_text(raw@) {
            Some(secs) => format_unix_secs_spec(secs, r@),
            None => r@ == raw@,
        },
{
    let b = raw.as_str().as_bytes();
    let mut all_date = true;
    let mut i: usize = 0;
    while i < b.len()
        invariant
            i <= b.len(),
            b@ == encode_utf8(raw@),
            all_date == (forall|k: int| 0 <= k < i ==> is_date_byte(#[trigger] b@[k])),
        decreases b.len() - i,
    {
        let x = b[i];
        all_date = all_date && ((0x30 <= x && x <= 0x39) || (0x21 <= x && x <= 0x2F) || (0x3A <= x
            && x <= 0x40) || (0x5B <= x && x <= 0x60) || (0x7B <= x && x <= 0x7E));
        i += 1;
    }
    if all_date {
        return raw;
    }
    if b.len() == 8 {
        let ft128: u128 = b[0] as u128 + (b[1] as u128) * 0x100 + (b[2] as u128) * 0x1_0000 + (
        b[3] as u128) * 0x100_0000 + (b[4] as u128) * 0x1_0000_0000 + (b[5] as u128)
            * 0x100_0000_0000 + (b[6] as u128) * 0x1_0000_0000_0000 + (b[7] as u128)
            * 0x100_0000_0000_0000;
        proof {
            reveal_with_fuel(le64, 9);
            assert(b@.drop_first().drop_first().drop_first().drop_first().drop_first().drop_first().drop_first().drop_first().len() == 0);
        }
        assert(ft128 == le64(b@));
        let ft: u64 = ft128 as u64;
        if ft >= EPOCH_OFFSET_SECS * 10_000_000 {
            let unix_secs = (ft / 10_000_000) - EPOCH_OFFSET_SECS;
            match format_unix_secs(unix_secs as i64) {
                Some(s) => return s,
                None => {},
            }
        }
    }
    raw
}

/// What `format_unix_secs` writes for `secs`.
pub open spec fn format_unix_secs_spec(secs: i64, s: Seq<char>) -> bool {
    let days = secs as int / 86_400;
    let rem = secs as int % 86_400;
    let (y, m, d) = civil_from_days(days);
    s == pad_dec(y, 4) + seq!['-'] + pad_dec(m, 2) + seq!['-'] + pad_dec(d, 2) + seq![' '] + pad_dec(
        rem / 3600,
        2,
    ) + seq![':'] + pad_dec((rem % 3600) / 60, 2) + seq![':'] + pad_dec(rem % 60, 2)
}


/// What the Defender registry keys hold (`None` where a value is absent).
#[derive(Debug, Clone, PartialEq, Eq)]
pub struct DefenderRegistry {
    pub disable_realtime_monitoring: Option<bool>,
    pub disable_antivirus: Option<bool>,
    pub disable_antispyware: Option<bool>,
    pub engine_version: Option<String>,
    pub product_version: Option<String>,
    pub signatures_last_updated: Option<String>,
    pub av_signature_version: Option<String>,
    pub last_quick_scan_end_time: Option<String>,
}

/// A protection is on unless its `Disable..` value says otherwise.
pub open spec fn enabled_unless(disable: Option<bool>) -> bool {
    match disable {
        Some(v) => !v,
        None => true,
    }
}

/// The Defender status: what WMI reports when it answered, else what the
/// registry says (an absent `Disable..` value means enabled); only on
/// Windows.
pub fn get_defender_status(
    on_windows: bool,
    wmi: Option<DefenderStatus>,
    reg: DefenderRegistry,
    installed: bool,
) -> (r: Result<DefenderStatus, HardwareError>)
    ensures
        !on_windows ==> (r matches Err(HardwareError::NotSupported(m)) && m@
            == "Security scan only available on Windows"@),
        on_windows && wmi is Some ==> r == Ok::<DefenderStatus, HardwareError>(wmi.unwrap()),
        on_windows && wmi is None ==> (r matches Ok(st) && {
            let rt = enabled_unless(reg.disable_realtime_monitoring);
            let av = enabled_unless(reg.disable_antivirus);
            let asw = enabled_unless(reg.disable_antispyware);
            &&& st.installed == installed
            &&& st.real_time_protection == rt
            &&& st.antivirus_enabled == av
            &&& st.antispyware_enabled == asw
            &&& st.enabled == (av || asw || rt)
            &&& match reg.signatures_last_updated {
                None => st.definitions_updated is None,
                Some(raw) => st.definitions_updated matches Some(t) && match filetime_text(raw@) {
                    Some(secs) => format_unix_secs_spec(secs, t@),
                    None => t@ == raw@,
                },
            }
            &&& st.engine_version == reg.engine_version
            &&& st.product_version == reg.product_version
            &&& st.signature_version == reg.av_signature_version
            &&& st.last_scan_time == reg.last_quick_scan_end_time
        }),
{
    if !on_windows {
        return Err(HardwareError::NotSupported(str_of("Security scan only available on Windows")));
    }
    if let Some(st) = wmi {
        return Ok(st);
    }
    let rt = match reg.disable_realtime_monitoring {
        Some(v) => !v,
        None => true,
    };
    let av = match reg.disable_antivirus {
        Some(v) => !v,
        None => true,
    };
    let asw = match reg.disable_antispyware {
        Some(v) => !v,
        None => true,
    };
    let defs = match reg.signatures_last_updated {
        Some(raw) => Some(format_registry_filetime(raw)),
        None => None,
    };
    Ok(
        DefenderStatus {
            installed,
            enabled: av || asw || rt,
            antivirus_enabled: av,
            antispyware_enabled: asw,
            real_time_protection: rt,
            definitions_updated: defs,
            engine_version: reg.engine_version,
            product_version: reg.product_version,
            signature_version: reg.av_signature_version,
            last_scan_time: reg.last_quick_scan_end_time,
        },
    )
}

} // verus!
