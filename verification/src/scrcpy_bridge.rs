//! scrcpy as a webcam: the status shown for the external binary, the
//! commands that start and stop it, and reading back its recorded PID.
use vstd::prelude::*;
use crate::iotservice::{decimal, decimal_u64};
use crate::localsend::{all_digits, digits_value, parse_usize, unsigned_part};
use crate::text::{
    append_chars, append_str, chars_of, contains_str, find_seq, owned, slice_chars, string_of,
    trim_ws, trim_ws_exec,
};

verus! {

/// Status of the scrcpy orchestration.
#[derive(Debug, Clone, PartialEq, Eq)]
pub struct ScrcpyStatus {
    /// Where the binary was found; empty when it is not installed.
    pub binary: String,
    /// First line of `scrcpy --version`.
    pub version: Option<String>,
    /// "not-installed", "running", "stopped" or "error".
    pub state: String,
    pub pid: Option<u32>,
    pub error: Option<String>,
    /// The install command shown when scrcpy is missing.
    pub install_hint: String,
}

impl Default for ScrcpyStatus {
    fn default() -> (s: Self)
        ensures
            s.binary@.len() == 0,
            s.version is None,
            s.state@ == "not-installed"@,
            s.pid is None,
            s.error is None,
            s.install_hint@ == "winget install Genymobile.scrcpy"@,
    {
        ScrcpyStatus {
            binary: String::new(),
            version: None,
            state: owned("not-installed"),
            pid: None,
            error: None,
            install_hint: owned("winget install Genymobile.scrcpy"),
        }
    }
}

/// The scrcpy executable looked up on PATH.
pub fn binary_name(on_windows: bool) -> (r: &'static str)
    ensures
        r@ == if on_windows {
            "scrcpy.exe"@
        } else {
            "scrcpy"@
        },
{
    if on_windows {
        "scrcpy.exe"
    } else {
        "scrcpy"
    }
}

/// What a status check found about the recorded child process.
#[derive(Debug, Clone, Copy, PartialEq, Eq, Structural)]
pub enum ChildProbe {
    /// No PID is recorded.
    NoPid,
    /// The recorded PID runs.
    Alive(u32),
    /// The recorded PID is gone: its record is cleared.
    Gone(u32),
}

/// The status from what was probed: the binary lookup (`Ok(None)` when
/// scrcpy is missing), its version and the recorded child.
pub fn status(binary: Result<Option<String>, String>, version: Option<String>, child: ChildProbe) -> (s: ScrcpyStatus)
    ensures
        s.install_hint@ == "winget install Genymobile.scrcpy"@,
        match binary {
            Ok(None) => s.state@ == "not-installed"@ && s.binary@.len() == 0 && s.version is None
                && s.pid is None && s.error is None,
            Err(e) => s.state@ == "error"@ && s.error == Some(e) && s.binary@.len() == 0
                && s.version is None && s.pid is None,
            Ok(Some(b)) => s.binary == b && s.version == version && s.error is None && match child {
                ChildProbe::Alive(p) => s.state@ == "running"@ && s.pid == Some(p),
                _ => s.state@ == "stopped"@ && s.pid is None,
            },
        },
{
    let mut s = ScrcpyStatus::default();
    match binary {
        Ok(Some(b)) => {
            s.binary = b;
            s.version = version;
            match child {
                ChildProbe::Alive(p) => {
                    s.state = owned("running");
                    s.pid = Some(p);
                },
                _ => {
                    s.state = owned("stopped");
                },
            }
        },
        Ok(None) => {},
        Err(e) => {
            s.state = owned("error");
            s.error = Some(e);
        },
    }
    s
}

/// The first line of a text (`str::lines().next()`): up to the first
/// `\n`, without a `\r` before it; none for an empty text.
pub open spec fn first_line(s: Seq<char>) -> Option<Seq<char>> {
    if s.len() == 0 {
        None
    } else {
        let l = match find_seq(s, seq!['\n']) {
            Some(k) => s.take(k),
            None => s,
        };
        Some(
            if l.len() > 0 && l.last() == '\r' {
                l.drop_last()
            } else {
                l
            },
        )
    }
}

/// The version reported by `scrcpy --version`: its first line, trimmed,
/// unless blank.
pub open spec fn version_of(output: Seq<char>) -> Option<Seq<char>> {
    match first_line(output) {
        Some(l) => if trim_ws(l).len() > 0 {
            Some(trim_ws(l))
        } else {
            None
        },
        None => None,
    }
}

pub fn version_line(output: &str) -> (r: Option<String>)
    ensures
        match version_of(output@) {
            Some(v) => r is Some && r.unwrap()@ == v,
            None => r is None,
        },
{
    let v = chars_of(output);
    if v.len() == 0 {
        return None;
    }
    let nl: Vec<char> = vec!['\n'];
    assert(nl@ =~= seq!['\n']);
    proof {
        crate::text::lemma_find_from(v@, seq!['\n'], 0);
    }
    let mut l = match crate::text::find_sub(&v, &nl) {
        Some(k) => {
            assert(crate::text::occurs_at(v@, seq!['\n'], k as int));
            assert(v@.subrange(0, k as int) == v@.take(k as int));
            slice_chars(&v, 0, k)
        },
        None => {
            assert(v@.subrange(0, v@.len() as int) == v@);
            slice_chars(&v, 0, v.len())
        },
    };
    if l.len() > 0 && l[l.len() - 1] == '\r' {
        l.pop();
    }
    let t = trim_ws_exec(&l);
    if t.len() == 0 {
        None
    } else {
        Some(string_of(&t))
    }
}

/// A PID file's content: its trimmed text as a `u32`.
pub open spec fn pid_in(text: Seq<char>) -> Option<u32> {
    let d = unsigned_part(trim_ws(text));
    if d.len() > 0 && all_digits(d) && digits_value(d) <= u32::MAX {
        Some(digits_value(d) as u32)
    } else {
        None
    }
}

pub fn parse_pid_text(text: &str) -> (r: Option<u32>)
    ensures
        r == pid_in(text@),
{
    let t = string_of(&trim_ws_exec(&chars_of(text)));
    match parse_usize(t.as_str()) {
        Some(n) => {
            if n <= 0xFFFF_FFFF {
                Some(n as u32)
            } else {
                None
            }
        },
        None => None,
    }
}

/// Whether `tasklist` output lists the PID.
pub fn tasklist_lists(output: &str, pid: u32) -> (r: bool)
    ensures
        r == find_seq(output@, decimal(pid as nat)) is Some,
{
    let d = string_of(&decimal_u64(pid as u64));
    contains_str(output, d.as_str())
}

/// The arguments that run scrcpy as a webcam on the front camera, without
/// audio.
pub fn camera_args() -> (r: Vec<&'static str>)
    ensures
        r@.len() == 2 && r@[0]@ == "--camera-facing=front"@ && r@[1]@ == "--no-audio"@,
{
    vec!["--camera-facing=front", "--no-audio"]
}

/// Whether the webcam can start: not while it runs, not without the binary.
pub fn start_camera(running: bool, binary: Option<String>) -> (r: Result<String, String>)
    ensures
        running ==> (r matches Err(m) && m@ == "scrcpy is already running"@),
        !running && binary is None ==> (r matches Err(m) && m@
            == "scrcpy is not installed (winget install Genymobile.scrcpy)"@),
        !running && binary is Some ==> r == Ok::<String, String>(binary.unwrap()),
{
    if running {
        return Err(owned("scrcpy is already running"));
    }
    match binary {
        Some(b) => Ok(b),
        None => Err(owned("scrcpy is not installed (winget install Genymobile.scrcpy)")),
    }
}

/// The command that ends the recorded child: `taskkill /PID <pid> /F` on
/// Windows, else `kill <pid>`.
pub fn stop_command(pid: u32, on_windows: bool) -> (r: (&'static str, Vec<String>))
    ensures
        on_windows ==> r.0@ == "taskkill"@ && r.1@.len() == 3 && r.1@[0]@ == "/PID"@ && r.1@[1]@
            == decimal(pid as nat) && r.1@[2]@ == "/F"@,
        !on_windows ==> r.0@ == "kill"@ && r.1@.len() == 1 && r.1@[0]@ == decimal(pid as nat),
{
    let p = string_of(&decimal_u64(pid as u64));
    if on_windows {
        ("taskkill", vec![owned("/PID"), p, owned("/F")])
    } else {
        ("kill", vec![p])
    }
}

/// The error when the kill command fails.
pub fn stop_error(pid: u32, stderr: &str) -> (r: String)
    ensures
        r@ == "scrcpy termination returned nonzero (pid "@ + decimal(pid as nat) + "): "@ + stderr@,
{
    let mut v = chars_of("scrcpy termination returned nonzero (pid ");
    append_chars(&mut v, &decimal_u64(pid as u64));
    append_str(&mut v, "): ");
    append_str(&mut v, stderr);
    string_of(&v)
}

} // verus!
