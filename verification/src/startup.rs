//! Starting with Windows: the Run key entry that launches the program.
use vstd::prelude::*;
use crate::text::{append_str, chars_of, string_of};

verus! {

/// The per-user Run key.
pub const STARTUP_REG_KEY: &'static str = "SOFTWARE\\Microsoft\\Windows\\CurrentVersion\\Run";
/// The value name of the entry.
pub const STARTUP_REG_VALUE: &'static str = "MiControl";

/// The command line recorded in the Run key: the executable, quoted, and
/// the flag that starts it minimized.
pub fn autostart_command(exe_path: &str) -> (r: String)
    ensures
        r@ == "\""@ + exe_path@ + "\" --minimized"@,
{
    let mut v = chars_of("\"");
    append_str(&mut v, exe_path);
    append_str(&mut v, "\" --minimized");
    string_of(&v)
}

/// Whether autostart is on: the entry exists (never off Windows).
pub fn get_autostart(on_windows: bool, entry_exists: bool) -> (r: bool)
    ensures
        r == (on_windows && entry_exists),
{
    on_windows && entry_exists
}

} // verus!
