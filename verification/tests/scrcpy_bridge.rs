use micontrol_hw::scrcpy_bridge::{
    binary_name, camera_args, parse_pid_text, start_camera, status, stop_command, stop_error,
    tasklist_lists, version_line, ChildProbe, ScrcpyStatus,
};

#[test]
fn status_graceful_when_not_installed() {
    let s = status(Ok(None), None, ChildProbe::NoPid);
    assert!(
        s.state == "not-installed" || s.state == "stopped" || s.state == "running",
        "unexpected state {}",
        s.state
    );
    assert_eq!(s.state, "not-installed");
    assert_eq!(s.install_hint, "winget install Genymobile.scrcpy");
}

#[test]
fn status_states() {
    let s = status(Ok(Some("scrcpy.exe".into())), Some("scrcpy 2.7".into()), ChildProbe::Alive(42));
    assert_eq!((s.state.as_str(), s.pid), ("running", Some(42)));
    assert_eq!(s.binary, "scrcpy.exe");
    let s = status(Ok(Some("scrcpy".into())), None, ChildProbe::Gone(42));
    assert_eq!((s.state.as_str(), s.pid), ("stopped", None));
    let s = status(Err("boom".into()), None, ChildProbe::NoPid);
    assert_eq!(s.state, "error");
    assert_eq!(s.error.as_deref(), Some("boom"));
    assert_eq!(ScrcpyStatus::default().state, "not-installed");
}

#[test]
fn pid_file_roundtrip() {
    assert_eq!(parse_pid_text("4242"), Some(4242));
    assert_eq!(parse_pid_text(" 4242\n"), Some(4242));
    assert_eq!(parse_pid_text("x"), None);
    assert_eq!(parse_pid_text("4294967296"), None);
}

#[test]
fn build_windows_args() {
    assert_eq!(camera_args(), vec!["--camera-facing=front", "--no-audio"]);
    assert_eq!(binary_name(true), "scrcpy.exe");
    assert_eq!(binary_name(false), "scrcpy");
}

#[test]
fn versions_and_processes() {
    assert_eq!(version_line("scrcpy 2.7 <https://x>\r\nmore"), Some("scrcpy 2.7 <https://x>".into()));
    assert_eq!(version_line(""), None);
    assert_eq!(version_line("  \nscrcpy"), None);
    assert!(tasklist_lists("scrcpy.exe   4242 Console", 4242));
    assert!(!tasklist_lists("INFO: No tasks", 4242));
}

#[test]
fn start_and_stop() {
    assert_eq!(start_camera(true, Some("s".into())), Err("scrcpy is already running".into()));
    assert_eq!(
        start_camera(false, None),
        Err("scrcpy is not installed (winget install Genymobile.scrcpy)".into())
    );
    assert_eq!(start_camera(false, Some("s".into())), Ok("s".into()));
    let (prog, args) = stop_command(7, true);
    assert_eq!(prog, "taskkill");
    assert_eq!(args, vec!["/PID", "7", "/F"]);
    let (prog, args) = stop_command(7, false);
    assert_eq!((prog, args), ("kill", vec!["7".to_string()]));
    assert_eq!(stop_error(7, "gone"), "scrcpy termination returned nonzero (pid 7): gone");
}
