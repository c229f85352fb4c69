# micontrol_hw

The hardware layer of MiControl, a control panel for Xiaomi laptops, with its
logic verified by Verus.

- `src/` is the verified library: the IoTService wire header and request
  framing, Wi-Fi password sealing, the hotkey map, hook and dispatch
  decisions, touchpad gestures and settings, NFC NDEF records, the OSD, the
  performance modes, the system tweaks and their Appx rules, the LocalSend
  and KDE Connect protocols, Defender scan results and threat history, and
  the smaller Phone Link, scrcpy, screen cast, Syncthing and OS Turbo
  helpers. Every public function states its result in `ensures`; the laws
  that relate several calls are public proof functions named `law_*`.
- Calls into `sha2`, `aes-gcm`, `hex`, `base64`, `serde_json` and `url` go
  through small wrappers marked `#[verifier::external_body]`, each with a
  doc comment saying what its contract assumes of the outside crate.
- `app/` holds what Verus does not see: sockets and threads for LocalSend,
  the processes that apply system tweaks, start-up callbacks, and the serde
  forms of the library's records.
- `tests/` runs the library on concrete values.
