//! Screen casting to Miracast receivers: the receivers listed and the
//! results reported for starting and stopping a cast.
use vstd::prelude::*;
use crate::errors::HardwareError;
use crate::text::{append_str, chars_of, owned, string_of};

verus! {

/// The device selector of Miracast receivers.
pub const MIRACAST_SELECTOR: &'static str =
    "System.Devices.Aep.ProtocolId:=\"{e0cce415-ef27-4e8e-9b8d-9f3d9a7d1f7d}\"";

/// A Miracast receiver.
#[derive(Debug, Clone, PartialEq, Eq)]
pub struct CastDevice {
    pub name: String,
    pub id: String,
    pub device_type: String,
}

/// Result of a cast operation.
#[derive(Debug, Clone, PartialEq, Eq)]
pub struct CastResult {
    pub success: bool,
    pub message: String,
}

/// The (name, id) of the enumerated devices that have a name, in order.
pub open spec fn receivers(found: Seq<(String, String)>) -> Seq<(Seq<char>, Seq<char>)>
    decreases found.len(),
{
    if found.len() == 0 {
        seq![]
    } else if found.last().0@.len() > 0 {
        receivers(found.drop_last()).push((found.last().0@, found.last().1@))
    } else {
        receivers(found.drop_last())
    }
}

pub open spec fn device_views(v: Seq<CastDevice>) -> Seq<(Seq<char>, Seq<char>)> {
    v.map_values(|d: CastDevice| (d.name@, d.id@))
}

/// The receivers among the enumerated devices (name, id): those with a
/// name, in order, typed `miracast`. Off Windows nothing is enumerated.
pub fn list_cast_devices(found: &Vec<(String, String)>) -> (r: Result<Vec<CastDevice>, HardwareError>)
    ensures
        r matches Ok(v) && device_views(v@) == receivers(found@) && forall|i: int|
            0 <= i < v.len() ==> (#[trigger] v[i]).device_type@ == "miracast"@,
{
    let mut out: Vec<CastDevice> = Vec::new();
    let mut i: usize = 0;
    while i < found.len()
        invariant
            i <= found.len(),
            device_views(out@) == receivers(found@.take(i as int)),
            forall|k: int| 0 <= k < out.len() ==> (#[trigger] out[k]).device_type@ == "miracast"@,
        decreases found.len() - i,
    {
        assert(found@.take(i as int + 1).drop_last() == found@.take(i as int));
        let (name, id) = &found[i];
        if !name.as_str().is_empty() {
            let ghost before = out@;
            out.push(
                CastDevice {
                    name: owned(name.as_str()),
                    id: owned(id.as_str()),
                    device_type: owned("miracast"),
                },
            );
            assert(device_views(out@) =~= device_views(before).push((name@, id@)));
        }
        i += 1;
    }
    assert(found@.take(found.len() as int) == found@);
    Ok(out)
}

/// The `cmd` arguments that open the Connect panel.
pub fn connect_panel_args() -> (r: Vec<&'static str>)
    ensures
        r@.len() == 3 && r@[0]@ == "/c"@ && r@[1]@ == "start"@ && r@[2]@
            == "ms-settings-connectabledevices:project"@,
{
    vec!["/c", "start", "ms-settings-connectabledevices:project"]
}

/// The `cmd` arguments that close the Settings window of the panel.
pub fn close_panel_args() -> (r: Vec<&'static str>)
    ensures
        r@.len() == 5 && r@[0]@ == "/c"@ && r@[1]@ == "taskkill"@ && r@[2]@ == "/f"@ && r@[3]@
            == "/im"@ && r@[4]@ == "SystemSettings.exe"@,
{
    vec!["/c", "taskkill", "/f", "/im", "SystemSettings.exe"]
}

/// The result of starting a cast: on Windows the device was validated and
/// the Connect panel opened (or not) for the user to confirm.
pub fn start_casting(on_windows: bool, friendly_name: &str, panel_opened: bool) -> (r: Result<CastResult, HardwareError>)
    ensures
        !on_windows ==> (r matches Ok(c) && !c.success && c.message@
            == "Screen casting only available on Windows"@),
        on_windows && panel_opened ==> (r matches Ok(c) && c.success && c.message@
            == "Connect panel opened for "@ + friendly_name@
            + ". Select your device to start casting."@),
        on_windows && !panel_opened ==> (r matches Ok(c) && !c.success && c.message@
            == "Failed to open Connect panel."@),
{
    if !on_windows {
        return Ok(CastResult { success: false, message: owned("Screen casting only available on Windows") });
    }
    if panel_opened {
        let mut v = chars_of("Connect panel opened for ");
        append_str(&mut v, friendly_name);
        append_str(&mut v, ". Select your device to start casting.");
        Ok(CastResult { success: true, message: string_of(&v) })
    } else {
        Ok(CastResult { success: false, message: owned("Failed to open Connect panel.") })
    }
}

/// The result of stopping a cast.
pub fn stop_casting(on_windows: bool) -> (r: Result<CastResult, HardwareError>)
    ensures
        on_windows ==> (r matches Ok(c) && c.success && c.message@ == "Casting stopped"@),
        !on_windows ==> (r matches Ok(c) && !c.success && c.message@
            == "Screen casting only available on Windows"@),
{
    if on_windows {
        Ok(CastResult { success: true, message: owned("Casting stopped") })
    } else {
        Ok(CastResult { success: false, message: owned("Screen casting only available on Windows") })
    }
}

} // verus!
