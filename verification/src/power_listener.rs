//! Power broadcasts: which ones mean that the machine resumed from sleep,
//! after which the sensors are reset.
use vstd::prelude::*;

verus! {

pub const WM_POWERBROADCAST: u32 = 0x0218;
pub const WM_DESTROY: u32 = 0x0002;
pub const PBT_APMSUSPEND: u32 = 4;
pub const PBT_APMRESUMESUSPEND: u32 = 7;
pub const PBT_APMRESUMEAUTOMATIC: u32 = 18;

/// What the listener window does with a message.
#[derive(Debug, Clone, Copy, PartialEq, Eq, Structural)]
pub enum PowerMessage {
    /// Resumed from sleep: reset the sensors; the message is handled.
    Resume,
    /// Going to sleep: the message is handled.
    Suspend,
    /// Another power broadcast: the message is handled.
    OtherBroadcast,
    /// The window is destroyed: quit the message loop, then the default
    /// handling.
    Quit,
    /// Anything else: the default handling.
    Default,
}

pub fn classify_message(msg: u32, event: u32) -> (m: PowerMessage)
    ensures
        msg == WM_POWERBROADCAST ==> m == if event == PBT_APMRESUMEAUTOMATIC || event
            == PBT_APMRESUMESUSPEND {
            PowerMessage::Resume
        } else if event == PBT_APMSUSPEND {
            PowerMessage::Suspend
        } else {
            PowerMessage::OtherBroadcast
        },
        msg != WM_POWERBROADCAST ==> m == if msg == WM_DESTROY {
            PowerMessage::Quit
        } else {
            PowerMessage::Default
        },
{
    if msg == WM_POWERBROADCAST {
        if event == PBT_APMRESUMEAUTOMATIC || event == PBT_APMRESUMESUSPEND {
            PowerMessage::Resume
        } else if event == PBT_APMSUSPEND {
            PowerMessage::Suspend
        } else {
            PowerMessage::OtherBroadcast
        }
    } else if msg == WM_DESTROY {
        PowerMessage::Quit
    } else {
        PowerMessage::Default
    }
}

/// The listener starts only once: starting marks it running and reports
/// whether it ran already.
pub fn claim_start(running: &mut bool) -> (already: bool)
    ensures
        already == *old(running),
        *final(running),
{
    let already = *running;
    *running = true;
    already
}

} // verus!
