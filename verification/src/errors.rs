//! The error type shared by the hardware modules.
use vstd::prelude::*;

verus! {

/// Why a hardware operation failed.
#[derive(Debug, Clone, PartialEq, Eq)]
pub enum HardwareError {
    /// The feature does not exist on this platform or machine.
    NotSupported(String),
    /// A registry key or value could not be read or written.
    Registry(String),
    /// A WMI query or method call failed.
    Wmi(String),
    /// A file or pipe operation failed.
    Io(String),
    /// A screen cast operation failed.
    Cast(String),
    Other(String),
}

} // verus!
