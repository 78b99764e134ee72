//! The device's role in the Thread network, as the engine reports it.

use vstd::prelude::*;

verus! {

/// Role of a device in the Thread network.
#[derive(Debug, Clone, Copy, PartialEq, Eq, Structural)]
pub enum ThreadDeviceRole {
    Leader,
    Child,
    Router,
    Detached,
    Disabled,
}

/// The role a raw engine role code stands for; codes above 4 are unknown.
pub open spec fn spec_role_from_u32(role_u32: u32) -> Option<ThreadDeviceRole> {
    match role_u32 {
        0u32 => Some(ThreadDeviceRole::Detached),
        1u32 => Some(ThreadDeviceRole::Disabled),
        2u32 => Some(ThreadDeviceRole::Child),
        3u32 => Some(ThreadDeviceRole::Router),
        4u32 => Some(ThreadDeviceRole::Leader),
        _ => None,
    }
}

impl ThreadDeviceRole {
    /// Decodes the engine's raw role code.
    pub fn from_u32(role_u32: u32) -> (r: Option<ThreadDeviceRole>)
        ensures
            r == spec_role_from_u32(role_u32),
            r is Some <==> role_u32 <= 4,
    {
        match role_u32 {
            0 => Some(ThreadDeviceRole::Detached),
            1 => Some(ThreadDeviceRole::Disabled),
            2 => Some(ThreadDeviceRole::Child),
            3 => Some(ThreadDeviceRole::Router),
            4 => Some(ThreadDeviceRole::Leader),
            _ => None,
        }
    }
}

} // verus!
