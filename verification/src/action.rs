//! The per-connection action protocol.
//!
//! Each accepted connection sends a single action byte that selects what the
//! daemon does for it.  A byte outside the known range decodes to nothing,
//! and the unverified connection handler then closes the connection.

use vstd::prelude::*;

verus! {

/// The set of actions a client may request over the daemon's main socket.
///
/// The wire encoding is the variant's position: `PingHeartbeat` is byte 0,
/// `SystemServerStarted` is byte 8.
#[derive(Debug, Eq, PartialEq, Structural, Copy, Clone)]
pub enum DaemonSocketAction {
    PingHeartbeat,
    GetProcessFlags,
    CacheMountNamespace,
    UpdateMountNamespace,
    ReadModules,
    RequestCompanionSocket,
    GetModuleDir,
    ZygoteRestart,
    SystemServerStarted,
}

impl DaemonSocketAction {
    /// The action's wire byte.
    pub open spec fn spec_code(self) -> u8 {
        match self {
            DaemonSocketAction::PingHeartbeat => 0,
            DaemonSocketAction::GetProcessFlags => 1,
            DaemonSocketAction::CacheMountNamespace => 2,
            DaemonSocketAction::UpdateMountNamespace => 3,
            DaemonSocketAction::ReadModules => 4,
            DaemonSocketAction::RequestCompanionSocket => 5,
            DaemonSocketAction::GetModuleDir => 6,
            DaemonSocketAction::ZygoteRestart => 7,
            DaemonSocketAction::SystemServerStarted => 8,
        }
    }

    /// Decode an action byte.  Exactly the bytes 0 through 8 decode; every
    /// other byte is malformed and yields `None`, on which the connection
    /// handler closes the connection.
    pub fn from_u8(value: u8) -> (r: Option<DaemonSocketAction>)
        ensures
            value <= 8 ==> (r matches Some(a) && a.spec_code() == value),
            value > 8 ==> r is None,
    {
        match value {
            0 => Some(DaemonSocketAction::PingHeartbeat),
            1 => Some(DaemonSocketAction::GetProcessFlags),
            2 => Some(DaemonSocketAction::CacheMountNamespace),
            3 => Some(DaemonSocketAction::UpdateMountNamespace),
            4 => Some(DaemonSocketAction::ReadModules),
            5 => Some(DaemonSocketAction::RequestCompanionSocket),
            6 => Some(DaemonSocketAction::GetModuleDir),
            7 => Some(DaemonSocketAction::ZygoteRestart),
            8 => Some(DaemonSocketAction::SystemServerStarted),
            _ => None,
        }
    }

    /// The wire byte for this action; inverse of `from_u8`.
    pub fn as_u8(self) -> (r: u8)
        ensures
            r == self.spec_code(),
            r <= 8,
    {
        match self {
            DaemonSocketAction::PingHeartbeat => 0,
            DaemonSocketAction::GetProcessFlags => 1,
            DaemonSocketAction::CacheMountNamespace => 2,
            DaemonSocketAction::UpdateMountNamespace => 3,
            DaemonSocketAction::ReadModules => 4,
            DaemonSocketAction::RequestCompanionSocket => 5,
            DaemonSocketAction::GetModuleDir => 6,
            DaemonSocketAction::ZygoteRestart => 7,
            DaemonSocketAction::SystemServerStarted => 8,
        }
    }
}

/// The controller datagram code for "the system server has started"; the
/// same for both ABIs.
pub const SYSTEM_SERVER_STARTED_CODE: i32 = 10;

/// The controller datagram code for "Zygote has been injected".  The
/// codes differ by ABI so the two per-ABI daemons can share one
/// controller: the 64-bit daemon sends the even code of each pair, the
/// 32-bit daemon the odd one.
pub fn zygote_injected_code(is_64bit: bool) -> (r: i32)
    ensures
        is_64bit ==> r == 4,
        !is_64bit ==> r == 5,
{
    if is_64bit {
        4
    } else {
        5
    }
}

/// The controller datagram code for "daemon status information follows".
pub fn daemon_set_info_code(is_64bit: bool) -> (r: i32)
    ensures
        is_64bit ==> r == 6,
        !is_64bit ==> r == 7,
{
    if is_64bit {
        6
    } else {
        7
    }
}

/// The controller datagram code for "daemon error information follows".
pub fn daemon_set_error_info_code(is_64bit: bool) -> (r: i32)
    ensures
        is_64bit ==> r == 8,
        !is_64bit ==> r == 9,
{
    if is_64bit {
        8
    } else {
        9
    }
}

} // verus!
