//! Root-implementation tag and per-process flag bits.
//!
//! The active root solution is probed once at startup by the unverified
//! edge and handed to the core as a [`RootImpl`] value.  For the
//! `GetProcessFlags` action the core folds the root tag and the per-UID
//! oracles (granted root, denylist, manager UID) into one 32-bit bitfield.

use vstd::prelude::*;

verus! {

/// The process has been granted root privileges.
pub const PROCESS_GRANTED_ROOT: u32 = 0x0000_0001;
/// The process is on the denylist and module mounts should be hidden.
pub const PROCESS_ON_DENYLIST: u32 = 0x0000_0002;
/// The process is the root manager application itself.
pub const PROCESS_IS_MANAGER: u32 = 0x0800_0000;
/// The active root solution is APatch.
pub const PROCESS_ROOT_IS_APATCH: u32 = 0x1000_0000;
/// The active root solution is KernelSU.
pub const PROCESS_ROOT_IS_KSU: u32 = 0x2000_0000;
/// The active root solution is Magisk.
pub const PROCESS_ROOT_IS_MAGISK: u32 = 0x4000_0000;

/// The root solution active on the device, probed once at startup and
/// read-only thereafter.  The payload is the solution's version number.
#[derive(Debug, Eq, PartialEq, Structural, Copy, Clone)]
pub enum RootImpl {
    /// No supported root solution was found.
    Absent,
    /// More than one root solution was found.
    Multiple,
    APatch(i32),
    KernelSU(i32),
    Magisk(i32),
}

/// The flag bit that advertises the active root solution, if any.
pub open spec fn spec_root_bit(root: RootImpl) -> u32 {
    match root {
        RootImpl::APatch(_) => PROCESS_ROOT_IS_APATCH,
        RootImpl::KernelSU(_) => PROCESS_ROOT_IS_KSU,
        RootImpl::Magisk(_) => PROCESS_ROOT_IS_MAGISK,
        _ => 0,
    }
}

/// The full flag word for a UID: the root-solution bit, the manager bit
/// when the UID is the root manager's, and the two oracle bits.
pub open spec fn spec_process_flags(
    root: RootImpl,
    uid: u32,
    manager_uid: u32,
    granted_root: bool,
    on_denylist: bool,
) -> u32 {
    spec_root_bit(root) | (if uid == manager_uid {
        PROCESS_IS_MANAGER
    } else {
        0
    }) | (if granted_root {
        PROCESS_GRANTED_ROOT
    } else {
        0
    }) | (if on_denylist {
        PROCESS_ON_DENYLIST
    } else {
        0
    })
}

/// Build the `GetProcessFlags` response word for one UID.
///
/// The `ROOT_IS_*` bits reflect the active [`RootImpl`]; `IS_MANAGER` is set
/// exactly when `uid` equals the root manager's UID; `GRANTED_ROOT` and
/// `ON_DENYLIST` mirror the root layer's per-UID oracles.  All other bits
/// are zero.
pub fn process_flags_for(
    root: RootImpl,
    uid: u32,
    manager_uid: u32,
    granted_root: bool,
    on_denylist: bool,
) -> (r: u32)
    ensures
        r == spec_process_flags(root, uid, manager_uid, granted_root, on_denylist),
{
    let root_bit: u32 = match root {
        RootImpl::APatch(_) => PROCESS_ROOT_IS_APATCH,
        RootImpl::KernelSU(_) => PROCESS_ROOT_IS_KSU,
        RootImpl::Magisk(_) => PROCESS_ROOT_IS_MAGISK,
        _ => 0,
    };
    let manager_bit: u32 = if uid == manager_uid {
        PROCESS_IS_MANAGER
    } else {
        0
    };
    let granted_bit: u32 = if granted_root {
        PROCESS_GRANTED_ROOT
    } else {
        0
    };
    let denylist_bit: u32 = if on_denylist {
        PROCESS_ON_DENYLIST
    } else {
        0
    };
    root_bit | manager_bit | granted_bit | denylist_bit
}

/// The flag word names at most one root solution, and that solution is the
/// daemon's active one: each `ROOT_IS_*` bit is set in the response exactly
/// when the corresponding [`RootImpl`] variant is active, so no two of them
/// can be set together.
pub proof fn lemma_root_bits_exclusive(
    root: RootImpl,
    uid: u32,
    manager_uid: u32,
    granted_root: bool,
    on_denylist: bool,
)
    ensures
        ({
            let r = spec_process_flags(root, uid, manager_uid, granted_root, on_denylist);
            &&& (r & PROCESS_ROOT_IS_APATCH != 0 <==> root matches RootImpl::APatch(_))
            &&& (r & PROCESS_ROOT_IS_KSU != 0 <==> root matches RootImpl::KernelSU(_))
            &&& (r & PROCESS_ROOT_IS_MAGISK != 0 <==> root matches RootImpl::Magisk(_))
        }),
{
    let rb = spec_root_bit(root);
    let mb: u32 = if uid == manager_uid {
        PROCESS_IS_MANAGER
    } else {
        0
    };
    let gb: u32 = if granted_root {
        PROCESS_GRANTED_ROOT
    } else {
        0
    };
    let db: u32 = if on_denylist {
        PROCESS_ON_DENYLIST
    } else {
        0
    };
    assert(rb == 0 || rb == 0x1000_0000u32 || rb == 0x2000_0000u32 || rb == 0x4000_0000u32);
    assert(mb == 0 || mb == 0x0800_0000u32);
    assert(gb == 0 || gb == 1u32);
    assert(db == 0 || db == 2u32);
    assert_by_cases_root(rb, mb, gb, db);
}

/// Bit-level core of [`lemma_root_bits_exclusive`]: with the non-root bits
/// drawn from their own positions, each root bit survives the or exactly
/// when it was the root contribution.
proof fn assert_by_cases_root(rb: u32, mb: u32, gb: u32, db: u32)
    requires
        rb == 0 || rb == 0x1000_0000u32 || rb == 0x2000_0000u32 || rb == 0x4000_0000u32,
        mb == 0 || mb == 0x0800_0000u32,
        gb == 0 || gb == 1u32,
        db == 0 || db == 2u32,
    ensures
        (rb | mb | gb | db) & 0x1000_0000u32 != 0 <==> rb == 0x1000_0000u32,
        (rb | mb | gb | db) & 0x2000_0000u32 != 0 <==> rb == 0x2000_0000u32,
        (rb | mb | gb | db) & 0x4000_0000u32 != 0 <==> rb == 0x4000_0000u32,
{
    assert((rb == 0 || rb == 0x1000_0000u32 || rb == 0x2000_0000u32 || rb == 0x4000_0000u32)
        && (mb == 0 || mb == 0x0800_0000u32) && (gb == 0 || gb == 1u32) && (db == 0 || db == 2u32)
        ==> {
        &&& ((rb | mb | gb | db) & 0x1000_0000u32 != 0 <==> rb == 0x1000_0000u32)
        &&& ((rb | mb | gb | db) & 0x2000_0000u32 != 0 <==> rb == 0x2000_0000u32)
        &&& ((rb | mb | gb | db) & 0x4000_0000u32 != 0 <==> rb == 0x4000_0000u32)
    }) by (bit_vector);
}

} // verus!
