//! Tests of the daemon's verified core on concrete values.

use zygiskd::DaemonError;
use zygiskd::action::{
    daemon_set_error_info_code, daemon_set_info_code, zygote_injected_code, DaemonSocketAction,
    SYSTEM_SERVER_STARTED_CODE,
};
use zygiskd::companion::{socket_alive_from_revents, CompanionRegistry, CompanionStep};
use zygiskd::daemon::main_daemon_entry;
use zygiskd::flags::{
    RootImpl, PROCESS_GRANTED_ROOT, PROCESS_IS_MANAGER, PROCESS_ON_DENYLIST,
    PROCESS_ROOT_IS_APATCH, PROCESS_ROOT_IS_KSU, PROCESS_ROOT_IS_MAGISK,
};
use zygiskd::modules::{eligible_modules, module_is_eligible, Module, ScannedModule};
use zygiskd::mount_clean::{clean_mount_namespace, find_ksu_module_source, MountEntry};
use zygiskd::mount_ns::{MountNamespace, MountNamespaceManager};
use zygiskd::stream::{bytes_valid_utf8, MemStream, UnixStreamExt, FD_SENTINEL};

fn entry(
    mnt_id: i32,
    root: &str,
    mount_point: &str,
    mount_source: Option<&str>,
) -> MountEntry {
    MountEntry {
        mnt_id,
        root: root.as_bytes().to_vec(),
        mount_point: mount_point.as_bytes().to_vec(),
        mount_source: mount_source.map(|s| s.as_bytes().to_vec()),
    }
}

#[test]
fn action_bytes_decode_and_encode() {
    let expected = [
        DaemonSocketAction::PingHeartbeat,
        DaemonSocketAction::GetProcessFlags,
        DaemonSocketAction::CacheMountNamespace,
        DaemonSocketAction::UpdateMountNamespace,
        DaemonSocketAction::ReadModules,
        DaemonSocketAction::RequestCompanionSocket,
        DaemonSocketAction::GetModuleDir,
        DaemonSocketAction::ZygoteRestart,
        DaemonSocketAction::SystemServerStarted,
    ];
    for (i, want) in expected.iter().enumerate() {
        let got = DaemonSocketAction::from_u8(i as u8);
        assert_eq!(got, Some(*want));
        assert_eq!(want.as_u8(), i as u8);
    }
}

#[test]
fn controller_codes_differ_by_abi() {
    assert_eq!(zygote_injected_code(true), 4);
    assert_eq!(zygote_injected_code(false), 5);
    assert_eq!(daemon_set_info_code(true), 6);
    assert_eq!(daemon_set_info_code(false), 7);
    assert_eq!(daemon_set_error_info_code(true), 8);
    assert_eq!(daemon_set_error_info_code(false), 9);
    assert_eq!(SYSTEM_SERVER_STARTED_CODE, 10);
}

#[test]
fn malformed_action_byte_is_rejected() {
    // A malformed action byte decodes to nothing; the connection handler
    // then closes that connection and nothing else.
    assert_eq!(DaemonSocketAction::from_u8(0xFF), None);
    assert_eq!(DaemonSocketAction::from_u8(9), None);
    assert_eq!(DaemonSocketAction::from_u8(100), None);
    // A later, well-formed connection still decodes normally.
    assert_eq!(
        DaemonSocketAction::from_u8(0),
        Some(DaemonSocketAction::PingHeartbeat)
    );
}

#[test]
fn manager_uid_flags_under_kernelsu() {
    // Manager UID under KernelSU: manager bit plus the KSU bit, the other
    // root bits clear.
    let state = main_daemon_entry(RootImpl::KernelSU(11000), Vec::new());
    let flags = state.handle_get_process_flags(10100, 10100, false, false);
    assert_eq!(flags & PROCESS_IS_MANAGER, PROCESS_IS_MANAGER);
    assert_eq!(flags & PROCESS_ROOT_IS_KSU, PROCESS_ROOT_IS_KSU);
    assert_eq!(flags & PROCESS_ROOT_IS_APATCH, 0);
    assert_eq!(flags & PROCESS_ROOT_IS_MAGISK, 0);
    assert_eq!(flags & PROCESS_GRANTED_ROOT, 0);
    assert_eq!(flags & PROCESS_ON_DENYLIST, 0);
}

#[test]
fn at_most_one_root_bit_is_set() {
    let roots = [
        RootImpl::Absent,
        RootImpl::Multiple,
        RootImpl::APatch(11011),
        RootImpl::KernelSU(11998),
        RootImpl::Magisk(27000),
    ];
    for root in roots {
        let state = main_daemon_entry(root, Vec::new());
        let flags = state.handle_get_process_flags(5, 10100, true, true);
        let root_bits = [
            flags & PROCESS_ROOT_IS_APATCH != 0,
            flags & PROCESS_ROOT_IS_KSU != 0,
            flags & PROCESS_ROOT_IS_MAGISK != 0,
        ];
        let set = root_bits.iter().filter(|b| **b).count();
        assert!(set <= 1);
        match root {
            RootImpl::APatch(_) => assert!(root_bits[0] && !root_bits[1] && !root_bits[2]),
            RootImpl::KernelSU(_) => assert!(!root_bits[0] && root_bits[1] && !root_bits[2]),
            RootImpl::Magisk(_) => assert!(!root_bits[0] && !root_bits[1] && root_bits[2]),
            _ => assert_eq!(set, 0),
        }
    }
}

#[test]
fn oracle_bits_are_reflected() {
    let state = main_daemon_entry(RootImpl::Magisk(27000), Vec::new());
    let flags = state.handle_get_process_flags(1000, 10100, true, true);
    assert_eq!(flags & PROCESS_GRANTED_ROOT, PROCESS_GRANTED_ROOT);
    assert_eq!(flags & PROCESS_ON_DENYLIST, PROCESS_ON_DENYLIST);
    assert_eq!(flags & PROCESS_IS_MANAGER, 0);
    assert_eq!(flags & PROCESS_ROOT_IS_MAGISK, PROCESS_ROOT_IS_MAGISK);
}

#[test]
fn u32_framing_is_host_order() {
    let mut s = MemStream::new();
    s.write_u32(0x0102_0304).unwrap();
    let bytes = s.into_bytes();
    assert_eq!(bytes, vec![0x04, 0x03, 0x02, 0x01]);
    let mut r = MemStream::from_bytes(bytes);
    assert_eq!(r.read_u32().unwrap(), 0x0102_0304);
}

#[test]
fn u8_and_usize_framing_round_trip() {
    let mut s = MemStream::new();
    s.write_u8(0xAB).unwrap();
    s.write_usize(70000).unwrap();
    let mut r = MemStream::from_bytes(s.into_bytes());
    assert_eq!(r.read_u8().unwrap(), 0xAB);
    assert_eq!(r.read_usize().unwrap(), 70000);
}

#[test]
fn string_frame_is_length_then_bytes() {
    let mut s = MemStream::new();
    s.write_string(&b"alpha".to_vec()).unwrap();
    let bytes = s.into_bytes();
    assert_eq!(bytes[..8], [5, 0, 0, 0, 0, 0, 0, 0]);
    assert_eq!(&bytes[8..], b"alpha");
    let mut r = MemStream::from_bytes(bytes);
    assert_eq!(r.read_string().unwrap(), b"alpha".to_vec());
}

#[test]
fn short_reads_fail_without_consuming() {
    let mut r = MemStream::from_bytes(vec![1, 2]);
    assert_eq!(r.read_u32(), Err(DaemonError::ShortRead));
    // The two bytes are still there.
    assert_eq!(r.read_u8().unwrap(), 1);
    assert_eq!(r.read_u8().unwrap(), 2);
    assert_eq!(r.read_u8(), Err(DaemonError::ShortRead));

    // A string frame whose body is truncated is rejected whole.
    let mut s = MemStream::new();
    s.write_usize(10).unwrap();
    s.write_u8(1).unwrap();
    let mut r = MemStream::from_bytes(s.into_bytes());
    assert_eq!(r.read_string(), Err(DaemonError::ShortRead));
}

#[test]
fn narrow_word_framing_is_four_bytes() {
    // The 32-bit daemon's native word is four bytes.
    let mut s = MemStream::new();
    s.write_usize32(70000).unwrap();
    s.write_string32(&b"alpha".to_vec()).unwrap();
    let bytes = s.into_bytes();
    assert_eq!(bytes[..4], [0x70, 0x11, 0x01, 0x00]);
    assert_eq!(bytes[4..8], [5, 0, 0, 0]);
    assert_eq!(&bytes[8..], b"alpha");
    let mut r = MemStream::from_bytes(bytes);
    assert_eq!(r.read_usize32().unwrap(), 70000);
    assert_eq!(r.read_string32().unwrap(), b"alpha".to_vec());
    assert_eq!(r.read_u8(), Err(DaemonError::ShortRead));

    // Narrow frames reject the same ills: short streams and bad UTF-8.
    let mut r = MemStream::from_bytes(vec![1, 2]);
    assert_eq!(r.read_usize32(), Err(DaemonError::ShortRead));
    let mut s = MemStream::new();
    s.write_string32(&vec![0x66, 0xFF, 0x67]).unwrap();
    let mut r = MemStream::from_bytes(s.into_bytes());
    assert_eq!(r.read_string32(), Err(DaemonError::InvalidUtf8));
    assert_eq!(r.read_usize32().unwrap(), 3);
}

#[test]
fn non_utf8_strings_are_rejected() {
    // A frame whose bytes are not valid UTF-8 decodes to an error, and
    // the stream is left where it was.
    let mut s = MemStream::new();
    s.write_string(&vec![0x66, 0xFF, 0x67]).unwrap();
    let mut r = MemStream::from_bytes(s.into_bytes());
    assert_eq!(r.read_string(), Err(DaemonError::InvalidUtf8));
    assert_eq!(r.read_usize().unwrap(), 3);

    // A lone continuation byte and a truncated sequence are invalid; a
    // well-formed multi-byte sequence round-trips.
    assert!(!bytes_valid_utf8(&vec![0x80]));
    assert!(!bytes_valid_utf8(&vec![0xC3]));
    assert!(!bytes_valid_utf8(&vec![0xE0, 0x80, 0x80]));
    assert!(!bytes_valid_utf8(&vec![0xED, 0xA0, 0x80]));
    assert!(bytes_valid_utf8(&vec![]));
    assert!(bytes_valid_utf8(&"grüße 漢字 🙂".as_bytes().to_vec()));
    let mut s = MemStream::new();
    s.write_string(&"grüße 漢字 🙂".as_bytes().to_vec()).unwrap();
    let mut r = MemStream::from_bytes(s.into_bytes());
    assert_eq!(r.read_string().unwrap(), "grüße 漢字 🙂".as_bytes().to_vec());
}

#[test]
fn read_modules_reply_lists_catalog_in_order() {
    let catalog = vec![
        Module { name: b"alpha".to_vec(), memfd: 10 },
        Module { name: b"beta".to_vec(), memfd: 11 },
    ];
    let state = main_daemon_entry(RootImpl::KernelSU(11998), catalog);
    let mut out = MemStream::new();
    state.handle_read_modules(&mut out).unwrap();
    let mut r = MemStream::from_bytes(out.into_bytes());
    assert_eq!(r.read_usize().unwrap(), 2);
    // Per module: the name frame, then the sentinel byte that carries the
    // module's memfd in the ancillary send.
    assert_eq!(r.read_string().unwrap(), b"alpha".to_vec());
    assert_eq!(r.read_u8().unwrap(), FD_SENTINEL);
    assert_eq!(r.read_string().unwrap(), b"beta".to_vec());
    assert_eq!(r.read_u8().unwrap(), FD_SENTINEL);
    assert_eq!(r.read_u8(), Err(DaemonError::ShortRead));
}

#[test]
fn read_modules_replies_are_identical() {
    let catalog = vec![
        Module { name: b"alpha".to_vec(), memfd: 10 },
        Module { name: b"beta".to_vec(), memfd: 11 },
    ];
    let state = main_daemon_entry(RootImpl::Absent, catalog);
    let mut out1 = MemStream::new();
    let mut out2 = MemStream::new();
    state.handle_read_modules(&mut out1).unwrap();
    state.handle_read_modules(&mut out2).unwrap();
    assert_eq!(out1.into_bytes(), out2.into_bytes());
}

fn scanned(name: &str, disabled: bool, remove: bool, lib32: bool, lib64: bool) -> ScannedModule {
    ScannedModule {
        name: name.as_bytes().to_vec(),
        disabled,
        marked_remove: remove,
        has_lib32: lib32,
        has_lib64: lib64,
    }
}

#[test]
fn scan_skips_disabled_removed_and_missing_abi() {
    assert!(module_is_eligible(&scanned("a", false, false, true, true), true));
    assert!(!module_is_eligible(&scanned("a", true, false, true, true), true));
    assert!(!module_is_eligible(&scanned("a", false, true, true, true), true));
    assert!(!module_is_eligible(&scanned("a", false, false, true, false), true));
    assert!(module_is_eligible(&scanned("a", false, false, true, false), false));
}

#[test]
fn per_abi_scan_keeps_only_matching_modules() {
    // One module lacks its 64-bit library: the 64-bit daemon omits it, the
    // 32-bit daemon serves it.
    let entries = || {
        vec![
            scanned("alpha", false, false, true, true),
            scanned("beta", false, false, true, false),
            scanned("gamma", true, false, true, true),
        ]
    };
    let kept64 = eligible_modules(entries(), true);
    assert_eq!(kept64.len(), 1);
    assert_eq!(kept64[0].name, b"alpha".to_vec());
    let kept32 = eligible_modules(entries(), false);
    assert_eq!(kept32.len(), 2);
    assert_eq!(kept32[0].name, b"alpha".to_vec());
    assert_eq!(kept32[1].name, b"beta".to_vec());
}

#[test]
fn namespace_byte_decodes() {
    assert_eq!(MountNamespace::try_from_u8(0), Ok(MountNamespace::Clean));
    assert_eq!(MountNamespace::try_from_u8(1), Ok(MountNamespace::Root));
    assert_eq!(
        MountNamespace::try_from_u8(7),
        Err(DaemonError::InvalidNamespace(7))
    );
}

#[test]
fn namespace_cache_is_write_once() {
    let mut m = MountNamespaceManager::new();
    assert_eq!(m.get_namespace_fd(MountNamespace::Root), None);
    assert_eq!(m.get_namespace_fd(MountNamespace::Clean), None);
    // First capture fills the slot.
    assert_eq!(m.save_mount_namespace(MountNamespace::Root, 42), 42);
    // A second capture, whatever descriptor it brings, yields the first.
    assert_eq!(m.save_mount_namespace(MountNamespace::Root, 99), 42);
    assert_eq!(m.get_namespace_fd(MountNamespace::Root), Some(42));
    // The other slot is untouched and independent.
    assert_eq!(m.get_namespace_fd(MountNamespace::Clean), None);
    assert_eq!(m.save_mount_namespace(MountNamespace::Clean, 7), 7);
    assert_eq!(m.get_namespace_fd(MountNamespace::Root), Some(42));
    assert_eq!(m.get_namespace_fd(MountNamespace::Clean), Some(7));
}

#[test]
fn companion_slots_reuse_and_respawn() {
    let mut reg = CompanionRegistry::new(2);
    assert_eq!(reg.cached_companion(0), None);
    assert_eq!(reg.obtain_companion_step(0, true), CompanionStep::Spawn);
    reg.store_companion(0, 7);
    assert_eq!(reg.cached_companion(0), Some(7));
    assert_eq!(reg.obtain_companion_step(0, true), CompanionStep::UseCached(7));
    // A dead socket forces a fresh spawn.
    assert_eq!(reg.obtain_companion_step(0, false), CompanionStep::Spawn);
    reg.clear_companion(0);
    assert_eq!(reg.cached_companion(0), None);
    assert_eq!(reg.obtain_companion_step(0, true), CompanionStep::Spawn);
}

#[test]
fn zygote_restart_forces_fresh_companions() {
    let mut state = main_daemon_entry(
        RootImpl::Magisk(27000),
        vec![
            Module { name: b"alpha".to_vec(), memfd: 10 },
            Module { name: b"beta".to_vec(), memfd: 11 },
        ],
    );
    state.companions.store_companion(0, 5);
    state.companions.store_companion(1, 6);
    assert_eq!(
        state.handle_request_companion_step(0, true),
        Ok(CompanionStep::UseCached(5))
    );
    state.handle_zygote_restart();
    // Every slot is empty now: the next request per module spawns anew.
    assert_eq!(state.handle_request_companion_step(0, true), Ok(CompanionStep::Spawn));
    assert_eq!(state.handle_request_companion_step(1, false), Ok(CompanionStep::Spawn));
}

#[test]
fn bad_module_index_is_rejected() {
    let state = main_daemon_entry(
        RootImpl::Absent,
        vec![Module { name: b"alpha".to_vec(), memfd: 10 }],
    );
    assert_eq!(state.check_module_index(0), Ok(()));
    assert_eq!(
        state.check_module_index(1),
        Err(DaemonError::BadModuleIndex(1))
    );
    assert_eq!(
        state.handle_request_companion_step(3, true),
        Err(DaemonError::BadModuleIndex(3))
    );
}

const POLLIN: u16 = 0x0001;
const POLLERR: u16 = 0x0008;
const POLLHUP: u16 = 0x0010;
const POLLNVAL: u16 = 0x0020;

#[test]
fn socket_liveness_from_poll_bits() {
    assert!(socket_alive_from_revents(0));
    assert!(socket_alive_from_revents(POLLIN));
    assert!(!socket_alive_from_revents(POLLHUP));
    assert!(!socket_alive_from_revents(POLLERR));
    assert!(!socket_alive_from_revents(POLLNVAL));
    assert!(!socket_alive_from_revents(POLLIN | POLLHUP));
}

#[test]
fn ksu_loop_source_is_captured() {
    let entries = vec![
        entry(1, "/", "/", Some("/dev/block/dm-0")),
        entry(5, "/", "/data/adb/modules", Some("/dev/block/loop3")),
    ];
    let src = find_ksu_module_source(&entries, &RootImpl::KernelSU(11998));
    assert_eq!(src, Some(b"/dev/block/loop3".to_vec()));
    // Only KernelSU captures a loop source.
    assert_eq!(find_ksu_module_source(&entries, &RootImpl::Magisk(27000)), None);
    // A non-loop source is not captured.
    let other = vec![entry(5, "/", "/data/adb/modules", Some("/dev/block/dm-1"))];
    assert_eq!(find_ksu_module_source(&other, &RootImpl::KernelSU(11998)), None);
}

#[test]
fn mount_cleaning_selects_and_orders_targets() {
    let entries = vec![
        entry(1, "/", "/", Some("/dev/block/dm-0")),
        entry(5, "/", "/data/adb/modules", Some("/dev/block/loop3")),
        entry(9, "/adb/modules/x", "/system/etc/hosts", Some("/dev/block/dm-2")),
        entry(7, "/", "/data/adb/modules/foo", Some("tmpfs")),
        entry(3, "/", "/debug_ramdisk", Some("KSU")),
        entry(4, "/", "/mnt/vendor", Some("/dev/block/loop3")),
    ];
    let (targets, remaining) = clean_mount_namespace(entries, &RootImpl::KernelSU(11998));
    // Descending mount id: nested mounts are detached first.
    let ids: Vec<i32> = targets.iter().map(|e| e.mnt_id).collect();
    assert_eq!(ids, vec![9, 7, 5, 4, 3]);
    assert_eq!(remaining.len(), 1);
    assert_eq!(remaining[0].mnt_id, 1);
}

#[test]
fn mount_cleaning_without_root_marker_keeps_marker_mounts() {
    let entries = vec![
        entry(3, "/", "/debug_ramdisk", Some("magisk")),
        entry(7, "/", "/data/adb/modules/foo", Some("tmpfs")),
    ];
    // With no active root solution only the path rules apply.
    let (targets, remaining) = clean_mount_namespace(entries, &RootImpl::Absent);
    assert_eq!(targets.len(), 1);
    assert_eq!(targets[0].mnt_id, 7);
    assert_eq!(remaining.len(), 1);
    assert_eq!(remaining[0].mnt_id, 3);
}

#[test]
fn mount_cleaning_is_idempotent_on_concrete_entries() {
    let entries = vec![
        entry(1, "/", "/", Some("/dev/block/dm-0")),
        entry(5, "/", "/data/adb/modules", Some("/dev/block/loop3")),
        entry(7, "/", "/data/adb/modules/foo", Some("tmpfs")),
        entry(2, "/", "/mnt/vendor", Some("/dev/block/loop3")),
        entry(3, "/", "/debug_ramdisk", Some("KSU")),
    ];
    let root = RootImpl::KernelSU(11998);
    let (_, once) = clean_mount_namespace(entries, &root);
    let once_ids: Vec<i32> = once.iter().map(|e| e.mnt_id).collect();
    let (second_targets, twice) = clean_mount_namespace(once, &root);
    // The second pass finds nothing to detach and changes nothing.
    assert_eq!(second_targets.len(), 0);
    let twice_ids: Vec<i32> = twice.iter().map(|e| e.mnt_id).collect();
    assert_eq!(once_ids, twice_ids);
}

#[test]
fn magisk_marker_mounts_are_targets() {
    let entries = vec![
        entry(3, "/", "/debug_ramdisk", Some("magisk")),
        entry(1, "/", "/", Some("/dev/block/dm-0")),
    ];
    let (targets, remaining) = clean_mount_namespace(entries, &RootImpl::Magisk(27000));
    assert_eq!(targets.len(), 1);
    assert_eq!(targets[0].mnt_id, 3);
    assert_eq!(remaining.len(), 1);
    assert_eq!(remaining[0].mnt_id, 1);
}

#[test]
fn word_overflow_error_exists_only_on_narrow_words() {
    // On a 64-bit host every 8-byte word fits in usize, so decoding the
    // largest word succeeds there.
    let mut s = MemStream::new();
    s.write_usize(usize::MAX).unwrap();
    let mut r = MemStream::from_bytes(s.into_bytes());
    assert_eq!(r.read_usize().unwrap(), usize::MAX);
}
