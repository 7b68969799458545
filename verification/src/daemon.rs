//! The daemon's shared state and per-action decisions.
//!
//! One state value serves every accepted connection: the root probe's
//! verdict, the module catalog (immutable after boot), the write-once
//! namespace cache, and the companion registry.  Each action's decision
//! logic lives here; the unverified edge performs the syscalls the
//! decisions call for and feeds the results back.

use vstd::prelude::*;
use crate::companion::{CompanionRegistry, CompanionStep, spec_obtain_step};
use crate::flags::{RootImpl, spec_process_flags, process_flags_for};
use crate::modules::{Module, spec_read_modules_reply, write_read_modules_reply};
use crate::mount_ns::{MountNamespace, MountNamespaceManager};
use crate::stream::{MemStream, UnixStreamExt};
use crate::DaemonError;

verus! {

/// Everything the dispatcher shares across connections.
pub struct DaemonState {
    /// The active root solution, probed once at startup.
    pub root: RootImpl,
    /// The module catalog, immutable after boot; a module's index in it is
    /// its wire identity.
    pub catalog: Vec<Module>,
    /// The write-once cache of namespace descriptors.
    pub namespaces: MountNamespaceManager,
    /// The per-module companion slots.
    pub companions: CompanionRegistry,
}

impl DaemonState {
    /// The registry tracks exactly the catalog's modules.
    pub open spec fn wf(&self) -> bool {
        &&& self.companions.wf()
        &&& self.companions.spec_len() == self.catalog@.len()
    }

    /// The `GetProcessFlags` response word for one UID, from the daemon's
    /// root verdict and the root layer's per-UID oracles.
    pub fn handle_get_process_flags(
        &self,
        uid: u32,
        manager_uid: u32,
        granted_root: bool,
        on_denylist: bool,
    ) -> (r: u32)
        ensures
            r == spec_process_flags(self.root, uid, manager_uid, granted_root, on_denylist),
    {
        process_flags_for(self.root, uid, manager_uid, granted_root, on_denylist)
    }

    /// Write the `ReadModules` reply for this daemon's catalog: the count,
    /// then per module its name frame and the sentinel byte carrying its
    /// memfd.  The reply is a pure function of the catalog, so every
    /// successful call on one daemon instance produces the same count and
    /// (index, name) pairs.
    pub fn handle_read_modules(&self, out: &mut MemStream) -> (r: Result<(), DaemonError>)
        requires
            old(out).stream_wf(),
        ensures
            final(out).stream_wf(),
            r is Ok,
            final(out).stream_data() == old(out).stream_data() + spec_read_modules_reply(
                self.catalog@,
            ),
    {
        write_read_modules_reply(&self.catalog, out)
    }

    /// Reject a wire module index that lies outside the catalog.
    pub fn check_module_index(&self, module_index: usize) -> (r: Result<(), DaemonError>)
        ensures
            r is Ok <==> module_index < self.catalog@.len(),
            r is Err ==> r == Err::<(), DaemonError>(DaemonError::BadModuleIndex(module_index)),
    {
        if module_index < self.catalog.len() {
            Ok(())
        } else {
            Err(DaemonError::BadModuleIndex(module_index))
        }
    }

    /// What `RequestCompanionSocket` does next for a module: reuse the
    /// cached control socket if the liveness poll found it alive, spawn a
    /// fresh companion otherwise; a bad index is rejected.
    pub fn handle_request_companion_step(&self, module_index: usize, alive: bool) -> (r: Result<
        CompanionStep,
        DaemonError,
    >)
        requires
            self.wf(),
        ensures
            module_index < self.catalog@.len() ==> r == Ok::<CompanionStep, DaemonError>(
                spec_obtain_step(self.companions.spec_sockets()[module_index as int], alive),
            ),
            module_index >= self.catalog@.len() ==> r == Err::<CompanionStep, DaemonError>(
                DaemonError::BadModuleIndex(module_index),
            ),
    {
        match self.check_module_index(module_index) {
            Ok(()) => Ok(self.companions.obtain_companion_step(module_index, alive)),
            Err(e) => Err(e),
        }
    }

    /// `ZygoteRestart`: drop every cached companion socket, touch nothing
    /// else.  The next companion request per module spawns afresh.
    pub fn handle_zygote_restart(&mut self)
        requires
            old(self).wf(),
        ensures
            final(self).wf(),
            final(self).root == old(self).root,
            final(self).catalog == old(self).catalog,
            final(self).namespaces == old(self).namespaces,
            forall|i: int|
                0 <= i < final(self).companions.spec_len()
                    ==> final(self).companions.spec_sockets()[i] is None,
            final(self).companions.spec_spawn_counts()
                == old(self).companions.spec_spawn_counts(),
    {
        self.companions.zygote_restart();
    }

    /// The cached descriptor for a namespace kind, for
    /// `UpdateMountNamespace`: absent means the edge must capture one
    /// first.
    pub fn cached_namespace_fd(&self, namespace_type: MountNamespace) -> (r: Option<i32>)
        ensures
            r == self.namespaces.spec_slot(namespace_type),
    {
        self.namespaces.get_namespace_fd(namespace_type)
    }
}

/// Assemble the daemon's shared state at the end of boot: the probed root
/// verdict and the loaded catalog, an empty namespace cache, and one empty
/// companion slot per module.
pub fn main_daemon_entry(root: RootImpl, catalog: Vec<Module>) -> (r: DaemonState)
    ensures
        r.wf(),
        r.root == root,
        r.catalog == catalog,
        r.namespaces.spec_slot(MountNamespace::Clean) is None,
        r.namespaces.spec_slot(MountNamespace::Root) is None,
        forall|i: int| 0 <= i < catalog@.len() ==> r.companions.spec_sockets()[i] is None,
        forall|i: int| 0 <= i < catalog@.len() ==> r.companions.spec_spawn_counts()[i] == 0,
{
    let n: usize = catalog.len();
    DaemonState {
        root,
        catalog,
        namespaces: MountNamespaceManager::new(),
        companions: CompanionRegistry::new(n),
    }
}

} // verus!
