//! The mount-namespace cache.
//!
//! The daemon keeps two long-lived file-descriptor handles to Linux mount
//! namespaces — the Root namespace as Zygote sees it, and a Clean one with
//! root and module mounts removed.  Capturing a handle (fork, pin, open
//! `/proc/<pid>/ns/mnt`) is the unverified edge's work; this module owns
//! the write-once cache those handles live in: each slot is filled at most
//! once, and every later call observes the first value.

use vstd::prelude::*;
use crate::DaemonError;

verus! {

/// The two mount namespaces the daemon manages.
#[derive(Debug, Eq, PartialEq, Structural, Copy, Clone)]
pub enum MountNamespace {
    /// A namespace with all root-related mounts removed.
    Clean,
    /// The root namespace of the system, as seen by Zygote.
    Root,
}

impl MountNamespace {
    /// Decode the wire byte of a namespace kind: 0 is `Clean`, 1 is `Root`,
    /// everything else is rejected.
    pub fn try_from_u8(value: u8) -> (r: Result<MountNamespace, DaemonError>)
        ensures
            value == 0 ==> r == Ok::<MountNamespace, DaemonError>(MountNamespace::Clean),
            value == 1 ==> r == Ok::<MountNamespace, DaemonError>(MountNamespace::Root),
            value >= 2 ==> r == Err::<MountNamespace, DaemonError>(
                DaemonError::InvalidNamespace(value),
            ),
    {
        match value {
            0 => Ok(MountNamespace::Clean),
            1 => Ok(MountNamespace::Root),
            _ => Err(DaemonError::InvalidNamespace(value)),
        }
    }
}

/// Write-once cache of the namespace file descriptors.
///
/// A slot, once filled, never changes: `save_mount_namespace` hands back
/// the cached descriptor and ignores the fresh one whenever a value is
/// already present.
pub struct MountNamespaceManager {
    clean_mnt_ns_fd: Option<i32>,
    root_mnt_ns_fd: Option<i32>,
}

impl MountNamespaceManager {
    /// The cached descriptor for a namespace kind, if any.
    pub closed spec fn spec_slot(&self, namespace_type: MountNamespace) -> Option<i32> {
        match namespace_type {
            MountNamespace::Clean => self.clean_mnt_ns_fd,
            MountNamespace::Root => self.root_mnt_ns_fd,
        }
    }

    /// The manager and result that storing `fd` into a slot produces: the
    /// cached value wins if present, otherwise the slot is filled with `fd`.
    pub closed spec fn spec_save(self, namespace_type: MountNamespace, fd: i32) -> (
        MountNamespaceManager,
        i32,
    ) {
        match self.spec_slot(namespace_type) {
            Some(cached) => (self, cached),
            None => (
                match namespace_type {
                    MountNamespace::Clean => MountNamespaceManager {
                        clean_mnt_ns_fd: Some(fd),
                        ..self
                    },
                    MountNamespace::Root => MountNamespaceManager {
                        root_mnt_ns_fd: Some(fd),
                        ..self
                    },
                },
                fd,
            ),
        }
    }

    /// A new manager with both slots empty.
    pub fn new() -> (r: MountNamespaceManager)
        ensures
            r.spec_slot(MountNamespace::Clean) is None,
            r.spec_slot(MountNamespace::Root) is None,
    {
        MountNamespaceManager { clean_mnt_ns_fd: None, root_mnt_ns_fd: None }
    }

    /// The cached file descriptor for a namespace kind, if one exists.
    pub fn get_namespace_fd(&self, namespace_type: MountNamespace) -> (r: Option<i32>)
        ensures
            r == self.spec_slot(namespace_type),
    {
        match namespace_type {
            MountNamespace::Clean => self.clean_mnt_ns_fd,
            MountNamespace::Root => self.root_mnt_ns_fd,
        }
    }

    /// Cache a freshly captured namespace descriptor, write-once.
    ///
    /// Returns the descriptor the cache now holds: the previously cached
    /// one if the slot was already filled (the caller should close `fd`),
    /// otherwise `fd` itself, which every later call will observe.
    pub fn save_mount_namespace(&mut self, namespace_type: MountNamespace, fd: i32) -> (r: i32)
        ensures
            (*final(self), r) == old(self).spec_save(namespace_type, fd),
            final(self).spec_slot(namespace_type) == Some(r),
            match old(self).spec_slot(namespace_type) {
                Some(cached) => r == cached && *final(self) == *old(self),
                None => r == fd,
            },
            forall|o: MountNamespace|
                o != namespace_type ==> #[trigger] final(self).spec_slot(o) == old(self).spec_slot(
                    o,
                ),
    {
        match namespace_type {
            MountNamespace::Clean => {
                match self.clean_mnt_ns_fd {
                    Some(cached) => cached,
                    None => {
                        self.clean_mnt_ns_fd = Some(fd);
                        fd
                    },
                }
            },
            MountNamespace::Root => {
                match self.root_mnt_ns_fd {
                    Some(cached) => cached,
                    None => {
                        self.root_mnt_ns_fd = Some(fd);
                        fd
                    },
                }
            },
        }
    }
}

impl Default for MountNamespaceManager {
    /// Same as [`MountNamespaceManager::new`]: both slots empty.
    fn default() -> (r: MountNamespaceManager)
        ensures
            r.spec_slot(MountNamespace::Clean) is None,
            r.spec_slot(MountNamespace::Root) is None,
    {
        MountNamespaceManager { clean_mnt_ns_fd: None, root_mnt_ns_fd: None }
    }
}

/// After the first successful capture for a kind, every caller sees the
/// same descriptor: a second save — whatever fresh descriptor it brings —
/// returns the value of the first and leaves the cache unchanged, and the
/// other slot is never touched.
pub proof fn lemma_namespace_fd_stable(
    m: MountNamespaceManager,
    namespace_type: MountNamespace,
    fd1: i32,
    fd2: i32,
)
    ensures
        ({
            let (m1, r1) = m.spec_save(namespace_type, fd1);
            let (m2, r2) = m1.spec_save(namespace_type, fd2);
            &&& r2 == r1
            &&& m2 == m1
            &&& m1.spec_slot(namespace_type) == Some(r1)
        }),
{
}

/// Saving into one slot leaves the other slot exactly as it was.
pub proof fn lemma_namespace_slots_independent(
    m: MountNamespaceManager,
    namespace_type: MountNamespace,
    other: MountNamespace,
    fd: i32,
)
    requires
        namespace_type != other,
    ensures
        m.spec_save(namespace_type, fd).0.spec_slot(other) == m.spec_slot(other),
{
}

} // verus!
