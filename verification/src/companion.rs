//! The companion registry.
//!
//! Each module may have one long-lived companion process; the daemon keeps
//! at most one connected control socket per module and spawns a companion
//! only when no live socket is cached.  Spawning, the handshake and the
//! liveness poll are the unverified edge's work; this module owns the
//! per-module slot discipline: when a cached socket is reused, when a
//! fresh spawn is forced, and that a Zygote restart clears every slot so
//! the next request per module spawns anew.

use vstd::prelude::*;

verus! {

/// What `obtain_companion` does next for a module: hand back the cached
/// control socket, or spawn a fresh companion.
#[derive(Debug, Eq, PartialEq, Structural, Copy, Clone)]
pub enum CompanionStep {
    /// Reuse this cached, still-live control socket.
    UseCached(i32),
    /// No usable socket is cached: spawn a fresh companion.
    Spawn,
}

/// The next step given one module's slot and the liveness poll's verdict
/// on whatever socket it holds: a cached live socket is reused; a dead or
/// missing one forces a spawn.
pub open spec fn spec_obtain_step(slot: Option<i32>, alive: bool) -> CompanionStep {
    match slot {
        Some(fd) => if alive {
            CompanionStep::UseCached(fd)
        } else {
            CompanionStep::Spawn
        },
        None => CompanionStep::Spawn,
    }
}

/// The poll bit that signals readable data.
pub const POLLIN_BIT: u16 = 0x0001;

/// The liveness verdict on a cached socket, from the revents word of a
/// non-blocking readability poll: the socket is alive exactly when no
/// condition beyond readable data is reported — a hang-up, error or
/// invalid-descriptor bit marks it dead, while an idle socket with no
/// pending data is alive.
pub fn socket_alive_from_revents(revents: u16) -> (r: bool)
    ensures
        r <==> (revents == 0 || revents == POLLIN_BIT),
{
    proof {
        assert((revents & (!0x0001u16) == 0) <==> (revents == 0 || revents == 0x0001u16))
            by (bit_vector);
    }
    revents & (!POLLIN_BIT) == 0
}

/// Per-module companion slots: the cached control socket, if any, and a
/// spawn counter for diagnostics.
pub struct CompanionRegistry {
    sockets: Vec<Option<i32>>,
    spawn_counts: Vec<u64>,
}

impl CompanionRegistry {
    /// The cached control sockets, one slot per module index.
    pub closed spec fn spec_sockets(&self) -> Seq<Option<i32>> {
        self.sockets@
    }

    /// How many companions have been spawned per module.
    pub closed spec fn spec_spawn_counts(&self) -> Seq<u64> {
        self.spawn_counts@
    }

    /// One slot and one counter per module.
    pub open spec fn wf(&self) -> bool {
        self.spec_sockets().len() == self.spec_spawn_counts().len()
    }

    /// The number of modules the registry tracks.
    pub open spec fn spec_len(&self) -> int {
        self.spec_sockets().len() as int
    }

    /// A registry for `n` modules, every slot empty.
    pub fn new(n: usize) -> (r: CompanionRegistry)
        ensures
            r.wf(),
            r.spec_len() == n,
            forall|i: int| 0 <= i < n ==> r.spec_sockets()[i] is None,
            forall|i: int| 0 <= i < n ==> r.spec_spawn_counts()[i] == 0,
    {
        let mut sockets: Vec<Option<i32>> = Vec::new();
        let mut spawn_counts: Vec<u64> = Vec::new();
        let mut i: usize = 0;
        while i < n
            invariant
                sockets@.len() == i <= n,
                spawn_counts@.len() == i,
                forall|j: int| 0 <= j < i ==> sockets@[j] is None,
                forall|j: int| 0 <= j < i ==> spawn_counts@[j] == 0,
            decreases n - i,
        {
            sockets.push(None);
            spawn_counts.push(0);
            i = i + 1;
        }
        CompanionRegistry { sockets, spawn_counts }
    }

    /// The number of modules the registry tracks.
    pub fn len(&self) -> (r: usize)
        ensures
            r == self.spec_len(),
    {
        self.sockets.len()
    }

    /// The cached control socket for a module, if any.
    pub fn cached_companion(&self, module_index: usize) -> (r: Option<i32>)
        requires
            0 <= module_index < self.spec_len(),
        ensures
            r == self.spec_sockets()[module_index as int],
    {
        self.sockets[module_index]
    }

    /// What to do for a companion request, given the liveness poll's
    /// verdict on the cached socket (the verdict is ignored when no socket
    /// is cached).
    pub fn obtain_companion_step(&self, module_index: usize, alive: bool) -> (r: CompanionStep)
        requires
            0 <= module_index < self.spec_len(),
        ensures
            r == spec_obtain_step(self.spec_sockets()[module_index as int], alive),
    {
        match self.sockets[module_index] {
            Some(fd) => if alive {
                CompanionStep::UseCached(fd)
            } else {
                CompanionStep::Spawn
            },
            None => CompanionStep::Spawn,
        }
    }

    /// Drop a module's cached socket (it was found dead, or the spawn's
    /// handshake failed).  The spawn counter is untouched.
    pub fn clear_companion(&mut self, module_index: usize)
        requires
            old(self).wf(),
            0 <= module_index < old(self).spec_len(),
        ensures
            final(self).wf(),
            final(self).spec_sockets() == old(self).spec_sockets().update(
                module_index as int,
                None::<i32>,
            ),
            final(self).spec_spawn_counts() == old(self).spec_spawn_counts(),
    {
        self.sockets.set(module_index, None);
    }

    /// Cache the control socket of a freshly spawned, accepted companion
    /// and count the spawn.
    pub fn store_companion(&mut self, module_index: usize, fd: i32)
        requires
            old(self).wf(),
            0 <= module_index < old(self).spec_len(),
        ensures
            final(self).wf(),
            final(self).spec_sockets() == old(self).spec_sockets().update(
                module_index as int,
                Some(fd),
            ),
            final(self).spec_spawn_counts()[module_index as int] == (if old(
                self,
            ).spec_spawn_counts()[module_index as int] < u64::MAX {
                old(self).spec_spawn_counts()[module_index as int] + 1
            } else {
                old(self).spec_spawn_counts()[module_index as int] as int
            }),
            forall|i: int|
                0 <= i < old(self).spec_len() && i != module_index
                    ==> final(self).spec_spawn_counts()[i] == old(self).spec_spawn_counts()[i],
    {
        self.sockets.set(module_index, Some(fd));
        let c: u64 = self.spawn_counts[module_index];
        if c < u64::MAX {
            self.spawn_counts.set(module_index, c + 1);
        }
    }

    /// Zygote restarted: every cached companion socket is dropped (the
    /// companion processes themselves are not killed), so the next request
    /// per module spawns a fresh companion.
    pub fn zygote_restart(&mut self)
        requires
            old(self).wf(),
        ensures
            final(self).wf(),
            final(self).spec_len() == old(self).spec_len(),
            forall|i: int| 0 <= i < final(self).spec_len() ==> final(self).spec_sockets()[i] is None,
            final(self).spec_spawn_counts() == old(self).spec_spawn_counts(),
    {
        let n: usize = self.sockets.len();
        let mut i: usize = 0;
        while i < n
            invariant
                self.wf(),
                self.spec_len() == n,
                0 <= i <= n,
                forall|j: int| 0 <= j < i ==> self.spec_sockets()[j] is None,
                self.spec_spawn_counts() == old(self).spec_spawn_counts(),
            decreases n - i,
        {
            self.sockets.set(i, None);
            i = i + 1;
        }
    }
}

/// After `ZygoteRestart` every slot is empty, so the next companion
/// request for any module — whatever the liveness poll would say — takes
/// the spawn path and opens a fresh companion socket.
pub proof fn lemma_restart_forces_fresh_spawn(
    slots: Seq<Option<i32>>,
    module_index: int,
    alive: bool,
)
    requires
        0 <= module_index < slots.len(),
        forall|i: int| 0 <= i < slots.len() ==> slots[i] is None,
    ensures
        spec_obtain_step(slots[module_index], alive) == CompanionStep::Spawn,
{
}

} // verus!
