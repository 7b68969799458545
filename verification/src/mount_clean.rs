//! The mount-cleaning policy for the Clean namespace.
//!
//! Inside a freshly unshared private namespace the daemon enumerates all
//! mount entries and detaches every root- or module-related one.  The
//! enumeration (procfs) and the detaching (lazy unmount) are the
//! unverified edge's work; this module owns the policy: which entries are
//! unmount targets, in which order they are detached (descending mount id,
//! so nested mounts go first), and what remains afterwards.  Cleaning is
//! idempotent: cleaning an already cleaned entry list removes nothing.

use vstd::prelude::*;
use vstd::string::StringSliceAdditionalSpecFns;
use vstd::slice::slice_to_vec;
use crate::flags::RootImpl;

verus! {

/// One mount entry of the capturing child's namespace, as plain values:
/// the mount id, the root of the mount within its filesystem, the mount
/// point, and the source field, each path as its bytes.
pub struct MountEntry {
    pub mnt_id: i32,
    pub root: Vec<u8>,
    pub mount_point: Vec<u8>,
    pub mount_source: Option<Vec<u8>>,
}

/// The bind-source prefix that marks a module mount.
pub open spec fn spec_adb_modules_prefix() -> Seq<u8> {
    "/adb/modules".spec_bytes()
}

/// The mount-point prefix (and exact mount point) of the modules tree.
pub open spec fn spec_data_adb_modules() -> Seq<u8> {
    "/data/adb/modules".spec_bytes()
}

/// The loop-device prefix that backs the modules tree under KernelSU.
pub open spec fn spec_loop_device_prefix() -> Seq<u8> {
    "/dev/block/loop".spec_bytes()
}

/// The source marker each root solution stamps on its own mounts.
pub open spec fn spec_root_marker(root: RootImpl) -> Option<Seq<u8>> {
    match root {
        RootImpl::APatch(_) => Some("APatch".spec_bytes()),
        RootImpl::KernelSU(_) => Some("KSU".spec_bytes()),
        RootImpl::Magisk(_) => Some("magisk".spec_bytes()),
        _ => None,
    }
}

/// Whether an entry is an unmount target, given the active root marker and
/// the loop-device source captured for KernelSU: its bind-source root lies
/// under `/adb/modules`, or its mount point lies under `/data/adb/modules`,
/// or its source equals the root marker, or its source equals the captured
/// loop device.
pub open spec fn spec_is_target(
    e: MountEntry,
    marker: Option<Seq<u8>>,
    ksu_source: Option<Seq<u8>>,
) -> bool {
    ||| spec_adb_modules_prefix().is_prefix_of(e.root@)
    ||| spec_data_adb_modules().is_prefix_of(e.mount_point@)
    ||| (marker is Some && e.mount_source is Some && e.mount_source->0@ == marker->0)
    ||| (ksu_source is Some && e.mount_source is Some && e.mount_source->0@ == ksu_source->0)
}

/// The first entry mounted exactly at the modules tree, if any.
pub open spec fn spec_first_data_modules(s: Seq<MountEntry>) -> Option<MountEntry>
    decreases s.len(),
{
    if s.len() == 0 {
        None
    } else if s[0].mount_point@ == spec_data_adb_modules() {
        Some(s[0])
    } else {
        spec_first_data_modules(s.drop_first())
    }
}

/// The loop-device source that backs the modules tree, captured before
/// iteration and only under KernelSU: the source of the first entry
/// mounted at the modules tree, if that source names a loop device.
pub open spec fn spec_ksu_loop_source(s: Seq<MountEntry>, root: RootImpl) -> Option<Seq<u8>> {
    if root matches RootImpl::KernelSU(_) {
        match spec_first_data_modules(s) {
            Some(e) => match e.mount_source {
                Some(src) => if spec_loop_device_prefix().is_prefix_of(src@) {
                    Some(src@)
                } else {
                    None
                },
                None => None,
            },
            None => None,
        }
    } else {
        None
    }
}

/// The unmount targets of an entry list, in the list's order.
pub open spec fn spec_targets(
    s: Seq<MountEntry>,
    marker: Option<Seq<u8>>,
    ksu_source: Option<Seq<u8>>,
) -> Seq<MountEntry>
    decreases s.len(),
{
    if s.len() == 0 {
        s
    } else {
        let rest = spec_targets(s.drop_last(), marker, ksu_source);
        if spec_is_target(s.last(), marker, ksu_source) {
            rest.push(s.last())
        } else {
            rest
        }
    }
}

/// What remains mounted after one cleaning pass, in the list's order.
pub open spec fn spec_remaining(
    s: Seq<MountEntry>,
    marker: Option<Seq<u8>>,
    ksu_source: Option<Seq<u8>>,
) -> Seq<MountEntry>
    decreases s.len(),
{
    if s.len() == 0 {
        s
    } else {
        let rest = spec_remaining(s.drop_last(), marker, ksu_source);
        if spec_is_target(s.last(), marker, ksu_source) {
            rest
        } else {
            rest.push(s.last())
        }
    }
}

/// One full cleaning pass over an entry list under the active root.
pub open spec fn spec_clean_once(s: Seq<MountEntry>, root: RootImpl) -> Seq<MountEntry> {
    spec_remaining(s, spec_root_marker(root), spec_ksu_loop_source(s, root))
}

/// Targets are detached in descending mount-id order.
pub open spec fn spec_sorted_desc(s: Seq<MountEntry>) -> bool {
    forall|i: int, j: int| 0 <= i < j < s.len() ==> s[i].mnt_id >= s[j].mnt_id
}

/// Bytes of a string literal, as a vector.
fn lit_bytes(s: &str) -> (r: Vec<u8>)
    ensures
        r@ == s.spec_bytes(),
{
    slice_to_vec(s.as_bytes())
}

/// Byte-for-byte copy of a byte vector.
fn copy_bytes(v: &Vec<u8>) -> (r: Vec<u8>)
    ensures
        r@ == v@,
{
    let mut out: Vec<u8> = Vec::new();
    let mut i: usize = 0;
    while i < v.len()
        invariant
            0 <= i <= v@.len(),
            out@ == v@.subrange(0, i as int),
        decreases v@.len() - i,
    {
        out.push(v[i]);
        proof {
            assert(out@ =~= v@.subrange(0, i + 1));
        }
        i = i + 1;
    }
    proof {
        assert(out@ =~= v@);
    }
    out
}

/// Whether two byte vectors hold the same bytes.
fn bytes_eq(a: &Vec<u8>, b: &Vec<u8>) -> (r: bool)
    ensures
        r == (a@ == b@),
{
    if a.len() != b.len() {
        return false;
    }
    let mut i: usize = 0;
    while i < a.len()
        invariant
            0 <= i <= a@.len(),
            a@.len() == b@.len(),
            forall|j: int| 0 <= j < i ==> a@[j] == b@[j],
        decreases a@.len() - i,
    {
        if a[i] != b[i] {
            return false;
        }
        i = i + 1;
    }
    proof {
        assert(a@ =~= b@);
    }
    true
}

/// Whether `prefix` is a prefix of `v`.
fn bytes_starts_with(v: &Vec<u8>, prefix: &Vec<u8>) -> (r: bool)
    ensures
        r == prefix@.is_prefix_of(v@),
{
    if v.len() < prefix.len() {
        return false;
    }
    let mut i: usize = 0;
    while i < prefix.len()
        invariant
            0 <= i <= prefix@.len(),
            prefix@.len() <= v@.len(),
            forall|j: int| 0 <= j < i ==> prefix@[j] == v@[j],
        decreases prefix@.len() - i,
    {
        if prefix[i] != v[i] {
            proof {
                assert(v@.subrange(0, prefix@.len() as int)[i as int] == v@[i as int]);
            }
            return false;
        }
        i = i + 1;
    }
    proof {
        assert(prefix@ =~= v@.subrange(0, prefix@.len() as int));
    }
    true
}

/// The active root's source marker, as bytes.
pub fn root_marker_for(root: &RootImpl) -> (r: Option<Vec<u8>>)
    ensures
        match r {
            Some(v) => spec_root_marker(*root) == Some(v@),
            None => spec_root_marker(*root) is None,
        },
{
    match root {
        RootImpl::APatch(_) => Some(lit_bytes("APatch")),
        RootImpl::KernelSU(_) => Some(lit_bytes("KSU")),
        RootImpl::Magisk(_) => Some(lit_bytes("magisk")),
        _ => None,
    }
}

/// Capture the loop-device source backing the modules tree, for KernelSU.
pub fn find_ksu_module_source(entries: &Vec<MountEntry>, root: &RootImpl) -> (r: Option<Vec<u8>>)
    ensures
        match r {
            Some(v) => spec_ksu_loop_source(entries@, *root) == Some(v@),
            None => spec_ksu_loop_source(entries@, *root) is None,
        },
{
    let is_ksu = match root {
        RootImpl::KernelSU(_) => true,
        _ => false,
    };
    if !is_ksu {
        return None;
    }
    let data_modules = lit_bytes("/data/adb/modules");
    let loop_prefix = lit_bytes("/dev/block/loop");
    proof {
        assert(entries@.subrange(0, entries@.len() as int) =~= entries@);
    }
    let mut i: usize = 0;
    while i < entries.len()
        invariant
            0 <= i <= entries@.len(),
            (*root) matches RootImpl::KernelSU(_),
            data_modules@ == spec_data_adb_modules(),
            loop_prefix@ == spec_loop_device_prefix(),
            spec_first_data_modules(entries@) == spec_first_data_modules(
                entries@.subrange(i as int, entries@.len() as int),
            ),
        decreases entries@.len() - i,
    {
        let ghost pre = entries@.subrange(i as int, entries@.len() as int);
        if bytes_eq(&entries[i].mount_point, &data_modules) {
            proof {
                assert(pre[0] == entries@[i as int]);
                assert(spec_first_data_modules(pre) == Some(pre[0]));
            }
            match &entries[i].mount_source {
                Some(src) => {
                    if bytes_starts_with(src, &loop_prefix) {
                        proof {
                            assert(spec_first_data_modules(entries@) == Some(
                                entries@[i as int],
                            ));
                            assert(entries@[i as int].mount_source == Some(*src));
                            assert(spec_ksu_loop_source(entries@, *root) == Some(src@));
                        }
                        return Some(copy_bytes(src));
                    } else {
                        return None;
                    }
                },
                None => {
                    return None;
                },
            }
        }
        proof {
            assert(pre[0] == entries@[i as int]);
            assert(pre.drop_first() =~= entries@.subrange(i + 1, entries@.len() as int));
        }
        i = i + 1;
    }
    proof {
        assert(entries@.subrange(entries@.len() as int, entries@.len() as int).len() == 0);
    }
    None
}

/// Whether one entry is an unmount target under the given marker and
/// captured loop source.
pub fn is_unmount_target(
    e: &MountEntry,
    marker: &Option<Vec<u8>>,
    ksu_source: &Option<Vec<u8>>,
) -> (r: bool)
    ensures
        r == spec_is_target(
            *e,
            match *marker {
                Some(ref m) => Some(m@),
                None => None,
            },
            match *ksu_source {
                Some(ref k) => Some(k@),
                None => None,
            },
        ),
{
    let adb_modules = lit_bytes("/adb/modules");
    let data_modules = lit_bytes("/data/adb/modules");
    if bytes_starts_with(&e.root, &adb_modules) {
        return true;
    }
    if bytes_starts_with(&e.mount_point, &data_modules) {
        return true;
    }
    match (marker, &e.mount_source) {
        (Some(m), Some(src)) => {
            if bytes_eq(src, m) {
                return true;
            }
        },
        _ => {},
    }
    match (ksu_source, &e.mount_source) {
        (Some(k), Some(src)) => {
            if bytes_eq(src, k) {
                return true;
            }
        },
        _ => {},
    }
    false
}

/// Sort entries by descending mount id, so nested mounts are detached
/// before their parents.
fn sort_desc_by_mnt_id(v: Vec<MountEntry>) -> (r: Vec<MountEntry>)
    ensures
        r@.to_multiset() == v@.to_multiset(),
        spec_sorted_desc(r@),
{
    let ghost orig = v@;
    let mut rest = v;
    let mut out: Vec<MountEntry> = Vec::new();
    proof {
        broadcast use vstd::seq_lib::group_to_multiset_ensures;
        broadcast use vstd::multiset::group_multiset_axioms;

        assert(out@.to_multiset().add(rest@.to_multiset()) =~= orig.to_multiset());
    }
    while rest.len() > 0
        invariant
            out@.to_multiset().add(rest@.to_multiset()) == orig.to_multiset(),
            spec_sorted_desc(out@),
            forall|i: int, j: int|
                0 <= i < out@.len() && 0 <= j < rest@.len() ==> out@[i].mnt_id >= rest@[j].mnt_id,
        decreases rest@.len(),
    {
        let mut mi: usize = 0;
        let mut idx: usize = 1;
        while idx < rest.len()
            invariant
                rest@.len() > 0,
                0 <= mi < rest@.len(),
                1 <= idx <= rest@.len(),
                mi < idx,
                forall|j: int| 0 <= j < idx ==> rest@[mi as int].mnt_id >= rest@[j].mnt_id,
            decreases rest@.len() - idx,
        {
            if rest[idx].mnt_id > rest[mi].mnt_id {
                mi = idx;
            }
            idx = idx + 1;
        }
        let ghost rest_before = rest@;
        let ghost out_before = out@;
        let x = rest.remove(mi);
        out.push(x);
        proof {
            broadcast use vstd::seq_lib::group_to_multiset_ensures;
            broadcast use vstd::multiset::group_multiset_axioms;

            assert(rest@.to_multiset() =~= rest_before.to_multiset().remove(x));
            assert(out@.to_multiset() =~= out_before.to_multiset().insert(x));
            assert(rest_before.to_multiset().count(x) >= 1) by {
                assert(rest_before.contains(x));
            }
            assert(out@.to_multiset().add(rest@.to_multiset()) =~= orig.to_multiset());
            assert(forall|j: int|
                0 <= j < rest@.len() ==> rest_before.contains(#[trigger] rest@[j]));
            assert(forall|j: int| 0 <= j < rest_before.len() ==> x.mnt_id >= rest_before[j].mnt_id);
        }
    }
    out
}

/// Compute one cleaning pass: the unmount targets in descending mount-id
/// order, and the entries that remain mounted afterwards.
///
/// The edge detaches the first list in order; the second is the namespace's
/// mount list after the pass.
pub fn clean_mount_namespace(entries: Vec<MountEntry>, root: &RootImpl) -> (r: (
    Vec<MountEntry>,
    Vec<MountEntry>,
))
    ensures
        ({
            let marker = spec_root_marker(*root);
            let ksu = spec_ksu_loop_source(entries@, *root);
            &&& r.0@.to_multiset() == spec_targets(entries@, marker, ksu).to_multiset()
            &&& spec_sorted_desc(r.0@)
            &&& r.1@ == spec_clean_once(entries@, *root)
        }),
{
    let marker = root_marker_for(root);
    let ksu = find_ksu_module_source(&entries, root);
    let ghost m = spec_root_marker(*root);
    let ghost k = spec_ksu_loop_source(entries@, *root);
    let ghost orig = entries@;
    let mut src = entries;
    let mut targets: Vec<MountEntry> = Vec::new();
    let mut rest: Vec<MountEntry> = Vec::new();
    proof {
        assert(orig.subrange(0, 0).len() == 0);
        assert(orig.subrange(0, orig.len() as int) =~= orig);
    }
    while src.len() > 0
        invariant
            src@.len() <= orig.len(),
            src@ == orig.subrange(orig.len() - src@.len(), orig.len() as int),
            match marker {
                Some(ref v) => m == Some(v@),
                None => m is None,
            },
            match ksu {
                Some(ref v) => k == Some(v@),
                None => k is None,
            },
            targets@ == spec_targets(orig.subrange(0, orig.len() - src@.len()), m, k),
            rest@ == spec_remaining(orig.subrange(0, orig.len() - src@.len()), m, k),
        decreases src@.len(),
    {
        let ghost j = orig.len() - src@.len();
        let e = src.remove(0);
        proof {
            assert(e == orig[j as int]);
            assert(src@ =~= orig.subrange(orig.len() - src@.len(), orig.len() as int));
            let pref = orig.subrange(0, j as int);
            let pref2 = orig.subrange(0, j as int + 1);
            assert(pref2.drop_last() =~= pref);
            assert(pref2.last() == orig[j as int]);
        }
        if is_unmount_target(&e, &marker, &ksu) {
            targets.push(e);
        } else {
            rest.push(e);
        }
    }
    proof {
        assert(orig.subrange(0, orig.len() as int) =~= orig);
    }
    let sorted_targets = sort_desc_by_mnt_id(targets);
    (sorted_targets, rest)
}

/// Nothing that survives a cleaning pass is a target of that pass.
proof fn lemma_remaining_not_target(
    s: Seq<MountEntry>,
    marker: Option<Seq<u8>>,
    ksu_source: Option<Seq<u8>>,
)
    ensures
        forall|i: int|
            0 <= i < spec_remaining(s, marker, ksu_source).len() ==> !spec_is_target(
                #[trigger] spec_remaining(s, marker, ksu_source)[i],
                marker,
                ksu_source,
            ),
    decreases s.len(),
{
    if s.len() > 0 {
        lemma_remaining_not_target(s.drop_last(), marker, ksu_source);
        let rest = spec_remaining(s.drop_last(), marker, ksu_source);
        let r = spec_remaining(s, marker, ksu_source);
        if !spec_is_target(s.last(), marker, ksu_source) {
            assert(r == rest.push(s.last()));
            assert forall|i: int| 0 <= i < r.len() implies !spec_is_target(
                #[trigger] r[i],
                marker,
                ksu_source,
            ) by {
                if i < rest.len() {
                    assert(r[i] == rest[i]);
                } else {
                    assert(r[i] == s.last());
                }
            }
        }
    }
}

/// A pass over a list with no targets keeps the list as it is.
proof fn lemma_remaining_id(
    s: Seq<MountEntry>,
    marker: Option<Seq<u8>>,
    ksu_source: Option<Seq<u8>>,
)
    requires
        forall|i: int| 0 <= i < s.len() ==> !spec_is_target(#[trigger] s[i], marker, ksu_source),
    ensures
        spec_remaining(s, marker, ksu_source) == s,
    decreases s.len(),
{
    if s.len() > 0 {
        assert(forall|i: int|
            0 <= i < s.drop_last().len() ==> !spec_is_target(
                #[trigger] s.drop_last()[i],
                marker,
                ksu_source,
            ));
        lemma_remaining_id(s.drop_last(), marker, ksu_source);
        assert(spec_remaining(s, marker, ksu_source) =~= s);
    }
}

/// A list with no entry mounted at the modules tree yields no first such
/// entry.
proof fn lemma_no_data_modules_none(s: Seq<MountEntry>)
    requires
        forall|i: int| 0 <= i < s.len() ==> (#[trigger] s[i]).mount_point@
            != spec_data_adb_modules(),
    ensures
        spec_first_data_modules(s) is None,
    decreases s.len(),
{
    if s.len() > 0 {
        assert(forall|i: int|
            0 <= i < s.drop_first().len() ==> (#[trigger] s.drop_first()[i]).mount_point@
                != spec_data_adb_modules());
        lemma_no_data_modules_none(s.drop_first());
    }
}

/// Mount cleaning is idempotent: cleaning the mount list a second time,
/// with the loop-device source recaptured from the already-cleaned list,
/// removes nothing more.
pub proof fn lemma_clean_idempotent(s: Seq<MountEntry>, root: RootImpl)
    ensures
        spec_clean_once(spec_clean_once(s, root), root) == spec_clean_once(s, root),
{
    let m = spec_root_marker(root);
    let k1 = spec_ksu_loop_source(s, root);
    let t = spec_remaining(s, m, k1);
    lemma_remaining_not_target(s, m, k1);
    assert forall|i: int| 0 <= i < t.len() implies (#[trigger] t[i]).mount_point@
        != spec_data_adb_modules() by {
        if t[i].mount_point@ == spec_data_adb_modules() {
            assert(spec_data_adb_modules().subrange(0, spec_data_adb_modules().len() as int)
                =~= spec_data_adb_modules());
            assert(spec_data_adb_modules().is_prefix_of(t[i].mount_point@));
        }
    }
    lemma_no_data_modules_none(t);
    let k2 = spec_ksu_loop_source(t, root);
    assert(k2 is None);
    assert forall|i: int| 0 <= i < t.len() implies !spec_is_target(#[trigger] t[i], m, k2) by {
        assert(!spec_is_target(t[i], m, k1));
    }
    lemma_remaining_id(t, m, k2);
}

} // verus!
