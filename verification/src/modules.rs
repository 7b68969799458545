//! The module catalog.
//!
//! At boot the daemon scans the modules directory, skips entries that are
//! disabled, marked for removal, or lacking a native library for the
//! daemon's ABI, and maps each survivor's library into a sealed anonymous
//! memory file.  The scan and the memory files are the unverified edge's
//! work; this module owns which entries survive and what the `ReadModules`
//! reply says: the catalog's order is stable, and the integer index into
//! it is a module's wire identity for the daemon's whole life.

use vstd::prelude::*;
use crate::stream::{MemStream, UnixStreamExt, spec_word_bytes, spec_string_frame, FD_SENTINEL};
use crate::DaemonError;

verus! {

/// One directory entry of the modules root, as the flags the loader's
/// policy reads: the basename, the disable and remove markers, and whether
/// a native library exists for each ABI.
pub struct ScannedModule {
    pub name: Vec<u8>,
    pub disabled: bool,
    pub marked_remove: bool,
    pub has_lib32: bool,
    pub has_lib64: bool,
}

/// One loaded module: its directory basename and the sealed anonymous
/// memory file holding its library for the daemon's ABI.
pub struct Module {
    pub name: Vec<u8>,
    pub memfd: i32,
}

/// Whether a scanned entry survives the scan for the given ABI: it is not
/// disabled, not marked for removal, and has a library for that ABI.
pub open spec fn spec_eligible(m: ScannedModule, is_64bit: bool) -> bool {
    &&& !m.disabled
    &&& !m.marked_remove
    &&& if is_64bit {
        m.has_lib64
    } else {
        m.has_lib32
    }
}

/// The surviving entries of a scan, in scan order.
pub open spec fn spec_eligible_seq(s: Seq<ScannedModule>, is_64bit: bool) -> Seq<ScannedModule>
    decreases s.len(),
{
    if s.len() == 0 {
        s
    } else {
        let rest = spec_eligible_seq(s.drop_last(), is_64bit);
        if spec_eligible(s.last(), is_64bit) {
            rest.push(s.last())
        } else {
            rest
        }
    }
}

/// Whether one scanned entry survives the scan for the given ABI.
pub fn module_is_eligible(m: &ScannedModule, is_64bit: bool) -> (r: bool)
    ensures
        r == spec_eligible(*m, is_64bit),
{
    !m.disabled && !m.marked_remove && (if is_64bit {
        m.has_lib64
    } else {
        m.has_lib32
    })
}

/// Filter a scan down to the entries the loader will map, in scan order.
/// A per-ABI daemon serves only the modules that have a library for its
/// own ABI.
pub fn eligible_modules(scanned: Vec<ScannedModule>, is_64bit: bool) -> (r: Vec<ScannedModule>)
    ensures
        r@ == spec_eligible_seq(scanned@, is_64bit),
{
    let ghost orig = scanned@;
    let mut src = scanned;
    let mut out: Vec<ScannedModule> = Vec::new();
    proof {
        assert(orig.subrange(0, 0).len() == 0);
        assert(orig.subrange(0, orig.len() as int) =~= orig);
    }
    while src.len() > 0
        invariant
            src@.len() <= orig.len(),
            src@ == orig.subrange(orig.len() - src@.len(), orig.len() as int),
            out@ == spec_eligible_seq(orig.subrange(0, orig.len() - src@.len()), is_64bit),
        decreases src@.len(),
    {
        let ghost j = orig.len() - src@.len();
        let e = src.remove(0);
        proof {
            assert(e == orig[j as int]);
            assert(src@ =~= orig.subrange(orig.len() - src@.len(), orig.len() as int));
            let pref = orig.subrange(0, j as int);
            let pref2 = orig.subrange(0, j as int + 1);
            assert(pref2.drop_last() =~= pref);
            assert(pref2.last() == orig[j as int]);
        }
        if module_is_eligible(&e, is_64bit) {
            out.push(e);
        }
    }
    proof {
        assert(orig.subrange(0, orig.len() as int) =~= orig);
    }
    out
}

/// One module's share of the reply: its name as a length-prefixed string,
/// then the sentinel byte on which its sealed library descriptor rides.
pub open spec fn spec_module_entry(name: Seq<u8>) -> Seq<u8> {
    spec_string_frame(name) + seq![FD_SENTINEL]
}

/// The per-module entries of a catalog, in catalog order.
pub open spec fn spec_module_entries(c: Seq<Module>) -> Seq<u8>
    decreases c.len(),
{
    if c.len() == 0 {
        Seq::empty()
    } else {
        spec_module_entries(c.drop_last()) + spec_module_entry(c.last().name@)
    }
}

/// The byte image of a `ReadModules` reply: the module count as a native
/// word, then, per module in catalog order, its name frame followed by
/// the one sentinel byte that carries that module's memfd as an ancillary
/// file descriptor.
pub open spec fn spec_read_modules_reply(c: Seq<Module>) -> Seq<u8> {
    spec_word_bytes(c.len() as u64) + spec_module_entries(c)
}

/// Write the `ReadModules` reply for a catalog onto a stream.  Each
/// module's name frame is followed by its sentinel byte; the edge must
/// attach the module's memfd to that byte when it ships the stream out.
pub fn write_read_modules_reply(catalog: &Vec<Module>, out: &mut MemStream) -> (r: Result<
    (),
    DaemonError,
>)
    requires
        old(out).stream_wf(),
    ensures
        final(out).stream_wf(),
        final(out).stream_pos() == old(out).stream_pos(),
        r is Ok,
        final(out).stream_data() == old(out).stream_data() + spec_read_modules_reply(catalog@),
{
    match out.write_usize(catalog.len()) {
        Ok(()) => {},
        Err(e) => {
            return Err(e);
        },
    }
    let ghost base = old(out).stream_data() + spec_word_bytes(catalog@.len() as u64);
    proof {
        assert(spec_module_entries(catalog@.subrange(0, 0)).len() == 0);
        assert(out.stream_data() =~= base + spec_module_entries(catalog@.subrange(0, 0)));
    }
    let mut i: usize = 0;
    while i < catalog.len()
        invariant
            0 <= i <= catalog@.len(),
            out.stream_wf(),
            out.stream_pos() == old(out).stream_pos(),
            base == old(out).stream_data() + spec_word_bytes(catalog@.len() as u64),
            out.stream_data() == base + spec_module_entries(catalog@.subrange(0, i as int)),
        decreases catalog@.len() - i,
    {
        match out.write_string(&catalog[i].name) {
            Ok(()) => {},
            Err(e) => {
                return Err(e);
            },
        }
        match out.write_u8(FD_SENTINEL) {
            Ok(()) => {},
            Err(e) => {
                return Err(e);
            },
        }
        proof {
            let pref = catalog@.subrange(0, i as int);
            let pref2 = catalog@.subrange(0, i as int + 1);
            assert(pref2.drop_last() =~= pref);
            assert(pref2.last() == catalog@[i as int]);
            assert(out.stream_data() =~= base + spec_module_entries(pref2));
        }
        i = i + 1;
    }
    proof {
        assert(catalog@.subrange(0, catalog@.len() as int) =~= catalog@);
        assert(out.stream_data() =~= old(out).stream_data() + spec_read_modules_reply(catalog@));
    }
    Ok(())
}

/// The catalog is immutable after boot, so any two successful
/// `ReadModules` replies of one daemon instance are byte-for-byte
/// identical: same count, same (index, name) pairs.
pub proof fn lemma_read_modules_stable(catalog: Seq<Module>, r1: Seq<u8>, r2: Seq<u8>)
    requires
        r1 == spec_read_modules_reply(catalog),
        r2 == spec_read_modules_reply(catalog),
    ensures
        r1 == r2,
{
}

} // verus!
