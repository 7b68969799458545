//! Length-prefixed framing over a byte stream.
//!
//! The daemon and the injected library exchange unsigned 8-bit, 32-bit and
//! native-width integers in host byte order, and length-prefixed strings.
//! Both peers are same-architecture processes on one little-endian device,
//! so host order is least-significant byte first; the verified model fixes
//! that order.  The native word is eight bytes on the 64-bit daemon and
//! four on the 32-bit one: each word and string operation exists at both
//! widths, and the edge picks its build's width.
//!
//! [`MemStream`] is the verified in-memory stream the framing is proved
//! over: writes append to a buffer, reads consume it from a cursor.  The
//! unverified edge moves those buffers to and from the real socket.

use vstd::prelude::*;
use crate::DaemonError;

verus! {

/// Host-order encoding of a 32-bit integer, least-significant byte first.
pub open spec fn spec_u32_bytes(v: u32) -> Seq<u8> {
    seq![
        (v % 256) as u8,
        ((v / 256) % 256) as u8,
        ((v / 65536) % 256) as u8,
        ((v / 16777216) % 256) as u8,
    ]
}

/// The 32-bit integer encoded by four host-order bytes.
pub open spec fn spec_u32_of(b: Seq<u8>) -> u32
    recommends
        b.len() == 4,
{
    (b[0] + b[1] * 256 + b[2] * 65536 + b[3] * 16777216) as u32
}

/// Host-order encoding of a native-width word, least-significant byte first.
pub open spec fn spec_word_bytes(v: u64) -> Seq<u8> {
    seq![
        (v % 256) as u8,
        ((v / 256) % 256) as u8,
        ((v / 65536) % 256) as u8,
        ((v / 16777216) % 256) as u8,
        ((v / 4294967296) % 256) as u8,
        ((v / 1099511627776) % 256) as u8,
        ((v / 281474976710656) % 256) as u8,
        ((v / 72057594037927936) % 256) as u8,
    ]
}

/// The native-width word encoded by eight host-order bytes.
pub open spec fn spec_word_of(b: Seq<u8>) -> u64
    recommends
        b.len() == 8,
{
    (b[0] + b[1] * 256 + b[2] * 65536 + b[3] * 16777216 + b[4] * 4294967296 + b[5]
        * 1099511627776 + b[6] * 281474976710656 + b[7] * 72057594037927936) as u64
}

/// A length-prefixed string frame: the byte length as a native word, then
/// the bytes themselves, with no terminator.
pub open spec fn spec_string_frame(s: Seq<u8>) -> Seq<u8> {
    spec_word_bytes(s.len() as u64) + s
}

/// The 32-bit daemon's string frame: its native word is four bytes, so
/// the length prefix is the 32-bit encoding.
pub open spec fn spec_string_frame32(s: Seq<u8>) -> Seq<u8> {
    spec_u32_bytes(s.len() as u32) + s
}

/// Decoding undoes encoding for 32-bit integers.
pub proof fn lemma_u32_round_trip(v: u32)
    ensures
        spec_u32_of(spec_u32_bytes(v)) == v,
{
    assert(v % 256 + (v / 256) % 256 * 256 + (v / 65536) % 256 * 65536 + (v / 16777216) % 256
        * 16777216 == v) by (bit_vector);
}

/// Decoding undoes encoding for native-width words.
pub proof fn lemma_word_round_trip(v: u64)
    ensures
        spec_word_of(spec_word_bytes(v)) == v,
{
    assert(v % 256 + (v / 256) % 256 * 256 + (v / 65536) % 256 * 65536 + (v / 16777216) % 256
        * 16777216 + (v / 4294967296) % 256 * 4294967296 + (v / 1099511627776) % 256
        * 1099511627776 + (v / 281474976710656) % 256 * 281474976710656 + (v
        / 72057594037927936) % 256 * 72057594037927936 == v) by (bit_vector);
}

/// The sentinel byte that accompanies a passed file descriptor: the
/// ancillary-data send carries exactly one descriptor alongside this one
/// byte of the stream.
pub const FD_SENTINEL: u8 = 1;

/// Whether a byte is a UTF-8 continuation byte.
pub open spec fn spec_is_cont(b: u8) -> bool {
    0x80 <= b <= 0xBF
}

/// Whether a byte sequence is valid UTF-8: ASCII bytes stand alone,
/// longer sequences carry the right continuation bytes, and overlong
/// forms, surrogates and values beyond the last code point are excluded.
pub open spec fn spec_valid_utf8(s: Seq<u8>) -> bool
    decreases s.len(),
{
    if s.len() == 0 {
        true
    } else {
        let b0 = s[0];
        if b0 <= 0x7F {
            spec_valid_utf8(s.skip(1))
        } else if 0xC2 <= b0 && b0 <= 0xDF {
            s.len() >= 2 && spec_is_cont(s[1]) && spec_valid_utf8(s.skip(2))
        } else if b0 == 0xE0 {
            s.len() >= 3 && 0xA0 <= s[1] && s[1] <= 0xBF && spec_is_cont(s[2]) && spec_valid_utf8(
                s.skip(3),
            )
        } else if 0xE1 <= b0 && b0 <= 0xEC {
            s.len() >= 3 && spec_is_cont(s[1]) && spec_is_cont(s[2]) && spec_valid_utf8(s.skip(3))
        } else if b0 == 0xED {
            s.len() >= 3 && 0x80 <= s[1] && s[1] <= 0x9F && spec_is_cont(s[2]) && spec_valid_utf8(
                s.skip(3),
            )
        } else if 0xEE <= b0 && b0 <= 0xEF {
            s.len() >= 3 && spec_is_cont(s[1]) && spec_is_cont(s[2]) && spec_valid_utf8(s.skip(3))
        } else if b0 == 0xF0 {
            s.len() >= 4 && 0x90 <= s[1] && s[1] <= 0xBF && spec_is_cont(s[2]) && spec_is_cont(
                s[3],
            ) && spec_valid_utf8(s.skip(4))
        } else if 0xF1 <= b0 && b0 <= 0xF3 {
            s.len() >= 4 && spec_is_cont(s[1]) && spec_is_cont(s[2]) && spec_is_cont(s[3])
                && spec_valid_utf8(s.skip(4))
        } else if b0 == 0xF4 {
            s.len() >= 4 && 0x80 <= s[1] && s[1] <= 0x8F && spec_is_cont(s[2]) && spec_is_cont(
                s[3],
            ) && spec_valid_utf8(s.skip(4))
        } else {
            false
        }
    }
}

/// Whether a byte is a UTF-8 continuation byte.
fn is_cont(b: u8) -> (r: bool)
    ensures
        r == spec_is_cont(b),
{
    0x80 <= b && b <= 0xBF
}

/// Whether a byte vector holds valid UTF-8.
pub fn bytes_valid_utf8(v: &Vec<u8>) -> (r: bool)
    ensures
        r == spec_valid_utf8(v@),
{
    let n: usize = v.len();
    let mut i: usize = 0;
    proof {
        assert(v@.skip(0) =~= v@);
    }
    while i < n
        invariant
            0 <= i <= n,
            n == v@.len(),
            spec_valid_utf8(v@) == spec_valid_utf8(v@.skip(i as int)),
        decreases n - i,
    {
        let ghost rest = v@.skip(i as int);
        proof {
            assert(rest.len() == n - i);
            assert(forall|j: int| 0 <= j < rest.len() ==> rest[j] == v@[i + j]);
        }
        let b0: u8 = v[i];
        let rem: usize = n - i;
        let step: usize;
        if b0 <= 0x7F {
            step = 1;
        } else if 0xC2 <= b0 && b0 <= 0xDF {
            if rem < 2 || !is_cont(v[i + 1]) {
                return false;
            }
            step = 2;
        } else if b0 == 0xE0 {
            if rem < 3 || !(0xA0 <= v[i + 1] && v[i + 1] <= 0xBF) || !is_cont(v[i + 2]) {
                return false;
            }
            step = 3;
        } else if 0xE1 <= b0 && b0 <= 0xEC {
            if rem < 3 || !is_cont(v[i + 1]) || !is_cont(v[i + 2]) {
                return false;
            }
            step = 3;
        } else if b0 == 0xED {
            if rem < 3 || !(0x80 <= v[i + 1] && v[i + 1] <= 0x9F) || !is_cont(v[i + 2]) {
                return false;
            }
            step = 3;
        } else if 0xEE <= b0 && b0 <= 0xEF {
            if rem < 3 || !is_cont(v[i + 1]) || !is_cont(v[i + 2]) {
                return false;
            }
            step = 3;
        } else if b0 == 0xF0 {
            if rem < 4 || !(0x90 <= v[i + 1] && v[i + 1] <= 0xBF) || !is_cont(v[i + 2])
                || !is_cont(v[i + 3]) {
                return false;
            }
            step = 4;
        } else if 0xF1 <= b0 && b0 <= 0xF3 {
            if rem < 4 || !is_cont(v[i + 1]) || !is_cont(v[i + 2]) || !is_cont(v[i + 3]) {
                return false;
            }
            step = 4;
        } else if b0 == 0xF4 {
            if rem < 4 || !(0x80 <= v[i + 1] && v[i + 1] <= 0x8F) || !is_cont(v[i + 2])
                || !is_cont(v[i + 3]) {
                return false;
            }
            step = 4;
        } else {
            return false;
        }
        proof {
            assert(rest.skip(step as int) =~= v@.skip(i + step));
        }
        i = i + step;
    }
    proof {
        assert(v@.skip(n as int) =~= Seq::<u8>::empty());
    }
    true
}

/// An in-memory byte stream: writes append to `data`, reads consume it
/// from the cursor `pos`.
pub struct MemStream {
    data: Vec<u8>,
    pos: usize,
}

impl MemStream {
    /// The whole buffer, written and read parts alike.
    pub closed spec fn spec_data(&self) -> Seq<u8> {
        self.data@
    }

    /// How many bytes of the buffer have been consumed by reads.
    pub closed spec fn spec_pos(&self) -> int {
        self.pos as int
    }

    /// The cursor never passes the end of the buffer.
    pub open spec fn wf(&self) -> bool {
        0 <= self.spec_pos() <= self.spec_data().len()
    }

    /// An empty stream, ready for writing.
    pub fn new() -> (r: MemStream)
        ensures
            r.wf(),
            r.spec_data() == Seq::<u8>::empty(),
            r.spec_pos() == 0,
    {
        MemStream { data: Vec::new(), pos: 0 }
    }

    /// A stream positioned at the start of `data`, ready for reading.
    pub fn from_bytes(data: Vec<u8>) -> (r: MemStream)
        ensures
            r.wf(),
            r.spec_data() == data@,
            r.spec_pos() == 0,
    {
        MemStream { data, pos: 0 }
    }

    /// Surrender the underlying buffer, for the edge to ship out.
    pub fn into_bytes(self) -> (r: Vec<u8>)
        ensures
            r@ == self.spec_data(),
    {
        self.data
    }
}

/// Reading and writing the daemon's wire primitives on a byte stream.
///
/// Every read either consumes exactly the encoding of one value or fails
/// with the stream unchanged; every successful write appends exactly the
/// encoding of its value and touches nothing already in the stream.
pub trait UnixStreamExt: Sized {
    /// The stream's buffered bytes.
    spec fn stream_data(&self) -> Seq<u8>;

    /// The read cursor into the buffered bytes.
    spec fn stream_pos(&self) -> int;

    /// The stream's well-formedness.
    spec fn stream_wf(&self) -> bool;

    fn read_u8(&mut self) -> (r: Result<u8, DaemonError>)
        requires
            old(self).stream_wf(),
        ensures
            final(self).stream_wf(),
            final(self).stream_data() == old(self).stream_data(),
            match r {
                Ok(v) => {
                    &&& old(self).stream_pos() + 1 <= old(self).stream_data().len()
                    &&& v == old(self).stream_data()[old(self).stream_pos()]
                    &&& final(self).stream_pos() == old(self).stream_pos() + 1
                },
                Err(e) => {
                    &&& e == DaemonError::ShortRead
                    &&& old(self).stream_pos() + 1 > old(self).stream_data().len()
                    &&& final(self).stream_pos() == old(self).stream_pos()
                },
            },
    ;

    fn read_u32(&mut self) -> (r: Result<u32, DaemonError>)
        requires
            old(self).stream_wf(),
        ensures
            final(self).stream_wf(),
            final(self).stream_data() == old(self).stream_data(),
            match r {
                Ok(v) => {
                    &&& old(self).stream_pos() + 4 <= old(self).stream_data().len()
                    &&& v == spec_u32_of(
                        old(self).stream_data().subrange(
                            old(self).stream_pos(),
                            old(self).stream_pos() + 4,
                        ),
                    )
                    &&& final(self).stream_pos() == old(self).stream_pos() + 4
                },
                Err(e) => {
                    &&& e == DaemonError::ShortRead
                    &&& old(self).stream_pos() + 4 > old(self).stream_data().len()
                    &&& final(self).stream_pos() == old(self).stream_pos()
                },
            },
    ;

    fn read_usize(&mut self) -> (r: Result<usize, DaemonError>)
        requires
            old(self).stream_wf(),
        ensures
            final(self).stream_wf(),
            final(self).stream_data() == old(self).stream_data(),
            match r {
                Ok(v) => {
                    &&& old(self).stream_pos() + 8 <= old(self).stream_data().len()
                    &&& v as u64 == spec_word_of(
                        old(self).stream_data().subrange(
                            old(self).stream_pos(),
                            old(self).stream_pos() + 8,
                        ),
                    )
                    &&& final(self).stream_pos() == old(self).stream_pos() + 8
                },
                Err(e) => {
                    &&& final(self).stream_pos() == old(self).stream_pos()
                    &&& (e == DaemonError::ShortRead || e == DaemonError::WordOverflow)
                    &&& (e == DaemonError::ShortRead <==> old(self).stream_pos() + 8 > old(
                        self,
                    ).stream_data().len())
                    &&& (e == DaemonError::WordOverflow <==> (old(self).stream_pos() + 8 <= old(
                        self,
                    ).stream_data().len() && spec_word_of(
                        old(self).stream_data().subrange(
                            old(self).stream_pos(),
                            old(self).stream_pos() + 8,
                        ),
                    ) > usize::MAX as u64))
                },
            },
    ;

    fn read_string(&mut self) -> (r: Result<Vec<u8>, DaemonError>)
        requires
            old(self).stream_wf(),
        ensures
            final(self).stream_wf(),
            final(self).stream_data() == old(self).stream_data(),
            match r {
                Ok(v) => {
                    &&& old(self).stream_pos() + 8 + v@.len() <= old(self).stream_data().len()
                    &&& v@.len() as u64 == spec_word_of(
                        old(self).stream_data().subrange(
                            old(self).stream_pos(),
                            old(self).stream_pos() + 8,
                        ),
                    )
                    &&& v@ == old(self).stream_data().subrange(
                        old(self).stream_pos() + 8,
                        old(self).stream_pos() + 8 + v@.len(),
                    )
                    &&& spec_valid_utf8(v@)
                    &&& final(self).stream_pos() == old(self).stream_pos() + 8 + v@.len()
                },
                Err(e) => ({
                    let p = old(self).stream_pos();
                    let d = old(self).stream_data();
                    let w = spec_word_of(d.subrange(p, p + 8)) as int;
                    let prefix_ok = p + 8 <= d.len();
                    let fits = w <= usize::MAX;
                    let body_ok = prefix_ok && fits && p + 8 + w <= d.len();
                    &&& final(self).stream_pos() == p
                    &&& (e == DaemonError::ShortRead <==> (!prefix_ok || (prefix_ok && fits && p
                        + 8 + w > d.len())))
                    &&& (e == DaemonError::WordOverflow <==> (prefix_ok && !fits))
                    &&& (e == DaemonError::InvalidUtf8 <==> (body_ok && !spec_valid_utf8(
                        d.subrange(p + 8, p + 8 + w),
                    )))
                    &&& (e == DaemonError::ShortRead || e == DaemonError::WordOverflow || e
                        == DaemonError::InvalidUtf8)
                }),
            },
    ;

    /// `read_usize` for a 32-bit build of the daemon, whose native word
    /// is four bytes.  Every four-byte word fits `usize`, so the only
    /// error is a short stream.
    fn read_usize32(&mut self) -> (r: Result<usize, DaemonError>)
        requires
            old(self).stream_wf(),
        ensures
            final(self).stream_wf(),
            final(self).stream_data() == old(self).stream_data(),
            match r {
                Ok(v) => {
                    &&& old(self).stream_pos() + 4 <= old(self).stream_data().len()
                    &&& v as u32 == spec_u32_of(
                        old(self).stream_data().subrange(
                            old(self).stream_pos(),
                            old(self).stream_pos() + 4,
                        ),
                    )
                    &&& v <= u32::MAX
                    &&& final(self).stream_pos() == old(self).stream_pos() + 4
                },
                Err(e) => {
                    &&& e == DaemonError::ShortRead
                    &&& old(self).stream_pos() + 4 > old(self).stream_data().len()
                    &&& final(self).stream_pos() == old(self).stream_pos()
                },
            },
    ;

    /// `read_string` for a 32-bit build of the daemon: a four-byte length
    /// prefix, then the bytes, which must be valid UTF-8.
    fn read_string32(&mut self) -> (r: Result<Vec<u8>, DaemonError>)
        requires
            old(self).stream_wf(),
        ensures
            final(self).stream_wf(),
            final(self).stream_data() == old(self).stream_data(),
            match r {
                Ok(v) => {
                    &&& old(self).stream_pos() + 4 + v@.len() <= old(self).stream_data().len()
                    &&& v@.len() as u32 == spec_u32_of(
                        old(self).stream_data().subrange(
                            old(self).stream_pos(),
                            old(self).stream_pos() + 4,
                        ),
                    )
                    &&& v@ == old(self).stream_data().subrange(
                        old(self).stream_pos() + 4,
                        old(self).stream_pos() + 4 + v@.len(),
                    )
                    &&& spec_valid_utf8(v@)
                    &&& final(self).stream_pos() == old(self).stream_pos() + 4 + v@.len()
                },
                Err(e) => ({
                    let p = old(self).stream_pos();
                    let d = old(self).stream_data();
                    let w = spec_u32_of(d.subrange(p, p + 4)) as int;
                    let prefix_ok = p + 4 <= d.len();
                    let body_ok = prefix_ok && p + 4 + w <= d.len();
                    &&& final(self).stream_pos() == p
                    &&& (e == DaemonError::ShortRead <==> (!prefix_ok || (prefix_ok && p + 4 + w
                        > d.len())))
                    &&& (e == DaemonError::InvalidUtf8 <==> (body_ok && !spec_valid_utf8(
                        d.subrange(p + 4, p + 4 + w),
                    )))
                    &&& (e == DaemonError::ShortRead || e == DaemonError::InvalidUtf8)
                }),
            },
    ;

    fn write_u8(&mut self, value: u8) -> (r: Result<(), DaemonError>)
        requires
            old(self).stream_wf(),
        ensures
            final(self).stream_wf(),
            final(self).stream_pos() == old(self).stream_pos(),
            match r {
                Ok(()) => final(self).stream_data() == old(self).stream_data().push(value),
                Err(_) => final(self).stream_data() == old(self).stream_data(),
            },
    ;

    fn write_u32(&mut self, value: u32) -> (r: Result<(), DaemonError>)
        requires
            old(self).stream_wf(),
        ensures
            final(self).stream_wf(),
            final(self).stream_pos() == old(self).stream_pos(),
            match r {
                Ok(()) => final(self).stream_data() == old(self).stream_data() + spec_u32_bytes(value),
                Err(_) => final(self).stream_data() == old(self).stream_data(),
            },
    ;

    fn write_usize(&mut self, value: usize) -> (r: Result<(), DaemonError>)
        requires
            old(self).stream_wf(),
        ensures
            final(self).stream_wf(),
            final(self).stream_pos() == old(self).stream_pos(),
            match r {
                Ok(()) => final(self).stream_data() == old(self).stream_data() + spec_word_bytes(
                    value as u64,
                ),
                Err(_) => final(self).stream_data() == old(self).stream_data(),
            },
    ;

    fn write_string(&mut self, value: &Vec<u8>) -> (r: Result<(), DaemonError>)
        requires
            old(self).stream_wf(),
        ensures
            final(self).stream_wf(),
            final(self).stream_pos() == old(self).stream_pos(),
            match r {
                Ok(()) => final(self).stream_data() == old(self).stream_data() + spec_string_frame(
                    value@,
                ),
                Err(_) => final(self).stream_data() == old(self).stream_data(),
            },
    ;

    /// `write_usize` for a 32-bit build of the daemon: the value goes out
    /// as its four-byte native word, so it must fit one.
    fn write_usize32(&mut self, value: usize) -> (r: Result<(), DaemonError>)
        requires
            old(self).stream_wf(),
            value <= u32::MAX,
        ensures
            final(self).stream_wf(),
            final(self).stream_pos() == old(self).stream_pos(),
            match r {
                Ok(()) => final(self).stream_data() == old(self).stream_data() + spec_u32_bytes(
                    value as u32,
                ),
                Err(_) => final(self).stream_data() == old(self).stream_data(),
            },
    ;

    /// `write_string` for a 32-bit build of the daemon: a four-byte
    /// length prefix, then the bytes.
    fn write_string32(&mut self, value: &Vec<u8>) -> (r: Result<(), DaemonError>)
        requires
            old(self).stream_wf(),
            value@.len() <= u32::MAX,
        ensures
            final(self).stream_wf(),
            final(self).stream_pos() == old(self).stream_pos(),
            match r {
                Ok(()) => final(self).stream_data() == old(self).stream_data()
                    + spec_string_frame32(value@),
                Err(_) => final(self).stream_data() == old(self).stream_data(),
            },
    ;
}

impl UnixStreamExt for MemStream {
    open spec fn stream_data(&self) -> Seq<u8> {
        self.spec_data()
    }

    open spec fn stream_pos(&self) -> int {
        self.spec_pos()
    }

    open spec fn stream_wf(&self) -> bool {
        self.wf()
    }

    fn read_u8(&mut self) -> (r: Result<u8, DaemonError>) {
        if self.pos < self.data.len() {
            let v: u8 = self.data[self.pos];
            self.pos = self.pos + 1;
            Ok(v)
        } else {
            Err(DaemonError::ShortRead)
        }
    }

    fn read_u32(&mut self) -> (r: Result<u32, DaemonError>) {
        if self.data.len() < 4 || self.pos > self.data.len() - 4 {
            return Err(DaemonError::ShortRead);
        }
        let b0: u32 = self.data[self.pos] as u32;
        let b1: u32 = self.data[self.pos + 1] as u32;
        let b2: u32 = self.data[self.pos + 2] as u32;
        let b3: u32 = self.data[self.pos + 3] as u32;
        let v: u32 = b0 + b1 * 256 + b2 * 65536 + b3 * 16777216;
        self.pos = self.pos + 4;
        proof {
            assert(old(self).stream_data().subrange(
                old(self).stream_pos(),
                old(self).stream_pos() + 4,
            ) =~= seq![
                old(self).stream_data()[old(self).stream_pos()],
                old(self).stream_data()[old(self).stream_pos() + 1],
                old(self).stream_data()[old(self).stream_pos() + 2],
                old(self).stream_data()[old(self).stream_pos() + 3],
            ]);
        }
        Ok(v)
    }

    fn read_usize(&mut self) -> (r: Result<usize, DaemonError>) {
        if self.data.len() < 8 || self.pos > self.data.len() - 8 {
            return Err(DaemonError::ShortRead);
        }
        let b0: u64 = self.data[self.pos] as u64;
        let b1: u64 = self.data[self.pos + 1] as u64;
        let b2: u64 = self.data[self.pos + 2] as u64;
        let b3: u64 = self.data[self.pos + 3] as u64;
        let b4: u64 = self.data[self.pos + 4] as u64;
        let b5: u64 = self.data[self.pos + 5] as u64;
        let b6: u64 = self.data[self.pos + 6] as u64;
        let b7: u64 = self.data[self.pos + 7] as u64;
        let v: u64 = b0 + b1 * 256 + b2 * 65536 + b3 * 16777216 + b4 * 4294967296 + b5
            * 1099511627776 + b6 * 281474976710656 + b7 * 72057594037927936;
        proof {
            assert(old(self).stream_data().subrange(
                old(self).stream_pos(),
                old(self).stream_pos() + 8,
            ) =~= seq![
                old(self).stream_data()[old(self).stream_pos()],
                old(self).stream_data()[old(self).stream_pos() + 1],
                old(self).stream_data()[old(self).stream_pos() + 2],
                old(self).stream_data()[old(self).stream_pos() + 3],
                old(self).stream_data()[old(self).stream_pos() + 4],
                old(self).stream_data()[old(self).stream_pos() + 5],
                old(self).stream_data()[old(self).stream_pos() + 6],
                old(self).stream_data()[old(self).stream_pos() + 7],
            ]);
        }
        if v > usize::MAX as u64 {
            return Err(DaemonError::WordOverflow);
        }
        self.pos = self.pos + 8;
        Ok(v as usize)
    }

    fn read_string(&mut self) -> (r: Result<Vec<u8>, DaemonError>) {
        let start: usize = self.pos;
        let len: usize = match self.read_usize() {
            Ok(n) => n,
            Err(e) => {
                return Err(e);
            },
        };
        if self.data.len() < len || self.pos > self.data.len() - len {
            self.pos = start;
            return Err(DaemonError::ShortRead);
        }
        let n: usize = self.data.len();
        proof {
            assert(self.spec_data().len() == n as int);
        }
        let mut out: Vec<u8> = Vec::new();
        let mut i: usize = 0;
        while i < len
            invariant
                0 <= i <= len,
                self.wf(),
                self.spec_pos() + len <= self.spec_data().len(),
                self.spec_data().len() <= usize::MAX,
                out@ == self.spec_data().subrange(self.spec_pos(), self.spec_pos() + i),
            decreases len - i,
        {
            out.push(self.data[self.pos + i]);
            proof {
                assert(out@ =~= self.spec_data().subrange(
                    self.spec_pos(),
                    self.spec_pos() + i + 1,
                ));
            }
            i = i + 1;
        }
        if !bytes_valid_utf8(&out) {
            self.pos = start;
            return Err(DaemonError::InvalidUtf8);
        }
        self.pos = self.pos + len;
        Ok(out)
    }

    fn read_usize32(&mut self) -> (r: Result<usize, DaemonError>) {
        match self.read_u32() {
            Ok(v) => Ok(v as usize),
            Err(e) => Err(e),
        }
    }

    fn read_string32(&mut self) -> (r: Result<Vec<u8>, DaemonError>) {
        let start: usize = self.pos;
        let len: usize = match self.read_usize32() {
            Ok(n) => n,
            Err(e) => {
                return Err(e);
            },
        };
        if self.data.len() < len || self.pos > self.data.len() - len {
            self.pos = start;
            return Err(DaemonError::ShortRead);
        }
        let n: usize = self.data.len();
        proof {
            assert(self.spec_data().len() == n as int);
        }
        let mut out: Vec<u8> = Vec::new();
        let mut i: usize = 0;
        while i < len
            invariant
                0 <= i <= len,
                self.wf(),
                self.spec_pos() + len <= self.spec_data().len(),
                self.spec_data().len() <= usize::MAX,
                out@ == self.spec_data().subrange(self.spec_pos(), self.spec_pos() + i),
            decreases len - i,
        {
            out.push(self.data[self.pos + i]);
            proof {
                assert(out@ =~= self.spec_data().subrange(
                    self.spec_pos(),
                    self.spec_pos() + i + 1,
                ));
            }
            i = i + 1;
        }
        if !bytes_valid_utf8(&out) {
            self.pos = start;
            return Err(DaemonError::InvalidUtf8);
        }
        self.pos = self.pos + len;
        Ok(out)
    }

    fn write_u8(&mut self, value: u8) -> (r: Result<(), DaemonError>)
        ensures
            r is Ok,
    {
        self.data.push(value);
        Ok(())
    }

    fn write_u32(&mut self, value: u32) -> (r: Result<(), DaemonError>)
        ensures
            r is Ok,
    {
        self.data.push((value % 256) as u8);
        self.data.push(((value / 256) % 256) as u8);
        self.data.push(((value / 65536) % 256) as u8);
        self.data.push(((value / 16777216) % 256) as u8);
        proof {
            assert(self.stream_data() =~= old(self).stream_data() + spec_u32_bytes(value));
        }
        Ok(())
    }

    fn write_usize(&mut self, value: usize) -> (r: Result<(), DaemonError>)
        ensures
            r is Ok,
    {
        let v: u64 = value as u64;
        self.data.push((v % 256) as u8);
        self.data.push(((v / 256) % 256) as u8);
        self.data.push(((v / 65536) % 256) as u8);
        self.data.push(((v / 16777216) % 256) as u8);
        self.data.push(((v / 4294967296) % 256) as u8);
        self.data.push(((v / 1099511627776) % 256) as u8);
        self.data.push(((v / 281474976710656) % 256) as u8);
        self.data.push(((v / 72057594037927936) % 256) as u8);
        proof {
            assert(self.stream_data() =~= old(self).stream_data() + spec_word_bytes(
                value as u64,
            ));
        }
        Ok(())
    }

    fn write_string(&mut self, value: &Vec<u8>) -> (r: Result<(), DaemonError>)
        ensures
            r is Ok,
    {
        match self.write_usize(value.len()) {
            Ok(()) => {},
            Err(e) => {
                return Err(e);
            },
        }
        let mut i: usize = 0;
        while i < value.len()
            invariant
                0 <= i <= value@.len(),
                self.wf(),
                self.spec_pos() == old(self).spec_pos(),
                self.spec_data() == old(self).spec_data() + spec_word_bytes(
                    value@.len() as u64,
                ) + value@.subrange(0, i as int),
            decreases value@.len() - i,
        {
            self.data.push(value[i]);
            proof {
                assert(self.spec_data() =~= old(self).spec_data() + spec_word_bytes(
                    value@.len() as u64,
                ) + value@.subrange(0, i + 1));
            }
            i = i + 1;
        }
        proof {
            assert(value@.subrange(0, value@.len() as int) =~= value@);
            assert(self.spec_data() =~= old(self).spec_data() + spec_string_frame(value@));
        }
        Ok(())
    }

    fn write_usize32(&mut self, value: usize) -> (r: Result<(), DaemonError>)
        ensures
            r is Ok,
    {
        self.write_u32(value as u32)
    }

    fn write_string32(&mut self, value: &Vec<u8>) -> (r: Result<(), DaemonError>)
        ensures
            r is Ok,
    {
        match self.write_usize32(value.len()) {
            Ok(()) => {},
            Err(e) => {
                return Err(e);
            },
        }
        let mut i: usize = 0;
        while i < value.len()
            invariant
                0 <= i <= value@.len(),
                self.wf(),
                self.spec_pos() == old(self).spec_pos(),
                self.spec_data() == old(self).spec_data() + spec_u32_bytes(
                    value@.len() as u32,
                ) + value@.subrange(0, i as int),
            decreases value@.len() - i,
        {
            self.data.push(value[i]);
            proof {
                assert(self.spec_data() =~= old(self).spec_data() + spec_u32_bytes(
                    value@.len() as u32,
                ) + value@.subrange(0, i + 1));
            }
            i = i + 1;
        }
        proof {
            assert(value@.subrange(0, value@.len() as int) =~= value@);
            assert(self.spec_data() =~= old(self).spec_data() + spec_string_frame32(value@));
        }
        Ok(())
    }
}

} // verus!
