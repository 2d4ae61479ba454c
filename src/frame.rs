//! Wire envelope: magic word, little-endian payload length, payload.
//! Also the session-id heuristic that reads the head of an observed buffer.

use byteorder::{ByteOrder, LittleEndian};
use vstd::prelude::*;
use vstd::slice::slice_to_vec;

verus! {

/// Magic word that opens every frame; on the wire it reads `2c 9e b4 f2`.
pub const FRAME_MAGIC: u32 = 0xF2B4_9E2C;

/// Bytes of magic and length in front of every payload.
pub const HEADER_LEN: usize = 8;

/// Little-endian encoding of a 32-bit value.
pub open spec fn le32(n: u32) -> Seq<u8> {
    seq![
        (n % 256) as u8,
        ((n / 256) % 256) as u8,
        ((n / 65536) % 256) as u8,
        ((n / 16777216) % 256) as u8,
    ]
}

/// Value of the first four bytes of `b`, least significant first.
pub open spec fn le32_value(b: Seq<u8>) -> int {
    b[0] + 256 * b[1] + 65536 * b[2] + 16777216 * b[3]
}

/// The four bytes that a ping frame carries where a session id would stand.
pub open spec fn ping_word() -> Seq<u8> {
    seq![0x70u8, 0x69u8, 0x6eu8, 0x67u8]
}

/// The frame that carries `payload`.
pub open spec fn frame_of(payload: Seq<u8>) -> Seq<u8> {
    le32(FRAME_MAGIC) + le32(payload.len() as u32) + payload
}

/// The length that the header at the start of `b` declares.
pub open spec fn declared_len(b: Seq<u8>) -> int {
    le32_value(b.subrange(4, 8))
}

/// `b` starts with a whole frame: magic, length, and that many payload bytes.
pub open spec fn holds_frame(b: Seq<u8>) -> bool {
    &&& b.len() >= 8
    &&& b.subrange(0, 4) == le32(FRAME_MAGIC)
    &&& b.len() >= 8 + declared_len(b)
}

/// The payload of the frame at the start of `b`.
pub open spec fn frame_payload(b: Seq<u8>) -> Seq<u8> {
    b.subrange(8, 8 + declared_len(b))
}

/// The session id that an observed buffer reveals, if any: bytes 8..12 of a
/// buffer of at least 12 bytes that starts with the magic, unless they spell
/// `ping`.
pub open spec fn session_id_in(b: Seq<u8>) -> Option<Seq<u8>> {
    if b.len() >= 12 && b.subrange(0, 4) == le32(FRAME_MAGIC) && b.subrange(8, 12) != ping_word() {
        Some(b.subrange(8, 12))
    } else {
        None
    }
}

/// Relies on byteorder's `LittleEndian::write_u32`: it stores `n` into the
/// first four bytes of the buffer, least significant byte first.
#[verifier::external_body]
pub(crate) fn le32_bytes(n: u32) -> (r: [u8; 4])
    ensures
        r@ == le32(n),
{
    let mut b = [0u8; 4];
    LittleEndian::write_u32(&mut b, n);
    b
}

/// Relies on byteorder's `LittleEndian::read_u32`: the value of the first
/// four bytes of `b`, least significant first; it panics on fewer than four.
#[verifier::external_body]
fn read_le32(b: &[u8]) -> (r: u32)
    requires
        b@.len() >= 4,
    ensures
        r == le32_value(b@),
{
    LittleEndian::read_u32(b)
}

/// Decoding the four bytes of a value gives the value back.
pub proof fn lemma_le32_round_trip(n: u32)
    ensures
        le32_value(le32(n)) == n,
{
    assert(n == n % 256 + 256 * ((n / 256) % 256) + 65536 * ((n / 65536) % 256) + 16777216 * ((
    n / 16777216) % 256)) by (bit_vector);
}

/// A frame on the wire, as the device expects it.
#[derive(Debug, Clone)]
pub struct Packet {
    pub header: u32,
    pub length: u32,
    pub payload: Vec<u8>,
}

impl Packet {
    /// A packet is well formed when it carries the magic and the length of
    /// its payload.
    pub open spec fn wf(&self) -> bool {
        self.header == FRAME_MAGIC && self.length == self.payload@.len()
    }

    /// Wraps a payload; the length field must be able to hold its size.
    pub fn new(payload: Vec<u8>) -> (r: Packet)
        requires
            payload@.len() <= u32::MAX,
        ensures
            r.wf(),
            r.payload@ == payload@,
    {
        let length = payload.len() as u32;
        Packet { header: FRAME_MAGIC, length, payload }
    }

    /// The bytes on the wire: header and length in little-endian order, then
    /// the payload.
    pub fn to_bytes(&self) -> (r: Vec<u8>)
        ensures
            r@ == le32(self.header) + le32(self.length) + self.payload@,
            self.wf() ==> r@ == frame_of(self.payload@),
    {
        let mut out: Vec<u8> = Vec::new();
        out.extend_from_slice(&le32_bytes(self.header));
        out.extend_from_slice(&le32_bytes(self.length));
        out.extend_from_slice(self.payload.as_slice());
        assert(out@ =~= le32(self.header) + le32(self.length) + self.payload@);
        out
    }

    /// Reads the frame at the start of `buf`. It is accepted only when the
    /// magic, the length and that many payload bytes are all there; the
    /// second value is the number of bytes the frame takes.
    pub fn parse(buf: &[u8]) -> (r: Option<(Packet, usize)>)
        ensures
            r is Some <==> holds_frame(buf@),
            r matches Some((p, used)) ==> {
                &&& p.wf()
                &&& p.length == declared_len(buf@)
                &&& p.payload@ == frame_payload(buf@)
                &&& used == 8 + declared_len(buf@)
            },
    {
        if buf.len() < HEADER_LEN {
            return None;
        }
        if !(buf[0] == 0x2c && buf[1] == 0x9e && buf[2] == 0xb4 && buf[3] == 0xf2) {
            assert(buf@.subrange(0, 4) != le32(FRAME_MAGIC)) by {
                assert(le32(FRAME_MAGIC) =~= seq![0x2cu8, 0x9eu8, 0xb4u8, 0xf2u8]);
                if buf@.subrange(0, 4) == le32(FRAME_MAGIC) {
                    assert(buf@.subrange(0, 4)[0] == buf@[0]);
                    assert(buf@.subrange(0, 4)[1] == buf@[1]);
                    assert(buf@.subrange(0, 4)[2] == buf@[2]);
                    assert(buf@.subrange(0, 4)[3] == buf@[3]);
                }
            }
            return None;
        }
        assert(buf@.subrange(0, 4) =~= le32(FRAME_MAGIC));
        let length = read_le32(&buf[4..8]);
        assert(declared_len(buf@) == length);
        if buf.len() - HEADER_LEN < length as usize {
            return None;
        }
        let end = HEADER_LEN + length as usize;
        let payload = slice_to_vec(&buf[HEADER_LEN..end]);
        let p = Packet { header: FRAME_MAGIC, length, payload };
        Some((p, end))
    }
}

/// The session id at the head of an observed buffer: bytes 8..12 of a buffer
/// of at least 12 bytes that starts with the magic, unless those bytes spell
/// `ping`. Anything else gives `None`.
pub fn extract_session_id(data: &[u8]) -> (r: Option<Vec<u8>>)
    ensures
        r is Some <==> session_id_in(data@) is Some,
        r matches Some(v) ==> session_id_in(data@) == Some(v@),
{
    proof {
        assert(le32(FRAME_MAGIC) =~= seq![0x2cu8, 0x9eu8, 0xb4u8, 0xf2u8]);
    }
    if data.len() >= 12 && data[0] == 0x2c && data[1] == 0x9e && data[2] == 0xb4 && data[3] == 0xf2 {
        assert(data@.subrange(0, 4) =~= le32(FRAME_MAGIC));
        if !(data[8] == 0x70 && data[9] == 0x69 && data[10] == 0x6e && data[11] == 0x67) {
            let sid = slice_to_vec(&data[8..12]);
            assert(data@.subrange(8, 12) != ping_word()) by {
                if data@.subrange(8, 12) == ping_word() {
                    assert(data@.subrange(8, 12)[0] == data@[8]);
                    assert(data@.subrange(8, 12)[1] == data@[9]);
                    assert(data@.subrange(8, 12)[2] == data@[10]);
                    assert(data@.subrange(8, 12)[3] == data@[11]);
                }
            }
            return Some(sid);
        }
        assert(data@.subrange(8, 12) =~= ping_word());
    } else if data.len() >= 12 {
        assert(data@.subrange(0, 4) != le32(FRAME_MAGIC)) by {
            if data@.subrange(0, 4) == le32(FRAME_MAGIC) {
                assert(data@.subrange(0, 4)[0] == data@[0]);
                assert(data@.subrange(0, 4)[1] == data@[1]);
                assert(data@.subrange(0, 4)[2] == data@[2]);
                assert(data@.subrange(0, 4)[3] == data@[3]);
            }
        }
    }
    None
}

/// Decoding a frame gives back the payload it was built from, with its
/// length as the declared length, and consumes exactly the frame.
pub proof fn lemma_frame_round_trip(p: Seq<u8>)
    requires
        p.len() <= u32::MAX,
    ensures
        holds_frame(frame_of(p)),
        declared_len(frame_of(p)) == p.len(),
        frame_payload(frame_of(p)) == p,
        8 + declared_len(frame_of(p)) == frame_of(p).len(),
{
    let f = frame_of(p);
    lemma_le32_round_trip(p.len() as u32);
    assert(f.subrange(0, 4) =~= le32(FRAME_MAGIC));
    assert(f.subrange(4, 8) =~= le32(p.len() as u32));
    assert(f.subrange(8, 8 + p.len() as int) =~= p);
}

} // verus!
