//! Packets: the 20-bit frames that carry a word on the bus

use vstd::prelude::*;

use crate::errors::{parity, parity_of, Error, Result};
use crate::word::{be_value, high_byte, low_byte, Word, WordType};

verus! {

/// The 32-bit value of four bytes in big-endian order
pub open spec fn stream_value(b0: u8, b1: u8, b2: u8, b3: u8) -> u32 {
    ((b0 as u32) << 24u32) | ((b1 as u32) << 16u32) | ((b2 as u32) << 8u32) | (b3 as u32)
}

/// The 20 bits of a 32-bit stream that start `offset` bits after its most
/// significant bit, moved to the low 20 bits
pub open spec fn frame_bits(stream: u32, offset: u32) -> u32 {
    (stream << offset) >> 12u32
}

/// The sync bits held by a 20-bit frame
pub open spec fn frame_sync(frame: u32) -> u8 {
    ((frame & 0b11100000000000000000u32) >> 17u32) as u8
}

/// The first body byte held by a 20-bit frame
pub open spec fn frame_high(frame: u32) -> u8 {
    ((frame & 0b00011111111000000000u32) >> 9u32) as u8
}

/// The second body byte held by a 20-bit frame
pub open spec fn frame_low(frame: u32) -> u8 {
    ((frame & 0b00000000000111111110u32) >> 1u32) as u8
}

/// The parity bit held by a 20-bit frame
pub open spec fn frame_parity(frame: u32) -> u8 {
    (frame & 1u32) as u8
}

/// The 32 bits a packet writes before they are shifted to the offset:
/// three sync bits, sixteen body bits, the parity bit and twelve zeros.
pub open spec fn packet_bits(sync: u8, body0: u8, body1: u8, parity: u8) -> u32 {
    (((sync & 0b111u8) as u32) << 29u32) | ((body0 as u32) << 21u32) | ((body1 as u32) << 13u32)
        | (((parity & 1u8) as u32) << 12u32)
}

/// The 32 bits a packet writes at an offset (at most 12) over a buffer
/// whose first two bytes are `d0` and `d1`: the bits before the offset
/// come from those bytes, the rest from the packet.
pub open spec fn written_bits(bits: u32, offset: u32, d0: u8, d1: u8) -> u32 {
    (bits >> offset) | ((((d0 as u32) << 24u32) | ((d1 as u32) << 16u32)) & !(0xffff_ffffu32
        >> offset))
}

/// Byte `i` (0 to 3) of a 32-bit value in big-endian order
pub open spec fn be_byte(v: u32, i: int) -> u8 {
    if i == 0 {
        ((v >> 24u32) & 0xffu32) as u8
    } else if i == 1 {
        ((v >> 16u32) & 0xffu32) as u8
    } else if i == 2 {
        ((v >> 8u32) & 0xffu32) as u8
    } else {
        (v & 0xffu32) as u8
    }
}

/// A word packet containing sync, body, and parity
///
/// Each packet is 20 bits: three sync bits, sixteen bits of body and a
/// trailing parity bit.
#[derive(Copy, Clone, Eq, PartialEq, Ord, PartialOrd, Hash, Debug)]
pub struct Packet {
    /// The sync pattern of the packet
    pub sync: u8,
    /// The two body bytes of the packet
    pub body: [u8; 2],
    /// The parity bit of the packet
    pub parity: u8,
}

impl Packet {
    /// The sync pattern of a data word
    pub const DATA_SYNC: u8 = 0b001;

    /// The sync pattern of a service (command or status) word
    pub const SERV_SYNC: u8 = 0b100;

    /// Create a new packet struct
    pub fn new(sync: u8, body: [u8; 2], parity: u8) -> (p: Self)
        ensures
            p.sync == sync,
            p.body == body,
            p.parity == parity,
    {
        Self { sync, body, parity }
    }

    /// The number of bytes `read` and `write` need at an offset
    pub open spec fn bytes_needed(offset: usize) -> int {
        if offset > 4 {
            4
        } else {
            3
        }
    }

    /// The packet held by the 20 bits of `data` that start `offset` bits
    /// after the most significant bit of its first byte (a missing fourth
    /// byte reads as zero)
    pub open spec fn spec_read(data: Seq<u8>, offset: usize) -> Packet {
        let frame = frame_bits(
            stream_value(
                data[0],
                data[1],
                data[2],
                if data.len() > 3 {
                    data[3]
                } else {
                    0
                },
            ),
            offset as u32,
        );
        Packet {
            sync: frame_sync(frame),
            body: [frame_high(frame), frame_low(frame)],
            parity: frame_parity(frame),
        }
    }

    /// The offset a write uses: the given offset, at most 12
    pub open spec fn write_offset(offset: usize) -> u32 {
        if offset > 12 {
            12
        } else {
            offset as u32
        }
    }

    /// The bytes of `data` after this packet is written at `offset`: the
    /// first three bytes (four when the offset is larger than 4) are the
    /// written bits, the rest stay as they were
    pub open spec fn spec_write(self, data: Seq<u8>, offset: usize) -> Seq<u8> {
        let bits = written_bits(
            packet_bits(self.sync, self.body[0], self.body[1], self.parity),
            Self::write_offset(offset),
            data[0],
            data[1],
        );
        Seq::new(
            data.len(),
            |i: int|
                if i < Self::bytes_needed(offset) {
                    be_byte(bits, i)
                } else {
                    data[i]
                },
        )
    }

    /// Read a packet from a byte slice at a bit offset
    ///
    /// The packet is the 20 bits of the slice that start `offset` bits
    /// after the most significant bit of its first byte. Fails with
    /// [Error::OutOfBounds] if the offset is larger than 12, or if the
    /// slice has fewer than 3 bytes (4 bytes when the offset is larger
    /// than 4).
    pub fn read(data: &[u8], offset: usize) -> (r: Result<Self>)
        ensures
            r is Ok <==> (offset <= 12 && data@.len() >= Self::bytes_needed(offset)),
            r matches Err(e) ==> e == Error::OutOfBounds,
            r matches Ok(p) ==> p == Self::spec_read(data@, offset),
    {
        if offset > 12 {
            return Err(Error::OutOfBounds);
        } else if offset > 4 && data.len() < 4 {
            return Err(Error::OutOfBounds);
        } else if data.len() < 3 {
            return Err(Error::OutOfBounds);
        }
        let b3: u8 = if data.len() > 3 {
            data[3]
        } else {
            0
        };
        let mut v: u32 = ((data[0] as u32) << 24u32) | ((data[1] as u32) << 16u32) | ((
        data[2] as u32) << 8u32) | (b3 as u32);
        let o: u32 = offset as u32;
        v = v << o;
        v = v >> 12u32;

        let s = ((v & 0b11100000000000000000u32) >> 17u32) as u8;
        let w1 = ((v & 0b00011111111000000000u32) >> 9u32) as u8;
        let w2 = ((v & 0b00000000000111111110u32) >> 1u32) as u8;
        let p = (v & 1u32) as u8;

        Ok(Self::new(s, [w1, w2], p))
    }

    /// Check that the parity bit is correct for the body
    pub fn check_parity(&self) -> (r: bool)
        ensures
            r == (parity_of(be_value(self.body)) == self.parity),
    {
        parity((self.body[0] as u16) * 256 + (self.body[1] as u16)) == self.parity
    }

    /// Check that the sync pattern is a data or service pattern
    pub fn check_sync(&self) -> (r: bool)
        ensures
            r == (self.sync == Self::DATA_SYNC || self.sync == Self::SERV_SYNC),
    {
        self.sync == Self::DATA_SYNC || self.sync == Self::SERV_SYNC
    }

    /// Check if this packet carries a data word
    pub fn is_data(&self) -> (r: bool)
        ensures
            r == (self.sync == Self::DATA_SYNC),
    {
        self.sync == Self::DATA_SYNC
    }

    /// Check if this packet carries a service (command or status) word
    pub fn is_service(&self) -> (r: bool)
        ensures
            r == (self.sync == Self::SERV_SYNC),
    {
        self.sync == Self::SERV_SYNC
    }

    /// Check that both the parity and the sync pattern are correct
    pub fn is_valid(&self) -> (r: bool)
        ensures
            r == (parity_of(be_value(self.body)) == self.parity && (self.sync == Self::DATA_SYNC
                || self.sync == Self::SERV_SYNC)),
    {
        self.check_parity() && self.check_sync()
    }

    /// Convert the packet into a word
    ///
    /// Fails with [Error::WordIsInvalid] if the parity bit is wrong.
    pub fn as_word<T: Word>(&self) -> (r: Result<T>)
        ensures
            r is Ok <==> self.parity == parity_of(be_value(self.body)),
            r matches Ok(w) ==> w.spec_value() == be_value(self.body) && w.spec_parity()
                == self.parity,
            r matches Err(e) ==> e == Error::WordIsInvalid,
    {
        T::new().with_bytes(self.body).with_parity(self.parity).build()
    }

    /// Write the packet into a byte slice at a bit offset
    ///
    /// The bits of the first two bytes that come before the offset are
    /// kept; the packet follows them, and the rest of the first three bytes
    /// (four when the offset is larger than 4) is cleared. An offset larger
    /// than 12 is taken as 12. Fails with [Error::OutOfBounds], leaving the
    /// slice unchanged, if it has fewer than 3 bytes (4 bytes when the offset
    /// is larger than 4).
    pub fn write(&self, data: &mut [u8], offset: usize) -> (r: Result<()>)
        ensures
            r is Ok <==> old(data)@.len() >= Self::bytes_needed(offset),
            r is Ok ==> final(data)@ == self.spec_write(old(data)@, offset),
            r is Err ==> r == Err::<(), Error>(Error::OutOfBounds) && final(data)@ == old(data)@,
    {
        if offset > 4 && data.len() < 4 {
            return Err(Error::OutOfBounds);
        } else if data.len() < 3 {
            return Err(Error::OutOfBounds);
        }
        let o: u32 = if offset > 12 {
            12
        } else {
            offset as u32
        };

        let sync = self.sync;
        let body0 = self.body[0];
        let body1 = self.body[1];
        let parity = self.parity;
        let mut v: u32 = (((sync & 0b111u8) as u32) << 29u32) | ((body0 as u32) << 21u32) | ((
        body1 as u32) << 13u32) | (((parity & 1u8) as u32) << 12u32);

        v = v >> o;
        let m: u32 = ((data[0] as u32) << 24u32) | ((data[1] as u32) << 16u32);
        v = v | (m & !(0xffff_ffffu32 >> o));

        let ghost old_data = data@;
        assert(v == written_bits(
            packet_bits(self.sync, self.body[0], self.body[1], self.parity),
            Self::write_offset(offset),
            old_data[0],
            old_data[1],
        ));
        data[0] = ((v >> 24u32) & 0xffu32) as u8;
        data[1] = ((v >> 16u32) & 0xffu32) as u8;
        data[2] = ((v >> 8u32) & 0xffu32) as u8;
        if offset > 4 {
            data[3] = (v & 0xffu32) as u8;
        }
        assert(data@[0] == be_byte(v, 0));
        assert(data@[1] == be_byte(v, 1));
        assert(data@[2] == be_byte(v, 2));
        assert(offset > 4 ==> data@[3] == be_byte(v, 3));
        assert(data@ =~= self.spec_write(old_data, offset));
        Ok(())
    }
}


/// The frame read back from the bytes of the written bits holds the packet
/// that was written, whether the fourth byte is written too or (for an
/// offset of at most 4) left as it was; the bits before the offset keep the
/// value they had.
proof fn lemma_frame_write_read(
    sync: u8,
    body0: u8,
    body1: u8,
    parity: u8,
    o: u32,
    d0: u8,
    d1: u8,
    x: u8,
)
    by (bit_vector)
    requires
        sync < 8,
        parity < 2,
        o <= 12,
    ensures
        ({
            let bits = written_bits(packet_bits(sync, body0, body1, parity), o, d0, d1);
            let y0 = ((bits >> 24u32) & 0xffu32) as u8;
            let y1 = ((bits >> 16u32) & 0xffu32) as u8;
            let y2 = ((bits >> 8u32) & 0xffu32) as u8;
            let y3 = (bits & 0xffu32) as u8;
            let f = frame_bits(stream_value(y0, y1, y2, y3), o);
            &&& frame_sync(f) == sync
            &&& frame_high(f) == body0
            &&& frame_low(f) == body1
            &&& frame_parity(f) == parity
            &&& (o <= 4 ==> {
                let g = frame_bits(stream_value(y0, y1, y2, x), o);
                &&& frame_sync(g) == sync
                &&& frame_high(g) == body0
                &&& frame_low(g) == body1
                &&& frame_parity(g) == parity
            })
            &&& (((y0 as u32) << 24u32) | ((y1 as u32) << 16u32)) & !(0xffff_ffffu32 >> o) == (((
            d0 as u32) << 24u32) | ((d1 as u32) << 16u32)) & !(0xffff_ffffu32 >> o)
        }),
{
}

/// Reading a packet back from where it was written gives the packet that was
/// written, for every packet whose sync fits in three bits and whose parity
/// fits in one bit, at every offset from 0 to 12, over every slice long
/// enough for the write.
pub proof fn law_packet_write_read(packet: Packet, data: Seq<u8>, offset: usize)
    requires
        packet.sync < 8,
        packet.parity < 2,
        offset <= 12,
        data.len() >= Packet::bytes_needed(offset),
    ensures
        Packet::spec_read(packet.spec_write(data, offset), offset) == packet,
{
    lemma_frame_write_read(
        packet.sync,
        packet.body[0],
        packet.body[1],
        packet.parity,
        offset as u32,
        data[0],
        data[1],
        if data.len() > 3 {
            data[3]
        } else {
            0
        },
    );
    let r = Packet::spec_read(packet.spec_write(data, offset), offset);
    assert(r.body =~= packet.body);
}


/// A packet written at offset 4 keeps the high four bits of the first byte.
proof fn lemma_written_high_bits(bits: u32, d0: u8, d1: u8)
    by (bit_vector)
    ensures
        ((written_bits(bits, 4u32, d0, d1) >> 24u32) & 0xffu32) as u8 & 0xf0u8 == d0 & 0xf0u8,
{
}

/// A frame read at offset 4 does not depend on the fourth byte, and one read
/// at offset 0 depends only on the high four bits of the third byte.
proof fn lemma_frame_bytes_read(b0: u8, b1: u8, b2: u8, b3: u8, c2: u8, c3: u8)
    by (bit_vector)
    ensures
        frame_bits(stream_value(b0, b1, b2, b3), 4u32) == frame_bits(stream_value(b0, b1, b2, c3), 4u32),
        b2 & 0xf0u8 == c2 & 0xf0u8 ==> frame_bits(stream_value(b0, b1, b2, b3), 0u32) == frame_bits(
            stream_value(b0, b1, c2, c3),
            0u32,
        ),
{
}

/// The first byte a packet writes at offset 4 keeps its high four bits.
pub(crate) proof fn lemma_write_keeps_high_bits(packet: Packet, data: Seq<u8>)
    requires
        data.len() >= 3,
    ensures
        packet.spec_write(data, 4)[0] & 0xf0u8 == data[0] & 0xf0u8,
{
    lemma_written_high_bits(
        packet_bits(packet.sync, packet.body[0], packet.body[1], packet.parity),
        data[0],
        data[1],
    );
}

/// The packet read at offset 0 or 4 stays the same when the bytes it is read
/// from keep what it covers: the first two bytes, and the third byte (at
/// offset 0 only its high four bits).
pub(crate) proof fn lemma_read_unchanged(before: Seq<u8>, after: Seq<u8>, offset: usize)
    requires
        offset == 0 || offset == 4,
        before.len() == after.len(),
        before.len() >= 3,
        before[0] == after[0],
        before[1] == after[1],
        offset == 4 ==> before[2] == after[2],
        offset == 0 ==> before[2] & 0xf0u8 == after[2] & 0xf0u8,
    ensures
        Packet::spec_read(after, offset) == Packet::spec_read(before, offset),
{
    let b3: u8 = if before.len() > 3 {
        before[3]
    } else {
        0
    };
    let c3: u8 = if after.len() > 3 {
        after[3]
    } else {
        0
    };
    lemma_frame_bytes_read(before[0], before[1], before[2], b3, after[2], c3);
}

/// Two frames read at offset 0 that hold the same packet come from bytes
/// that agree on the first two bytes and the high four bits of the third;
/// at offset 4, on the low four bits of the first byte and the next two.
proof fn lemma_frame_bytes_equal(a0: u8, a1: u8, a2: u8, a3: u8, b0: u8, b1: u8, b2: u8, b3: u8)
    by (bit_vector)
    ensures
        ({
            let f = frame_bits(stream_value(a0, a1, a2, a3), 0u32);
            let g = frame_bits(stream_value(b0, b1, b2, b3), 0u32);
            frame_sync(f) == frame_sync(g) && frame_high(f) == frame_high(g) && frame_low(f)
                == frame_low(g) && frame_parity(f) == frame_parity(g)
        }) ==> a0 == b0 && a1 == b1 && a2 & 0xf0u8 == b2 & 0xf0u8,
        ({
            let f = frame_bits(stream_value(a0, a1, a2, a3), 4u32);
            let g = frame_bits(stream_value(b0, b1, b2, b3), 4u32);
            frame_sync(f) == frame_sync(g) && frame_high(f) == frame_high(g) && frame_low(f)
                == frame_low(g) && frame_parity(f) == frame_parity(g)
        }) ==> a0 & 0x0fu8 == b0 & 0x0fu8 && a1 == b1 && a2 == b2,
{
}

/// Two byte slices from which the same packet is read at offset 0 agree on
/// their first two bytes and the high four bits of the third; at offset 4,
/// on the low four bits of the first byte and on the next two bytes.
pub(crate) proof fn lemma_read_determines(x: Seq<u8>, y: Seq<u8>, offset: usize)
    requires
        offset == 0 || offset == 4,
        x.len() >= 3,
        y.len() >= 3,
        Packet::spec_read(x, offset) == Packet::spec_read(y, offset),
    ensures
        offset == 0 ==> x[0] == y[0] && x[1] == y[1] && x[2] & 0xf0u8 == y[2] & 0xf0u8,
        offset == 4 ==> x[0] & 0x0fu8 == y[0] & 0x0fu8 && x[1] == y[1] && x[2] == y[2],
{
    let x3: u8 = if x.len() > 3 {
        x[3]
    } else {
        0
    };
    let y3: u8 = if y.len() > 3 {
        y[3]
    } else {
        0
    };
    let px = Packet::spec_read(x, offset);
    let py = Packet::spec_read(y, offset);
    assert(px.body[0] == py.body[0] && px.body[1] == py.body[1]);
    lemma_frame_bytes_equal(x[0], x[1], x[2], x3, y[0], y[1], y[2], y3);
}

/// The parity bit of a packet read from bytes is 0 or 1.
pub(crate) proof fn lemma_read_parity_bit(data: Seq<u8>, offset: usize)
    requires
        data.len() >= 3,
    ensures
        Packet::spec_read(data, offset).parity < 2,
{
    let b3: u8 = if data.len() > 3 {
        data[3]
    } else {
        0
    };
    let f = frame_bits(stream_value(data[0], data[1], data[2], b3), offset as u32);
    assert(((f & 1u32) as u8) < 2) by (bit_vector);
}

/// A byte agrees with another when both its halves do.
pub(crate) proof fn lemma_byte_halves(a: u8, b: u8)
    by (bit_vector)
    ensures
        (a & 0xf0u8 == b & 0xf0u8 && a & 0x0fu8 == b & 0x0fu8) ==> a == b,
{
}

/// A packet written at offset 0 leaves the low four bits of the third byte
/// cleared.
pub(crate) proof fn lemma_write_clears_low_bits(packet: Packet, data: Seq<u8>)
    requires
        data.len() >= 3,
    ensures
        packet.spec_write(data, 0)[2] & 0x0fu8 == 0,
{
    let sync = packet.sync;
    let body0 = packet.body[0];
    let body1 = packet.body[1];
    let parity = packet.parity;
    let d0 = data[0];
    let d1 = data[1];
    assert((((written_bits(packet_bits(sync, body0, body1, parity), 0u32, d0, d1) >> 8u32) & 0xffu32)
        as u8) & 0x0fu8 == 0) by (bit_vector);
}

impl TryFrom<&WordType> for Packet {
    type Error = Error;

    fn try_from(word: &WordType) -> (r: Result<Self>) {
        match word {
            WordType::Empty => Err(Error::WordIsInvalid),
            _ => {
                let sync = if word.is_data() {
                    Self::DATA_SYNC
                } else {
                    Self::SERV_SYNC
                };
                let body = word.bytes();
                let ghost v = word.spec_value();
                assert(body =~= [high_byte(v), low_byte(v)]);
                Ok(Self::new(sync, body, word.parity()))
            },
        }
    }
}

impl vstd::std_specs::convert::TryFromSpecImpl<&WordType> for Packet {
    open spec fn obeys_try_from_spec() -> bool {
        true
    }

    open spec fn try_from_spec(word: &WordType) -> Result<Self> {
        Packet::spec_from_word(*word)
    }
}

impl TryFrom<WordType> for Packet {
    type Error = Error;

    fn try_from(word: WordType) -> (r: Result<Self>) {
        Self::try_from(&word)
    }
}

impl vstd::std_specs::convert::TryFromSpecImpl<WordType> for Packet {
    open spec fn obeys_try_from_spec() -> bool {
        true
    }

    open spec fn try_from_spec(word: WordType) -> Result<Self> {
        Packet::spec_from_word(word)
    }
}

impl Packet {
    /// The packet that carries a word: a data sync for a data word, a
    /// service sync for a command or status word, and the word's body and
    /// parity; there is none for an empty word
    pub open spec fn spec_from_word(word: WordType) -> Result<Packet> {
        match word {
            WordType::Empty => Err(Error::WordIsInvalid),
            _ => Ok(
                Packet {
                    sync: if word is Data {
                        Packet::DATA_SYNC
                    } else {
                        Packet::SERV_SYNC
                    },
                    body: [high_byte(word.spec_value()), low_byte(word.spec_value())],
                    parity: word.spec_parity(),
                },
            ),
        }
    }
}

} // verus!
