//! The batched sensor packet and its wire encoding.
//!
//! On the wire a packet is its fields in declaration order with no padding:
//! the tag, the four sample arrays and the timestamp, each integer in
//! little-endian order (the byte order of the Cortex-M target that produces
//! the packets, which the consumer reads natively).
use vstd::prelude::*;
use crate::{BATCH_SIZE, SENSOR_COUNT};

verus! {

/// Length in bytes of an encoded packet.
pub const PACKET_LEN: usize = 168;

/// The four little-endian bytes of the 32-bit pattern `u` (`0 <= u < 2^32`).
pub open spec fn le_bytes(u: int) -> Seq<u8> {
    seq![(u % 256) as u8, ((u / 256) % 256) as u8, ((u / 65536) % 256) as u8, (u / 16777216) as u8]
}

/// The wire bytes of an unsigned 32-bit field.
pub open spec fn u32_bytes(x: u32) -> Seq<u8> {
    le_bytes(x as int)
}

/// The wire bytes of a signed 32-bit field: its two's complement pattern.
pub open spec fn i32_bytes(x: i32) -> Seq<u8> {
    le_bytes(if x >= 0 { x as int } else { x + 4294967296 })
}

/// The wire bytes of a run of signed 32-bit fields, in order.
pub open spec fn samples_bytes(s: Seq<i32>) -> Seq<u8>
    decreases s.len(),
{
    if s.len() == 0 {
        Seq::empty()
    } else {
        samples_bytes(s.drop_last()) + i32_bytes(s.last())
    }
}

/// One packet: a tag, `BATCH_SIZE` samples from each of the four sensors
/// and the time it was sent, in milliseconds.
#[derive(Clone, Copy)]
pub struct SensorDataPacket {
    pub packet_tag: u32,
    pub tc1_temps: [i32; BATCH_SIZE],
    pub tc2_temps: [i32; BATCH_SIZE],
    pub tc3_temps: [i32; BATCH_SIZE],
    pub tc4_temps: [i32; BATCH_SIZE],
    pub packet_time: u32,
}

impl SensorDataPacket {
    /// The samples of sensor `sensor` (0 to 3).
    pub open spec fn samples(self, sensor: int) -> Seq<i32> {
        if sensor == 0 {
            self.tc1_temps@
        } else if sensor == 1 {
            self.tc2_temps@
        } else if sensor == 2 {
            self.tc3_temps@
        } else {
            self.tc4_temps@
        }
    }

    /// The packet as it is sent.
    pub open spec fn wire(self) -> Seq<u8> {
        u32_bytes(self.packet_tag) + samples_bytes(self.tc1_temps@) + samples_bytes(self.tc2_temps@)
            + samples_bytes(self.tc3_temps@) + samples_bytes(self.tc4_temps@) + u32_bytes(
            self.packet_time,
        )
    }

    /// A packet with every field zero.
    pub fn new() -> (r: SensorDataPacket)
        ensures
            r.packet_tag == 0,
            r.packet_time == 0,
            forall|s: int, i: int| 0 <= s < SENSOR_COUNT && 0 <= i < BATCH_SIZE ==> #[trigger] r.samples(s)[i] == 0,
            forall|s: int| 0 <= s < SENSOR_COUNT ==> #[trigger] r.samples(s).len() == BATCH_SIZE,
    {
        SensorDataPacket {
            packet_tag: 0,
            tc1_temps: [0; BATCH_SIZE],
            tc2_temps: [0; BATCH_SIZE],
            tc3_temps: [0; BATCH_SIZE],
            tc4_temps: [0; BATCH_SIZE],
            packet_time: 0,
        }
    }

    /// The bytes of the packet as it is sent.
    pub fn as_bytes(&self) -> (r: [u8; PACKET_LEN])
        ensures
            r@ == self.wire(),
    {
        let mut out: [u8; PACKET_LEN] = [0u8; PACKET_LEN];
        proof {
            lemma_samples_bytes_len(self.tc1_temps@);
            lemma_samples_bytes_len(self.tc2_temps@);
            lemma_samples_bytes_len(self.tc3_temps@);
            lemma_samples_bytes_len(self.tc4_temps@);
        }
        put_le(&mut out, 0, self.packet_tag);
        put_samples(&mut out, 4, &self.tc1_temps);
        put_samples(&mut out, 44, &self.tc2_temps);
        put_samples(&mut out, 84, &self.tc3_temps);
        put_samples(&mut out, 124, &self.tc4_temps);
        put_le(&mut out, 164, self.packet_time);
        assert(out@ =~= out@.subrange(0, 168));
        assert(out@ =~= self.wire());
        out
    }
}

impl Default for SensorDataPacket {
    fn default() -> (r: SensorDataPacket)
        ensures
            r.packet_tag == 0,
            r.packet_time == 0,
            forall|s: int, i: int| 0 <= s < SENSOR_COUNT && 0 <= i < BATCH_SIZE ==> #[trigger] r.samples(s)[i] == 0,
    {
        SensorDataPacket::new()
    }
}

proof fn lemma_samples_bytes_len(s: Seq<i32>)
    ensures
        samples_bytes(s).len() == 4 * s.len(),
    decreases s.len(),
{
    if s.len() > 0 {
        lemma_samples_bytes_len(s.drop_last());
    }
}

/// Stores the four little-endian bytes of the pattern `u` at `pos`,
/// keeping the bytes before it.
fn put_le(out: &mut [u8; PACKET_LEN], pos: usize, u: u32)
    requires
        pos + 4 <= PACKET_LEN,
    ensures
        final(out)@.subrange(0, pos + 4) == old(out)@.subrange(0, pos as int) + le_bytes(u as int),
{
    out[pos] = (u % 256) as u8;
    out[pos + 1] = ((u / 256) % 256) as u8;
    out[pos + 2] = ((u / 65536) % 256) as u8;
    out[pos + 3] = (u / 16777216) as u8;
    assert(out@.subrange(0, pos + 4) =~= old(out)@.subrange(0, pos as int) + le_bytes(u as int));
}

/// Stores the wire bytes of `samples` at `pos`, keeping the bytes before them.
fn put_samples(out: &mut [u8; PACKET_LEN], pos: usize, samples: &[i32; BATCH_SIZE])
    requires
        pos + 4 * BATCH_SIZE <= PACKET_LEN,
    ensures
        final(out)@.subrange(0, pos + 4 * BATCH_SIZE) == old(out)@.subrange(0, pos as int)
            + samples_bytes(samples@),
{
    let ghost start = old(out)@.subrange(0, pos as int);
    let mut i: usize = 0;
    assert(out@.subrange(0, pos as int) + samples_bytes(samples@.subrange(0, 0)) =~= start);
    while i < BATCH_SIZE
        invariant
            i <= BATCH_SIZE,
            pos + 4 * BATCH_SIZE <= PACKET_LEN,
            samples@.len() == BATCH_SIZE,
            out@.subrange(0, pos + 4 * i) == start + samples_bytes(samples@.subrange(0, i as int)),
        decreases BATCH_SIZE - i,
    {
        let x = samples[i];
        let pattern: u32 = if x >= 0 {
            x as u32
        } else {
            (x as i64 + 4294967296) as u32
        };
        let ghost before = out@;
        put_le(out, pos + 4 * i, pattern);
        proof {
            let next = samples@.subrange(0, i + 1);
            assert(next.drop_last() =~= samples@.subrange(0, i as int));
            assert(next.last() == samples@[i as int]);
            assert(before.subrange(0, pos + 4 * i) == start + samples_bytes(samples@.subrange(0, i as int)));
        }
        i = i + 1;
        assert(out@.subrange(0, pos + 4 * i) =~= start + samples_bytes(samples@.subrange(0, i as int)));
    }
    assert(samples@.subrange(0, BATCH_SIZE as int) =~= samples@);
}

proof fn lemma_samples_bytes_index(s: Seq<i32>, i: int)
    requires
        0 <= i < s.len(),
    ensures
        samples_bytes(s).len() == 4 * s.len(),
        samples_bytes(s).subrange(4 * i, 4 * i + 4) == i32_bytes(s[i]),
    decreases s.len(),
{
    lemma_samples_bytes_len(s);
    lemma_samples_bytes_len(s.drop_last());
    if i < s.len() - 1 {
        lemma_samples_bytes_index(s.drop_last(), i);
        assert(samples_bytes(s).subrange(4 * i, 4 * i + 4) =~= samples_bytes(s.drop_last()).subrange(
            4 * i,
            4 * i + 4,
        ));
    } else {
        assert(samples_bytes(s).subrange(4 * i, 4 * i + 4) =~= i32_bytes(s.last()));
    }
}

/// The wire layout of a packet: the tag at offset 0, sample `i` of sensor
/// `s` at offset `4 + 4 * (BATCH_SIZE * s + i)`, the timestamp at offset
/// `4 + 16 * BATCH_SIZE`, four bytes each, `PACKET_LEN` bytes in all.
pub proof fn lemma_wire_layout(p: SensorDataPacket)
    ensures
        p.wire().len() == PACKET_LEN,
        p.wire().subrange(0, 4) == u32_bytes(p.packet_tag),
        forall|s: int, i: int|
            0 <= s < SENSOR_COUNT && 0 <= i < BATCH_SIZE ==> #[trigger] p.wire().subrange(
                4 + 4 * (BATCH_SIZE * s + i),
                8 + 4 * (BATCH_SIZE * s + i),
            ) == i32_bytes(p.samples(s)[i]),
        p.wire().subrange(4 + 16 * BATCH_SIZE, 8 + 16 * BATCH_SIZE) == u32_bytes(p.packet_time),
{
    let w = p.wire();
    let b1 = samples_bytes(p.tc1_temps@);
    let b2 = samples_bytes(p.tc2_temps@);
    let b3 = samples_bytes(p.tc3_temps@);
    let b4 = samples_bytes(p.tc4_temps@);
    lemma_samples_bytes_len(p.tc1_temps@);
    lemma_samples_bytes_len(p.tc2_temps@);
    lemma_samples_bytes_len(p.tc3_temps@);
    lemma_samples_bytes_len(p.tc4_temps@);
    assert(w.subrange(0, 4) =~= u32_bytes(p.packet_tag));
    assert(w.subrange(164, 168) =~= u32_bytes(p.packet_time));
    assert forall|s: int, i: int| 0 <= s < SENSOR_COUNT && 0 <= i < BATCH_SIZE implies #[trigger] w.subrange(
        4 + 4 * (BATCH_SIZE * s + i),
        8 + 4 * (BATCH_SIZE * s + i),
    ) == i32_bytes(p.samples(s)[i]) by {
        lemma_samples_bytes_index(p.samples(s), i);
        let b = samples_bytes(p.samples(s));
        let base = 4 + 40 * s;
        assert(w.subrange(base, base + 40) =~= b);
        assert(w.subrange(base + 4 * i, base + 4 * i + 4) =~= b.subrange(4 * i, 4 * i + 4));
    }
}

/// A packet being filled, with the slot that the current cycle writes and
/// the tag of the next packet sent.
pub struct SensorBatch {
    pub packet: SensorDataPacket,
    pub index: usize,
    pub next_tag: u32,
}

/// The tag after `tag`: tags count up and wrap from `u32::MAX` to 0.
pub open spec fn tag_after(tag: u32) -> u32 {
    if tag == u32::MAX {
        0
    } else {
        (tag + 1) as u32
    }
}

impl SensorBatch {
    /// The slot index never passes the batch size.
    pub open spec fn wf(self) -> bool {
        self.index <= BATCH_SIZE
    }

    /// An empty batch: a zeroed packet, slot 0, and tag 0 for the first packet.
    pub fn new() -> (r: SensorBatch)
        ensures
            r.wf(),
            r.index == 0,
            r.next_tag == 0,
            r.packet.packet_tag == 0,
            r.packet.packet_time == 0,
            forall|s: int, i: int| 0 <= s < SENSOR_COUNT && 0 <= i < BATCH_SIZE ==> #[trigger] r.packet.samples(s)[i] == 0,
    {
        SensorBatch { packet: SensorDataPacket::new(), index: 0, next_tag: 0 }
    }

    /// Writes `sample` into the current slot of sensor `sensor`. The slot
    /// index is left as it is.
    pub fn record(&mut self, sensor: usize, sample: i32)
        requires
            old(self).index < BATCH_SIZE,
            sensor < SENSOR_COUNT,
        ensures
            final(self).index == old(self).index,
            final(self).next_tag == old(self).next_tag,
            final(self).packet.packet_tag == old(self).packet.packet_tag,
            final(self).packet.packet_time == old(self).packet.packet_time,
            final(self).packet.samples(sensor as int) == old(self).packet.samples(sensor as int).update(
                old(self).index as int,
                sample,
            ),
            forall|s: int| 0 <= s < SENSOR_COUNT && s != sensor ==> #[trigger] final(self).packet.samples(s)
                == old(self).packet.samples(s),
    {
        let i = self.index;
        if sensor == 0 {
            self.packet.tc1_temps[i] = sample;
        } else if sensor == 1 {
            self.packet.tc2_temps[i] = sample;
        } else if sensor == 2 {
            self.packet.tc3_temps[i] = sample;
        } else {
            self.packet.tc4_temps[i] = sample;
        }
        assert(self.packet.samples(sensor as int) =~= old(self).packet.samples(sensor as int).update(
            i as int,
            sample,
        ));
    }

    /// Moves to the next slot; true when the batch is then full.
    pub fn advance(&mut self) -> (full: bool)
        requires
            old(self).index < BATCH_SIZE,
        ensures
            final(self).index == old(self).index + 1,
            final(self).next_tag == old(self).next_tag,
            final(self).packet == old(self).packet,
            full == (final(self).index == BATCH_SIZE),
    {
        self.index = self.index + 1;
        self.index == BATCH_SIZE
    }

    /// Stamps the packet with its tag and timestamp and returns its bytes.
    pub fn flush(&mut self, tag: u32, timestamp: u32) -> (r: [u8; PACKET_LEN])
        ensures
            final(self).index == old(self).index,
            final(self).next_tag == old(self).next_tag,
            final(self).packet == (SensorDataPacket {
                packet_tag: tag,
                packet_time: timestamp,
                ..old(self).packet
            }),
            r@ == final(self).packet.wire(),
    {
        self.packet.packet_tag = tag;
        self.packet.packet_time = timestamp;
        self.packet.as_bytes()
    }

    /// Starts the next batch at slot 0; the samples stay until overwritten.
    pub fn reset(&mut self)
        ensures
            final(self).index == 0,
            final(self).next_tag == old(self).next_tag,
            final(self).packet == old(self).packet,
    {
        self.index = 0;
    }

    /// Ends a full batch: stamps the packet with the next tag and
    /// `timestamp`, returns its bytes, moves on to the following tag and
    /// starts the next batch at slot 0.
    pub fn finish(&mut self, timestamp: u32) -> (r: [u8; PACKET_LEN])
        ensures
            final(self).packet == (SensorDataPacket {
                packet_tag: old(self).next_tag,
                packet_time: timestamp,
                ..old(self).packet
            }),
            r@ == final(self).packet.wire(),
            final(self).next_tag == tag_after(old(self).next_tag),
            final(self).index == 0,
    {
        let bytes = self.flush(self.next_tag, timestamp);
        self.next_tag = if self.next_tag == u32::MAX {
            0
        } else {
            self.next_tag + 1
        };
        self.reset();
        bytes
    }
}

} // verus!
