use thermosoft_rs::packet::{SensorBatch, SensorDataPacket, PACKET_LEN};
use thermosoft_rs::{BATCH_SIZE, SENSOR_COUNT};

fn sample(cycle: usize, sensor: usize) -> i32 {
    (cycle as i32 * 100 + sensor as i32) * if sensor % 2 == 0 { 1 } else { -1 }
}

fn word(bytes: &[u8], offset: usize) -> [u8; 4] {
    [bytes[offset], bytes[offset + 1], bytes[offset + 2], bytes[offset + 3]]
}

#[test]
fn ten_cycles_fill_and_flush_one_packet() {
    let mut batch = SensorBatch::new();
    for cycle in 0..BATCH_SIZE {
        for sensor in 0..SENSOR_COUNT {
            batch.record(sensor, sample(cycle, sensor));
        }
        let full = batch.advance();
        assert_eq!(full, cycle == BATCH_SIZE - 1);
    }
    let bytes = batch.flush(7, 123_456);
    assert_eq!(bytes.len(), 168);
    assert_eq!(PACKET_LEN, 168);
    assert_eq!(u32::from_le_bytes(word(&bytes, 0)), 7);
    for sensor in 0..SENSOR_COUNT {
        for cycle in 0..BATCH_SIZE {
            let offset = 4 + 4 * (BATCH_SIZE * sensor + cycle);
            assert_eq!(i32::from_le_bytes(word(&bytes, offset)), sample(cycle, sensor));
        }
    }
    assert_eq!(u32::from_le_bytes(word(&bytes, 164)), 123_456);
    batch.reset();
    assert_eq!(batch.index, 0);
    assert_eq!(batch.packet.packet_tag, 7);
}

#[test]
fn negative_sample_bytes() {
    let mut p = SensorDataPacket::new();
    p.tc2_temps[0] = -2;
    p.packet_tag = 0x0102_0304;
    let bytes = p.as_bytes();
    assert_eq!(&bytes[0..4], &[0x04, 0x03, 0x02, 0x01]);
    assert_eq!(&bytes[44..48], &[0xFE, 0xFF, 0xFF, 0xFF]);
}

#[test]
fn new_packet_is_zero() {
    let p = SensorDataPacket::new();
    assert_eq!(p.as_bytes(), [0u8; 168]);
    let d = SensorDataPacket::default();
    assert_eq!(d.as_bytes(), [0u8; 168]);
}

#[test]
fn slots_are_overwritten_not_cleared() {
    let mut batch = SensorBatch::new();
    batch.record(3, 11);
    batch.advance();
    batch.reset();
    assert_eq!(batch.packet.tc4_temps[0], 11);
    batch.record(3, 22);
    assert_eq!(batch.packet.tc4_temps[0], 22);
    assert_eq!(batch.index, 0);
}

#[test]
fn finish_stamps_counts_tags_and_restarts() {
    let mut batch = SensorBatch::new();
    assert_eq!(batch.next_tag, 0);
    for round in 0..3u32 {
        for cycle in 0..BATCH_SIZE {
            for sensor in 0..SENSOR_COUNT {
                batch.record(sensor, sample(cycle, sensor) + round as i32);
            }
            batch.advance();
        }
        let bytes = batch.finish(1000 * round);
        assert_eq!(u32::from_le_bytes(word(&bytes, 0)), round);
        assert_eq!(i32::from_le_bytes(word(&bytes, 4)), round as i32);
        assert_eq!(u32::from_le_bytes(word(&bytes, 164)), 1000 * round);
        assert_eq!(batch.index, 0);
        assert_eq!(batch.next_tag, round + 1);
    }
}

#[test]
fn tag_wraps_after_the_largest() {
    let mut batch = SensorBatch::new();
    batch.next_tag = u32::MAX;
    let bytes = batch.finish(5);
    assert_eq!(u32::from_le_bytes(word(&bytes, 0)), u32::MAX);
    assert_eq!(batch.next_tag, 0);
    assert_eq!(bytes.len(), PACKET_LEN);
}
