use player_core::config::StreamConfig;
use player_core::ring::{open_ring, ring_can_be_made, silence_rest, RingReader, RingWriter};

fn needs_send<T: Send>(_value: &T) {}

#[test]
fn samples_come_out_as_they_went_in() {
    let (mut writer, mut reader): (RingWriter<i16>, RingReader<i16>) = open_ring(8);
    assert_eq!(writer.write_samples(&[1, -2, 3]), &[] as &[i16]);
    let mut block = [7i16; 3];
    assert_eq!(reader.fill(&mut block, 0), 3);
    assert_eq!(block, [1, -2, 3]);
}

#[test]
fn missing_samples_are_silence() {
    let (mut writer, mut reader) = open_ring::<u8>(8);
    assert!(writer.write_samples(&[1, 2]).is_empty());
    let mut block = [7u8; 5];
    assert_eq!(reader.fill(&mut block, 128), 2);
    assert_eq!(block, [1, 2, 128, 128, 128]);
}

#[test]
fn empty_ring_gives_silence() {
    let (_writer, mut reader) = open_ring::<u8>(8);
    let mut block = [7u8; 4];
    assert_eq!(reader.fill(&mut block, 128), 0);
    assert_eq!(block, [128u8; 4]);
}

#[test]
fn ring_without_slots_gives_silence() {
    let (mut writer, mut reader) = open_ring::<u32>(0);
    assert!(writer.write_samples(&[]).is_empty());
    let mut block = [7u32; 2];
    assert_eq!(reader.fill(&mut block, 5), 0);
    assert_eq!(block, [5u32; 2]);
}

#[test]
fn empty_block_takes_nothing() {
    let (mut writer, mut reader) = open_ring::<u8>(8);
    assert!(writer.write_samples(&[1, 2]).is_empty());
    let mut empty: [u8; 0] = [];
    assert_eq!(reader.fill(&mut empty, 0), 0);
    let mut block = [0u8; 2];
    assert_eq!(reader.fill(&mut block, 0), 2);
    assert_eq!(block, [1, 2]);
}

#[test]
fn ring_takes_its_whole_capacity() {
    let (mut writer, mut reader) = open_ring::<u32>(5);
    assert!(writer.write_samples(&[1, 2, 3, 4, 5]).is_empty());
    let mut block = [0u32; 6];
    assert_eq!(reader.fill(&mut block, 9), 5);
    assert_eq!(block, [1, 2, 3, 4, 5, 9]);
}

#[test]
fn order_is_kept_over_many_rounds() {
    let (mut writer, mut reader) = open_ring::<u32>(7);
    let mut next_in = 0u32;
    let mut next_out = 0u32;
    for round in 0..200usize {
        let mut samples = Vec::new();
        for _ in 0..(round % 4) {
            samples.push(next_in);
            next_in += 1;
        }
        assert!(writer.write_samples(&samples).is_empty());
        let mut block = [u32::MAX; 5];
        let got = reader.fill(&mut block, u32::MAX);
        for value in &block[..got] {
            assert_eq!(*value, next_out);
            next_out += 1;
        }
        for value in &block[got..] {
            assert_eq!(*value, u32::MAX);
        }
    }
    assert_eq!(next_in, next_out);
}

#[test]
fn writes_are_queued_behind_each_other() {
    let (mut writer, mut reader) = open_ring::<u8>(8);
    assert!(writer.write_samples(&[1, 2]).is_empty());
    assert!(writer.write_samples(&[3]).is_empty());
    let mut first = [0u8; 2];
    assert_eq!(reader.fill(&mut first, 0), 2);
    let mut second = [0u8; 2];
    assert_eq!(reader.fill(&mut second, 0), 1);
    assert_eq!((first, second), ([1, 2], [3, 0]));
}

#[test]
fn silence_behind_what_was_written() {
    let mut block = [1u8, 2, 3, 4];
    silence_rest(&mut block, 2, 0);
    assert_eq!(block, [1, 2, 0, 0]);
    silence_rest(&mut block, 4, 9);
    assert_eq!(block, [1, 2, 0, 0]);
    silence_rest(&mut block, 0, 9);
    assert_eq!(block, [9u8; 4]);
}

#[test]
fn both_ends_can_change_threads() {
    let (writer, reader) = open_ring::<u64>(8);
    needs_send(&writer);
    needs_send(&reader);
}

#[test]
fn room_never_used_takes_everything_at_once() {
    let (mut writer, mut reader) = open_ring::<u8>(6);
    assert!(writer.write_samples(&[1, 2, 3, 4]).is_empty());
    assert!(writer.write_samples(&[5, 6]).is_empty());
    let mut block = [0u8; 6];
    assert_eq!(reader.fill(&mut block, 0), 6);
    assert_eq!(block, [1, 2, 3, 4, 5, 6]);
}

#[test]
fn usual_rings_can_be_made() {
    assert!(ring_can_be_made::<f64>(&StreamConfig { channels: 8, sample_rate: 192000 }));
    assert!(ring_can_be_made::<i8>(&StreamConfig { channels: 0, sample_rate: 0 }));
}

#[test]
fn rings_beyond_memory_cannot_be_made() {
    let config = StreamConfig { channels: u16::MAX, sample_rate: u32::MAX };
    assert!(!ring_can_be_made::<[u64; 1000000]>(&config));
}

#[test]
fn floating_point_travels_as_bit_patterns() {
    let (mut writer, mut reader) = open_ring::<u32>(4);
    let samples = [0.25f32, -0.0, f32::NAN, -1.0];
    let slots = [
        samples[0].to_bits(),
        samples[1].to_bits(),
        samples[2].to_bits(),
        samples[3].to_bits(),
    ];
    assert!(writer.write_samples(&slots).is_empty());
    let mut block = [0u32; 5];
    assert_eq!(reader.fill(&mut block, 0f32.to_bits()), 4);
    for i in 0..4usize {
        assert_eq!(block[i], samples[i].to_bits());
    }
    assert_eq!(f32::from_bits(block[4]), 0.0);
}
