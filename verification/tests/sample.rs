use player_core::ring::open_ring;
use player_core::sample::Sample;

fn passes_through<T: Sample + PartialEq + std::fmt::Debug>(low: T, high: T) {
    let (mut writer, mut reader) = open_ring::<T>(2);
    assert!(writer.write_samples(&[low, high]).is_empty());
    let mut block = [high, high, high];
    assert_eq!(reader.fill(&mut block, low), 2);
    assert_eq!(block, [low, high, low]);
}

#[test]
fn samples_are_their_numbers() {
    assert_eq!((-128i8).to_number(), -128);
    assert_eq!(i16::MIN.to_number(), -32768);
    assert_eq!(i32::MAX.to_number(), 2147483647);
    assert_eq!(255u8.to_number(), 255);
    assert_eq!(u16::MAX.to_number(), 65535);
    assert_eq!(u32::MAX.to_number(), 4294967295);
    assert_eq!(u64::MAX.to_number(), 18446744073709551615);
}

#[test]
fn every_sample_type_passes_through_a_ring() {
    passes_through(i8::MIN, i8::MAX);
    passes_through(i16::MIN, i16::MAX);
    passes_through(i32::MIN, i32::MAX);
    passes_through(u8::MIN, u8::MAX);
    passes_through(u16::MIN, u16::MAX);
    passes_through(u32::MIN, u32::MAX);
    passes_through(u64::MIN, u64::MAX);
}
