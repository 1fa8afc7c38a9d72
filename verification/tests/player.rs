use player_core::config::{OutputConfig, StreamConfig};
use player_core::format::{BufferFormat, SampleFormat};
use player_core::player::{
    AudioStreamPlayer, DecodedBlock, ResamplerParams, SignalSpec, WritePlan, INITIAL_VOLUME,
};
use player_core::ring::RingReader;
use std::sync::atomic::{AtomicBool, AtomicU8, Ordering};
use std::sync::Arc;

const STEREO: SignalSpec = SignalSpec { rate: 44100, channels: 3 };
const MONO: SignalSpec = SignalSpec { rate: 44100, channels: 1 };

fn player_with(
    volume: u8,
    is_dead: bool,
) -> (AudioStreamPlayer<i16, &'static str>, RingReader<i16>) {
    AudioStreamPlayer::new(
        OutputConfig {
            config: StreamConfig { channels: 2, sample_rate: 48000 },
            sample_format: SampleFormat::I16,
        },
        Arc::new(AtomicU8::new(volume)),
        Arc::new(AtomicBool::new(is_dead)),
    )
}

fn player() -> (AudioStreamPlayer<i16, &'static str>, RingReader<i16>) {
    player_with(INITIAL_VOLUME, false)
}

fn block(frames: usize, capacity: usize, spec: SignalSpec) -> DecodedBlock {
    DecodedBlock { frames, capacity, spec, format: BufferFormat::F32 }
}

fn replace(spec: SignalSpec, duration: usize) -> WritePlan {
    WritePlan::Replace(ResamplerParams { spec, sample_rate: 48000, channels: 2, duration })
}

#[test]
fn new_player_reports_its_configuration() {
    let (player, _reader) = player();
    assert_eq!(*player.stream_config(), StreamConfig { channels: 2, sample_rate: 48000 });
    assert_eq!(player.sample_format(), SampleFormat::I16);
    assert!(player.resampler.is_none());
    assert_eq!(INITIAL_VOLUME, u8::MAX >> 1);
    assert_eq!(player.volume.load(Ordering::SeqCst), 127);
    assert_eq!(player.resampler_spec, SignalSpec { rate: 0, channels: 0 });
    assert_eq!((player.resampler_duration, player.resampler_target_channels), (0, 0));
}

#[test]
fn empty_block_is_skipped() {
    let (player, _reader) = player();
    assert_eq!(player.plan_write(&block(0, 1152, STEREO)), WritePlan::Skip);
}

#[test]
fn first_block_needs_a_resampler() {
    let (player, _reader) = player();
    assert_eq!(player.plan_write(&block(1, 1152, STEREO)), replace(STEREO, 1152));
}

#[test]
fn resampler_is_reused_for_blocks_alike() {
    let (mut player, _reader) = player();
    player.install_resampler("first", &block(1, 1152, STEREO));
    assert_eq!(player.resampler, Some("first"));
    assert_eq!(player.resampler_target_channels, 2);
    assert_eq!(player.plan_write(&block(1152, 1152, STEREO)), WritePlan::Reuse);
    assert_eq!(player.plan_write(&block(0, 4096, MONO)), WritePlan::Skip);
}

#[test]
fn resampler_is_replaced_for_other_blocks() {
    let (mut player, _reader) = player();
    player.install_resampler("first", &block(1, 1152, STEREO));
    assert_eq!(player.plan_write(&block(1, 4096, STEREO)), replace(STEREO, 4096));
    assert_eq!(player.plan_write(&block(1, 1152, MONO)), replace(MONO, 1152));
    let faster = SignalSpec { rate: 96000, channels: 3 };
    assert_eq!(player.plan_write(&block(1, 1152, faster)), replace(faster, 1152));
    player.install_resampler("second", &block(1, 1152, MONO));
    assert_eq!(player.resampler, Some("second"));
    assert_eq!(player.plan_write(&block(1, 1152, MONO)), WritePlan::Reuse);
    assert_eq!(player.plan_write(&block(1, 1152, STEREO)), replace(STEREO, 1152));
}

#[test]
fn resampler_is_replaced_when_channels_of_the_stream_change() {
    let (mut player, _reader) = player();
    player.install_resampler("first", &block(1, 1152, STEREO));
    player.config.channels = 1;
    assert_eq!(
        player.plan_write(&block(1, 1152, STEREO)),
        WritePlan::Replace(ResamplerParams {
            spec: STEREO,
            sample_rate: 48000,
            channels: 1,
            duration: 1152,
        })
    );
}

#[test]
fn player_feeds_the_device() {
    let (mut player, mut reader) = player();
    assert!(player.prod.write_samples(&[5, 6, 7]).is_empty());
    let mut out = [1i16; 4];
    assert_eq!(reader.fill(&mut out, 0), 3);
    assert_eq!(out, [5, 6, 7, 0]);
}

#[test]
fn player_shares_volume_and_death_with_its_stream() {
    let volume = Arc::new(AtomicU8::new(1));
    let is_dead = Arc::new(AtomicBool::new(false));
    let output = OutputConfig {
        config: StreamConfig { channels: 2, sample_rate: 48000 },
        sample_format: SampleFormat::I16,
    };
    let (mut player, _reader): (AudioStreamPlayer<i16, &'static str>, RingReader<i16>) =
        AudioStreamPlayer::new(output, volume.clone(), is_dead.clone());
    volume.store(9, Ordering::SeqCst);
    is_dead.store(true, Ordering::SeqCst);
    player.install_resampler("first", &block(1, 1152, STEREO));
    assert_eq!(player.volume.load(Ordering::SeqCst), 9);
    assert!(player.is_dead.load(Ordering::SeqCst));
}

#[test]
fn write_ignores_volume_and_death() {
    let mut heard = Vec::new();
    for (volume, is_dead) in [(0u8, true), (255u8, false)] {
        let (mut player, mut reader) = player_with(volume, is_dead);
        assert_eq!(player.plan_write(&block(1, 1152, STEREO)), replace(STEREO, 1152));
        player.install_resampler("first", &block(1, 1152, STEREO));
        assert_eq!(player.plan_write(&block(1, 1152, STEREO)), WritePlan::Reuse);
        assert!(player.prod.write_samples(&[100, -100]).is_empty());
        let mut out = [1i16; 3];
        assert_eq!(reader.fill(&mut out, 0), 2);
        heard.push(out);
    }
    assert_eq!(heard, vec![[100, -100, 0], [100, -100, 0]]);
}
