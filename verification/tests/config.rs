use player_core::config::{
    ring_buffer_len, select_output_config, select_output_device, OutputConfig, StreamConfig,
    SupportedConfig,
};
use player_core::format::SampleFormat;

fn supported(channels: u16, min_sample_rate: u32, sample_format: SampleFormat) -> SupportedConfig {
    SupportedConfig { channels, min_sample_rate, sample_format }
}

fn output(channels: u16, sample_rate: u32, sample_format: SampleFormat) -> OutputConfig {
    OutputConfig { config: StreamConfig { channels, sample_rate }, sample_format }
}

fn names(list: &[&str]) -> Vec<String> {
    let mut owned = Vec::new();
    for name in list {
        owned.push(name.to_string());
    }
    owned
}

#[test]
fn empty_name_means_default_device() {
    assert_eq!(select_output_device("", &names(&["a", "", "b"])), None);
}

#[test]
fn device_is_found_by_name() {
    assert_eq!(select_output_device("b", &names(&["a", "b", "c"])), Some(1));
}

#[test]
fn first_device_of_that_name_is_used() {
    assert_eq!(select_output_device("b", &names(&["a", "b", "b"])), Some(1));
}

#[test]
fn unknown_name_means_default_device() {
    assert_eq!(select_output_device("x", &names(&["a", "b"])), None);
    assert_eq!(select_output_device("x", &[]), None);
}

#[test]
fn initial_selection_without_configs() {
    assert_eq!(select_output_config(&[]), output(2, 0, SampleFormat::F32));
}

#[test]
fn initial_selection_that_nothing_beats() {
    let configs = [supported(2, 0, SampleFormat::F32), supported(1, 0, SampleFormat::I16)];
    assert_eq!(select_output_config(&configs), output(2, 0, SampleFormat::F32));
}

#[test]
fn any_rate_above_zero_is_taken_up() {
    let configs = [supported(1, 8000, SampleFormat::U8)];
    assert_eq!(select_output_config(&configs), output(1, 8000, SampleFormat::U8));
}

#[test]
fn more_channels_win_over_rate() {
    let configs = [supported(2, 48000, SampleFormat::F32), supported(6, 44100, SampleFormat::I16)];
    assert_eq!(select_output_config(&configs), output(6, 44100, SampleFormat::I16));
}

#[test]
fn last_config_that_beats_any_respect_wins() {
    let configs = [
        supported(6, 44100, SampleFormat::I16),
        supported(2, 48000, SampleFormat::I16),
        supported(1, 48000, SampleFormat::F64),
        supported(1, 48000, SampleFormat::F32),
    ];
    assert_eq!(select_output_config(&configs), output(1, 48000, SampleFormat::F64));
}

#[test]
fn equal_config_is_not_taken_up_again() {
    let configs = [supported(2, 48000, SampleFormat::I16), supported(2, 48000, SampleFormat::U16)];
    assert_eq!(select_output_config(&configs), output(2, 48000, SampleFormat::I16));
}

#[test]
fn unbeaten_config_is_selected_wherever_it_stands() {
    let best = supported(8, 96000, SampleFormat::F64);
    let low = supported(2, 44100, SampleFormat::I16);
    let high = supported(2, 96000, SampleFormat::F32);
    let expected = output(8, 96000, SampleFormat::F64);
    assert_eq!(select_output_config(&[best, low, high]), expected);
    assert_eq!(select_output_config(&[low, best, high]), expected);
    assert_eq!(select_output_config(&[low, high, best]), expected);
}

#[test]
fn wide_integer_format_can_be_selected() {
    let configs = [supported(2, 48000, SampleFormat::I64)];
    assert_eq!(select_output_config(&configs), output(2, 48000, SampleFormat::I64));
}

#[test]
fn ring_lengths() {
    assert_eq!(ring_buffer_len(&StreamConfig { channels: 2, sample_rate: 44100 }), 11288);
    assert_eq!(ring_buffer_len(&StreamConfig { channels: 2, sample_rate: 48000 }), 12288);
    assert_eq!(ring_buffer_len(&StreamConfig { channels: 1, sample_rate: 8000 }), 1024);
    assert_eq!(ring_buffer_len(&StreamConfig { channels: 6, sample_rate: 11025 }), 8466);
}

#[test]
fn ring_length_of_degenerate_configs() {
    assert_eq!(ring_buffer_len(&StreamConfig { channels: 2, sample_rate: 0 }), 0);
    assert_eq!(ring_buffer_len(&StreamConfig { channels: 2, sample_rate: 7 }), 0);
    assert_eq!(ring_buffer_len(&StreamConfig { channels: 2, sample_rate: 8 }), 2);
    assert_eq!(ring_buffer_len(&StreamConfig { channels: 0, sample_rate: 48000 }), 0);
}
