//! Which output device to use, and how to drive it.
use crate::format::{get_sample_format_quality_level, quality_level, SampleFormat};
use vstd::prelude::*;

verus! {

/// How many milliseconds of audio the ring between decoder and device holds.
pub const RING_BUF_SIZE_MS: usize = 128;

/// One way in which a device can be driven.
#[derive(Clone, Copy, Debug, PartialEq, Eq, Structural)]
pub struct SupportedConfig {
    pub channels: u16,
    pub min_sample_rate: u32,
    pub sample_format: SampleFormat,
}

/// The channels and the rate of an output stream.
#[derive(Clone, Copy, Debug, PartialEq, Eq, Structural)]
pub struct StreamConfig {
    pub channels: u16,
    pub sample_rate: u32,
}

/// A stream's configuration together with its sample format.
#[derive(Clone, Copy, Debug, PartialEq, Eq, Structural)]
pub struct OutputConfig {
    pub config: StreamConfig,
    pub sample_format: SampleFormat,
}

/// Returns the index of the device to use, or `None` for the default device.
pub fn select_output_device(output_device_name: &str, names: &[String]) -> (choice: Option<usize>)
    ensures
        match choice {
            Some(i) => {
                &&& output_device_name@.len() > 0
                &&& i < names@.len()
                &&& names@[i as int]@ == output_device_name@
                &&& forall|j: int| 0 <= j < i ==> #[trigger] names@[j]@ != output_device_name@
            },
            None => output_device_name@.len() == 0 || forall|j: int|
                0 <= j < names@.len() ==> #[trigger] names@[j]@ != output_device_name@,
        },
{
    if output_device_name.is_empty() {
        return None;
    }
    let wanted = output_device_name.to_owned();
    let mut i: usize = 0;
    while i < names.len()
        invariant
            i <= names@.len(),
            wanted@ == output_device_name@,
            output_device_name@.len() > 0,
            forall|j: int| 0 <= j < i ==> #[trigger] names@[j]@ != output_device_name@,
        decreases names@.len() - i,
    {
        if names[i] == wanted {
            return Some(i);
        }
        i = i + 1;
    }
    None
}

/// What is selected while no supported configuration has been looked at.
pub open spec fn initial_selection() -> OutputConfig {
    OutputConfig {
        config: StreamConfig { channels: 2, sample_rate: 0 },
        sample_format: SampleFormat::F32,
    }
}

impl SupportedConfig {
    /// The output configuration that takes this one up, at its lowest rate.
    pub open spec fn as_output(self) -> OutputConfig {
        OutputConfig {
            config: StreamConfig { channels: self.channels, sample_rate: self.min_sample_rate },
            sample_format: self.sample_format,
        }
    }

    /// In at least one respect this configuration is better than `selected`.
    pub open spec fn beats(self, selected: OutputConfig) -> bool {
        ||| self.channels > selected.config.channels
        ||| self.min_sample_rate > selected.config.sample_rate
        ||| quality_level(self.sample_format) > quality_level(selected.sample_format)
    }
}

/// The selection once the configurations have been looked at in order: each one that beats the
/// selection so far in any respect replaces it.
pub open spec fn selection(configs: Seq<SupportedConfig>) -> OutputConfig
    decreases configs.len(),
{
    if configs.len() == 0 {
        initial_selection()
    } else {
        let before = selection(configs.drop_last());
        if configs.last().beats(before) {
            configs.last().as_output()
        } else {
            before
        }
    }
}

/// Returns the configuration to drive a device with, out of those that it supports.
pub fn select_output_config(configs: &[SupportedConfig]) -> (selected: OutputConfig)
    ensures
        selected == selection(configs@),
        ({
            ||| {
                &&& selected.config.channels == 2
                &&& selected.config.sample_rate == 0
                &&& selected.sample_format is F32
                &&& forall|j: int|
                    0 <= j < configs@.len() ==> {
                        &&& (#[trigger] configs@[j]).channels <= 2
                        &&& configs@[j].min_sample_rate == 0
                        &&& !(configs@[j].sample_format is F64)
                    }
            }
            ||| exists|k: int|
                {
                    &&& 0 <= k < configs@.len()
                    &&& selected.config.channels == (#[trigger] configs@[k]).channels
                    &&& selected.config.sample_rate == configs@[k].min_sample_rate
                    &&& selected.sample_format == configs@[k].sample_format
                    &&& forall|j: int|
                        k < j < configs@.len() ==> {
                            &&& (#[trigger] configs@[j]).channels <= selected.config.channels
                            &&& configs@[j].min_sample_rate <= selected.config.sample_rate
                            &&& quality_level(configs@[j].sample_format) <= quality_level(
                                selected.sample_format,
                            )
                        }
                }
        }),
{
    let mut selected = OutputConfig {
        config: StreamConfig { channels: 2, sample_rate: 0 },
        sample_format: SampleFormat::F32,
    };
    let mut i: usize = 0;
    while i < configs.len()
        invariant
            i <= configs@.len(),
            selected == selection(configs@.take(i as int)),
        decreases configs@.len() - i,
    {
        let config = configs[i];
        assert(configs@.take(i + 1).drop_last() == configs@.take(i as int));
        if config.channels > selected.config.channels || config.min_sample_rate
            > selected.config.sample_rate || get_sample_format_quality_level(config.sample_format)
            > get_sample_format_quality_level(selected.sample_format) {
            selected.config.channels = config.channels;
            selected.config.sample_rate = config.min_sample_rate;
            selected.sample_format = config.sample_format;
        }
        i = i + 1;
    }
    assert(configs@.take(configs@.len() as int) == configs@);
    proof {
        lemma_no_later_config_is_better(configs@);
    }
    selected
}

/// The selection is the last configuration that was taken up, which no later one beats in any
/// respect; or, if none was, the initial one, which then none beats at all.
pub proof fn lemma_selection_is_last_taken_up(configs: Seq<SupportedConfig>)
    ensures
        ({
            ||| {
                &&& selection(configs) == initial_selection()
                &&& forall|j: int| 0 <= j < configs.len() ==> !(#[trigger] configs[j]).beats(
                    initial_selection(),
                )
            }
            ||| exists|k: int|
                {
                    &&& 0 <= k < configs.len()
                    &&& selection(configs) == (#[trigger] configs[k]).as_output()
                    &&& configs[k].beats(selection(configs.take(k)))
                    &&& forall|j: int| k < j < configs.len() ==> !(#[trigger] configs[j]).beats(
                        selection(configs),
                    )
                }
        }),
    decreases configs.len(),
{
    if configs.len() > 0 {
        let shorter = configs.drop_last();
        lemma_selection_is_last_taken_up(shorter);
        if configs.last().beats(selection(shorter)) {
            assert(configs.take(configs.len() - 1) == shorter);
            assert(configs[configs.len() - 1] == configs.last());
        } else if exists|k: int|
            {
                &&& 0 <= k < shorter.len()
                &&& selection(shorter) == (#[trigger] shorter[k]).as_output()
                &&& shorter[k].beats(selection(shorter.take(k)))
                &&& forall|j: int| k < j < shorter.len() ==> !(#[trigger] shorter[j]).beats(
                    selection(shorter),
                )
            } {
            let k = choose|k: int|
                {
                    &&& 0 <= k < shorter.len()
                    &&& selection(shorter) == (#[trigger] shorter[k]).as_output()
                    &&& shorter[k].beats(selection(shorter.take(k)))
                    &&& forall|j: int| k < j < shorter.len() ==> !(#[trigger] shorter[j]).beats(
                        selection(shorter),
                    )
                };
            assert(configs.take(k) == shorter.take(k));
            assert(configs[k] == shorter[k]);
            assert forall|j: int| k < j < configs.len() implies !(#[trigger] configs[j]).beats(
                selection(configs),
            ) by {
                if j < shorter.len() {
                    assert(configs[j] == shorter[j]);
                }
            }
        } else {
            assert forall|j: int| 0 <= j < configs.len() implies !(#[trigger] configs[j]).beats(
                initial_selection(),
            ) by {
                if j < shorter.len() {
                    assert(configs[j] == shorter[j]);
                }
            }
        }
    }
}

/// A device that supports a configuration with a rate above zero is driven with one of the
/// configurations that it supports.
pub proof fn lemma_selection_is_supported(configs: Seq<SupportedConfig>, i: int)
    requires
        0 <= i < configs.len(),
        configs[i].min_sample_rate > 0,
    ensures
        exists|k: int|
            0 <= k < configs.len() && selection(configs) == (#[trigger] configs[k]).as_output(),
{
    lemma_selection_is_last_taken_up(configs);
    assert(configs[i].beats(initial_selection()));
}

/// A configuration that beats the initial selection and that no other one beats in any respect
/// decides the selection: as many channels, the same rate, a format just as good.
pub proof fn lemma_unbeaten_config_is_selected(configs: Seq<SupportedConfig>, best: int)
    requires
        0 <= best < configs.len(),
        configs[best].beats(initial_selection()),
        forall|j: int|
            0 <= j < configs.len() ==> !(#[trigger] configs[j]).beats(configs[best].as_output()),
    ensures
        selection(configs).config == configs[best].as_output().config,
        quality_level(selection(configs).sample_format) == quality_level(
            configs[best].sample_format,
        ),
    decreases configs.len(),
{
    let shorter = configs.drop_last();
    assert forall|j: int| 0 <= j < shorter.len() implies !(#[trigger] shorter[j]).beats(
        configs[best].as_output(),
    ) by {
        assert(shorter[j] == configs[j]);
    }
    assert(!configs[configs.len() - 1].beats(configs[best].as_output()));
    if best == shorter.len() {
        lemma_selection_is_last_taken_up(shorter);
        if !configs.last().beats(selection(shorter)) {
            let k = choose|k: int|
                0 <= k < shorter.len() && selection(shorter) == (#[trigger] shorter[k]).as_output();
            assert(!shorter[k].beats(configs[best].as_output()));
        }
    } else {
        assert(shorter[best] == configs[best]);
        lemma_unbeaten_config_is_selected(shorter, best);
    }
}

/// How many samples the ring of a stream holds: whole frames for `RING_BUF_SIZE_MS`.
pub open spec fn ring_len(config: StreamConfig) -> nat {
    ((RING_BUF_SIZE_MS as nat * config.sample_rate as nat) / 1000) * config.channels as nat
}

/// The length of the ring can be computed in the integers of this machine.
pub open spec fn ring_len_fits(config: StreamConfig) -> bool {
    &&& RING_BUF_SIZE_MS * config.sample_rate <= usize::MAX
    &&& ring_len(config) <= usize::MAX
}

/// Returns how many samples the ring of a stream holds.
pub fn ring_buffer_len(config: &StreamConfig) -> (len: usize)
    requires
        ring_len_fits(*config),
    ensures
        len == ring_len(*config),
{
    ((RING_BUF_SIZE_MS * config.sample_rate as usize) / 1000) * config.channels as usize
}

/// The ring holds whole frames, never more than `RING_BUF_SIZE_MS` of audio, and short of that
/// by less than one frame.
pub proof fn lemma_ring_len(config: StreamConfig)
    ensures
        config.channels > 0 ==> ring_len(config) % config.channels as nat == 0,
        config.channels == 0 ==> ring_len(config) == 0,
        ring_len(config) * 1000 <= 128 * config.sample_rate * config.channels,
        config.channels > 0 ==> 128 * config.sample_rate * config.channels < (ring_len(config)
            + config.channels) * 1000,
        ring_len(config) * 1000 <= RING_BUF_SIZE_MS * config.sample_rate * config.channels,
        config.channels > 0 ==> RING_BUF_SIZE_MS * config.sample_rate * config.channels < (ring_len(
            config,
        ) + config.channels) * 1000,
{
    let (x, c) = (RING_BUF_SIZE_MS as int * config.sample_rate as int, config.channels as int);
    let frames = x / 1000;
    assert(frames * c * 1000 <= x * c) by (nonlinear_arith)
        requires
            frames * 1000 <= x,
            c >= 0,
    ;
    if c > 0 {
        assert(x * c < (frames * c + c) * 1000) by (nonlinear_arith)
            requires
                x < (frames + 1) * 1000,
                c > 0,
        ;
        vstd::arithmetic::div_mod::lemma_mod_multiples_basic(frames, c);
    }
}

/// Before any configuration has been looked at, two channels, no rate and floating point of
/// thirty-two bits are selected. One more configuration replaces the selection, as a whole,
/// exactly if it has more channels, a higher lowest rate or a better format; else the selection
/// stays as it is.
pub proof fn lemma_one_more_config(configs: Seq<SupportedConfig>, next: SupportedConfig)
    ensures
        selection(Seq::empty()).config.channels == 2,
        selection(Seq::empty()).config.sample_rate == 0,
        selection(Seq::empty()).sample_format is F32,
        ({
            let before = selection(configs);
            let after = selection(configs.push(next));
            let better = next.channels > before.config.channels || next.min_sample_rate
                > before.config.sample_rate || quality_level(next.sample_format) > quality_level(
                before.sample_format,
            );
            &&& better ==> {
                &&& after.config.channels == next.channels
                &&& after.config.sample_rate == next.min_sample_rate
                &&& after.sample_format == next.sample_format
            }
            &&& !better ==> {
                &&& after.config.channels == before.config.channels
                &&& after.config.sample_rate == before.config.sample_rate
                &&& after.sample_format == before.sample_format
            }
        }),
{
    assert(configs.push(next).drop_last() =~= configs);
}

/// The selection is two channels, no rate and floating point of thirty-two bits, and then no
/// configuration has more channels, a rate above zero or floating point of sixty-four bits; or it
/// is one of the configurations, and then none that stands behind it has more channels, a higher
/// lowest rate or a better format.
pub proof fn lemma_no_later_config_is_better(configs: Seq<SupportedConfig>)
    ensures
        ({
            ||| {
                &&& selection(configs).config.channels == 2
                &&& selection(configs).config.sample_rate == 0
                &&& selection(configs).sample_format is F32
                &&& forall|j: int|
                    0 <= j < configs.len() ==> {
                        &&& (#[trigger] configs[j]).channels <= 2
                        &&& configs[j].min_sample_rate == 0
                        &&& !(configs[j].sample_format is F64)
                    }
            }
            ||| exists|k: int|
                {
                    &&& 0 <= k < configs.len()
                    &&& selection(configs).config.channels == (#[trigger] configs[k]).channels
                    &&& selection(configs).config.sample_rate == configs[k].min_sample_rate
                    &&& selection(configs).sample_format == configs[k].sample_format
                    &&& forall|j: int|
                        k < j < configs.len() ==> {
                            &&& (#[trigger] configs[j]).channels <= selection(
                                configs,
                            ).config.channels
                            &&& configs[j].min_sample_rate <= selection(configs).config.sample_rate
                            &&& quality_level(configs[j].sample_format) <= quality_level(
                                selection(configs).sample_format,
                            )
                        }
                }
        }),
{
    lemma_selection_is_last_taken_up(configs);
    let selected = selection(configs);
    if exists|k: int|
        {
            &&& 0 <= k < configs.len()
            &&& selected == (#[trigger] configs[k]).as_output()
            &&& forall|j: int| k < j < configs.len() ==> !(#[trigger] configs[j]).beats(selected)
        } {
        let k = choose|k: int|
            {
                &&& 0 <= k < configs.len()
                &&& selected == (#[trigger] configs[k]).as_output()
                &&& forall|j: int| k < j < configs.len() ==> !(#[trigger] configs[j]).beats(selected)
            };
        assert(configs[k].channels == selected.config.channels);
        assert forall|j: int| k < j < configs.len() implies {
            &&& (#[trigger] configs[j]).channels <= selected.config.channels
            &&& configs[j].min_sample_rate <= selected.config.sample_rate
            &&& quality_level(configs[j].sample_format) <= quality_level(selected.sample_format)
        } by {
            assert(!configs[j].beats(selected));
        }
    }
}

/// Among configurations with the same channels and formats just as good, the highest of their
/// lowest rates is selected.
pub proof fn lemma_highest_rate_is_selected(configs: Seq<SupportedConfig>)
    requires
        configs.len() > 0,
        forall|i: int, j: int|
            0 <= i < configs.len() && 0 <= j < configs.len() ==> {
                &&& (#[trigger] configs[i]).channels == (#[trigger] configs[j]).channels
                &&& quality_level(configs[i].sample_format) == quality_level(
                    configs[j].sample_format,
                )
            },
    ensures
        forall|j: int|
            0 <= j < configs.len() ==> selection(configs).config.sample_rate >= (
            #[trigger] configs[j]).min_sample_rate,
        exists|k: int|
            0 <= k < configs.len() && selection(configs).config.sample_rate == (
            #[trigger] configs[k]).min_sample_rate,
        selection(configs).config.sample_rate > 0 ==> {
            &&& selection(configs).config.channels == configs[0].channels
            &&& quality_level(selection(configs).sample_format) == quality_level(
                configs[0].sample_format,
            )
        },
    decreases configs.len(),
{
    let shorter = configs.drop_last();
    let last = configs[configs.len() - 1];
    lemma_one_more_config(shorter, last);
    assert(shorter.push(last) =~= configs);
    if shorter.len() == 0 {
        assert(shorter =~= Seq::empty());
        assert(configs[0] == last);
    } else {
        assert forall|i: int, j: int| 0 <= i < shorter.len() && 0 <= j < shorter.len() implies {
            &&& (#[trigger] shorter[i]).channels == (#[trigger] shorter[j]).channels
            &&& quality_level(shorter[i].sample_format) == quality_level(shorter[j].sample_format)
        } by {
            assert(shorter[i] == configs[i] && shorter[j] == configs[j]);
        }
        lemma_highest_rate_is_selected(shorter);
        assert(shorter[0] == configs[0]);
        assert(configs[0].channels == last.channels);
        assert forall|j: int| 0 <= j < configs.len() implies selection(configs).config.sample_rate
            >= (#[trigger] configs[j]).min_sample_rate by {
            if j < shorter.len() {
                assert(configs[j] == shorter[j]);
            }
        }
        if selection(configs).config.sample_rate != last.min_sample_rate {
            let k = choose|k: int|
                0 <= k < shorter.len() && selection(shorter).config.sample_rate == (
                #[trigger] shorter[k]).min_sample_rate;
            assert(configs[k] == shorter[k]);
        }
    }
}

/// Among configurations with the same lowest rate, above zero, and formats just as good, the most
/// channels are selected.
pub proof fn lemma_most_channels_are_selected(configs: Seq<SupportedConfig>)
    requires
        configs.len() > 0,
        configs[0].min_sample_rate > 0,
        forall|i: int, j: int|
            0 <= i < configs.len() && 0 <= j < configs.len() ==> {
                &&& (#[trigger] configs[i]).min_sample_rate == (
                #[trigger] configs[j]).min_sample_rate
                &&& quality_level(configs[i].sample_format) == quality_level(
                    configs[j].sample_format,
                )
            },
    ensures
        forall|j: int|
            0 <= j < configs.len() ==> selection(configs).config.channels >= (
            #[trigger] configs[j]).channels,
        exists|k: int|
            {
                &&& 0 <= k < configs.len()
                &&& selection(configs).config.channels == (#[trigger] configs[k]).channels
                &&& selection(configs).config.sample_rate == configs[k].min_sample_rate
                &&& selection(configs).sample_format == configs[k].sample_format
            },
        selection(configs).config.sample_rate == configs[0].min_sample_rate,
        quality_level(selection(configs).sample_format) == quality_level(configs[0].sample_format),
    decreases configs.len(),
{
    let shorter = configs.drop_last();
    let last = configs[configs.len() - 1];
    lemma_one_more_config(shorter, last);
    assert(shorter.push(last) =~= configs);
    if shorter.len() == 0 {
        assert(shorter =~= Seq::empty());
        assert(configs[0] == last);
    } else {
        assert forall|i: int, j: int| 0 <= i < shorter.len() && 0 <= j < shorter.len() implies {
            &&& (#[trigger] shorter[i]).min_sample_rate == (#[trigger] shorter[j]).min_sample_rate
            &&& quality_level(shorter[i].sample_format) == quality_level(shorter[j].sample_format)
        } by {
            assert(shorter[i] == configs[i] && shorter[j] == configs[j]);
        }
        assert(shorter[0] == configs[0]);
        lemma_most_channels_are_selected(shorter);
        assert(configs[0].min_sample_rate == last.min_sample_rate);
        assert forall|j: int| 0 <= j < configs.len() implies selection(configs).config.channels
            >= (#[trigger] configs[j]).channels by {
            if j < shorter.len() {
                assert(configs[j] == shorter[j]);
            }
        }
        if selection(configs) == selection(shorter) {
            let k = choose|k: int|
                {
                    &&& 0 <= k < shorter.len()
                    &&& selection(shorter).config.channels == (#[trigger] shorter[k]).channels
                    &&& selection(shorter).config.sample_rate == shorter[k].min_sample_rate
                    &&& selection(shorter).sample_format == shorter[k].sample_format
                };
            assert(configs[k] == shorter[k]);
        }
    }
}

/// Among configurations with the same channels and the same lowest rate, above zero, the best
/// format is selected.
pub proof fn lemma_best_format_is_selected(configs: Seq<SupportedConfig>)
    requires
        configs.len() > 0,
        configs[0].min_sample_rate > 0,
        forall|i: int, j: int|
            0 <= i < configs.len() && 0 <= j < configs.len() ==> {
                &&& (#[trigger] configs[i]).min_sample_rate == (
                #[trigger] configs[j]).min_sample_rate
                &&& configs[i].channels == configs[j].channels
            },
    ensures
        forall|j: int|
            0 <= j < configs.len() ==> quality_level(selection(configs).sample_format)
                >= quality_level((#[trigger] configs[j]).sample_format),
        exists|k: int|
            {
                &&& 0 <= k < configs.len()
                &&& selection(configs).config.channels == (#[trigger] configs[k]).channels
                &&& selection(configs).config.sample_rate == configs[k].min_sample_rate
                &&& selection(configs).sample_format == configs[k].sample_format
            },
        selection(configs).config.sample_rate == configs[0].min_sample_rate,
        selection(configs).config.channels == configs[0].channels,
    decreases configs.len(),
{
    let shorter = configs.drop_last();
    let last = configs[configs.len() - 1];
    lemma_one_more_config(shorter, last);
    assert(shorter.push(last) =~= configs);
    if shorter.len() == 0 {
        assert(shorter =~= Seq::empty());
        assert(configs[0] == last);
    } else {
        assert forall|i: int, j: int| 0 <= i < shorter.len() && 0 <= j < shorter.len() implies {
            &&& (#[trigger] shorter[i]).min_sample_rate == (#[trigger] shorter[j]).min_sample_rate
            &&& shorter[i].channels == shorter[j].channels
        } by {
            assert(shorter[i] == configs[i] && shorter[j] == configs[j]);
        }
        assert(shorter[0] == configs[0]);
        lemma_best_format_is_selected(shorter);
        assert(configs[0].min_sample_rate == last.min_sample_rate);
        assert forall|j: int| 0 <= j < configs.len() implies quality_level(
            selection(configs).sample_format,
        ) >= quality_level((#[trigger] configs[j]).sample_format) by {
            if j < shorter.len() {
                assert(configs[j] == shorter[j]);
            }
        }
        if selection(configs) == selection(shorter) {
            let k = choose|k: int|
                {
                    &&& 0 <= k < shorter.len()
                    &&& selection(shorter).config.channels == (#[trigger] shorter[k]).channels
                    &&& selection(shorter).config.sample_rate == shorter[k].min_sample_rate
                    &&& selection(shorter).sample_format == shorter[k].sample_format
                };
            assert(configs[k] == shorter[k]);
        }
    }
}

} // verus!
