//! The player behind an output stream: it resamples what is decoded and queues it for the device.
use crate::config::{ring_buffer_len, ring_len, ring_len_fits, OutputConfig, StreamConfig};
use crate::format::{BufferFormat, SampleFormat};
use crate::ring::{open_ring, ring_fits, wrote, RingReader, RingWriter};
use crate::sample::Sample;
use std::sync::atomic::{AtomicBool, AtomicU8};
use std::sync::Arc;
use vstd::prelude::*;

verus! {

/// The volume of a new player, out of 255.
pub const INITIAL_VOLUME: u8 = 127;

/// The rate of decoded audio, and its channels as a set of bits.
#[derive(Clone, Copy, Debug, PartialEq, Eq, Structural)]
pub struct SignalSpec {
    pub rate: u32,
    pub channels: u32,
}

/// What the player needs to know of a decoded block.
#[derive(Clone, Copy, Debug, PartialEq, Eq, Structural)]
pub struct DecodedBlock {
    pub frames: usize,
    pub capacity: usize,
    pub spec: SignalSpec,
    pub format: BufferFormat,
}

/// What a resampler is made for.
#[derive(Clone, Copy, Debug, PartialEq, Eq, Structural)]
pub struct ResamplerParams {
    /// What goes in.
    pub spec: SignalSpec,
    /// The rate of what comes out.
    pub sample_rate: u32,
    /// The channels of what comes out.
    pub channels: u16,
    /// How many frames at most go in at a time.
    pub duration: usize,
}

/// What has to be done with a decoded block.
#[derive(Clone, Copy, Debug, PartialEq, Eq, Structural)]
pub enum WritePlan {
    /// Nothing: the block is empty.
    Skip,
    /// Resample it with the resampler at hand.
    Reuse,
    /// Make a new resampler, then resample it with that one.
    Replace(ResamplerParams),
}

/// The player of one output stream, with samples of type `T` and resamplers of type `R`.
#[verifier::reject_recursive_types(T)]
pub struct AudioStreamPlayer<T, R> {
    pub config: StreamConfig,
    pub sample_format: SampleFormat,
    /// Set once the device has gone.
    pub is_dead: Arc<AtomicBool>,
    pub prod: RingWriter<T>,
    /// The volume, out of 255, that the device applies to what it reads.
    pub volume: Arc<AtomicU8>,
    pub resampler: Option<R>,
    pub resampler_target_channels: usize,
    pub resampler_duration: usize,
    pub resampler_spec: SignalSpec,
}

impl<T, R> AudioStreamPlayer<T, R> {
    /// The resampler at hand, if there is one, was made for blocks like this one and for the
    /// channels of this stream.
    pub open spec fn resampler_suits(self, decoded: DecodedBlock) -> bool {
        &&& self.resampler is Some
        &&& self.resampler_duration == decoded.capacity
        &&& self.resampler_spec == decoded.spec
        &&& self.resampler_target_channels == self.config.channels
    }

    /// What has to be done with a decoded block.
    pub open spec fn write_plan(self, decoded: DecodedBlock) -> WritePlan {
        if decoded.frames == 0 {
            WritePlan::Skip
        } else if self.resampler_suits(decoded) {
            WritePlan::Reuse
        } else {
            WritePlan::Replace(
                ResamplerParams {
                    spec: decoded.spec,
                    sample_rate: self.config.sample_rate,
                    channels: self.config.channels,
                    duration: decoded.capacity,
                },
            )
        }
    }

    /// The player once `resampler` has been put in for blocks like this one.
    pub open spec fn with_resampler(self, resampler: R, decoded: DecodedBlock) -> Self {
        AudioStreamPlayer {
            resampler: Some(resampler),
            resampler_target_channels: self.config.channels as usize,
            resampler_duration: decoded.capacity,
            resampler_spec: decoded.spec,
            ..self
        }
    }

    /// The two players have streams of the same configuration and the same resampler. They may
    /// differ in their rings, in their volumes and in whether their devices have gone.
    pub open spec fn resamples_like(self, other: Self) -> bool {
        &&& self.config == other.config
        &&& self.resampler == other.resampler
        &&& self.resampler_target_channels == other.resampler_target_channels
        &&& self.resampler_duration == other.resampler_duration
        &&& self.resampler_spec == other.resampler_spec
    }

    /// The samples that a write of `audio`, described by `decoded`, queues for the device, where
    /// `make` makes resamplers and `run` is what comes out of one.
    pub open spec fn queued_by_write<A>(
        self,
        audio: A,
        decoded: DecodedBlock,
        make: spec_fn(ResamplerParams) -> R,
        run: spec_fn(R, A) -> Seq<T>,
    ) -> Seq<T> {
        match self.write_plan(decoded) {
            WritePlan::Skip => Seq::empty(),
            WritePlan::Reuse => run(self.resampler->0, audio),
            WritePlan::Replace(params) => run(make(params), audio),
        }
    }

    /// Makes the player of a stream, and the end of its ring that the device reads from. The
    /// player shares the volume and the mark of a device that has gone with the stream.
    pub fn new(output: OutputConfig, volume: Arc<AtomicU8>, is_dead: Arc<AtomicBool>) -> (made: (
        Self,
        RingReader<T>,
    )) where T: Sample
        requires
            ring_len_fits(output.config),
            ring_fits::<T>(ring_len(output.config)),
        ensures
            made.0.config == output.config,
            made.0.sample_format == output.sample_format,
            made.0.volume == volume,
            made.0.is_dead == is_dead,
            made.0.resampler is None,
            made.0.resampler_target_channels == 0,
            made.0.resampler_duration == 0,
            made.0.resampler_spec == (SignalSpec { rate: 0, channels: 0 }),
            made.0.prod.wf(),
            made.0.prod.capacity() == ring_len(output.config),
            made.0.prod.accepted() == Seq::<T>::empty(),
            made.0.prod.stalls() == 0,
            made.1.wf(),
            made.1.line() == made.0.prod.line(),
            made.1.delivered() == Seq::<T>::empty(),
            made.1.reads() == Seq::<(nat, Option<nat>)>::empty(),
    {
        let (prod, cons) = open_ring(ring_buffer_len(&output.config));
        let player = AudioStreamPlayer {
            config: output.config,
            sample_format: output.sample_format,
            is_dead,
            prod,
            volume,
            resampler: None,
            resampler_target_channels: 0,
            resampler_duration: 0,
            resampler_spec: SignalSpec { rate: 0, channels: 0 },
        };
        (player, cons)
    }

    /// Returns the configuration of the stream.
    pub fn stream_config(&self) -> (config: &StreamConfig)
        ensures
            *config == self.config,
    {
        &self.config
    }

    /// Returns the format of the stream's samples.
    pub fn sample_format(&self) -> (format: SampleFormat)
        ensures
            format == self.sample_format,
    {
        self.sample_format
    }

    /// Decides what has to be done with a decoded block.
    pub fn plan_write(&self, decoded: &DecodedBlock) -> (plan: WritePlan)
        ensures
            plan == self.write_plan(*decoded),
            plan is Skip <==> decoded.frames == 0,
            plan is Reuse <==> {
                &&& decoded.frames > 0
                &&& self.resampler is Some
                &&& self.resampler_duration == decoded.capacity
                &&& self.resampler_spec.rate == decoded.spec.rate
                &&& self.resampler_spec.channels == decoded.spec.channels
                &&& self.resampler_target_channels == self.config.channels
            },
            plan matches WritePlan::Replace(params) ==> {
                &&& params.spec == decoded.spec
                &&& params.sample_rate == self.config.sample_rate
                &&& params.channels == self.config.channels
                &&& params.duration == decoded.capacity
            },
    {
        if decoded.frames == 0 {
            return WritePlan::Skip;
        }
        let should_replace_resampler = self.resampler.is_none() || self.resampler_duration
            != decoded.capacity || self.resampler_spec != decoded.spec
            || self.resampler_target_channels != self.config.channels as usize;
        if should_replace_resampler {
            WritePlan::Replace(
                ResamplerParams {
                    spec: decoded.spec,
                    sample_rate: self.config.sample_rate,
                    channels: self.config.channels,
                    duration: decoded.capacity,
                },
            )
        } else {
            WritePlan::Reuse
        }
    }

    /// Puts in a resampler that was made for blocks like this one.
    pub fn install_resampler(&mut self, resampler: R, decoded: &DecodedBlock)
        ensures
            *final(self) == old(self).with_resampler(resampler, *decoded),
            final(self).resampler == Some(resampler),
            final(self).resampler_duration == decoded.capacity,
            final(self).resampler_spec == decoded.spec,
            final(self).resampler_target_channels == old(self).config.channels,
            final(self).config == old(self).config,
            final(self).sample_format == old(self).sample_format,
            final(self).prod == old(self).prod,
            final(self).volume == old(self).volume,
            final(self).is_dead == old(self).is_dead,
    {
        self.resampler = Some(resampler);
        self.resampler_duration = decoded.capacity;
        self.resampler_spec = decoded.spec;
        self.resampler_target_channels = self.config.channels as usize;
    }
}

/// Once a resampler has been put in for a block, it is reused for exactly those blocks that have
/// the same capacity and the same signal, until another one is put in; what was queued is left
/// alone.
pub proof fn lemma_installed_resampler_is_reused<T, R>(
    player: AudioStreamPlayer<T, R>,
    resampler: R,
    decoded: DecodedBlock,
    next: DecodedBlock,
)
    requires
        next.frames > 0,
    ensures
        player.with_resampler(resampler, decoded).write_plan(next) == WritePlan::Reuse
            <==> next.capacity == decoded.capacity && next.spec == decoded.spec,
        player.with_resampler(resampler, decoded).prod == player.prod,
        player.with_resampler(resampler, decoded).config == player.config,
        player.with_resampler(resampler, decoded).volume == player.volume,
        player.with_resampler(resampler, decoded).is_dead == player.is_dead,
{
}

/// A player that has no resampler makes one for the first block that holds anything, for that
/// block's signal and capacity and for the stream's rate and channels.
pub proof fn lemma_first_block_makes_resampler<T, R>(
    player: AudioStreamPlayer<T, R>,
    decoded: DecodedBlock,
)
    requires
        player.resampler is None,
    ensures
        decoded.frames > 0 ==> player.write_plan(decoded) == WritePlan::Replace(
            ResamplerParams {
                spec: decoded.spec,
                sample_rate: player.config.sample_rate,
                channels: player.config.channels,
                duration: decoded.capacity,
            },
        ),
        decoded.frames == 0 ==> player.write_plan(decoded) == WritePlan::Skip,
{
}

/// What a write puts into the ring depends on neither the volume nor whether the device has gone:
/// two players that differ only in these, written the same audio, get the same resampler and put
/// the same samples into their rings, whatever resamplers do.
pub proof fn lemma_write_ignores_volume_and_death<T, R, A>(
    p: AudioStreamPlayer<T, R>,
    q: AudioStreamPlayer<T, R>,
    audio: A,
    decoded: DecodedBlock,
    make: spec_fn(ResamplerParams) -> R,
    run: spec_fn(R, A) -> Seq<T>,
    p_ring: RingWriter<T>,
    q_ring: RingWriter<T>,
)
    requires
        p.resamples_like(q),
        wrote(p.prod, p_ring, p.queued_by_write(audio, decoded, make, run), Seq::empty()),
        wrote(q.prod, q_ring, q.queued_by_write(audio, decoded, make, run), Seq::empty()),
    ensures
        p.write_plan(decoded) == q.write_plan(decoded),
        forall|resampler: R|
            (#[trigger] p.with_resampler(resampler, decoded)).resamples_like(
                q.with_resampler(resampler, decoded),
            ),
        p_ring.accepted() == p.prod.accepted() + p.queued_by_write(audio, decoded, make, run),
        q_ring.accepted() == q.prod.accepted() + p.queued_by_write(audio, decoded, make, run),
{
    let queued = p.queued_by_write(audio, decoded, make, run);
    assert(queued.take(queued.len() as int) =~= queued);
}

/// A block is skipped exactly if it has no frames, whatever resampler the player has; it goes to
/// the resampler at hand exactly if that was put in for its capacity, its rate and its channels
/// and for the channels of the stream; and a new resampler is always asked for with the block's
/// signal and capacity and with the rate and channels of the stream.
pub proof fn lemma_write_plan<T, R>(player: AudioStreamPlayer<T, R>, decoded: DecodedBlock)
    ensures
        player.write_plan(decoded) is Skip <==> decoded.frames == 0,
        player.write_plan(decoded) is Reuse <==> {
            &&& decoded.frames > 0
            &&& player.resampler is Some
            &&& player.resampler_duration == decoded.capacity
            &&& player.resampler_spec.rate == decoded.spec.rate
            &&& player.resampler_spec.channels == decoded.spec.channels
            &&& player.resampler_target_channels == player.config.channels
        },
        player.write_plan(decoded) matches WritePlan::Replace(params) ==> {
            &&& params.spec.rate == decoded.spec.rate
            &&& params.spec.channels == decoded.spec.channels
            &&& params.sample_rate == player.config.sample_rate
            &&& params.channels == player.config.channels
            &&& params.duration == decoded.capacity
        },
{
}

/// A resampler that is put in is the one that the player then has, whatever it had before, and is
/// marked with the capacity and the signal of the block and with the channels of the stream. All
/// else stays as it was. Putting in another one leaves nothing of the first.
pub proof fn lemma_with_resampler<T, R>(
    player: AudioStreamPlayer<T, R>,
    first: R,
    resampler: R,
    other: DecodedBlock,
    decoded: DecodedBlock,
)
    ensures
        ({
            let now = player.with_resampler(resampler, decoded);
            &&& now.resampler == Some(resampler)
            &&& now.resampler_duration == decoded.capacity
            &&& now.resampler_spec.rate == decoded.spec.rate
            &&& now.resampler_spec.channels == decoded.spec.channels
            &&& now.resampler_target_channels == player.config.channels
            &&& now.config == player.config
            &&& now.sample_format == player.sample_format
            &&& now.prod == player.prod
            &&& now.volume == player.volume
            &&& now.is_dead == player.is_dead
        }),
        player.with_resampler(first, other).with_resampler(resampler, decoded)
            == player.with_resampler(resampler, decoded),
{
}

/// A block without frames queues nothing. Any other queues what comes out of a resampler: the one
/// at hand if the block is like those that it was put in for, else a new one, made for the block's
/// signal and capacity and for the stream's rate and channels.
pub proof fn lemma_queued_by_write<T, R, A>(
    player: AudioStreamPlayer<T, R>,
    audio: A,
    decoded: DecodedBlock,
    make: spec_fn(ResamplerParams) -> R,
    run: spec_fn(R, A) -> Seq<T>,
)
    ensures
        decoded.frames == 0 ==> player.queued_by_write(audio, decoded, make, run).len() == 0,
        decoded.frames > 0 && player.resampler is Some && player.resampler_duration
            == decoded.capacity && player.resampler_spec == decoded.spec
            && player.resampler_target_channels == player.config.channels
            ==> player.queued_by_write(audio, decoded, make, run) == run(
            player.resampler->0,
            audio,
        ),
        decoded.frames > 0 && !(player.resampler is Some && player.resampler_duration
            == decoded.capacity && player.resampler_spec == decoded.spec
            && player.resampler_target_channels == player.config.channels)
            ==> player.queued_by_write(audio, decoded, make, run) == run(
            make(
                ResamplerParams {
                    spec: decoded.spec,
                    sample_rate: player.config.sample_rate,
                    channels: player.config.channels,
                    duration: decoded.capacity,
                },
            ),
            audio,
        ),
{
}

} // verus!
