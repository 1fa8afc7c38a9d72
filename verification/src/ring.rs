//! The ring buffer that carries samples from the thread that decodes to the audio callback.
//!
//! The buffer itself is the one of the `rb` crate. Its two ends work on different threads, so
//! neither knows at any moment what the ring holds. Each end instead keeps account of what has
//! gone through it, and both accounts follow one `line`: all the samples of the ring's lifetime,
//! numbered in the order in which the ring takes them.
use crate::config::{ring_len, ring_len_fits, StreamConfig, RING_BUF_SIZE_MS};
use crate::sample::Sample;
use vstd::prelude::*;

mod ends;

pub use ends::{ring_fits, RingReader, RingWriter};
use ends::{consumer, new_ring, producer, read, write_blocking};

verus! {

/// Between the two states of a ring's writing end, the ring took `samples` from their beginning up
/// to where `rest` begins.
pub open spec fn wrote<T>(
    before: RingWriter<T>,
    after: RingWriter<T>,
    samples: Seq<T>,
    rest: Seq<T>,
) -> bool {
    &&& after.line() == before.line()
    &&& after.capacity() == before.capacity()
    &&& rest.len() <= samples.len()
    &&& rest == samples.skip(samples.len() - rest.len())
    &&& after.accepted() == before.accepted() + samples.take(samples.len() - rest.len())
}

/// Tells whether the ring of a stream can be made on this machine.
pub fn ring_can_be_made<T>(config: &StreamConfig) -> (ok: bool)
    ensures
        ok == (ring_len_fits(*config) && ring_fits::<T>(ring_len(*config))),
        ok <==> {
            let len = ((128 * config.sample_rate as nat) / 1000) * config.channels as nat;
            &&& 128 * config.sample_rate <= usize::MAX
            &&& len < isize::MAX
            &&& (len + 1) * vstd::layout::size_of::<T>() <= isize::MAX
        },
{
    let product: usize = match RING_BUF_SIZE_MS.checked_mul(config.sample_rate as usize) {
        Some(product) => product,
        None => {
            return false;
        },
    };
    let len: usize = match (product / 1000).checked_mul(config.channels as usize) {
        Some(len) => len,
        None => {
            return false;
        },
    };
    if len >= isize::MAX as usize {
        return false;
    }
    match (len + 1).checked_mul(core::mem::size_of::<T>()) {
        Some(bytes) => bytes <= isize::MAX as usize,
        None => false,
    }
}

/// Makes a ring for `size` samples and hands out its two ends.
pub fn open_ring<T: Sample>(size: usize) -> (ends: (RingWriter<T>, RingReader<T>))
    requires
        ring_fits::<T>(size as nat),
    ensures
        ends.0.wf(),
        ends.1.wf(),
        ends.0.line() == ends.1.line(),
        ends.0.capacity() == size,
        ends.0.accepted() == Seq::<T>::empty(),
        ends.0.stalls() == 0,
        ends.1.delivered() == Seq::<T>::empty(),
        ends.1.reads() == Seq::<(nat, Option<nat>)>::empty(),
{
    let mut ring = new_ring(size);
    let writer = producer(&mut ring);
    let reader = consumer(&mut ring);
    (writer, reader)
}

impl<T: Sample> RingWriter<T> {
    /// Writes samples until the ring has taken all of them, waiting for the reader whenever the
    /// ring is full, and returns what is left. Something is left only if a wait ended early, with
    /// the ring still full; the caller then goes on with the rest. As long as the ring has room
    /// that was never used there is no wait, and nothing is left.
    pub fn write_samples<'a>(&mut self, samples: &'a [T]) -> (rest: &'a [T])
        requires
            old(self).wf(),
            samples@.len() == 0 || old(self).capacity() > 0,
        ensures
            final(self).wf(),
            wrote(*old(self), *final(self), samples@, rest@),
            final(self).line() == old(self).line(),
            final(self).capacity() == old(self).capacity(),
            rest@.len() <= samples@.len(),
            rest@ == samples@.skip(samples@.len() - rest@.len()),
            final(self).accepted() == old(self).accepted() + samples@.take(
                samples@.len() - rest@.len(),
            ),
            forall|i: int|
                0 <= i < final(self).accepted().len() ==> #[trigger] final(self).accepted()[i]
                    == final(self).line()(i),
            rest@.len() == 0 || final(self).accepted().len() >= final(self).capacity(),
            old(self).accepted().len() + samples@.len() <= old(self).capacity() ==> rest@.len()
                == 0,
            final(self).stalls() == old(self).stalls() + (if rest@.len() == 0 {
                0nat
            } else {
                1nat
            }),
    {
        let mut buf: &'a [T] = samples;
        assert(samples@.skip(0) == samples@);
        assert(self.accepted() == old(self).accepted() + samples@.take(0));
        loop
            invariant
                self.wf(),
                self.line() == old(self).line(),
                self.capacity() == old(self).capacity(),
                buf@.len() == 0 || self.capacity() > 0,
                buf@.len() <= samples@.len(),
                buf@ == samples@.skip(samples@.len() - buf@.len()),
                self.accepted() == old(self).accepted() + samples@.take(
                    samples@.len() - buf@.len(),
                ),
                self.stalls() == old(self).stalls(),
            decreases buf@.len(),
        {
            let ghost before = *self;
            match write_blocking(self, buf) {
                None => {
                    return buf;
                },
                Some(written) => {
                    assert(self.wf()) by {
                        assert forall|i: int| 0 <= i < self.accepted().len() implies
                            #[trigger] self.accepted()[i] == self.line()(i) by {
                            if i < before.accepted().len() {
                                assert(self.accepted()[i] == before.accepted()[i]);
                            }
                        }
                    }
                    let ghost done = samples@.len() - buf@.len();
                    assert(samples@.take(done) + buf@.take(written as int) == samples@.take(
                        done + written,
                    ));
                    assert(self.accepted() == old(self).accepted() + samples@.take(done + written));
                    if written == 0 {
                        return buf;
                    }
                    buf = &buf[written..buf.len()];
                },
            }
        }
    }
}

/// Silences everything behind the first `written` samples.
pub fn silence_rest<T: Copy>(data: &mut [T], written: usize, silence: T)
    requires
        written <= old(data)@.len(),
    ensures
        final(data)@ == old(data)@.take(written as int) + Seq::new(
            (old(data)@.len() - written) as nat,
            |i: int| silence,
        ),
{
    let mut i: usize = written;
    while i < data.len()
        invariant
            written <= i <= data@.len(),
            data@.len() == old(data)@.len(),
            data@.take(written as int) == old(data)@.take(written as int),
            forall|j: int| written <= j < i ==> data@[j] == silence,
        decreases data@.len() - i,
    {
        data[i] = silence;
        i = i + 1;
    }
}

impl<T: Sample> RingReader<T> {
    /// Fills an output block with the samples that are waiting and with silence behind them, and
    /// returns how many samples were waiting.
    pub fn fill(&mut self, data: &mut [T], silence: T) -> (written: usize)
        requires
            old(self).wf(),
        ensures
            final(self).wf(),
            forall|i: int|
                0 <= i < final(self).delivered().len() ==> #[trigger] final(self).delivered()[i]
                    == final(self).line()(i),
            final(self).line() == old(self).line(),
            written <= old(data)@.len(),
            final(data)@.len() == old(data)@.len(),
            final(self).delivered() == old(self).delivered() + final(data)@.take(written as int),
            final(self).reads().len() == old(self).reads().len() + 1,
            final(self).reads().drop_last() == old(self).reads(),
            final(self).reads().last().0 == old(data)@.len(),
            written == (match final(self).reads().last().1 {
                Some(n) => n,
                None => 0,
            }),
            final(self).reads().last().1 matches Some(n) ==> (n == 0 <==> old(data)@.len() == 0),
            final(self).reads().last().1 is None ==> old(data)@.len() > 0,
            forall|i: int| written <= i < final(data)@.len() ==> final(data)@[i] == silence,
    {
        let ghost before = *self;
        let written: usize = match read(self, data) {
            Ok(n) => n,
            Err(_) => 0,
        };
        assert forall|i: int| 0 <= i < self.delivered().len() implies #[trigger] self.delivered()[i]
            == self.line()(i) by {
            if i < before.delivered().len() {
                assert(self.delivered()[i] == before.delivered()[i]);
            }
        }
        assert(self.delivered() == old(self).delivered() + data@.take(written as int));
        silence_rest(data, written, silence);
        written
    }
}

/// The two ends of one ring agree on every sample that both have seen: what is given out is what
/// was put in, in the same order, with nothing lost, repeated or made up.
pub proof fn lemma_first_in_first_out<T>(writer: RingWriter<T>, reader: RingReader<T>)
    requires
        writer.wf(),
        reader.wf(),
        writer.line() == reader.line(),
    ensures
        reader.delivered().len() <= writer.accepted().len() ==> reader.delivered()
            =~= writer.accepted().take(reader.delivered().len() as int),
        writer.accepted().len() <= reader.delivered().len() ==> writer.accepted()
            =~= reader.delivered().take(writer.accepted().len() as int),
{
}

/// A write that left something over, resumed with the rest, comes to the same as one write. Once
/// nothing is left over, the ring has taken all the samples, each once and in order.
pub proof fn lemma_resumed_write<T>(
    before: RingWriter<T>,
    between: RingWriter<T>,
    after: RingWriter<T>,
    samples: Seq<T>,
    rest: Seq<T>,
    still_left: Seq<T>,
)
    requires
        wrote(before, between, samples, rest),
        wrote(between, after, rest, still_left),
    ensures
        wrote(before, after, samples, still_left),
        still_left.len() == 0 ==> after.accepted() == before.accepted() + samples,
{
    assert(still_left =~= samples.skip(samples.len() - still_left.len()));
    assert(after.accepted() =~= before.accepted() + samples.take(
        samples.len() - still_left.len(),
    ));
    assert(samples.take(samples.len() as int) =~= samples);
}

/// Two writes that left nothing over come to the same as one write of both, the first samples
/// before the second.
pub proof fn lemma_consecutive_writes<T>(
    before: RingWriter<T>,
    between: RingWriter<T>,
    after: RingWriter<T>,
    first: Seq<T>,
    second: Seq<T>,
)
    requires
        wrote(before, between, first, Seq::empty()),
        wrote(between, after, second, Seq::empty()),
    ensures
        wrote(before, after, first + second, Seq::empty()),
        after.accepted() == before.accepted() + first + second,
{
    assert(first.take(first.len() as int) =~= first);
    assert(second.take(second.len() as int) =~= second);
    let both = first + second;
    assert(both.take(both.len() as int) =~= both);
    assert(Seq::<T>::empty() =~= both.skip(both.len() as int));
    assert(after.accepted() =~= before.accepted() + both);
}

/// A write that left nothing over put every sample into the ring, once and in order; one that left
/// everything over put in none; and what was in before stays in front.
pub proof fn lemma_wrote<T>(
    before: RingWriter<T>,
    after: RingWriter<T>,
    samples: Seq<T>,
    rest: Seq<T>,
)
    requires
        wrote(before, after, samples, rest),
    ensures
        after.accepted() + rest == before.accepted() + samples,
        after.accepted().len() >= before.accepted().len(),
        after.accepted().take(before.accepted().len() as int) == before.accepted(),
        after.line() == before.line(),
        after.capacity() == before.capacity(),
{
    assert(after.accepted() + rest =~= before.accepted() + samples);
    assert(after.accepted().take(before.accepted().len() as int) =~= before.accepted());
}

/// A ring can be made for a configuration if one can for as many channels, or more, at as high a
/// rate, or higher.
pub proof fn lemma_smaller_ring_can_be_made<T>(small: StreamConfig, large: StreamConfig)
    requires
        small.channels <= large.channels,
        small.sample_rate <= large.sample_rate,
        ring_len_fits(large),
        ring_fits::<T>(ring_len(large)),
    ensures
        ring_len_fits(small),
        ring_fits::<T>(ring_len(small)),
        ring_len(small) <= ring_len(large),
{
    let (f, g) = (
        (128 * small.sample_rate as nat) / 1000,
        (128 * large.sample_rate as nat) / 1000,
    );
    let (c, d) = (small.channels as nat, large.channels as nat);
    assert(f <= g);
    assert(f * c <= g * d) by (nonlinear_arith)
        requires
            f <= g,
            c <= d,
    ;
    let size = vstd::layout::size_of::<T>();
    assert((f * c + 1) * size <= (g * d + 1) * size) by (nonlinear_arith)
        requires
            f * c <= g * d,
    ;
}

/// What it takes for a ring to be made: the milliseconds of samples, the samples and their bytes
/// with one slot more all fit into the machine's integers.
pub proof fn lemma_what_a_ring_takes<T>(config: StreamConfig, size: nat)
    ensures
        ring_len_fits(config) <==> 128 * config.sample_rate <= usize::MAX && ((128
            * config.sample_rate as nat) / 1000) * config.channels as nat <= usize::MAX,
        ring_fits::<T>(size) <==> size < isize::MAX && (size + 1) * vstd::layout::size_of::<T>()
            <= isize::MAX,
{
}

} // verus!
