//! The two ends of a ring of the `rb` crate, each with an account of what has gone through it. No
//! other module can change an account: only the calls into `rb` below do.
//!
//! Both accounts follow the ring's line, which is settled only as samples are written. That is why
//! a ring carries nothing but numbers: what is written is then decided by what the program
//! computes, never by what a proof knows of the line beforehand.
use crate::sample::Sample;
use rb::{RbConsumer, RbProducer, RB};
use vstd::prelude::*;

verus! {

/// The shared buffer of the `rb` crate.
#[verifier::external_type_specification]
#[verifier::external_body]
#[verifier::reject_recursive_types(T)]
pub struct ExSpscRb<T>(rb::SpscRb<T>);

/// The writing end of the `rb` crate's buffer.
#[verifier::external_type_specification]
#[verifier::external_body]
#[verifier::reject_recursive_types(T)]
pub struct ExProducer<T>(rb::Producer<T>);

/// The reading end of the `rb` crate's buffer.
#[verifier::external_type_specification]
#[verifier::external_body]
#[verifier::reject_recursive_types(T)]
pub struct ExConsumer<T>(rb::Consumer<T>);

/// The error of the `rb` crate.
#[verifier::external_type_specification]
#[verifier::external_body]
pub struct ExRbError(rb::RbError);

/// A ring, and which of its ends have been handed out.
#[verifier::reject_recursive_types(T)]
pub(crate) struct SampleRing<T> {
    ring: rb::SpscRb<T>,
    capacity: Ghost<nat>,
    line: Ghost<spec_fn(int) -> T>,
    has_producer: Ghost<bool>,
    has_consumer: Ghost<bool>,
}

/// The writing end of a sample ring.
#[verifier::reject_recursive_types(T)]
pub struct RingWriter<T> {
    prod: rb::Producer<T>,
    capacity: Ghost<nat>,
    line: Ghost<spec_fn(int) -> T>,
    accepted: Ghost<Seq<T>>,
    stalls: Ghost<nat>,
}

/// The reading end of a sample ring.
#[verifier::reject_recursive_types(T)]
pub struct RingReader<T> {
    cons: rb::Consumer<T>,
    line: Ghost<spec_fn(int) -> T>,
    delivered: Ghost<Seq<T>>,
    reads: Ghost<Seq<(nat, Option<nat>)>>,
}

impl<T> SampleRing<T> {
    /// How many samples the ring holds when it is full.
    pub(crate) closed spec fn capacity(&self) -> nat {
        self.capacity@
    }

    /// The samples that pass through the ring over its lifetime, numbered in the order in which
    /// the ring takes them.
    pub(crate) closed spec fn line(&self) -> spec_fn(int) -> T {
        self.line@
    }

    /// The writing end has been handed out.
    pub(crate) closed spec fn has_producer(&self) -> bool {
        self.has_producer@
    }

    /// The reading end has been handed out.
    pub(crate) closed spec fn has_consumer(&self) -> bool {
        self.has_consumer@
    }
}

impl<T> RingWriter<T> {
    /// How many samples the ring holds when it is full.
    pub closed spec fn capacity(&self) -> nat {
        self.capacity@
    }

    /// The samples that pass through the ring over its lifetime, numbered in the order in which
    /// the ring takes them.
    pub closed spec fn line(&self) -> spec_fn(int) -> T {
        self.line@
    }

    /// What the ring has taken from this end so far.
    pub closed spec fn accepted(&self) -> Seq<T> {
        self.accepted@
    }

    /// How many writes have ended with samples to write and none taken. A write waits while the
    /// ring is full, and such a wait can end before there is a free slot.
    pub closed spec fn stalls(&self) -> nat {
        self.stalls@
    }

    /// What has been taken is the beginning of the ring's line.
    pub open spec fn wf(&self) -> bool {
        forall|i: int|
            0 <= i < self.accepted().len() ==> #[trigger] self.accepted()[i] == self.line()(i)
    }
}

impl<T> RingReader<T> {
    /// The samples that pass through the ring over its lifetime, numbered in the order in which
    /// the ring takes them.
    pub closed spec fn line(&self) -> spec_fn(int) -> T {
        self.line@
    }

    /// What this end has given out so far.
    pub closed spec fn delivered(&self) -> Seq<T> {
        self.delivered@
    }

    /// The reads so far: how many samples each had room for, and how many it got. A read that
    /// found the ring empty got none at all.
    pub closed spec fn reads(&self) -> Seq<(nat, Option<nat>)> {
        self.reads@
    }

    /// What has been given out is the beginning of the ring's line.
    pub open spec fn wf(&self) -> bool {
        forall|i: int|
            0 <= i < self.delivered().len() ==> #[trigger] self.delivered()[i] == self.line()(i)
    }
}

/// A ring of this size can be allocated: the buffer of `rb` has one slot more.
pub open spec fn ring_fits<T>(size: nat) -> bool {
    &&& size < isize::MAX
    &&& (size + 1) * vstd::layout::size_of::<T>() <= isize::MAX
}

/// `rb::SpscRb::new`: a ring that holds `size` samples, with no end handed out yet. It allocates
/// one slot more than that, and panics where so much cannot be asked for; `requires` leaves
/// that out.
#[verifier::external_body]
pub(crate) fn new_ring<T: Sample>(size: usize) -> (ring: SampleRing<T>)
    requires
        ring_fits::<T>(size as nat),
    ensures
        ring.capacity() == size,
        !ring.has_producer(),
        !ring.has_consumer(),
{
    SampleRing {
        ring: rb::SpscRb::new(size),
        capacity: Ghost(arbitrary()),
        line: Ghost(arbitrary()),
        has_producer: Ghost(false),
        has_consumer: Ghost(false),
    }
}

/// `rb::RB::producer` on a ring whose writing end has not been handed out: an end that writes
/// into this ring, through which nothing has gone yet.
#[verifier::external_body]
pub(crate) fn producer<T: Sample>(ring: &mut SampleRing<T>) -> (writer: RingWriter<T>)
    requires
        !old(ring).has_producer(),
    ensures
        writer.capacity() == old(ring).capacity(),
        writer.line() == old(ring).line(),
        writer.accepted() == Seq::<T>::empty(),
        writer.stalls() == 0,
        final(ring).has_producer(),
        final(ring).capacity() == old(ring).capacity(),
        final(ring).line() == old(ring).line(),
        final(ring).has_consumer() == old(ring).has_consumer(),
{
    RingWriter {
        prod: ring.ring.producer(),
        capacity: Ghost(arbitrary()),
        line: Ghost(arbitrary()),
        accepted: Ghost(arbitrary()),
        stalls: Ghost(arbitrary()),
    }
}

/// `rb::RB::consumer` on a ring whose reading end has not been handed out: an end that reads from
/// this ring, through which nothing has gone yet.
#[verifier::external_body]
pub(crate) fn consumer<T: Sample>(ring: &mut SampleRing<T>) -> (reader: RingReader<T>)
    requires
        !old(ring).has_consumer(),
    ensures
        reader.line() == old(ring).line(),
        reader.delivered() == Seq::<T>::empty(),
        reader.reads() == Seq::<(nat, Option<nat>)>::empty(),
        final(ring).has_consumer(),
        final(ring).capacity() == old(ring).capacity(),
        final(ring).line() == old(ring).line(),
        final(ring).has_producer() == old(ring).has_producer(),
{
    RingReader {
        cons: ring.ring.consumer(),
        line: Ghost(arbitrary()),
        delivered: Ghost(arbitrary()),
        reads: Ghost(arbitrary()),
    }
}

/// `rb::RbProducer::write_blocking`: `None` if there is nothing to write. Otherwise it waits if the
/// ring is full, then puts as many samples into the ring as there are free slots, from the
/// beginning of `data` and in order, and returns their number. That number is zero if the wait
/// ended early. Samples are left over only once the ring has been filled: until it has taken as
/// many as it holds, there is a slot for each that is still missing, and no wait for it. A ring
/// without slots is left out, since nothing ever ends the wait for one. Nothing is said of how
/// long a wait takes: that is up to the reader.
#[verifier::external_body]
pub(crate) fn write_blocking<T: Sample>(writer: &mut RingWriter<T>, data: &[T]) -> (written: Option<usize>)
    requires
        data@.len() == 0 || old(writer).capacity() > 0,
    ensures
        final(writer).capacity() == old(writer).capacity(),
        final(writer).line() == old(writer).line(),
        match written {
            None => {
                &&& data@.len() == 0
                &&& final(writer).accepted() == old(writer).accepted()
                &&& final(writer).stalls() == old(writer).stalls()
            },
            Some(n) => {
                &&& data@.len() > 0
                &&& n <= data@.len()
                &&& n <= old(writer).capacity()
                &&& n == data@.len() || old(writer).accepted().len() + n >= old(
                    writer,
                ).capacity()
                &&& final(writer).accepted() == old(writer).accepted() + data@.take(n as int)
                &&& final(writer).stalls() == old(writer).stalls() + (if n == 0 {
                    1nat
                } else {
                    0nat
                })
                &&& forall|i: int|
                    old(writer).accepted().len() <= i < final(writer).accepted().len()
                        ==> #[trigger] final(writer).accepted()[i] == final(writer).line()(i)
            },
        },
{
    writer.prod.write_blocking(data)
}

/// `rb::RbConsumer::read`: an error if the ring is empty while there is room for samples, and
/// then nothing changes. Otherwise the next samples of the ring, in the order in which it took
/// them, replace the beginning of `data`, and their number is returned. It is zero only if there
/// is no room at all, since no other end takes samples out of the ring meanwhile. How many of them are waiting is not said: that is up to the writer.
#[verifier::external_body]
pub(crate) fn read<T: Sample>(reader: &mut RingReader<T>, data: &mut [T]) -> (read: Result<usize, rb::RbError>)
    ensures
        final(reader).line() == old(reader).line(),
        final(data)@.len() == old(data)@.len(),
        final(reader).reads() == old(reader).reads().push(
            (
                old(data)@.len(),
                match read {
                    Ok(n) => Some(n as nat),
                    Err(_) => None,
                },
            ),
        ),
        match read {
            Ok(n) => {
                &&& n <= old(data)@.len()
                &&& (n == 0 <==> old(data)@.len() == 0)
                &&& final(data)@.skip(n as int) == old(data)@.skip(n as int)
                &&& final(reader).delivered() == old(reader).delivered() + final(data)@.take(
                    n as int,
                )
                &&& forall|i: int|
                    old(reader).delivered().len() <= i < final(reader).delivered().len()
                        ==> #[trigger] final(reader).delivered()[i] == final(reader).line()(i)
            },
            Err(_) => {
                &&& old(data)@.len() > 0
                &&& final(data)@ == old(data)@
                &&& final(reader).delivered() == old(reader).delivered()
            },
        },
{
    reader.cons.read(data)
}

} // verus!
