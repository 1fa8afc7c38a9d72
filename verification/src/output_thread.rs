//! The thread that owns the output: which blocks it plays and which it drops.
use vstd::prelude::*;

verus! {

/// What the output thread is told, with blocks of type `B` and volumes of type `V`.
#[derive(Debug)]
pub enum AudioOutputMessage<B, V> {
    /// Play a block. The number says which song the block is from, and grows from song to song.
    Write(usize, B),
    /// Change the volume.
    SetVolume(V),
}

/// What the output thread has to do about a message.
#[derive(Debug)]
pub enum OutputAction<B, V> {
    /// Nothing.
    Ignore,
    /// Open the output anew, since the old one is gone. The block is dropped.
    Reinitialize,
    /// Write this block to the output.
    Play(B),
    /// Give the output this volume.
    SetVolume(V),
}

/// The state of the output thread: the number of the song that is being played.
#[derive(Clone, Copy, Debug, PartialEq, Eq, Structural)]
pub struct OutputThread {
    pub current_id: usize,
}

/// A block of song `id` is taken while song `current` is being played: it is from that song or
/// from a later one, or its number is zero.
pub open spec fn takes(current: usize, id: usize) -> bool {
    id >= current || id == 0
}

impl OutputThread {
    /// The thread before its first message.
    pub fn new() -> (thread: Self)
        ensures
            thread.current_id == 0,
    {
        OutputThread { current_id: 0 }
    }

    /// Decides what to do about a message, given whether the output is gone.
    pub fn handle<B, V>(
        &mut self,
        message: AudioOutputMessage<B, V>,
        output_is_dead: bool,
    ) -> (action: OutputAction<B, V>)
        ensures
            match message {
                AudioOutputMessage::Write(id, decoded) => if takes(old(self).current_id, id) {
                    &&& final(self).current_id == id
                    &&& action == if output_is_dead {
                        OutputAction::<B, V>::Reinitialize
                    } else {
                        OutputAction::Play(decoded)
                    }
                } else {
                    &&& *final(self) == *old(self)
                    &&& action == OutputAction::<B, V>::Ignore
                },
                AudioOutputMessage::SetVolume(volume) => {
                    &&& *final(self) == *old(self)
                    &&& action == OutputAction::<B, V>::SetVolume(volume)
                },
            },
            message matches AudioOutputMessage::Write(id, decoded) ==> {
                &&& action is Ignore <==> 0 < id < old(self).current_id
                &&& action is Ignore ==> final(self).current_id == old(self).current_id
                &&& !(action is Ignore) ==> final(self).current_id == id
                &&& !(action is Ignore) && output_is_dead ==> action is Reinitialize
                &&& !(action is Ignore) && !output_is_dead ==> action == OutputAction::<
                    B,
                    V,
                >::Play(decoded)
            },
    {
        match message {
            AudioOutputMessage::Write(id, decoded) => {
                if id >= self.current_id || id == 0 {
                    self.current_id = id;
                    if output_is_dead {
                        return OutputAction::Reinitialize;
                    }
                    OutputAction::Play(decoded)
                } else {
                    OutputAction::Ignore
                }
            },
            AudioOutputMessage::SetVolume(volume) => OutputAction::SetVolume(volume),
        }
    }
}

/// The song that is being played after blocks of the songs `ids` have come in, in that order.
pub open spec fn current_after(start: usize, ids: Seq<usize>) -> usize
    decreases ids.len(),
{
    if ids.len() == 0 {
        start
    } else {
        let before = current_after(start, ids.drop_last());
        if takes(before, ids.last()) {
            ids.last()
        } else {
            before
        }
    }
}

/// The songs of those blocks that are taken.
pub open spec fn taken(start: usize, ids: Seq<usize>) -> Seq<usize>
    decreases ids.len(),
{
    if ids.len() == 0 {
        Seq::empty()
    } else {
        let before = taken(start, ids.drop_last());
        if takes(current_after(start, ids.drop_last()), ids.last()) {
            before.push(ids.last())
        } else {
            before
        }
    }
}

/// A block is dropped exactly if it is from a song before the current one and not numbered zero.
/// A block of the current song is always taken.
pub proof fn lemma_stale_blocks_are_dropped(current: usize, id: usize)
    ensures
        !takes(current, id) <==> 0 < id < current,
        takes(current, current),
{
}

/// The song that is being played after blocks have come in is found in two steps: first those
/// before `k`, then the others.
proof fn lemma_current_after_split(start: usize, ids: Seq<usize>, k: int)
    requires
        0 <= k <= ids.len(),
    ensures
        current_after(start, ids) == current_after(current_after(start, ids.take(k)), ids.skip(k)),
    decreases ids.len() - k,
{
    if k == ids.len() {
        assert(ids.take(k) =~= ids);
    } else {
        let shorter = ids.drop_last();
        lemma_current_after_split(start, shorter, k);
        assert(shorter.take(k) =~= ids.take(k));
        assert(ids.skip(k).drop_last() =~= shorter.skip(k));
        assert(ids.skip(k).last() == ids.last());
    }
}

/// Where no block is numbered zero, the current song ends up the latest of the one at the start
/// and those that come in.
proof fn lemma_latest_without_zero(start: usize, ids: Seq<usize>)
    requires
        forall|i: int| 0 <= i < ids.len() ==> #[trigger] ids[i] != 0,
    ensures
        current_after(start, ids) >= start,
        forall|i: int| 0 <= i < ids.len() ==> current_after(start, ids) >= #[trigger] ids[i],
        current_after(start, ids) == start || ids.contains(current_after(start, ids)),
    decreases ids.len(),
{
    if ids.len() > 0 {
        let shorter = ids.drop_last();
        assert forall|i: int| 0 <= i < shorter.len() implies #[trigger] shorter[i] != 0 by {
            assert(shorter[i] == ids[i]);
        }
        lemma_latest_without_zero(start, shorter);
        assert forall|i: int| 0 <= i < ids.len() implies current_after(start, ids)
            >= #[trigger] ids[i] by {
            if i < shorter.len() {
                assert(ids[i] == shorter[i]);
            }
        }
        let now = current_after(start, ids);
        if now == ids.last() {
            assert(ids[ids.len() - 1] == now);
        } else if now != start {
            let i = choose|i: int| 0 <= i < shorter.len() && shorter[i] == now;
            assert(ids[i] == now);
        }
    }
}

/// Since the last block numbered zero, and from any point after it, the current song is the latest
/// one of which a block has come in, in whatever order they come: no earlier than any of them nor
/// than the song at that point, and one of these.
pub proof fn lemma_latest_song_is_current(start: usize, ids: Seq<usize>, k: int)
    requires
        0 <= k <= ids.len(),
        forall|i: int| k <= i < ids.len() ==> #[trigger] ids[i] != 0,
    ensures
        current_after(start, ids) >= current_after(start, ids.take(k)),
        forall|i: int| k <= i < ids.len() ==> current_after(start, ids) >= #[trigger] ids[i],
        ({
            ||| current_after(start, ids) == current_after(start, ids.take(k))
            ||| exists|i: int| k <= i < ids.len() && #[trigger] ids[i] == current_after(start, ids)
        }),
{
    let at = current_after(start, ids.take(k));
    let since = ids.skip(k);
    assert forall|i: int| 0 <= i < since.len() implies #[trigger] since[i] != 0 by {
        assert(since[i] == ids[k + i]);
    }
    lemma_current_after_split(start, ids, k);
    lemma_latest_without_zero(at, since);
    assert forall|i: int| k <= i < ids.len() implies current_after(start, ids)
        >= #[trigger] ids[i] by {
        assert(since[i - k] == ids[i]);
    }
    let now = current_after(start, ids);
    if now != at {
        let i = choose|i: int| 0 <= i < since.len() && since[i] == now;
        assert(ids[k + i] == now);
    }
}

/// Of the blocks that are taken, one goes back to an earlier song only if it is numbered zero;
/// neither does the first one go behind the song that was being played at the start.
pub proof fn lemma_taken_blocks_never_go_back(start: usize, ids: Seq<usize>)
    ensures
        forall|i: int|
            1 <= i < taken(start, ids).len() ==> #[trigger] taken(start, ids)[i] == 0 || taken(
                start,
                ids,
            )[i] >= taken(start, ids)[i - 1],
        taken(start, ids).len() > 0 ==> taken(start, ids)[0] == 0 || taken(start, ids)[0] >= start,
    decreases ids.len(),
{
    if ids.len() > 0 {
        let shorter = ids.drop_last();
        lemma_taken_blocks_never_go_back(start, shorter);
        lemma_current_is_last_taken(start, shorter);
        let (before, now) = (taken(start, shorter), taken(start, ids));
        assert forall|i: int| 1 <= i < now.len() implies #[trigger] now[i] == 0 || now[i] >= now[i
            - 1] by {
            assert(now[i - 1] == before[i - 1]);
            if i < before.len() {
                assert(now[i] == before[i]);
            }
        }
        if before.len() > 0 {
            assert(now[0] == before[0]);
        }
    }
}

/// Between two blocks that are taken with no block numbered zero taken after the first one, the
/// songs only go forward.
pub proof fn lemma_taken_blocks_in_order(start: usize, ids: Seq<usize>, i: int, j: int)
    requires
        0 <= i <= j < taken(start, ids).len(),
        forall|m: int| i < m <= j ==> #[trigger] taken(start, ids)[m] != 0,
    ensures
        taken(start, ids)[i] <= taken(start, ids)[j],
    decreases j - i,
{
    if i < j {
        lemma_taken_blocks_never_go_back(start, ids);
        lemma_taken_blocks_in_order(start, ids, i, j - 1);
        assert(taken(start, ids)[j] != 0);
    }
}

/// A block numbered zero is always taken, and after it a block of any song is.
pub proof fn lemma_zero_starts_over(start: usize, ids: Seq<usize>, id: usize)
    ensures
        current_after(start, ids.push(0)) == 0,
        taken(start, ids.push(0)) == taken(start, ids).push(0),
        takes(current_after(start, ids.push(0)), id),
{
    assert(ids.push(0).drop_last() == ids);
}

/// The current song is that of the last block that was taken.
pub proof fn lemma_current_is_last_taken(start: usize, ids: Seq<usize>)
    ensures
        current_after(start, ids) == if taken(start, ids).len() == 0 {
            start
        } else {
            taken(start, ids).last()
        },
    decreases ids.len(),
{
    if ids.len() > 0 {
        lemma_current_is_last_taken(start, ids.drop_last());
    }
}

/// One more block changes the current song and is taken exactly if it is not from a song between
/// the very first and the current one; before any block, the current song is the one at the start.
pub proof fn lemma_one_more_block(start: usize, ids: Seq<usize>, id: usize)
    ensures
        current_after(start, Seq::empty()) == start,
        taken(start, Seq::empty()).len() == 0,
        0 < id < current_after(start, ids) ==> {
            &&& current_after(start, ids.push(id)) == current_after(start, ids)
            &&& taken(start, ids.push(id)) == taken(start, ids)
        },
        !(0 < id < current_after(start, ids)) ==> {
            &&& current_after(start, ids.push(id)) == id
            &&& taken(start, ids.push(id)) == taken(start, ids).push(id)
        },
{
    assert(ids.push(id).drop_last() =~= ids);
}

} // verus!
