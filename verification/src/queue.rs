//! Timestamped audio and the queue that carries it to the audio thread.

use vstd::prelude::*;

verus! {

// ---------------------------------------------------------------------------
// Chunks

/// A run of decoded audio with the time at which it is to be heard. Its samples are
/// interleaved and make up whole frames.
#[derive(Debug)]
pub struct TimestampedChunk {
    local_play_time_us: i64,
    sample_rate_hz: u32,
    channels: usize,
    frame_count: usize,
    full_scale: u32,
    samples: Vec<i32>,
}

/// What a chunk holds.
pub struct ChunkModel {
    pub local_play_time_us: i64,
    pub sample_rate_hz: u32,
    pub channels: nat,
    pub frame_count: nat,
    pub full_scale: u32,
    pub samples: Seq<i32>,
}

impl ChunkModel {
    /// The samples make up exactly the frames.
    pub open spec fn well_formed(self) -> bool {
        self.channels >= 1 && self.samples.len() == self.frame_count * self.channels
    }

    /// The frame at `index`; a mono frame goes to both sides.
    pub open spec fn frame(self, index: int) -> PcmFrame {
        let left = self.samples[index * self.channels];
        PcmFrame {
            left,
            right: if self.channels > 1 {
                self.samples[index * self.channels + 1]
            } else {
                left
            },
            full_scale: self.full_scale,
        }
    }
}

impl View for TimestampedChunk {
    type V = ChunkModel;

    closed spec fn view(&self) -> ChunkModel {
        ChunkModel {
            local_play_time_us: self.local_play_time_us,
            sample_rate_hz: self.sample_rate_hz,
            channels: self.channels as nat,
            frame_count: self.frame_count as nat,
            full_scale: self.full_scale,
            samples: self.samples@,
        }
    }
}

/// The contents of an optional chunk.
pub open spec fn opt_chunk(chunk: Option<TimestampedChunk>) -> Option<ChunkModel> {
    match chunk {
        Some(c) => Some(c@),
        None => None,
    }
}

/// One stereo frame. A side's amplitude is its value divided by the full scale.
#[derive(Clone, Copy, Debug, PartialEq, Eq, Structural)]
pub struct PcmFrame {
    pub left: i32,
    pub right: i32,
    pub full_scale: u32,
}

impl TimestampedChunk {
    #[verifier::type_invariant]
    spec fn inv(self) -> bool {
        self@.well_formed()
    }

    /// A chunk of the given samples; `None` where they do not make up whole frames
    /// of the given number of channels.
    pub fn new(
        local_play_time_us: i64,
        sample_rate_hz: u32,
        channels: usize,
        full_scale: u32,
        samples: Vec<i32>,
    ) -> (r: Option<Self>)
        ensures
            r is Some == (channels >= 1 && samples@.len() % channels as nat == 0),
            r matches Some(chunk) ==> chunk@ == (ChunkModel {
                local_play_time_us,
                sample_rate_hz,
                channels: channels as nat,
                frame_count: samples@.len() / channels as nat,
                full_scale,
                samples: samples@,
            }) && chunk@.well_formed(),
    {
        if channels == 0 || samples.len() % channels != 0 {
            return None;
        }
        let frame_count: usize = samples.len() / channels;
        assert(samples@.len() == frame_count * channels) by (nonlinear_arith)
            requires
                frame_count == samples@.len() as int / channels as int,
                samples@.len() as int % channels as int == 0,
                channels > 0,
        ;
        Some(
            TimestampedChunk {
                local_play_time_us,
                sample_rate_hz,
                channels,
                frame_count,
                full_scale,
                samples,
            },
        )
    }

    pub fn local_play_time_us(&self) -> (r: i64)
        ensures
            r == self@.local_play_time_us,
    {
        self.local_play_time_us
    }

    pub fn sample_rate_hz(&self) -> (r: u32)
        ensures
            r == self@.sample_rate_hz,
    {
        self.sample_rate_hz
    }

    pub fn frame_count(&self) -> (r: usize)
        ensures
            r == self@.frame_count,
    {
        self.frame_count
    }

    /// The frame at `index`.
    pub fn frame(&self, index: usize) -> (r: PcmFrame)
        requires
            index < self@.frame_count,
        ensures
            r == self@.frame(index as int),
    {
        proof {
            use_type_invariant(self);
            assert(index * self.channels + self.channels <= self.samples@.len()) by (
                nonlinear_arith)
                requires
                    index < self.frame_count,
                    self.samples@.len() == self.frame_count * self.channels,
            ;
            assert(index * self.channels >= 0) by (nonlinear_arith);
            assert(self.samples.len() == self.samples@.len());
        }
        let base: usize = index * self.channels;
        let left = self.samples[base];
        let right = if self.channels > 1 {
            self.samples[base + 1]
        } else {
            left
        };
        PcmFrame { left, right, full_scale: self.full_scale }
    }
}

// ---------------------------------------------------------------------------
// The queue

#[verifier::external_type_specification]
#[verifier::external_body]
#[verifier::reject_recursive_types(T)]
pub struct ExProducer<T>(rtrb::Producer<T>);

#[verifier::external_type_specification]
#[verifier::external_body]
#[verifier::reject_recursive_types(T)]
pub struct ExConsumer<T>(rtrb::Consumer<T>);

/// The chunks that are still to be offered to a queue's producing end over the rest of
/// its life, in order, each with whether it is accepted.
pub uninterp spec fn offered(producer: rtrb::Producer<TimestampedChunk>) -> Seq<
    (TimestampedChunk, bool),
>;

/// What a queue's consuming end is still to give over the rest of its life, in order,
/// each time it is asked: a chunk, or none where the queue is empty.
pub uninterp spec fn given(consumer: rtrb::Consumer<TimestampedChunk>) -> Seq<
    Option<TimestampedChunk>,
>;

/// How many more chunks a queue's producing end takes even if none is taken out: its
/// capacity less what it has accepted so far.
pub uninterp spec fn untouched_slots(producer: rtrb::Producer<TimestampedChunk>) -> nat;

/// The chunks among those offered that are accepted.
pub open spec fn accepted(offers: Seq<(TimestampedChunk, bool)>) -> Seq<TimestampedChunk>
    decreases offers.len(),
{
    if offers.len() == 0 {
        Seq::empty()
    } else if offers[0].1 {
        seq![offers[0].0] + accepted(offers.drop_first())
    } else {
        accepted(offers.drop_first())
    }
}

/// The chunks among what is given.
pub open spec fn received(deliveries: Seq<Option<TimestampedChunk>>) -> Seq<TimestampedChunk>
    decreases deliveries.len(),
{
    if deliveries.len() == 0 {
        Seq::empty()
    } else {
        match deliveries[0] {
            Some(chunk) => seq![chunk] + received(deliveries.drop_first()),
            None => received(deliveries.drop_first()),
        }
    }
}

/// Calls `rtrb::RingBuffer::new`.
///
/// Claimed: the queue is first in, first out, so that what comes out over its life is
/// what was accepted, in the same order, up to some point; and all its slots are free.
/// The bound keeps the allocation within what a vector can hold.
#[verifier::external_body]
pub(crate) fn new_queue(capacity: usize) -> (r: (
    rtrb::Producer<TimestampedChunk>,
    rtrb::Consumer<TimestampedChunk>,
))
    requires
        capacity <= 0x1_0000,
    ensures
        received(given(r.1)).is_prefix_of(accepted(offered(r.0))),
        untouched_slots(r.0) == capacity,
{
    rtrb::RingBuffer::new(capacity)
}

/// Calls `rtrb::Producer::push`; the result is whether the chunk was accepted.
///
/// Claimed: the chunk is the next one offered, with that result. A chunk is accepted
/// while fewer have gone in than there are slots; whether slots were freed meanwhile
/// depends on the other thread, and is left open.
#[verifier::external_body]
pub(crate) fn push_chunk(
    producer: &mut rtrb::Producer<TimestampedChunk>,
    chunk: TimestampedChunk,
) -> (r: bool)
    ensures
        offered(*old(producer)) == seq![(chunk, r)] + offered(*final(producer)),
        untouched_slots(*old(producer)) > 0 ==> r && untouched_slots(*final(producer))
            == untouched_slots(*old(producer)) - 1,
        untouched_slots(*old(producer)) == 0 ==> untouched_slots(*final(producer)) == 0,
{
    producer.push(chunk).is_ok()
}

/// Calls `rtrb::Consumer::pop`; `None` is its error, for an empty queue.
///
/// Claimed: what comes out is the next thing given. Whether a chunk has arrived yet
/// depends on the other thread, and is left open.
#[verifier::external_body]
pub(crate) fn pop_chunk(consumer: &mut rtrb::Consumer<TimestampedChunk>) -> (r: Option<
    TimestampedChunk,
>)
    ensures
        given(*old(consumer)) == seq![r] + given(*final(consumer)),
{
    consumer.pop().ok()
}

// ---------------------------------------------------------------------------
// Laws of chunks and the queue

/// The frame of a stereo chunk is its two samples in order; the sample of a mono chunk
/// goes to both sides.
pub proof fn law_frames_are_interleaved(chunk: ChunkModel, index: int)
    ensures
        chunk.channels == 1 ==> chunk.frame(index).left == chunk.samples[index] && chunk.frame(
            index,
        ).right == chunk.samples[index],
        chunk.channels == 2 ==> chunk.frame(index).left == chunk.samples[2 * index] && chunk.frame(
            index,
        ).right == chunk.samples[2 * index + 1],
        chunk.frame(index).full_scale == chunk.full_scale,
{
}

/// What is accepted, and what is received, is counted in order: what a chunk accepted or
/// received next adds stands before all that comes after it, and what is not accepted,
/// or not there, adds nothing.
pub proof fn law_queue_keeps_the_order(
    chunk: TimestampedChunk,
    offers: Seq<(TimestampedChunk, bool)>,
    deliveries: Seq<Option<TimestampedChunk>>,
)
    ensures
        accepted(seq![(chunk, true)] + offers) == seq![chunk] + accepted(offers),
        accepted(seq![(chunk, false)] + offers) == accepted(offers),
        received(seq![Some(chunk)] + deliveries) == seq![chunk] + received(deliveries),
        received(seq![None] + deliveries) == received(deliveries),
{
    assert((seq![(chunk, true)] + offers).drop_first() =~= offers);
    assert((seq![(chunk, false)] + offers).drop_first() =~= offers);
    assert((seq![Some(chunk)] + deliveries).drop_first() =~= deliveries);
    assert((seq![None::<TimestampedChunk>] + deliveries).drop_first() =~= deliveries);
}

} // verus!
