//! Playback on the audio thread: which frame is due when, and whether playback
//! keeps up.

use vstd::prelude::*;

use crate::clock::{
    saturating_difference, saturating_sum, shift_instant_by_micros, MonotonicInstant, TimeAnchor,
};
use crate::config::{configure_client_name, configure_server_url};
use crate::constants::{
    CHUNK_QUEUE_CAPACITY, RECOVERY_SYNC_THRESHOLD_BLOCKS, RENDER_CLOCK_REANCHOR_THRESHOLD_US,
    TIMING_JITTER_TOLERANCE_US, UNDERRUN_ERROR_THRESHOLD_BLOCKS,
};
use crate::queue::{new_queue, pop_chunk, ChunkModel, PcmFrame, TimestampedChunk};
use crate::state::{SharedModel, SharedState, SyncState};

verus! {

// ---------------------------------------------------------------------------
// Playing chunks

/// The chunk being played and how far it has got.
#[derive(Debug)]
pub struct ActiveChunk {
    pub chunk: TimestampedChunk,
    pub next_frame_index: usize,
    pub started: bool,
}

/// The chunk being played and how far it has got.
pub struct ActiveModel {
    pub chunk: ChunkModel,
    pub next_frame_index: nat,
    pub started: bool,
}

impl View for ActiveChunk {
    type V = ActiveModel;

    open spec fn view(&self) -> ActiveModel {
        ActiveModel {
            chunk: self.chunk@,
            next_frame_index: self.next_frame_index as nat,
            started: self.started,
        }
    }
}

/// The contents of an optional active chunk.
pub open spec fn opt_active(active: Option<ActiveChunk>) -> Option<ActiveModel> {
    match active {
        Some(a) => Some(a@),
        None => None,
    }
}

/// What a queue gives, as what its chunks hold.
pub open spec fn delivery_models(deliveries: Seq<Option<TimestampedChunk>>) -> Seq<
    Option<ChunkModel>,
> {
    deliveries.map_values(|delivery: Option<TimestampedChunk>| crate::queue::opt_chunk(delivery))
}

/// What becomes of the active chunk at some time.
#[derive(Clone, Copy, Debug, PartialEq, Eq, Structural)]
pub enum ChunkStep {
    /// It is dropped; `late` where it was no use at all.
    Drop { late: bool },
    /// Its time has not come.
    Wait,
    /// Its frame at `index` is played.
    Play { index: usize },
}

/// How many frames a chunk has missed that is `delta_us` microseconds late: none
/// within the tolerance, and else the frames of that time.
pub open spec fn missed_frames(delta_us: int, rate_hz: int) -> int {
    if delta_us <= TIMING_JITTER_TOLERANCE_US {
        0
    } else {
        delta_us * rate_hz / 1_000_000
    }
}

/// What becomes of a chunk at the time `time_us`, when the host plays `rate_hz`
/// frames a second. A chunk of another rate is of no use. A chunk that has not
/// started waits for its time, skips what it has missed, and is of no use where that
/// is all of it. A chunk that has started goes on frame by frame to its end.
pub open spec fn chunk_step(active: ActiveModel, time_us: int, rate_hz: int) -> ChunkStep {
    let chunk = active.chunk;
    let delta = time_us - chunk.local_play_time_us;
    let missed = missed_frames(delta, rate_hz);
    if chunk.sample_rate_hz != rate_hz {
        ChunkStep::Drop { late: true }
    } else if active.started {
        if active.next_frame_index >= chunk.frame_count {
            ChunkStep::Drop { late: false }
        } else {
            ChunkStep::Play { index: active.next_frame_index as usize }
        }
    } else if delta < -TIMING_JITTER_TOLERANCE_US {
        ChunkStep::Wait
    } else if missed >= chunk.frame_count {
        ChunkStep::Drop { late: true }
    } else {
        ChunkStep::Play { index: missed as usize }
    }
}

/// Decides what becomes of the active chunk.
pub fn judge_chunk(active: &ActiveChunk, time_us: i64, rate_hz: u32) -> (r: ChunkStep)
    ensures
        r == chunk_step(active@, time_us as int, rate_hz as int),
        r matches ChunkStep::Play { index } ==> index < active@.chunk.frame_count <= usize::MAX,
{
    let frame_count = active.chunk.frame_count();
    if active.chunk.sample_rate_hz() != rate_hz {
        return ChunkStep::Drop { late: true };
    }
    if active.started {
        if active.next_frame_index >= frame_count {
            return ChunkStep::Drop { late: false };
        }
        return ChunkStep::Play { index: active.next_frame_index };
    }
    let delta: i128 = time_us as i128 - active.chunk.local_play_time_us() as i128;
    if delta < -(TIMING_JITTER_TOLERANCE_US as i128) {
        return ChunkStep::Wait;
    }
    let mut missed: i128 = 0;
    if delta > TIMING_JITTER_TOLERANCE_US as i128 {
        assert(0 <= delta * rate_hz <= 0x1_0000_0000_0000_0000 * 0x1_0000_0000) by (
            nonlinear_arith)
            requires
                0 <= delta <= 0x1_0000_0000_0000_0000,
                0 <= rate_hz <= 0x1_0000_0000,
        ;
        missed = delta * rate_hz as i128 / 1_000_000;
    }
    if missed >= frame_count as i128 {
        ChunkStep::Drop { late: true }
    } else {
        ChunkStep::Play { index: missed as usize }
    }
}

/// What comes of asking for the frame at some time.
pub struct FrameRun {
    /// The frame to play, if there is one.
    pub frame: Option<PcmFrame>,
    /// The chunk being played afterwards.
    pub active: Option<ActiveModel>,
    /// How many chunks were of no use.
    pub late: nat,
    /// What the queue gives afterwards.
    pub deliveries: Seq<Option<ChunkModel>>,
}

/// What comes of asking for the frame at `time_us` when the queue gives `deliveries`, each
/// time it is asked: it is asked for chunks one by one until one of them gives a frame
/// or has to wait, or until the queue is found empty.
pub open spec fn frame_run(
    active: Option<ActiveModel>,
    deliveries: Seq<Option<ChunkModel>>,
    time_us: int,
    rate_hz: int,
) -> FrameRun
    decreases deliveries.len(), (if active is Some { 1nat } else { 0nat }),
{
    match active {
        None => if deliveries.len() == 0 {
            FrameRun { frame: None, active: None, late: 0, deliveries }
        } else {
            match deliveries[0] {
                None => FrameRun {
                    frame: None,
                    active: None,
                    late: 0,
                    deliveries: deliveries.drop_first(),
                },
                Some(chunk) => frame_run(
                    Some(ActiveModel { chunk, next_frame_index: 0, started: false }),
                    deliveries.drop_first(),
                    time_us,
                    rate_hz,
                ),
            }
        },
        Some(a) => match chunk_step(a, time_us, rate_hz) {
            ChunkStep::Drop { late } => {
                let later = frame_run(None, deliveries, time_us, rate_hz);
                FrameRun { late: later.late + (if late { 1nat } else { 0nat }), ..later }
            },
            ChunkStep::Wait => FrameRun { frame: None, active, late: 0, deliveries },
            ChunkStep::Play { index } => FrameRun {
                frame: Some(a.chunk.frame(index as int)),
                active: Some(
                    ActiveModel {
                        chunk: a.chunk,
                        next_frame_index: (index + 1) as nat,
                        started: true,
                    },
                ),
                late: 0,
                deliveries,
            },
        },
    }
}

/// What a queue gives after it was emptied: what follows the first time that it is
/// found empty.
pub open spec fn after_emptying(deliveries: Seq<Option<ChunkModel>>) -> Seq<Option<ChunkModel>>
    decreases deliveries.len(),
{
    if deliveries.len() == 0 {
        deliveries
    } else {
        match deliveries[0] {
            None => deliveries.drop_first(),
            Some(chunk) => after_emptying(deliveries.drop_first()),
        }
    }
}

/// The shared state with `n` more chunks that were of no use.
pub open spec fn with_late_chunks(shared: SharedModel, n: nat) -> SharedModel
    decreases n,
{
    if n == 0 {
        shared
    } else {
        with_late_chunks(shared, (n - 1) as nat).with_late_chunk()
    }
}

/// The rate that a host plays at; no host plays at zero.
pub open spec fn playing_rate(host_sample_rate_hz: u32) -> int {
    if host_sample_rate_hz == 0 {
        1
    } else {
        host_sample_rate_hz as int
    }
}

// ---------------------------------------------------------------------------
// Keeping up with the stream

/// How many blocks in a row went without audio, and how many with it.
pub struct SyncStreaks {
    pub underrun: u32,
    pub recovery: u32,
}

/// One more block in a row.
pub open spec fn lengthened(streak: u32) -> u32 {
    if streak == u32::MAX {
        u32::MAX
    } else {
        (streak + 1) as u32
    }
}

/// The streaks after a block. They count only while a stream is active, and the
/// recovery streak starts over where it has ended an error.
pub open spec fn streaks_after(
    streaks: SyncStreaks,
    shared: SharedModel,
    received: bool,
) -> SyncStreaks {
    if !shared.stream_active {
        SyncStreaks { underrun: 0, recovery: 0 }
    } else if !received {
        SyncStreaks { underrun: lengthened(streaks.underrun), recovery: 0 }
    } else if shared.sync_state == SyncState::Error && lengthened(streaks.recovery)
        >= RECOVERY_SYNC_THRESHOLD_BLOCKS {
        SyncStreaks { underrun: 0, recovery: 0 }
    } else {
        SyncStreaks { underrun: 0, recovery: lengthened(streaks.recovery) }
    }
}

/// The shared state after a block: an error after enough blocks in a row without
/// audio, and synchronized again after enough blocks in a row with it.
pub open spec fn shared_after(
    streaks: SyncStreaks,
    shared: SharedModel,
    received: bool,
) -> SharedModel {
    if !shared.stream_active {
        shared
    } else if !received {
        if lengthened(streaks.underrun) >= UNDERRUN_ERROR_THRESHOLD_BLOCKS {
            shared.with_sync_state(SyncState::Error)
        } else {
            shared
        }
    } else if shared.sync_state == SyncState::Error && lengthened(streaks.recovery)
        < RECOVERY_SYNC_THRESHOLD_BLOCKS {
        shared
    } else {
        shared.with_sync_state(SyncState::Synchronized)
    }
}

// ---------------------------------------------------------------------------
// The render clock

/// Microseconds that `frames` frames last.
pub open spec fn duration_us(frames: int, rate_hz: int) -> int {
    frames * 1_000_000 / rate_hz
}

/// The Unix time at which a block that is rendered at `now` is heard: a block later,
/// moved by the user's offset.
pub open spec fn wall_start_us(
    anchor: TimeAnchor,
    now: MonotonicInstant,
    block_us: int,
    offset_ms: int,
) -> int {
    anchor.unix_micros_at(
        crate::clock::shifted(now, crate::clock::saturated(block_us + offset_ms * 1_000)),
    )
}

/// The time of a block's first frame: where the render clock stands, or the wall
/// clock's time where it does not run yet.
pub open spec fn block_start_us(cursor: Option<i64>, wall_us: int) -> int {
    match cursor {
        Some(us) => us as int,
        None => wall_us,
    }
}

/// The time of the next block's first frame: a block later, counted from the wall
/// clock where the render clock does not run yet or has drifted too far from it.
pub open spec fn next_cursor_us(cursor: Option<i64>, wall_us: int, block_us: int) -> int {
    match cursor {
        Some(us) => {
            let drift = crate::clock::saturated(wall_us - us);
            if drift > RENDER_CLOCK_REANCHOR_THRESHOLD_US || drift
                < -RENDER_CLOCK_REANCHOR_THRESHOLD_US {
                crate::clock::saturated(wall_us + block_us)
            } else {
                crate::clock::saturated(us + block_us)
            }
        },
        None => crate::clock::saturated(wall_us + block_us),
    }
}

/// The time of the frame at `index` of a block.
pub open spec fn frame_time_us(start_us: int, index: int, rate_hz: int) -> int {
    crate::clock::saturated(start_us + duration_us(index, rate_hz))
}

// ---------------------------------------------------------------------------
// Rendering a block

/// What comes of rendering a block.
pub struct BlockRun {
    pub frames: Seq<Option<PcmFrame>>,
    pub active: Option<ActiveModel>,
    pub late: nat,
    /// What the queue gives afterwards.
    pub deliveries: Seq<Option<ChunkModel>>,
}

/// What comes of rendering a block of `n` frames, frame by frame, when the queue gives
/// `deliveries`.
pub open spec fn block_run(
    active: Option<ActiveModel>,
    deliveries: Seq<Option<ChunkModel>>,
    n: nat,
    start_us: int,
    rate_hz: int,
) -> BlockRun
    decreases n,
{
    if n == 0 {
        BlockRun { frames: Seq::empty(), active, late: 0, deliveries }
    } else {
        let before = block_run(active, deliveries, (n - 1) as nat, start_us, rate_hz);
        let run = frame_run(
            before.active,
            before.deliveries,
            frame_time_us(start_us, n - 1, rate_hz),
            rate_hz,
        );
        BlockRun {
            frames: before.frames.push(run.frame),
            active: run.active,
            late: before.late + run.late,
            deliveries: run.deliveries,
        }
    }
}

/// Whether a block holds any frame.
pub open spec fn any_frame(frames: Seq<Option<PcmFrame>>) -> bool {
    exists|i: int| 0 <= i < frames.len() && #[trigger] frames[i] is Some
}

/// How a rendered block is to be mixed: the remote volume in percent, and whether
/// it is silenced.
#[derive(Clone, Copy, Debug, PartialEq, Eq, Structural)]
pub struct BlockMix {
    pub remote_volume: u8,
    pub silent: bool,
}

proof fn lemma_late_chunks_add(shared: SharedModel, n: nat, m: nat)
    ensures
        with_late_chunks(with_late_chunks(shared, n), m) == with_late_chunks(shared, n + m),
    decreases m,
{
    if m > 0 {
        lemma_late_chunks_add(shared, n, (m - 1) as nat);
    }
}

/// The playback side of the plugin.
pub struct SendspinVst3 {
    pub chunk_consumer: rtrb::Consumer<TimestampedChunk>,
    pub chunk_producer: Option<rtrb::Producer<TimestampedChunk>>,
    pub active_chunk: Option<ActiveChunk>,
    pub sample_rate_hz: u32,
    pub render_cursor_us: Option<i64>,
    pub time_anchor: TimeAnchor,
    pub underrun_streak_blocks: u32,
    pub recovery_streak_blocks: u32,
}

/// `run`, as it ends after `late` chunks that were of no use before it.
pub open spec fn after_late(run: FrameRun, late: nat) -> FrameRun {
    FrameRun { late: run.late + late, ..run }
}

impl SendspinVst3 {
    /// What the queue is still to give.
    pub open spec fn deliveries(&self) -> Seq<Option<ChunkModel>> {
        delivery_models(crate::queue::given(self.chunk_consumer))
    }

    /// The frame due at `sample_time_us`, if there is one.
    pub fn next_frame(
        &mut self,
        shared: &mut SharedState,
        sample_time_us: i64,
        host_sample_rate_hz: u32,
    ) -> (r: Option<PcmFrame>)
        ensures
            ({
                let run = frame_run(
                    opt_active(old(self).active_chunk),
                    old(self).deliveries(),
                    sample_time_us as int,
                    playing_rate(host_sample_rate_hz),
                );
                &&& r == run.frame
                &&& opt_active(final(self).active_chunk) == run.active
                &&& final(self).deliveries() == run.deliveries
                &&& final(shared)@ == with_late_chunks(old(shared)@, run.late)
            }),
            *final(self) == (SendspinVst3 {
                chunk_consumer: final(self).chunk_consumer,
                active_chunk: final(self).active_chunk,
                ..*old(self)
            }),
    {
        let rate_hz: u32 = if host_sample_rate_hz == 0 {
            1
        } else {
            host_sample_rate_hz
        };
        let ghost time = sample_time_us as int;
        let ghost rate = playing_rate(host_sample_rate_hz);
        let ghost run = frame_run(
            opt_active(old(self).active_chunk),
            old(self).deliveries(),
            time,
            rate,
        );
        let ghost mut late: nat = 0;
        loop
            invariant
                rate_hz == rate,
                time == sample_time_us,
                rate == playing_rate(host_sample_rate_hz),
                run == frame_run(
                    opt_active(old(self).active_chunk),
                    old(self).deliveries(),
                    time,
                    rate,
                ),
                run == after_late(
                    frame_run(opt_active(self.active_chunk), self.deliveries(), time, rate),
                    late,
                ),
                shared@ == with_late_chunks(old(shared)@, late),
                *self == (SendspinVst3 {
                    chunk_consumer: self.chunk_consumer,
                    active_chunk: self.active_chunk,
                    ..*old(self)
                }),
            decreases
                    crate::queue::given(self.chunk_consumer).len(),
                    if self.active_chunk is Some {
                        1nat
                    } else {
                        0nat
                    },
        {
            match self.active_chunk.take() {
                None => {
                    let ghost before = self.deliveries();
                    let popped = pop_chunk(&mut self.chunk_consumer);
                    assert(before =~= seq![crate::queue::opt_chunk(popped)] + self.deliveries());
                    assert(before.drop_first() =~= self.deliveries());
                    match popped {
                        Some(chunk) => {
                            self.active_chunk = Some(
                                ActiveChunk { chunk, next_frame_index: 0, started: false },
                            );
                        },
                        None => {
                            return None;
                        },
                    }
                },
                Some(active) => {
                    let mut active = active;
                    match judge_chunk(&active, sample_time_us, rate_hz) {
                        ChunkStep::Drop { late: useless } => {
                            if useless {
                                shared.record_late_chunk();
                                proof {
                                    late = late + 1;
                                }
                            }
                        },
                        ChunkStep::Wait => {
                            self.active_chunk = Some(active);
                            return None;
                        },
                        ChunkStep::Play { index } => {
                            let frame = active.chunk.frame(index);
                            active.next_frame_index = index + 1;
                            active.started = true;
                            self.active_chunk = Some(active);
                            return Some(frame);
                        },
                    }
                },
            }
        }
    }

    /// The playback side at rest, with its queue and the given anchor.
    pub fn anchored(time_anchor: TimeAnchor) -> (r: Self)
        ensures
            r.is_new(),
            r.time_anchor == time_anchor,
    {
        let (chunk_producer, chunk_consumer) = new_queue(CHUNK_QUEUE_CAPACITY);
        SendspinVst3 {
            chunk_consumer,
            chunk_producer: Some(chunk_producer),
            active_chunk: None,
            sample_rate_hz: 48_000,
            render_cursor_us: None,
            time_anchor,
            underrun_streak_blocks: 0,
            recovery_streak_blocks: 0,
        }
    }

    /// The playback side at rest, with its queue, anchored at the current Unix time;
    /// `now` is the current reading of the monotonic clock.
    pub fn new(now: MonotonicInstant) -> (r: Self)
        ensures
            r.is_new(),
            r.time_anchor.instant == now,
    {
        SendspinVst3::anchored(TimeAnchor::capture_now(now))
    }

    /// Whether nothing has been played yet, and the queue is unused.
    pub open spec fn is_new(&self) -> bool {
        &&& self.active_chunk is None
        &&& self.sample_rate_hz == 48_000
        &&& self.render_cursor_us is None
        &&& self.underrun_streak_blocks == 0
        &&& self.recovery_streak_blocks == 0
        &&& self.chunk_producer matches Some(producer) && crate::queue::received(
            crate::queue::given(self.chunk_consumer),
        ).is_prefix_of(crate::queue::accepted(crate::queue::offered(producer)))
            && crate::queue::untouched_slots(producer) == CHUNK_QUEUE_CAPACITY
    }

    /// Takes the producing end of the queue, which the network worker gets.
    pub fn take_chunk_producer(&mut self) -> (r: Option<rtrb::Producer<TimestampedChunk>>)
        ensures
            r == old(self).chunk_producer,
            *final(self) == (SendspinVst3 { chunk_producer: None, ..*old(self) }),
    {
        self.chunk_producer.take()
    }

    /// Prepares playback at the host's sample rate and block size, with the settings
    /// that were saved and the given anchor. The client name and the server URL that
    /// are configured, and are to be saved in their stead, are returned; a URL that
    /// stands for none is empty.
    pub fn initialize_anchored(
        &mut self,
        shared: &mut SharedState,
        sample_rate_hz: u32,
        max_block_size: u32,
        saved_client_name: &str,
        saved_server_url: &str,
        from_environment: Option<&str>,
        time_anchor: TimeAnchor,
    ) -> (r: (String, String))
        ensures
            r.0@ == crate::config::configured_name(
                saved_client_name@,
                crate::config::opt_str(from_environment),
            ),
            r.1@ == crate::config::configured_url(saved_server_url@),
            final(shared)@ == (SharedModel {
                host_sample_rate_hz: sample_rate_hz,
                host_block_size: max_block_size,
                configured_client_name: r.0@,
                configured_server_url: r.1@,
                ..old(shared)@
            }),
            *final(self) == (SendspinVst3 {
                sample_rate_hz,
                render_cursor_us: None,
                time_anchor,
                ..*old(self)
            }),
    {
        self.sample_rate_hz = sample_rate_hz;
        shared.host_sample_rate_hz = sample_rate_hz;
        shared.host_block_size = max_block_size;
        self.render_cursor_us = None;
        self.time_anchor = time_anchor;
        let client_name = configure_client_name(saved_client_name, from_environment);
        shared.set_configured_client_name(client_name.clone());
        let server_url = configure_server_url(saved_server_url);
        shared.set_configured_server_url(server_url.clone());
        (client_name, server_url)
    }

    /// Prepares playback as `initialize_anchored` does, anchored at the current Unix
    /// time; `now` is the current reading of the monotonic clock.
    pub fn initialize(
        &mut self,
        shared: &mut SharedState,
        sample_rate_hz: u32,
        max_block_size: u32,
        saved_client_name: &str,
        saved_server_url: &str,
        from_environment: Option<&str>,
        now: MonotonicInstant,
    ) -> (r: (String, String))
        ensures
            r.0@ == crate::config::configured_name(
                saved_client_name@,
                crate::config::opt_str(from_environment),
            ),
            r.1@ == crate::config::configured_url(saved_server_url@),
            final(shared)@ == (SharedModel {
                host_sample_rate_hz: sample_rate_hz,
                host_block_size: max_block_size,
                configured_client_name: r.0@,
                configured_server_url: r.1@,
                ..old(shared)@
            }),
            final(self).time_anchor.instant == now,
            *final(self) == (SendspinVst3 {
                sample_rate_hz,
                render_cursor_us: None,
                time_anchor: final(self).time_anchor,
                ..*old(self)
            }),
    {
        self.initialize_anchored(
            shared,
            sample_rate_hz,
            max_block_size,
            saved_client_name,
            saved_server_url,
            from_environment,
            TimeAnchor::capture_now(now),
        )
    }

    /// Forgets all queued audio.
    pub fn reset(&mut self)
        ensures
            final(self).deliveries() == after_emptying(old(self).deliveries()),
            *final(self) == (SendspinVst3 {
                chunk_consumer: final(self).chunk_consumer,
                ..old(self).at_rest()
            }),
    {
        self.clear_audio_queue();
    }

    /// The streaks of blocks with and without audio.
    pub open spec fn streaks(&self) -> SyncStreaks {
        SyncStreaks {
            underrun: self.underrun_streak_blocks,
            recovery: self.recovery_streak_blocks,
        }
    }

    /// The playback side with nothing to play, apart from its queue.
    pub open spec fn at_rest(self) -> SendspinVst3 {
        SendspinVst3 {
            active_chunk: None,
            render_cursor_us: None,
            underrun_streak_blocks: 0,
            recovery_streak_blocks: 0,
            ..self
        }
    }

    /// Drops the active chunk, empties the queue, and starts the render clock and the
    /// streaks anew.
    pub fn clear_audio_queue(&mut self)
        ensures
            final(self).deliveries() == after_emptying(old(self).deliveries()),
            *final(self) == (SendspinVst3 {
                chunk_consumer: final(self).chunk_consumer,
                ..old(self).at_rest()
            }),
    {
        self.active_chunk = None;
        self.render_cursor_us = None;
        self.underrun_streak_blocks = 0;
        self.recovery_streak_blocks = 0;
        let mut more: bool = true;
        while more
            invariant
                more ==> after_emptying(self.deliveries()) == after_emptying(
                    old(self).deliveries(),
                ),
                !more ==> self.deliveries() == after_emptying(old(self).deliveries()),
                *self == (SendspinVst3 {
                    chunk_consumer: self.chunk_consumer,
                    ..old(self).at_rest()
                }),
            decreases
                    crate::queue::given(self.chunk_consumer).len(),
                    if more {
                        1nat
                    } else {
                        0nat
                    },
        {
            let ghost before = self.deliveries();
            let popped = pop_chunk(&mut self.chunk_consumer);
            assert(before =~= seq![crate::queue::opt_chunk(popped)] + self.deliveries());
            assert(before.drop_first() =~= self.deliveries());
            more = popped.is_some();
        }
    }

    /// Updates the synchronization state after a block.
    pub fn update_sync_state_for_block(
        &mut self,
        shared: &mut SharedState,
        received_any_frame: bool,
    )
        ensures
            final(self).streaks() == streaks_after(
                old(self).streaks(),
                old(shared)@,
                received_any_frame,
            ),
            final(shared)@ == shared_after(old(self).streaks(), old(shared)@, received_any_frame),
            *final(self) == (SendspinVst3 {
                underrun_streak_blocks: final(self).underrun_streak_blocks,
                recovery_streak_blocks: final(self).recovery_streak_blocks,
                ..*old(self)
            }),
    {
        if shared.stream_active {
            if received_any_frame {
                self.underrun_streak_blocks = 0;
                self.recovery_streak_blocks = self.recovery_streak_blocks.saturating_add(1);
                if shared.sync_state() == SyncState::Error {
                    if self.recovery_streak_blocks >= RECOVERY_SYNC_THRESHOLD_BLOCKS {
                        shared.set_sync_state(SyncState::Synchronized);
                        self.recovery_streak_blocks = 0;
                    }
                } else {
                    shared.set_sync_state(SyncState::Synchronized);
                }
            } else {
                self.recovery_streak_blocks = 0;
                self.underrun_streak_blocks = self.underrun_streak_blocks.saturating_add(1);
                if self.underrun_streak_blocks >= UNDERRUN_ERROR_THRESHOLD_BLOCKS {
                    shared.set_sync_state(SyncState::Error);
                }
            }
        } else {
            self.underrun_streak_blocks = 0;
            self.recovery_streak_blocks = 0;
        }
    }

    /// Advances the render clock by a block of `frame_total` frames and returns the
    /// time of its first frame.
    pub fn begin_block(
        &mut self,
        frame_total: usize,
        now: MonotonicInstant,
        pipeline_offset_ms: i32,
    ) -> (r: i64)
        requires
            frame_total * 1_000_000 <= i64::MAX,
            now.nanos + (duration_us(frame_total as int, playing_rate(old(self).sample_rate_hz))
                + pipeline_offset_ms * 1_000) * 1_000 <= u64::MAX,
        ensures
            ({
                let rate_hz = playing_rate(old(self).sample_rate_hz);
                let block_us = duration_us(frame_total as int, rate_hz);
                let wall_us = wall_start_us(
                    old(self).time_anchor,
                    now,
                    block_us,
                    pipeline_offset_ms as int,
                );
                &&& r == block_start_us(old(self).render_cursor_us, wall_us)
                &&& final(self).render_cursor_us matches Some(next) && next == next_cursor_us(
                    old(self).render_cursor_us,
                    wall_us,
                    block_us,
                )
            }),
            *final(self) == (SendspinVst3 {
                render_cursor_us: final(self).render_cursor_us,
                ..*old(self)
            }),
    {
        let rate_hz: i64 = if self.sample_rate_hz == 0 {
            1
        } else {
            self.sample_rate_hz as i64
        };
        let block_us: i64 = frame_total as i64 * 1_000_000 / rate_hz;
        assert(0 <= block_us <= frame_total * 1_000_000) by (nonlinear_arith)
            requires
                block_us == (frame_total * 1_000_000) as int / rate_hz as int,
                rate_hz >= 1,
        ;
        let offset_us: i64 = pipeline_offset_ms as i64 * 1_000;
        let heard = shift_instant_by_micros(now, saturating_sum(block_us, offset_us));
        let wall_us = self.time_anchor.instant_to_unix_micros(heard);
        let mut start_us: i64 = wall_us;
        let mut next_us: i64 = saturating_sum(wall_us, block_us);
        if let Some(cursor_us) = self.render_cursor_us {
            start_us = cursor_us;
            let drift_us = saturating_difference(wall_us, cursor_us);
            if drift_us <= RENDER_CLOCK_REANCHOR_THRESHOLD_US && drift_us
                >= -RENDER_CLOCK_REANCHOR_THRESHOLD_US {
                next_us = saturating_sum(cursor_us, block_us);
            }
        }
        self.render_cursor_us = Some(next_us);
        start_us
    }

    /// Renders a block of `frame_total` frames into `frames`, where a frame without
    /// audio is `None`, and updates the synchronization state.
    pub fn process(
        &mut self,
        shared: &mut SharedState,
        frames: &mut Vec<Option<PcmFrame>>,
        frame_total: usize,
        now: MonotonicInstant,
        pipeline_offset_ms: i32,
        user_muted: bool,
    ) -> (r: BlockMix)
        requires
            frame_total * 1_000_000 <= i64::MAX,
            now.nanos + (duration_us(frame_total as int, playing_rate(old(self).sample_rate_hz))
                + pipeline_offset_ms * 1_000) * 1_000 <= u64::MAX,
        ensures
            r.silent == (user_muted || old(shared)@.remote_muted),
            r.remote_volume == (if old(shared)@.remote_volume > 100 {
                100
            } else {
                old(shared)@.remote_volume
            }),
            final(frames)@.len() == frame_total,
            block_rendered(
                *old(self),
                old(shared)@,
                now,
                pipeline_offset_ms as int,
                final(frames)@,
                *final(self),
                final(shared)@,
            ),
    {
        if shared.take_clear_requested() {
            self.clear_audio_queue();
        }
        let rate_hz: i64 = if self.sample_rate_hz == 0 {
            1
        } else {
            self.sample_rate_hz as i64
        };
        let mix = BlockMix {
            remote_volume: if shared.remote_volume > 100 {
                100
            } else {
                shared.remote_volume
            },
            silent: user_muted || shared.remote_muted,
        };
        let start_us = self.begin_block(frame_total, now, pipeline_offset_ms);
        let ghost ready = *self;
        let ghost shared_ready = shared@;
        frames.clear();
        let mut received_any_frame: bool = false;
        let mut index: usize = 0;
        while index < frame_total
            invariant
                index <= frame_total,
                frame_total * 1_000_000 <= i64::MAX,
                rate_hz == playing_rate(ready.sample_rate_hz),
                1 <= rate_hz <= u32::MAX,
                *self == (SendspinVst3 {
                    chunk_consumer: self.chunk_consumer,
                    active_chunk: self.active_chunk,
                    ..ready
                }),
                frames@.len() == index,
                received_any_frame == any_frame(frames@),
                ({
                    let run = block_run(
                        opt_active(ready.active_chunk),
                        ready.deliveries(),
                        index as nat,
                        start_us as int,
                        rate_hz as int,
                    );
                    &&& run.frames == frames@
                    &&& run.active == opt_active(self.active_chunk)
                    &&& run.deliveries == self.deliveries()
                    &&& shared@ == with_late_chunks(shared_ready, run.late)
                }),
            decreases frame_total - index,
        {
            let ghost frames_before = frames@;
            let ghost before = block_run(
                opt_active(ready.active_chunk),
                ready.deliveries(),
                index as nat,
                start_us as int,
                rate_hz as int,
            );
            let offset_us: i64 = index as i64 * 1_000_000 / rate_hz;
            let time_us = saturating_sum(start_us, offset_us);
            let frame = self.next_frame(shared, time_us, self.sample_rate_hz);
            proof {
                lemma_late_chunks_add(
                    shared_ready,
                    before.late,
                    frame_run(
                        before.active,
                        before.deliveries,
                        time_us as int,
                        rate_hz as int,
                    ).late,
                );
            }
            if frame.is_some() {
                received_any_frame = true;
            }
            frames.push(frame);
            proof {
                assert(frames@[index as int] == frame);
                assert forall|i: int| 0 <= i < frames_before.len() implies frames@[i]
                    == #[trigger] frames_before[i] by {}
                if any_frame(frames@) && frame is None {
                    let i = choose|i: int| 0 <= i < frames@.len() && #[trigger] frames@[i] is Some;
                    assert(frames_before[i] is Some);
                }
                if any_frame(frames_before) {
                    let i = choose|i: int|
                        0 <= i < frames_before.len() && #[trigger] frames_before[i] is Some;
                    assert(frames@[i] is Some);
                }
            }
            index = index + 1;
        }
        self.update_sync_state_for_block(shared, received_any_frame);
        mix
    }
}

/// How a block of frames comes out that is rendered from the state `before` and leaves
/// the state `after`. Where a clear was asked for, the queue is emptied first, and
/// everything starts anew. The frames are rendered from what the queue gives, at the
/// times that the render clock gives them, and the synchronization state follows from
/// whether there was any.
pub open spec fn block_rendered(
    before: SendspinVst3,
    shared_before: SharedModel,
    now: MonotonicInstant,
    offset_ms: int,
    frames: Seq<Option<PcmFrame>>,
    after: SendspinVst3,
    shared_after_block: SharedModel,
) -> bool {
    let clear = shared_before.clear_requested;
    let ready = if clear {
        before.at_rest()
    } else {
        before
    };
    let deliveries = if clear {
        after_emptying(before.deliveries())
    } else {
        before.deliveries()
    };
    let rate_hz = playing_rate(before.sample_rate_hz);
    let block_us = duration_us(frames.len() as int, rate_hz);
    let wall_us = wall_start_us(before.time_anchor, now, block_us, offset_ms);
    let run = block_run(
        opt_active(ready.active_chunk),
        deliveries,
        frames.len(),
        block_start_us(ready.render_cursor_us, wall_us),
        rate_hz,
    );
    let shared_heard = with_late_chunks(
        (SharedModel { clear_requested: false, ..shared_before }),
        run.late,
    );
    let received = any_frame(frames);
    &&& frames == run.frames
    &&& opt_active(after.active_chunk) == run.active
    &&& after.deliveries() == run.deliveries
    &&& after.render_cursor_us matches Some(next) && next == next_cursor_us(
        ready.render_cursor_us,
        wall_us,
        block_us,
    )
    &&& after.streaks() == streaks_after(ready.streaks(), shared_heard, received)
    &&& shared_after_block == shared_after(ready.streaks(), shared_heard, received)
    &&& after.chunk_producer == before.chunk_producer
    &&& after.sample_rate_hz == before.sample_rate_hz
    &&& after.time_anchor == before.time_anchor
}

// ---------------------------------------------------------------------------
// Laws of playback

/// A chunk never starts before its time, apart from the tolerance.
pub proof fn law_chunk_never_starts_early(active: ActiveModel, time_us: int, rate_hz: int)
    requires
        !active.started,
        chunk_step(active, time_us, rate_hz) is Play,
    ensures
        time_us >= active.chunk.local_play_time_us - TIMING_JITTER_TOLERANCE_US,
{
}

/// A chunk that starts too late leaves out just the frames of the time that it has
/// missed; one that starts within the tolerance leaves out none.
pub proof fn law_late_start_skips_missed_time(active: ActiveModel, time_us: int, rate_hz: int)
    requires
        !active.started,
        rate_hz > 0,
        active.chunk.frame_count <= usize::MAX,
        chunk_step(active, time_us, rate_hz) is Play,
    ensures
        ({
            let delta = time_us - active.chunk.local_play_time_us;
            let index = chunk_step(active, time_us, rate_hz)->index;
            &&& delta <= TIMING_JITTER_TOLERANCE_US ==> index == 0
            &&& delta > TIMING_JITTER_TOLERANCE_US ==> index * 1_000_000 <= delta * rate_hz < (index
                + 1) * 1_000_000
        }),
{
    let delta = time_us - active.chunk.local_play_time_us;
    if delta > TIMING_JITTER_TOLERANCE_US {
        assert(delta * rate_hz >= 0) by (nonlinear_arith)
            requires
                delta >= 0,
                rate_hz > 0,
        ;
    }
}

/// A chunk that has started goes on with the next frame whatever the time, and ends
/// after its last one: no frame is played twice or left out.
pub proof fn law_frames_follow_each_other(
    chunk: ChunkModel,
    index: nat,
    time_us: int,
    rate_hz: int,
)
    requires
        chunk.sample_rate_hz == rate_hz,
        chunk.frame_count <= usize::MAX,
    ensures
        ({
            let active = ActiveModel { chunk, next_frame_index: index, started: true };
            chunk_step(active, time_us, rate_hz) == if index < chunk.frame_count {
                ChunkStep::Play { index: index as usize }
            } else {
                ChunkStep::Drop { late: false }
            }
        }),
{
}

/// A chunk that is given for a block starting at its time is played frame by frame
/// from its first frame on, and the queue is asked for nothing else.
pub proof fn law_timely_chunk_is_played_through(
    chunk: ChunkModel,
    deliveries: Seq<Option<ChunkModel>>,
    n: nat,
    start_us: int,
    rate_hz: int,
)
    requires
        i64::MIN <= start_us <= i64::MAX,
        -TIMING_JITTER_TOLERANCE_US <= start_us - chunk.local_play_time_us
            <= TIMING_JITTER_TOLERANCE_US,
        chunk.sample_rate_hz == rate_hz,
        rate_hz > 0,
        1 <= n <= chunk.frame_count <= usize::MAX,
        deliveries.len() > 0,
        deliveries[0] == Some(chunk),
    ensures
        block_run(None, deliveries, n, start_us, rate_hz) == (BlockRun {
            frames: Seq::new(n, |i: int| Some(chunk.frame(i))),
            active: Some(ActiveModel { chunk, next_frame_index: n, started: true }),
            late: 0,
            deliveries: deliveries.drop_first(),
        }),
    decreases n,
{
    let time_us = frame_time_us(start_us, n - 1, rate_hz);
    let before = block_run(None, deliveries, (n - 1) as nat, start_us, rate_hz);
    if n == 1 {
        assert(0int * 1_000_000 / rate_hz == 0) by (nonlinear_arith)
            requires
                rate_hz > 0,
        ;
        let active = ActiveModel { chunk, next_frame_index: 0, started: false };
        assert(frame_run(before.active, before.deliveries, time_us, rate_hz) == frame_run(
            Some(active),
            deliveries.drop_first(),
            time_us,
            rate_hz,
        ));
    } else {
        law_timely_chunk_is_played_through(chunk, deliveries, (n - 1) as nat, start_us, rate_hz);
    }
    assert(block_run(None, deliveries, n, start_us, rate_hz).frames =~= Seq::new(
        n,
        |i: int| Some(chunk.frame(i)),
    ));
}

/// A chunk that has started plays on over the next blocks, frame by frame to its end,
/// whatever their times, and the queue is left alone meanwhile.
pub proof fn law_started_chunk_plays_on(
    chunk: ChunkModel,
    index: nat,
    deliveries: Seq<Option<ChunkModel>>,
    n: nat,
    start_us: int,
    rate_hz: int,
)
    requires
        chunk.sample_rate_hz == rate_hz,
        index + n <= chunk.frame_count <= usize::MAX,
    ensures
        block_run(
            Some(ActiveModel { chunk, next_frame_index: index, started: true }),
            deliveries,
            n,
            start_us,
            rate_hz,
        ) == (BlockRun {
            frames: Seq::new(n, |i: int| Some(chunk.frame(index + i))),
            active: Some(ActiveModel { chunk, next_frame_index: index + n, started: true }),
            late: 0,
            deliveries,
        }),
    decreases n,
{
    let active = Some(ActiveModel { chunk, next_frame_index: index, started: true });
    if n > 0 {
        law_started_chunk_plays_on(chunk, index, deliveries, (n - 1) as nat, start_us, rate_hz);
    }
    assert(block_run(active, deliveries, n, start_us, rate_hz).frames =~= Seq::new(
        n,
        |i: int| Some(chunk.frame(index + i)),
    ));
}

/// Where nothing is being played and the queue is empty each time it is asked, a block
/// is silent.
pub proof fn law_nothing_arrived_is_silence(
    deliveries: Seq<Option<ChunkModel>>,
    n: nat,
    start_us: int,
    rate_hz: int,
)
    requires
        n <= deliveries.len(),
        forall|i: int| 0 <= i < n ==> #[trigger] deliveries[i] is None,
    ensures
        block_run(None, deliveries, n, start_us, rate_hz) == (BlockRun {
            frames: Seq::new(n, |i: int| None),
            active: None,
            late: 0,
            deliveries: deliveries.skip(n as int),
        }),
        !any_frame(block_run(None, deliveries, n, start_us, rate_hz).frames),
    decreases n,
{
    if n > 0 {
        law_nothing_arrived_is_silence(deliveries, (n - 1) as nat, start_us, rate_hz);
        assert(deliveries.skip(n - 1)[0] == deliveries[n - 1]);
        assert(deliveries.skip(n - 1).drop_first() =~= deliveries.skip(n as int));
    } else {
        assert(deliveries.skip(0) =~= deliveries);
    }
    assert(block_run(None, deliveries, n, start_us, rate_hz).frames =~= Seq::new(n, |i: int| None));
}

/// Whether a chunk is being played, or is among what the queue gives.
pub open spec fn is_at_hand(
    chunk: ChunkModel,
    active: Option<ActiveModel>,
    deliveries: Seq<Option<ChunkModel>>,
) -> bool {
    (active matches Some(a) && a.chunk == chunk) || deliveries.contains(Some(chunk))
}

/// Whether a frame is one of a chunk at hand.
pub open spec fn comes_from_queue(
    frame: PcmFrame,
    active: Option<ActiveModel>,
    deliveries: Seq<Option<ChunkModel>>,
) -> bool {
    exists|chunk: ChunkModel, index: int|
        is_at_hand(chunk, active, deliveries) && 0 <= index < chunk.frame_count && frame
            == #[trigger] chunk.frame(index)
}

proof fn lemma_frame_comes_from_queue(
    active: Option<ActiveModel>,
    deliveries: Seq<Option<ChunkModel>>,
    time_us: int,
    rate_hz: int,
)
    requires
        rate_hz > 0,
        forall|chunk: ChunkModel| #[trigger]
            is_at_hand(chunk, active, deliveries) ==> chunk.frame_count <= usize::MAX,
    ensures
        ({
            let run = frame_run(active, deliveries, time_us, rate_hz);
            &&& run.frame matches Some(frame) ==> comes_from_queue(frame, active, deliveries)
            &&& forall|chunk: ChunkModel| #[trigger]
                is_at_hand(chunk, run.active, run.deliveries) ==> is_at_hand(
                    chunk,
                    active,
                    deliveries,
                )
        }),
    decreases deliveries.len(), (if active is Some { 1nat } else { 0nat }),
{
    let run = frame_run(active, deliveries, time_us, rate_hz);
    match active {
        None => if deliveries.len() > 0 {
            let rest = deliveries.drop_first();
            let next = match deliveries[0] {
                Some(chunk) => Some(ActiveModel { chunk, next_frame_index: 0, started: false }),
                None => None,
            };
            assert forall|chunk: ChunkModel| #[trigger]
                is_at_hand(chunk, next, rest) implies is_at_hand(chunk, active, deliveries) by {
                if rest.contains(Some(chunk)) {
                    let i = choose|i: int| 0 <= i < rest.len() && rest[i] == Some(chunk);
                    assert(deliveries[i + 1] == Some(chunk));
                } else {
                    assert(deliveries[0] == Some(chunk));
                }
            }
            if next is Some {
                lemma_frame_comes_from_queue(next, rest, time_us, rate_hz);
            }
        },
        Some(a) => {
            assert(is_at_hand(a.chunk, active, deliveries));
            match chunk_step(a, time_us, rate_hz) {
                ChunkStep::Drop { late } => {
                    assert forall|chunk: ChunkModel| #[trigger]
                        is_at_hand(chunk, None, deliveries) implies is_at_hand(
                        chunk,
                        active,
                        deliveries,
                    ) by {}
                    lemma_frame_comes_from_queue(None, deliveries, time_us, rate_hz);
                },
                ChunkStep::Wait => {},
                ChunkStep::Play { index } => {
                    let delta = time_us - a.chunk.local_play_time_us;
                    if !a.started && delta > TIMING_JITTER_TOLERANCE_US {
                        assert(delta * rate_hz >= 0) by (nonlinear_arith)
                            requires
                                delta >= 0,
                                rate_hz > 0,
                        ;
                    }
                    assert(run.frame == Some(a.chunk.frame(index as int)));
                },
            }
        },
    }
}

/// Every frame that is heard is one of a chunk that was being played or that the queue
/// gave: nothing is made up.
pub proof fn law_heard_frames_come_from_queue(
    active: Option<ActiveModel>,
    deliveries: Seq<Option<ChunkModel>>,
    n: nat,
    start_us: int,
    rate_hz: int,
)
    requires
        rate_hz > 0,
        forall|chunk: ChunkModel| #[trigger]
            is_at_hand(chunk, active, deliveries) ==> chunk.frame_count <= usize::MAX,
    ensures
        ({
            let run = block_run(active, deliveries, n, start_us, rate_hz);
            &&& run.frames.len() == n
            &&& forall|i: int|
                0 <= i < n ==> (#[trigger] run.frames[i] matches Some(frame) ==> comes_from_queue(
                    frame,
                    active,
                    deliveries,
                ))
            &&& forall|chunk: ChunkModel| #[trigger]
                is_at_hand(chunk, run.active, run.deliveries) ==> is_at_hand(
                    chunk,
                    active,
                    deliveries,
                )
        }),
    decreases n,
{
    if n > 0 {
        law_heard_frames_come_from_queue(active, deliveries, (n - 1) as nat, start_us, rate_hz);
        let before = block_run(active, deliveries, (n - 1) as nat, start_us, rate_hz);
        let time_us = frame_time_us(start_us, n - 1, rate_hz);
        lemma_frame_comes_from_queue(before.active, before.deliveries, time_us, rate_hz);
        let run = block_run(active, deliveries, n, start_us, rate_hz);
        assert forall|i: int| 0 <= i < n implies (#[trigger] run.frames[i] matches Some(frame)
            ==> comes_from_queue(frame, active, deliveries)) by {
            if i < n - 1 {
                assert(run.frames[i] == before.frames[i]);
            } else if let Some(frame) = run.frames[i] {
                let (chunk, index) = choose|chunk: ChunkModel, index: int|
                    is_at_hand(chunk, before.active, before.deliveries) && 0 <= index
                        < chunk.frame_count && frame == #[trigger] chunk.frame(index);
                assert(is_at_hand(chunk, active, deliveries));
            }
        }
    }
}

/// A larger pipeline offset makes a block count as heard no earlier, so that chunks
/// start no later.
pub proof fn law_larger_offset_plays_sooner(
    anchor: TimeAnchor,
    now: MonotonicInstant,
    block_us: int,
    smaller_ms: int,
    larger_ms: int,
)
    requires
        smaller_ms <= larger_ms,
        0 <= now.nanos + (block_us + smaller_ms * 1_000) * 1_000,
        now.nanos + (block_us + larger_ms * 1_000) * 1_000 <= u64::MAX,
    ensures
        wall_start_us(anchor, now, block_us, smaller_ms) <= wall_start_us(
            anchor,
            now,
            block_us,
            larger_ms,
        ),
{
}

/// After each block the render clock is within the threshold of the wall clock, and
/// it runs on evenly unless it had to be set anew.
pub proof fn law_render_clock_follows_wall_clock(cursor: Option<i64>, wall_us: int, block_us: int)
    requires
        i64::MIN <= wall_us <= i64::MAX,
        0 <= block_us,
        wall_us + block_us <= i64::MAX,
        cursor matches Some(us) ==> us + block_us <= i64::MAX,
    ensures
        ({
            let gap = next_cursor_us(cursor, wall_us, block_us) - (wall_us + block_us);
            -RENDER_CLOCK_REANCHOR_THRESHOLD_US <= gap <= RENDER_CLOCK_REANCHOR_THRESHOLD_US
        }),
        ({
            let step = next_cursor_us(cursor, wall_us, block_us) - block_start_us(cursor, wall_us);
            let drift = wall_us - block_start_us(cursor, wall_us);
            -RENDER_CLOCK_REANCHOR_THRESHOLD_US <= drift <= RENDER_CLOCK_REANCHOR_THRESHOLD_US
                ==> step == block_us
        }),
{
}

/// The streaks and the shared state after `n` blocks in a row that are all with or
/// all without audio.
pub open spec fn after_blocks(
    streaks: SyncStreaks,
    shared: SharedModel,
    received: bool,
    n: nat,
) -> (SyncStreaks, SharedModel)
    decreases n,
{
    if n == 0 {
        (streaks, shared)
    } else {
        let before = after_blocks(streaks, shared, received, (n - 1) as nat);
        (streaks_after(before.0, before.1, received), shared_after(before.0, before.1, received))
    }
}

/// While a stream is active, a synchronized player turns to an error after exactly
/// as many blocks without audio in a row as the threshold says, and not before.
pub proof fn law_error_takes_an_underrun_streak(
    streaks: SyncStreaks,
    shared: SharedModel,
    n: nat,
)
    requires
        shared.stream_active,
        shared.sync_state == SyncState::Synchronized,
        streaks.underrun == 0,
    ensures
        ({
            let after = after_blocks(streaks, shared, false, n);
            &&& after.1.stream_active
            &&& n < UNDERRUN_ERROR_THRESHOLD_BLOCKS ==> after.1 == shared
            &&& n >= UNDERRUN_ERROR_THRESHOLD_BLOCKS ==> after.1 == shared.with_sync_state(
                SyncState::Error,
            )
            &&& after.0.underrun == if n < u32::MAX {
                n as int
            } else {
                u32::MAX as int
            }
        }),
    decreases n,
{
    if n > 0 {
        law_error_takes_an_underrun_streak(streaks, shared, (n - 1) as nat);
    }
}

/// While a stream is active, a player in error recovers after exactly as many blocks
/// with audio in a row as the threshold says, and not before.
pub proof fn law_recovery_takes_a_streak(streaks: SyncStreaks, shared: SharedModel, n: nat)
    requires
        shared.stream_active,
        shared.sync_state == SyncState::Error,
        streaks.recovery == 0,
    ensures
        ({
            let after = after_blocks(streaks, shared, true, n);
            &&& after.1.stream_active
            &&& n < RECOVERY_SYNC_THRESHOLD_BLOCKS ==> after.1 == shared && after.0.recovery == n
            &&& n >= RECOVERY_SYNC_THRESHOLD_BLOCKS ==> after.1 == shared.with_sync_state(
                SyncState::Synchronized,
            )
        }),
    decreases n,
{
    if n > 0 {
        law_recovery_takes_a_streak(streaks, shared, (n - 1) as nat);
    }
}

/// Rendering more frames leaves alone the frames before them.
proof fn lemma_frames_are_kept(
    active: Option<ActiveModel>,
    deliveries: Seq<Option<ChunkModel>>,
    m: nat,
    n: nat,
    start_us: int,
    rate_hz: int,
)
    requires
        m <= n,
    ensures
        block_run(active, deliveries, n, start_us, rate_hz).frames.len() == n,
        forall|i: int|
            0 <= i < m ==> #[trigger] block_run(active, deliveries, n, start_us, rate_hz).frames[i]
                == block_run(active, deliveries, m, start_us, rate_hz).frames[i],
    decreases n,
{
    if n > 0 {
        if m == n {
            lemma_frames_are_kept(
                active,
                deliveries,
                (n - 1) as nat,
                (n - 1) as nat,
                start_us,
                rate_hz,
            );
        } else {
            lemma_frames_are_kept(active, deliveries, m, (n - 1) as nat, start_us, rate_hz);
        }
    }
}

/// A chunk that waits from before the block on stays silent while its time is more than
/// the tolerance away, and then plays from its first frame.
proof fn lemma_waiting_chunk(
    chunk: ChunkModel,
    deliveries: Seq<Option<ChunkModel>>,
    n: nat,
    start_us: int,
    rate_hz: int,
    first: int,
)
    requires
        rate_hz > 0,
        chunk.sample_rate_hz == rate_hz,
        chunk.frame_count <= usize::MAX,
        deliveries.len() > 0,
        deliveries[0] == Some(chunk),
        i64::MIN <= start_us,
        start_us + (n as int) * 1_000_000 / rate_hz <= i64::MAX,
        0 <= first,
        n <= first + chunk.frame_count,
        start_us + first * 1_000_000 / rate_hz >= chunk.local_play_time_us - 1_000,
        first > 0 ==> start_us + (first - 1) * 1_000_000 / rate_hz < chunk.local_play_time_us
            - 1_000,
        first == 0 ==> start_us <= chunk.local_play_time_us + 1_000,
    ensures
        ({
            let run = block_run(None, deliveries, n, start_us, rate_hz);
            &&& run.frames.len() == n
            &&& forall|i: int|
                0 <= i < n ==> #[trigger] run.frames[i] == if i < first {
                    None
                } else {
                    Some(chunk.frame(i - first))
                }
            &&& run.late == 0
            &&& n > 0 ==> run.deliveries == deliveries.drop_first()
            &&& n > 0 ==> run.active == Some(
                ActiveModel {
                    chunk,
                    next_frame_index: if n <= first {
                        0
                    } else {
                        (n - first) as nat
                    },
                    started: n > first,
                },
            )
        }),
    decreases n,
{
    if n > 0 {
        let k = n - 1;
        lemma_division_is_ordered(k, n as int, rate_hz);
        lemma_waiting_chunk(chunk, deliveries, k as nat, start_us, rate_hz, first);
        let before = block_run(None, deliveries, k as nat, start_us, rate_hz);
        let time_us = frame_time_us(start_us, k, rate_hz);
        lemma_division_is_ordered(0, k, rate_hz);
        assert(0int * 1_000_000 / rate_hz == 0) by (nonlinear_arith)
            requires
                rate_hz > 0,
        ;
        assert(time_us == start_us + k * 1_000_000 / rate_hz);
        let waiting = ActiveModel { chunk, next_frame_index: 0, started: false };
        if k == 0 {
            assert(before.deliveries[0] == Some(chunk));
            assert(frame_run(before.active, before.deliveries, time_us, rate_hz) == frame_run(
                Some(waiting),
                deliveries.drop_first(),
                time_us,
                rate_hz,
            ));
        }
        if k < first {
            lemma_division_is_ordered(k, first - 1, rate_hz);
            assert(chunk_step(waiting, time_us, rate_hz) == ChunkStep::Wait);
        } else if k == first {
            let delta = time_us - chunk.local_play_time_us;
            if first > 0 {
                let last = (first - 1) * 1_000_000 / rate_hz;
                let this = first * 1_000_000 / rate_hz;
                assert(delta < this - last - 1_000);
                if delta > 1_000 {
                    assert(delta * rate_hz / 1_000_000 == 0) by (nonlinear_arith)
                        requires
                            0 < delta < this - last - 1_000,
                            last == (first - 1) * 1_000_000 / rate_hz,
                            this == first * 1_000_000 / rate_hz,
                            rate_hz > 0,
                    {
                        assert(this * rate_hz <= first * 1_000_000);
                        assert((last + 1) * rate_hz > (first - 1) * 1_000_000);
                        assert((this - last - 1) * rate_hz < 1_000_000);
                        assert(delta * rate_hz <= (this - last - 1) * rate_hz);
                        assert(delta * rate_hz >= 0);
                    }
                }
            }
            assert(missed_frames(delta, rate_hz) == 0);
            assert(chunk_step(waiting, time_us, rate_hz) == ChunkStep::Play { index: 0 });
        } else {
            let playing = ActiveModel {
                chunk,
                next_frame_index: (k - first) as nat,
                started: true,
            };
            assert(chunk_step(playing, time_us, rate_hz) == ChunkStep::Play {
                index: (k - first) as usize,
            });
        }
    }
}

proof fn lemma_division_is_ordered(i: int, j: int, rate_hz: int)
    requires
        0 <= i <= j,
        rate_hz > 0,
    ensures
        0 <= i * 1_000_000 / rate_hz <= j * 1_000_000 / rate_hz,
{
    assert(0 <= i * 1_000_000 / rate_hz <= j * 1_000_000 / rate_hz) by (nonlinear_arith)
        requires
            0 <= i <= j,
            rate_hz > 0,
    ;
}

/// A block is silent up to the time at which the next chunk is due, and plays the chunk
/// from its first frame on then: every frame is asked for at its own time, which is the
/// start of the block and the frames before it at the host's rate. `start_us` is where
/// the render clock stands, and `first` the first frame that is not more than the
/// tolerance before the chunk's time.
pub proof fn law_chunk_sounds_from_its_due_time(
    before: SendspinVst3,
    shared_before: SharedModel,
    now: MonotonicInstant,
    offset_ms: int,
    frames: Seq<Option<PcmFrame>>,
    after: SendspinVst3,
    shared_after_block: SharedModel,
    start_us: i64,
    chunk: ChunkModel,
    first: int,
)
    requires
        block_rendered(
            before,
            shared_before,
            now,
            offset_ms,
            frames,
            after,
            shared_after_block,
        ),
        !shared_before.clear_requested,
        before.active_chunk is None,
        before.render_cursor_us == Some(start_us),
        before.sample_rate_hz > 0,
        before.deliveries().len() > 0,
        before.deliveries()[0] == Some(chunk),
        chunk.sample_rate_hz == before.sample_rate_hz,
        chunk.frame_count <= usize::MAX,
        start_us + (frames.len() as int) * 1_000_000 / (before.sample_rate_hz as int) <= i64::MAX,
        0 <= first,
        start_us + first * 1_000_000 / (before.sample_rate_hz as int) >= chunk.local_play_time_us
            - 1_000,
        first > 0 ==> start_us + (first - 1) * 1_000_000 / (before.sample_rate_hz as int)
            < chunk.local_play_time_us - 1_000,
        first == 0 ==> start_us <= chunk.local_play_time_us + 1_000,
    ensures
        forall|i: int|
            0 <= i < frames.len() && i < first ==> #[trigger] frames[i] is None,
        forall|i: int|
            first <= i < frames.len() && i - first < chunk.frame_count ==> #[trigger] frames[i]
                == Some(chunk.frame(i - first)),
        0 < frames.len() <= first + chunk.frame_count ==> after.deliveries()
            == before.deliveries().drop_first() && shared_after_block.diagnostics
            == shared_before.diagnostics,
{
    let rate_hz = before.sample_rate_hz as int;
    let n = frames.len();
    let m = if n <= first + chunk.frame_count {
        n
    } else {
        (first + chunk.frame_count) as nat
    };
    lemma_division_is_ordered(m as int, n as int, rate_hz);
    lemma_waiting_chunk(chunk, before.deliveries(), m, start_us as int, rate_hz, first);
    lemma_frames_are_kept(None, before.deliveries(), m, n, start_us as int, rate_hz);
    let run = block_run(None, before.deliveries(), n, start_us as int, rate_hz);
    assert(frames == run.frames);
    let part = block_run(None, before.deliveries(), m, start_us as int, rate_hz);
    assert forall|i: int| 0 <= i < m implies #[trigger] frames[i] == part.frames[i] by {}
}

/// What becomes of a chunk that has not started, by how late it is: while it is more
/// than a millisecond early it waits; up to a millisecond late it plays from its first
/// frame; later it leaves out the frames of the time that has passed, and is dropped
/// where those are all it has.
pub proof fn law_unstarted_chunk_goes_by_its_time(
    chunk: ChunkModel,
    index: nat,
    time_us: int,
    rate_hz: int,
)
    requires
        rate_hz > 0,
        chunk.sample_rate_hz == rate_hz,
        0 < chunk.frame_count <= usize::MAX,
    ensures
        ({
            let active = ActiveModel { chunk, next_frame_index: index, started: false };
            let step = chunk_step(active, time_us, rate_hz);
            let late_us = time_us - chunk.local_play_time_us;
            &&& late_us < -1_000 ==> step == ChunkStep::Wait
            &&& -1_000 <= late_us <= 1_000 ==> step == ChunkStep::Play { index: 0 }
            &&& late_us > 1_000 && late_us * rate_hz >= chunk.frame_count * 1_000_000 ==> step
                == ChunkStep::Drop { late: true }
            &&& late_us > 1_000 && late_us * rate_hz < chunk.frame_count * 1_000_000 ==> {
                &&& step is Play
                &&& step->index * 1_000_000 <= late_us * rate_hz < (step->index + 1) * 1_000_000
            }
        }),
{
    let late_us = time_us - chunk.local_play_time_us;
    if late_us > 1_000 {
        assert(late_us * rate_hz >= 0) by (nonlinear_arith)
            requires
                late_us >= 0,
                rate_hz > 0,
        ;
    }
}

/// A chunk of another rate than the host's, and one that has missed all of its time, is
/// passed over: what is heard is what would be heard without it, and it is counted.
pub proof fn law_useless_chunk_is_passed_over(
    chunk: ChunkModel,
    deliveries: Seq<Option<ChunkModel>>,
    time_us: int,
    rate_hz: int,
)
    requires
        rate_hz > 0,
        deliveries.len() > 0,
        deliveries[0] == Some(chunk),
        chunk.sample_rate_hz != rate_hz || (time_us - chunk.local_play_time_us > 1_000 && (time_us
            - chunk.local_play_time_us) * rate_hz >= chunk.frame_count * 1_000_000),
    ensures
        ({
            let with = frame_run(None, deliveries, time_us, rate_hz);
            let without = frame_run(None, deliveries.drop_first(), time_us, rate_hz);
            &&& with.frame == without.frame
            &&& with.active == without.active
            &&& with.deliveries == without.deliveries
            &&& with.late == without.late + 1
        }),
{
    let fresh = ActiveModel { chunk, next_frame_index: 0, started: false };
    let delta = time_us - chunk.local_play_time_us;
    if chunk.sample_rate_hz == rate_hz {
        assert(delta * rate_hz / 1_000_000 >= chunk.frame_count);
    }
    assert(chunk_step(fresh, time_us, rate_hz) == ChunkStep::Drop { late: true });
    assert(frame_run(None, deliveries, time_us, rate_hz) == frame_run(
        Some(fresh),
        deliveries.drop_first(),
        time_us,
        rate_hz,
    ));
}

/// A chunk that has played out makes way for the next one without being counted.
pub proof fn law_finished_chunk_makes_way(
    chunk: ChunkModel,
    index: nat,
    deliveries: Seq<Option<ChunkModel>>,
    time_us: int,
    rate_hz: int,
)
    requires
        chunk.sample_rate_hz == rate_hz,
        index >= chunk.frame_count,
    ensures
        frame_run(
            Some(ActiveModel { chunk, next_frame_index: index, started: true }),
            deliveries,
            time_us,
            rate_hz,
        ) == frame_run(None, deliveries, time_us, rate_hz),
{
}

/// Chunks that were of no use are counted, and nothing else of the shared state changes.
pub proof fn law_late_chunks_are_counted(shared: SharedModel, n: nat)
    requires
        shared.diagnostics.late_chunk_count + n <= u64::MAX,
    ensures
        ({
            let after = with_late_chunks(shared, n);
            &&& after.diagnostics.late_chunk_count == shared.diagnostics.late_chunk_count + n
            &&& after.diagnostics.queue_overflow_count == shared.diagnostics.queue_overflow_count
            &&& after.diagnostics.decode_error_count == shared.diagnostics.decode_error_count
            &&& after == (SharedModel { diagnostics: after.diagnostics, ..shared })
        }),
    decreases n,
{
    if n > 0 {
        law_late_chunks_are_counted(shared, (n - 1) as nat);
    }
}

/// A block goes on with the chunk that is being played, frame by frame. Where the chunk
/// ends within the block and the next one is due then, give or take the tolerance, that
/// one follows without a gap.
pub proof fn law_chunks_follow_without_gap(
    before: SendspinVst3,
    shared_before: SharedModel,
    now: MonotonicInstant,
    offset_ms: int,
    frames: Seq<Option<PcmFrame>>,
    after: SendspinVst3,
    shared_after_block: SharedModel,
    start_us: i64,
    chunk: ChunkModel,
    index: nat,
    next: ChunkModel,
)
    requires
        block_rendered(
            before,
            shared_before,
            now,
            offset_ms,
            frames,
            after,
            shared_after_block,
        ),
        !shared_before.clear_requested,
        before.sample_rate_hz > 0,
        opt_active(before.active_chunk) == Some(
            ActiveModel { chunk, next_frame_index: index, started: true },
        ),
        chunk.sample_rate_hz == before.sample_rate_hz,
        index <= chunk.frame_count <= usize::MAX,
        before.render_cursor_us == Some(start_us),
        before.deliveries().len() > 0,
        before.deliveries()[0] == Some(next),
        next.sample_rate_hz == before.sample_rate_hz,
        next.frame_count <= usize::MAX,
        start_us + (frames.len() as int) * 1_000_000 / (before.sample_rate_hz as int) <= i64::MAX,
        -1_000 <= start_us + (chunk.frame_count - index) * 1_000_000 / (
        before.sample_rate_hz as int) - next.local_play_time_us <= 1_000,
    ensures
        forall|i: int|
            0 <= i < frames.len() && index + i < chunk.frame_count ==> #[trigger] frames[i] == Some(
                chunk.frame(index + i),
            ),
        forall|i: int|
            0 <= i < frames.len() && chunk.frame_count <= index + i < chunk.frame_count
                + next.frame_count ==> #[trigger] frames[i] == Some(
                next.frame(index + i - chunk.frame_count),
            ),
{
    let rate_hz = before.sample_rate_hz as int;
    let n = frames.len();
    let active = opt_active(before.active_chunk);
    let deliveries = before.deliveries();
    let left = (chunk.frame_count - index) as nat;
    let own = if n <= left {
        n
    } else {
        left
    };
    law_started_chunk_plays_on(chunk, index, deliveries, own, start_us as int, rate_hz);
    lemma_frames_are_kept(active, deliveries, own, n, start_us as int, rate_hz);
    let run = block_run(active, deliveries, n, start_us as int, rate_hz);
    let first = block_run(active, deliveries, own, start_us as int, rate_hz);
    assert forall|i: int| 0 <= i < own implies #[trigger] frames[i] == first.frames[i] by {
        assert(frames[i] == run.frames[i]);
    }
    if n > left {
        let m = if n <= left + next.frame_count {
            n
        } else {
            left + next.frame_count
        };
        lemma_division_is_ordered(m as int, n as int, rate_hz);
        lemma_next_chunk_follows(
            chunk,
            index,
            next,
            deliveries,
            m,
            start_us as int,
            rate_hz,
        );
        lemma_frames_are_kept(active, deliveries, m, n, start_us as int, rate_hz);
        let second = block_run(active, deliveries, m, start_us as int, rate_hz);
        assert forall|i: int| 0 <= i < m implies #[trigger] frames[i] == second.frames[i] by {
            assert(frames[i] == run.frames[i]);
        }
    }
}

proof fn lemma_next_chunk_follows(
    chunk: ChunkModel,
    index: nat,
    next: ChunkModel,
    deliveries: Seq<Option<ChunkModel>>,
    m: nat,
    start_us: int,
    rate_hz: int,
)
    requires
        rate_hz > 0,
        chunk.sample_rate_hz == rate_hz,
        next.sample_rate_hz == rate_hz,
        index <= chunk.frame_count <= usize::MAX,
        next.frame_count <= usize::MAX,
        deliveries.len() > 0,
        deliveries[0] == Some(next),
        chunk.frame_count - index <= m <= chunk.frame_count - index + next.frame_count,
        i64::MIN <= start_us,
        start_us + (m as int) * 1_000_000 / rate_hz <= i64::MAX,
        -1_000 <= start_us + (chunk.frame_count - index) * 1_000_000 / rate_hz
            - next.local_play_time_us <= 1_000,
    ensures
        ({
            let left = chunk.frame_count - index;
            let active = Some(ActiveModel { chunk, next_frame_index: index, started: true });
            let run = block_run(active, deliveries, m, start_us, rate_hz);
            &&& run.frames.len() == m
            &&& forall|i: int|
                left <= i < m ==> #[trigger] run.frames[i] == Some(next.frame(i - left))
            &&& m > left ==> run.active == Some(
                ActiveModel { chunk: next, next_frame_index: (m - left) as nat, started: true },
            )
            &&& m == left ==> run.active == Some(
                ActiveModel { chunk, next_frame_index: chunk.frame_count, started: true },
            ) && run.deliveries == deliveries
        }),
    decreases m,
{
    let left = (chunk.frame_count - index) as nat;
    let active = Some(ActiveModel { chunk, next_frame_index: index, started: true });
    if m == left {
        law_started_chunk_plays_on(chunk, index, deliveries, m, start_us, rate_hz);
    } else {
        let k = (m - 1) as nat;
        lemma_division_is_ordered(k as int, m as int, rate_hz);
        lemma_division_is_ordered(0, k as int, rate_hz);
        assert(0int * 1_000_000 / rate_hz == 0) by (nonlinear_arith)
            requires
                rate_hz > 0,
        ;
        lemma_next_chunk_follows(chunk, index, next, deliveries, k, start_us, rate_hz);
        let before = block_run(active, deliveries, k, start_us, rate_hz);
        let time_us = frame_time_us(start_us, k as int, rate_hz);
        if k == left {
            let fresh = ActiveModel { chunk: next, next_frame_index: 0, started: false };
            law_finished_chunk_makes_way(
                chunk,
                chunk.frame_count,
                deliveries,
                time_us,
                rate_hz,
            );
            law_unstarted_chunk_goes_by_its_time(next, 0, time_us, rate_hz);
            assert(frame_run(None, deliveries, time_us, rate_hz) == frame_run(
                Some(fresh),
                deliveries.drop_first(),
                time_us,
                rate_hz,
            ));
        }
    }
}

/// The render clock: without one, a block starts when it is heard by the wall clock,
/// that is a block after `now`, moved by the offset; and each block ends where the next
/// one starts. Where the render clock has drifted more than a quarter of a second from
/// the wall clock, the next block starts by the wall clock again. `wall_us` is the wall
/// clock's time for the block's first frame.
pub proof fn law_render_clock_of_a_block(
    before: SendspinVst3,
    shared_before: SharedModel,
    now: MonotonicInstant,
    offset_ms: int,
    frames: Seq<Option<PcmFrame>>,
    after: SendspinVst3,
    shared_after_block: SharedModel,
    block_us: int,
    wall_us: int,
)
    requires
        block_rendered(
            before,
            shared_before,
            now,
            offset_ms,
            frames,
            after,
            shared_after_block,
        ),
        before.sample_rate_hz > 0,
        block_us == (frames.len() as int) * 1_000_000 / (before.sample_rate_hz as int),
        before.time_anchor.instant.nanos <= now.nanos + (block_us + offset_ms * 1_000) * 1_000
            <= u64::MAX,
        wall_us == before.time_anchor.unix_micros + (now.nanos + (block_us + offset_ms * 1_000)
            * 1_000 - before.time_anchor.instant.nanos) / 1_000,
        wall_us + block_us <= i64::MAX,
        before.render_cursor_us matches Some(us) ==> us + block_us <= i64::MAX,
    ensures
        shared_before.clear_requested || before.render_cursor_us is None
            ==> after.render_cursor_us == Some((wall_us + block_us) as i64),
        !shared_before.clear_requested ==> (before.render_cursor_us matches Some(us) ==> (
        -250_000 <= wall_us - us <= 250_000 ==> after.render_cursor_us == Some(
            (us + block_us) as i64,
        )) && (wall_us - us < -250_000 || wall_us - us > 250_000 ==> after.render_cursor_us == Some(
            (wall_us + block_us) as i64,
        ))),
{
    lemma_division_is_ordered(0, frames.len() as int, before.sample_rate_hz as int);
    assert(0int * 1_000_000 / (before.sample_rate_hz as int) == 0) by (nonlinear_arith)
        requires
            before.sample_rate_hz as int > 0,
    ;
}

/// A clear drops everything that was queued or being played: what is heard comes from
/// what the queue gives after it was first found empty, and the request is taken.
/// `dropped` is how many chunks it gives before.
pub proof fn law_clear_drops_what_was_queued(
    before: SendspinVst3,
    shared_before: SharedModel,
    now: MonotonicInstant,
    offset_ms: int,
    frames: Seq<Option<PcmFrame>>,
    after: SendspinVst3,
    shared_after_block: SharedModel,
    dropped: int,
)
    requires
        block_rendered(
            before,
            shared_before,
            now,
            offset_ms,
            frames,
            after,
            shared_after_block,
        ),
        shared_before.clear_requested,
        before.sample_rate_hz > 0,
        0 <= dropped < before.deliveries().len(),
        before.deliveries()[dropped] is None,
        forall|i: int| 0 <= i < dropped ==> #[trigger] before.deliveries()[i] is Some,
        forall|i: int|
            0 <= i < before.deliveries().len() ==> (#[trigger] before.deliveries()[i] matches Some(
                chunk,
            ) ==> chunk.frame_count <= usize::MAX),
    ensures
        !shared_after_block.clear_requested,
        forall|i: int|
            0 <= i < frames.len() ==> (#[trigger] frames[i] matches Some(frame) ==> exists|
                k: int,
                index: int,
            |
                dropped < k < before.deliveries().len() && before.deliveries()[k] is Some && 0
                    <= index < before.deliveries()[k]->0.frame_count && frame
                    == #[trigger] before.deliveries()[k]->0.frame(index)),
{
    let all = before.deliveries();
    lemma_emptying(all, dropped);
    let rest = after_emptying(all);
    lemma_late_chunks_keep_the_rest(
        (SharedModel { clear_requested: false, ..shared_before }),
        block_run(
            None,
            rest,
            frames.len(),
            block_start_us(
                None,
                wall_start_us(
                    before.time_anchor,
                    now,
                    duration_us(frames.len() as int, playing_rate(before.sample_rate_hz)),
                    offset_ms,
                ),
            ),
            playing_rate(before.sample_rate_hz),
        ).late,
    );
    assert forall|chunk: ChunkModel| #[trigger] is_at_hand(chunk, None, rest) implies
        chunk.frame_count <= usize::MAX by {
        let k = choose|k: int| 0 <= k < rest.len() && rest[k] == Some(chunk);
        assert(all[k + dropped + 1] == Some(chunk));
    }
    let rate_hz = before.sample_rate_hz as int;
    let wall_us = wall_start_us(
        before.time_anchor,
        now,
        duration_us(frames.len() as int, rate_hz),
        offset_ms,
    );
    let start_us = block_start_us(None, wall_us);
    law_heard_frames_come_from_queue(None, rest, frames.len(), start_us, rate_hz);
    let run = block_run(None, rest, frames.len(), start_us, rate_hz);
    assert(frames == run.frames);
    assert forall|i: int| 0 <= i < frames.len() implies (#[trigger] frames[i] matches Some(frame)
        ==> exists|k: int, index: int|
        dropped < k < all.len() && all[k] is Some && 0 <= index < all[k]->0.frame_count && frame
            == #[trigger] all[k]->0.frame(index)) by {
        if let Some(frame) = frames[i] {
            let (chunk, index) = choose|chunk: ChunkModel, index: int|
                is_at_hand(chunk, None, rest) && 0 <= index < chunk.frame_count && frame
                    == #[trigger] chunk.frame(index);
            let k = choose|k: int| 0 <= k < rest.len() && rest[k] == Some(chunk);
            assert(all[k + dropped + 1] == Some(chunk));
            assert(frame == all[k + dropped + 1]->0.frame(index));
        }
    }
}

proof fn lemma_emptying(deliveries: Seq<Option<ChunkModel>>, dropped: int)
    requires
        0 <= dropped < deliveries.len(),
        deliveries[dropped] is None,
        forall|i: int| 0 <= i < dropped ==> #[trigger] deliveries[i] is Some,
    ensures
        after_emptying(deliveries) == deliveries.skip(dropped + 1),
    decreases dropped,
{
    let rest = deliveries.drop_first();
    if dropped > 0 {
        assert(deliveries[0] is Some);
        assert(rest[dropped - 1] == deliveries[dropped]);
        assert forall|i: int| 0 <= i < dropped - 1 implies #[trigger] rest[i] is Some by {
            assert(rest[i] == deliveries[i + 1]);
        }
        lemma_emptying(rest, dropped - 1);
        assert(rest.skip(dropped) =~= deliveries.skip(dropped + 1));
    } else {
        assert(rest =~= deliveries.skip(1));
    }
}

proof fn lemma_late_chunks_keep_the_rest(shared: SharedModel, n: nat)
    ensures
        with_late_chunks(shared, n) == (SharedModel {
            diagnostics: with_late_chunks(shared, n).diagnostics,
            ..shared
        }),
        with_late_chunks(shared, n).diagnostics.queue_overflow_count
            == shared.diagnostics.queue_overflow_count,
        with_late_chunks(shared, n).diagnostics.decode_error_count
            == shared.diagnostics.decode_error_count,
    decreases n,
{
    if n > 0 {
        lemma_late_chunks_keep_the_rest(shared, (n - 1) as nat);
    }
}

/// How a block counts toward the synchronization state: one with any frame ends a streak
/// without audio, and one without any adds to it. Without a stream nothing is counted.
/// Apart from that state, the count of late chunks and the request to clear, the shared
/// state stays as it is.
pub proof fn law_block_counts_toward_sync(
    before: SendspinVst3,
    shared_before: SharedModel,
    now: MonotonicInstant,
    offset_ms: int,
    frames: Seq<Option<PcmFrame>>,
    after: SendspinVst3,
    shared_after_block: SharedModel,
)
    requires
        block_rendered(
            before,
            shared_before,
            now,
            offset_ms,
            frames,
            after,
            shared_after_block,
        ),
        !shared_before.clear_requested,
        before.underrun_streak_blocks < u32::MAX,
    ensures
        shared_before.stream_active && (exists|i: int|
            0 <= i < frames.len() && #[trigger] frames[i] is Some) ==> after.underrun_streak_blocks
            == 0 && (shared_before.sync_state == SyncState::Synchronized
            ==> shared_after_block.sync_state == SyncState::Synchronized),
        shared_before.stream_active && (forall|i: int|
            0 <= i < frames.len() ==> #[trigger] frames[i] is None)
            ==> after.underrun_streak_blocks == before.underrun_streak_blocks + 1
            && after.recovery_streak_blocks == 0 && shared_after_block.sync_state == (if
        before.underrun_streak_blocks >= 2 {
            SyncState::Error
        } else {
            shared_before.sync_state
        }),
        !shared_before.stream_active ==> after.underrun_streak_blocks == 0
            && after.recovery_streak_blocks == 0 && shared_after_block.sync_state
            == shared_before.sync_state,
        shared_after_block.state_dirty == (shared_before.state_dirty
            || shared_after_block.sync_state != shared_before.sync_state),
        shared_after_block == (SharedModel {
            diagnostics: shared_after_block.diagnostics,
            sync_state: shared_after_block.sync_state,
            state_dirty: shared_after_block.state_dirty,
            ..shared_before
        }),
        shared_after_block.diagnostics.queue_overflow_count
            == shared_before.diagnostics.queue_overflow_count,
        shared_after_block.diagnostics.decode_error_count
            == shared_before.diagnostics.decode_error_count,
{
    let rate_hz = playing_rate(before.sample_rate_hz);
    let block_us = duration_us(frames.len() as int, rate_hz);
    let wall_us = wall_start_us(before.time_anchor, now, block_us, offset_ms);
    let start_us = block_start_us(before.render_cursor_us, wall_us);
    let run = block_run(
        opt_active(before.active_chunk),
        before.deliveries(),
        frames.len(),
        start_us,
        rate_hz,
    );
    lemma_late_chunks_keep_the_rest(
        (SharedModel { clear_requested: false, ..shared_before }),
        run.late,
    );
}

/// The streaks and the shared state after a sequence of blocks, each with or without
/// audio.
pub open spec fn after_sequence(
    streaks: SyncStreaks,
    shared: SharedModel,
    blocks: Seq<bool>,
) -> (SyncStreaks, SharedModel)
    decreases blocks.len(),
{
    if blocks.len() == 0 {
        (streaks, shared)
    } else {
        let before = after_sequence(streaks, shared, blocks.drop_last());
        (
            streaks_after(before.0, before.1, blocks.last()),
            shared_after(before.0, before.1, blocks.last()),
        )
    }
}

/// How many of the last blocks of a sequence are all of one kind, with or without audio.
pub open spec fn trailing(blocks: Seq<bool>, kind: bool) -> nat
    decreases blocks.len(),
{
    if blocks.len() > 0 && blocks.last() == kind {
        trailing(blocks.drop_last(), kind) + 1
    } else {
        0
    }
}

/// Over any sequence of blocks while a stream is active, the underrun streak is the
/// number of blocks without audio since the last one with it. The state is an error
/// exactly after three or more blocks in a row without audio, and from then on until
/// four blocks in a row with it. Nothing else of the shared state changes, but for the
/// mark that a change is to be reported.
pub proof fn law_sync_state_of_a_sequence(
    streaks: SyncStreaks,
    shared: SharedModel,
    blocks: Seq<bool>,
)
    requires
        shared.stream_active,
        streaks.underrun == 0,
        streaks.recovery == 0,
        blocks.len() < u32::MAX,
    ensures
        ({
            let after = after_sequence(streaks, shared, blocks);
            &&& after.0.underrun == trailing(blocks, false)
            &&& after.0.recovery <= blocks.len()
            &&& after.1.sync_state == SyncState::Error ==> after.0.recovery == trailing(
                blocks,
                true,
            )
            &&& trailing(blocks, false) <= blocks.len() && trailing(blocks, true) <= blocks.len()
            &&& blocks.len() > 0 ==> {
                let before = after_sequence(streaks, shared, blocks.drop_last());
                &&& after.1.sync_state == (if trailing(blocks, false) >= 3 {
                    SyncState::Error
                } else if before.1.sync_state == SyncState::Error && trailing(blocks, true) < 4 {
                    SyncState::Error
                } else {
                    SyncState::Synchronized
                })
                &&& after.1.state_dirty == (before.1.state_dirty || after.1.sync_state
                    != before.1.sync_state)
            }
            &&& after.1 == (SharedModel {
                sync_state: after.1.sync_state,
                state_dirty: after.1.state_dirty,
                ..shared
            })
        }),
    decreases blocks.len(),
{
    if blocks.len() > 0 {
        law_sync_state_of_a_sequence(streaks, shared, blocks.drop_last());
    }
}

/// A synchronized player stays synchronized over any sequence of blocks in which no
/// three in a row are without audio.
pub proof fn law_single_underruns_are_no_error(
    streaks: SyncStreaks,
    shared: SharedModel,
    blocks: Seq<bool>,
)
    requires
        shared.stream_active,
        shared.sync_state == SyncState::Synchronized,
        streaks.underrun == 0,
        streaks.recovery == 0,
        blocks.len() < u32::MAX,
        forall|i: int|
            0 <= i && i + 2 < blocks.len() ==> #[trigger] blocks[i] || blocks[i + 1] || blocks[i
                + 2],
    ensures
        after_sequence(streaks, shared, blocks).1 == shared,
    decreases blocks.len(),
{
    if blocks.len() > 0 {
        let before = blocks.drop_last();
        assert forall|i: int| 0 <= i && i + 2 < before.len() implies #[trigger] before[i]
            || before[i + 1] || before[i + 2] by {
            assert(blocks[i] || blocks[i + 1] || blocks[i + 2]);
        }
        law_single_underruns_are_no_error(streaks, shared, before);
        law_sync_state_of_a_sequence(streaks, shared, blocks);
        if trailing(blocks, false) >= 3 {
            let n = blocks.len();
            reveal_with_fuel(trailing, 4);
            assert(!blocks[n - 1] && !blocks[n - 2] && !blocks[n - 3]);
        }
    }
}

/// Without a stream no streak is kept, and the state stays as it is.
pub proof fn law_no_stream_no_streaks(streaks: SyncStreaks, shared: SharedModel, received: bool)
    requires
        !shared.stream_active,
    ensures
        streaks_after(streaks, shared, received).underrun == 0,
        streaks_after(streaks, shared, received).recovery == 0,
        shared_after(streaks, shared, received) == shared,
{
}

/// At rest nothing is being played, no clock runs and no streak is kept; the queue, the
/// rate and the anchor stay.
pub proof fn law_rest_is_quiet(plugin: SendspinVst3)
    ensures
        plugin.at_rest().active_chunk is None,
        plugin.at_rest().render_cursor_us is None,
        plugin.at_rest().underrun_streak_blocks == 0,
        plugin.at_rest().recovery_streak_blocks == 0,
        plugin.at_rest().chunk_consumer == plugin.chunk_consumer,
        plugin.at_rest().chunk_producer == plugin.chunk_producer,
        plugin.at_rest().sample_rate_hz == plugin.sample_rate_hz,
        plugin.at_rest().time_anchor == plugin.time_anchor,
{
}

/// Emptying a queue takes out every chunk up to the first time that it is found empty,
/// and nothing after that.
pub proof fn law_emptying_stops_at_the_first_gap(
    deliveries: Seq<Option<ChunkModel>>,
    dropped: int,
)
    requires
        0 <= dropped < deliveries.len(),
        deliveries[dropped] is None,
        forall|i: int| 0 <= i < dropped ==> #[trigger] deliveries[i] is Some,
    ensures
        after_emptying(deliveries) == deliveries.skip(dropped + 1),
{
    lemma_emptying(deliveries, dropped);
}

/// A block starts where the render clock stands, and by the wall clock where none runs.
pub proof fn law_block_starts_by_its_clock(cursor: Option<i64>, wall_us: int)
    ensures
        cursor matches Some(us) ==> block_start_us(cursor, wall_us) == us,
        cursor is None ==> block_start_us(cursor, wall_us) == wall_us,
{
}

/// Where no render clock runs yet, the first frame of a block is heard a block after
/// `now`, moved by the offset, by the wall clock: up to the time at which the next chunk
/// is due the block is silent, and from then on it plays the chunk from its first frame.
/// `start_us` is that time of the first frame, and `first` the first frame that is not
/// more than the tolerance before the chunk's time.
pub proof fn law_first_block_goes_by_the_wall_clock(
    before: SendspinVst3,
    shared_before: SharedModel,
    now: MonotonicInstant,
    offset_ms: int,
    frames: Seq<Option<PcmFrame>>,
    after: SendspinVst3,
    shared_after_block: SharedModel,
    start_us: i64,
    chunk: ChunkModel,
    first: int,
)
    requires
        block_rendered(
            before,
            shared_before,
            now,
            offset_ms,
            frames,
            after,
            shared_after_block,
        ),
        !shared_before.clear_requested,
        before.active_chunk is None,
        before.render_cursor_us is None,
        before.sample_rate_hz > 0,
        ({
            let block_us = (frames.len() as int) * 1_000_000 / (before.sample_rate_hz as int);
            let heard_ns = now.nanos + (block_us + offset_ms * 1_000) * 1_000;
            let anchor = before.time_anchor;
            &&& anchor.instant.nanos <= heard_ns <= u64::MAX
            &&& start_us == anchor.unix_micros + (heard_ns - anchor.instant.nanos) / 1_000
            &&& start_us + block_us <= i64::MAX
        }),
        before.deliveries().len() > 0,
        before.deliveries()[0] == Some(chunk),
        chunk.sample_rate_hz == before.sample_rate_hz,
        chunk.frame_count <= usize::MAX,
        0 <= first,
        start_us + first * 1_000_000 / (before.sample_rate_hz as int) >= chunk.local_play_time_us
            - 1_000,
        first > 0 ==> start_us + (first - 1) * 1_000_000 / (before.sample_rate_hz as int)
            < chunk.local_play_time_us - 1_000,
        first == 0 ==> start_us <= chunk.local_play_time_us + 1_000,
    ensures
        forall|i: int|
            0 <= i < frames.len() && i < first ==> #[trigger] frames[i] is None,
        forall|i: int|
            first <= i < frames.len() && i - first < chunk.frame_count ==> #[trigger] frames[i]
                == Some(chunk.frame(i - first)),
{
    let rate_hz = before.sample_rate_hz as int;
    let n = frames.len();
    let m = if n <= first + chunk.frame_count {
        n
    } else {
        (first + chunk.frame_count) as nat
    };
    lemma_division_is_ordered(0, n as int, rate_hz);
    assert(0int * 1_000_000 / rate_hz == 0) by (nonlinear_arith)
        requires
            rate_hz > 0,
    ;
    lemma_division_is_ordered(m as int, n as int, rate_hz);
    let wall_us = wall_start_us(
        before.time_anchor,
        now,
        duration_us(n as int, rate_hz),
        offset_ms,
    );
    assert(wall_us == start_us);
    lemma_waiting_chunk(chunk, before.deliveries(), m, start_us as int, rate_hz, first);
    lemma_frames_are_kept(None, before.deliveries(), m, n, start_us as int, rate_hz);
    let run = block_run(None, before.deliveries(), n, start_us as int, rate_hz);
    assert(frames == run.frames);
    let part = block_run(None, before.deliveries(), m, start_us as int, rate_hz);
    assert forall|i: int| 0 <= i < m implies #[trigger] frames[i] == part.frames[i] by {}
}

/// A chunk that comes late into the silence of a block skips just the frames of the time
/// that it has missed by the frame for which the queue gives it: that frame's own time is
/// what counts, and the next frames follow one by one. `at` is the frame for which the
/// queue gives the chunk, having had none before.
pub proof fn law_late_chunk_joins_at_its_place(
    deliveries: Seq<Option<ChunkModel>>,
    chunk: ChunkModel,
    n: nat,
    start_us: int,
    rate_hz: int,
    at: nat,
    skipped: int,
)
    requires
        rate_hz > 0,
        i64::MIN <= start_us,
        start_us + (n as int) * 1_000_000 / rate_hz <= i64::MAX,
        at < deliveries.len(),
        forall|i: int| 0 <= i < at ==> #[trigger] deliveries[i] is None,
        deliveries[at as int] == Some(chunk),
        chunk.sample_rate_hz == rate_hz,
        chunk.frame_count <= usize::MAX,
        ({
            let late_us = start_us + (at as int) * 1_000_000 / rate_hz - chunk.local_play_time_us;
            &&& late_us > 1_000
            &&& skipped * 1_000_000 <= late_us * rate_hz < (skipped + 1) * 1_000_000
        }),
        skipped < chunk.frame_count,
        at < n <= at + (chunk.frame_count - skipped),
    ensures
        ({
            let run = block_run(None, deliveries, n, start_us, rate_hz);
            &&& run.frames.len() == n
            &&& forall|i: int| 0 <= i < at ==> #[trigger] run.frames[i] is None
            &&& forall|i: int|
                at <= i < n ==> #[trigger] run.frames[i] == Some(chunk.frame(skipped + (i - at)))
            &&& run.late == 0
            &&& run.deliveries == deliveries.skip(at as int + 1)
            &&& run.active == Some(
                ActiveModel { chunk, next_frame_index: (skipped + n - at) as nat, started: true },
            )
        }),
    decreases n,
{
    let k = (n - 1) as nat;
    let late_us = start_us + (at as int) * 1_000_000 / rate_hz - chunk.local_play_time_us;
    assert(skipped >= 0) by (nonlinear_arith)
        requires
            late_us > 1_000,
            rate_hz > 0,
            late_us * rate_hz < (skipped + 1) * 1_000_000,
    ;
    lemma_division_is_ordered(k as int, n as int, rate_hz);
    lemma_division_is_ordered(0, k as int, rate_hz);
    assert(0int * 1_000_000 / rate_hz == 0) by (nonlinear_arith)
        requires
            rate_hz > 0,
    ;
    let time_us = frame_time_us(start_us, k as int, rate_hz);
    assert(time_us == start_us + (k as int) * 1_000_000 / rate_hz);
    if k == at {
        law_nothing_arrived_is_silence(deliveries, at, start_us, rate_hz);
        let rest = deliveries.skip(at as int);
        assert(rest[0] == Some(chunk));
        assert(rest.drop_first() =~= deliveries.skip(at as int + 1));
        let fresh = ActiveModel { chunk, next_frame_index: 0, started: false };
        assert(late_us * rate_hz / 1_000_000 == skipped);
        assert(chunk_step(fresh, time_us, rate_hz) == ChunkStep::Play { index: skipped as usize });
        assert(frame_run(None, rest, time_us, rate_hz) == frame_run(
            Some(fresh),
            rest.drop_first(),
            time_us,
            rate_hz,
        ));
    } else {
        law_late_chunk_joins_at_its_place(
            deliveries,
            chunk,
            k,
            start_us,
            rate_hz,
            at,
            skipped,
        );
    }
}

/// A chunk of no use at the front of the queue leaves a block as it is without it, and
/// is counted once.
pub proof fn law_useless_chunk_leaves_the_block(
    chunk: ChunkModel,
    deliveries: Seq<Option<ChunkModel>>,
    n: nat,
    start_us: int,
    rate_hz: int,
)
    requires
        rate_hz > 0,
        i64::MIN <= start_us <= i64::MAX,
        n > 0,
        deliveries.len() > 0,
        deliveries[0] == Some(chunk),
        chunk.sample_rate_hz != rate_hz || (start_us - chunk.local_play_time_us > 1_000 && (start_us
            - chunk.local_play_time_us) * rate_hz >= chunk.frame_count * 1_000_000),
    ensures
        ({
            let with = block_run(None, deliveries, n, start_us, rate_hz);
            let without = block_run(None, deliveries.drop_first(), n, start_us, rate_hz);
            &&& with.frames == without.frames
            &&& with.active == without.active
            &&& with.deliveries == without.deliveries
            &&& with.late == without.late + 1
        }),
    decreases n,
{
    if n == 1 {
        assert(0int * 1_000_000 / rate_hz == 0) by (nonlinear_arith)
            requires
                rate_hz > 0,
        ;
        assert(frame_time_us(start_us, 0, rate_hz) == start_us);
        law_useless_chunk_is_passed_over(chunk, deliveries, start_us, rate_hz);
        reveal_with_fuel(block_run, 2);
    } else {
        law_useless_chunk_leaves_the_block(
            chunk,
            deliveries,
            (n - 1) as nat,
            start_us,
            rate_hz,
        );
    }
}

/// The late chunks of a block are added to the count in the shared state, and no others.
pub proof fn law_late_chunks_of_a_block_are_counted(
    before: SendspinVst3,
    shared_before: SharedModel,
    now: MonotonicInstant,
    offset_ms: int,
    frames: Seq<Option<PcmFrame>>,
    after: SendspinVst3,
    shared_after_block: SharedModel,
    start_us: i64,
    late: nat,
)
    requires
        block_rendered(
            before,
            shared_before,
            now,
            offset_ms,
            frames,
            after,
            shared_after_block,
        ),
        !shared_before.clear_requested,
        before.sample_rate_hz > 0,
        before.render_cursor_us == Some(start_us),
        late == block_run(
            opt_active(before.active_chunk),
            before.deliveries(),
            frames.len(),
            start_us as int,
            before.sample_rate_hz as int,
        ).late,
        shared_before.diagnostics.late_chunk_count + late <= u64::MAX,
    ensures
        shared_after_block.diagnostics.late_chunk_count
            == shared_before.diagnostics.late_chunk_count + late,
{
    law_late_chunks_are_counted((SharedModel { clear_requested: false, ..shared_before }), late);
}

/// How one block changes the streaks while a stream is active: a block with audio ends
/// the streak without it and lengthens the one with it, which starts over where it is
/// the fourth in an error; a block without audio does the opposite. The streaks stop at
/// the largest number that they can hold.
pub proof fn law_streaks_are_counted_one_by_one(streaks: SyncStreaks, shared: SharedModel)
    requires
        shared.stream_active,
    ensures
        ({
            let heard = streaks_after(streaks, shared, true);
            let silent = streaks_after(streaks, shared, false);
            let in_error = shared.sync_state == SyncState::Error;
            &&& heard.underrun == 0 && silent.recovery == 0
            &&& streaks.underrun < u32::MAX ==> silent.underrun == streaks.underrun + 1
            &&& streaks.underrun == u32::MAX ==> silent.underrun == u32::MAX
            &&& streaks.recovery < u32::MAX && !(in_error && streaks.recovery >= 3)
                ==> heard.recovery == streaks.recovery + 1
            &&& in_error && streaks.recovery >= 3 ==> heard.recovery == 0
            &&& streaks.recovery == u32::MAX && !in_error ==> heard.recovery == u32::MAX
        }),
        ({
            let heard = shared_after(streaks, shared, true);
            let silent = shared_after(streaks, shared, false);
            &&& silent.sync_state == SyncState::Error <==> streaks.underrun >= 2
                || shared.sync_state == SyncState::Error
            &&& heard.sync_state == SyncState::Error <==> shared.sync_state == SyncState::Error
                && streaks.recovery < 3
        }),
{
}

/// A block that starts with a clear counts as the first one: the streaks before it are
/// forgotten, and so is the chunk that was being played.
pub proof fn law_clear_starts_streaks_anew(
    before: SendspinVst3,
    shared_before: SharedModel,
    now: MonotonicInstant,
    offset_ms: int,
    frames: Seq<Option<PcmFrame>>,
    after: SendspinVst3,
    shared_after_block: SharedModel,
)
    requires
        block_rendered(
            before,
            shared_before,
            now,
            offset_ms,
            frames,
            after,
            shared_after_block,
        ),
        shared_before.clear_requested,
        shared_before.stream_active,
    ensures
        (forall|i: int| 0 <= i < frames.len() ==> #[trigger] frames[i] is None)
            ==> after.underrun_streak_blocks == 1 && after.recovery_streak_blocks == 0,
        (exists|i: int| 0 <= i < frames.len() && #[trigger] frames[i] is Some)
            ==> after.underrun_streak_blocks == 0 && after.recovery_streak_blocks == 1,
        shared_after_block.sync_state == shared_before.sync_state,
        frames.len() == 0 ==> after.active_chunk is None,
{
    let cleared = SharedModel { clear_requested: false, ..shared_before };
    let rate_hz = playing_rate(before.sample_rate_hz);
    let block_us = duration_us(frames.len() as int, rate_hz);
    let wall_us = wall_start_us(before.time_anchor, now, block_us, offset_ms);
    let run = block_run(
        None,
        after_emptying(before.deliveries()),
        frames.len(),
        block_start_us(None, wall_us),
        rate_hz,
    );
    lemma_late_chunks_keep_the_rest(cleared, run.late);
}

/// A host's rate is the rate that it plays at; one that has none yet counts one frame a
/// second.
pub proof fn law_host_plays_at_its_rate(host_sample_rate_hz: u32)
    ensures
        host_sample_rate_hz > 0 ==> playing_rate(host_sample_rate_hz) == host_sample_rate_hz,
        host_sample_rate_hz == 0 ==> playing_rate(host_sample_rate_hz) == 1,
{
}

/// A new plugin plays nothing, keeps no clock and no streak, expects 48000 Hz, and has
/// 512 free slots in its queue, whose two ends belong together.
pub proof fn law_new_plugin_is_quiet(plugin: SendspinVst3)
    requires
        plugin.is_new(),
    ensures
        plugin.active_chunk is None,
        plugin.sample_rate_hz == 48_000,
        plugin.render_cursor_us is None,
        plugin.underrun_streak_blocks == 0,
        plugin.recovery_streak_blocks == 0,
        plugin.chunk_producer is Some,
        crate::queue::untouched_slots(plugin.chunk_producer->0) == 512,
        crate::queue::received(crate::queue::given(plugin.chunk_consumer)).is_prefix_of(
            crate::queue::accepted(crate::queue::offered(plugin.chunk_producer->0)),
        ),
{
}

/// The models of the chunk being played, of what the queue gives and of the streaks show
/// all that these hold.
pub proof fn law_playback_is_seen_whole(plugin: SendspinVst3, active: ActiveChunk)
    ensures
        opt_active(None) is None,
        opt_active(Some(active)) == Some(active@),
        active@.chunk == active.chunk@,
        active@.next_frame_index == active.next_frame_index,
        active@.started == active.started,
        plugin.streaks().underrun == plugin.underrun_streak_blocks,
        plugin.streaks().recovery == plugin.recovery_streak_blocks,
        ({
            let given = crate::queue::given(plugin.chunk_consumer);
            &&& plugin.deliveries().len() == given.len()
            &&& forall|i: int|
                0 <= i < given.len() ==> match #[trigger] given[i] {
                    Some(chunk) => plugin.deliveries()[i] == Some(chunk@),
                    None => plugin.deliveries()[i] is None,
                }
        }),
{
}

} // verus!
