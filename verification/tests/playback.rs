use sendspin_vst3::clock::MonotonicInstant;
use sendspin_vst3::constants::{RECOVERY_SYNC_THRESHOLD_BLOCKS, UNDERRUN_ERROR_THRESHOLD_BLOCKS};
use sendspin_vst3::network::{Connection, NetworkSession};
use sendspin_vst3::playback::{judge_chunk, ActiveChunk, BlockMix, ChunkStep};
use sendspin_vst3::protocol::{AudioFormatSpec, ServerMessage};
use sendspin_vst3::queue::{PcmFrame, TimestampedChunk};
use sendspin_vst3::state::{SharedState, SyncState};
use sendspin_vst3::SendspinVst3;

const START: MonotonicInstant = MonotonicInstant { nanos: 1_000_000_000 };

struct Rig {
    plugin: SendspinVst3,
    shared: SharedState,
    connection: Connection,
    producer: rtrb::Producer<TimestampedChunk>,
}

fn rig(sample_rate: u32) -> Rig {
    let mut plugin = SendspinVst3::new(START);
    let mut shared = SharedState::new(None);
    plugin.initialize(&mut shared, sample_rate, 512, "Deck", "host", None, START);
    let producer = plugin.take_chunk_producer().expect("a producer");
    let mut session = NetworkSession::start("host", "Deck", None, &mut shared);
    let (mut connection, _) = session.connected(&mut shared);
    let start = ServerMessage::StreamStart(Some(AudioFormatSpec {
        codec: "pcm".to_string(),
        channels: 1,
        sample_rate,
        bit_depth: 16,
    }));
    connection.on_message(Some(start), &mut shared);
    Rig {
        plugin,
        shared,
        connection,
        producer,
    }
}

impl Rig {
    fn queue(&mut self, first: i16, count: i16, play_time_us: i64) {
        let bytes: Vec<u8> = (first..first + count).flat_map(|v| v.to_le_bytes()).collect();
        let converted = Some(play_time_us);
        self.connection.on_audio(Some(&bytes), converted, &mut self.shared, &mut self.producer);
    }

    fn block(&mut self, frames: usize, now: MonotonicInstant) -> Vec<Option<i32>> {
        let mut out = Vec::new();
        self.plugin.process(&mut self.shared, &mut out, frames, now, 0, false);
        out.into_iter().map(|frame| frame.map(|f| f.left)).collect()
    }
}

fn active(play_time_us: i64, frames: usize, started: Option<usize>) -> ActiveChunk {
    let chunk = TimestampedChunk::new(play_time_us, 48_000, 1, 1, vec![0; frames]);
    ActiveChunk {
        chunk: chunk.expect("a chunk"),
        next_frame_index: started.unwrap_or(0),
        started: started.is_some(),
    }
}

#[test]
fn sync_state_hysteresis_resists_flapping() {
    let mut plugin = SendspinVst3::new(START);
    let mut shared = SharedState::new(None);
    shared.set_stream_active(true);
    shared.set_sync_state(SyncState::Synchronized);

    for _ in 0..(UNDERRUN_ERROR_THRESHOLD_BLOCKS - 1) {
        plugin.update_sync_state_for_block(&mut shared, false);
        assert_eq!(shared.sync_state(), SyncState::Synchronized);
    }

    plugin.update_sync_state_for_block(&mut shared, false);
    assert_eq!(shared.sync_state(), SyncState::Error);

    for _ in 0..(RECOVERY_SYNC_THRESHOLD_BLOCKS - 1) {
        plugin.update_sync_state_for_block(&mut shared, true);
        assert_eq!(shared.sync_state(), SyncState::Error);
    }

    plugin.update_sync_state_for_block(&mut shared, true);
    assert_eq!(shared.sync_state(), SyncState::Synchronized);
}

#[test]
fn streaks_start_over_without_a_stream() {
    let mut plugin = SendspinVst3::new(START);
    let mut shared = SharedState::new(None);
    plugin.underrun_streak_blocks = 2;
    plugin.recovery_streak_blocks = 3;
    plugin.update_sync_state_for_block(&mut shared, false);
    assert_eq!((plugin.underrun_streak_blocks, plugin.recovery_streak_blocks), (0, 0));
    shared.set_stream_active(true);
    plugin.underrun_streak_blocks = u32::MAX;
    plugin.update_sync_state_for_block(&mut shared, false);
    assert_eq!(plugin.underrun_streak_blocks, u32::MAX);
}

#[test]
fn chunk_waits_for_its_time() {
    let chunk = active(1_000_000, 480, None);
    assert_eq!(judge_chunk(&chunk, 998_999, 48_000), ChunkStep::Wait);
    assert_eq!(judge_chunk(&chunk, 999_000, 48_000), ChunkStep::Play { index: 0 });
    assert_eq!(judge_chunk(&chunk, 1_001_000, 48_000), ChunkStep::Play { index: 0 });
    assert_eq!(judge_chunk(&chunk, i64::MIN, 48_000), ChunkStep::Wait);
}

#[test]
fn late_chunk_skips_what_it_missed() {
    let chunk = active(1_000_000, 480, None);
    assert_eq!(judge_chunk(&chunk, 1_001_001, 48_000), ChunkStep::Play { index: 48 });
    assert_eq!(judge_chunk(&chunk, 1_009_999, 48_000), ChunkStep::Play { index: 479 });
    assert_eq!(judge_chunk(&chunk, 1_010_000, 48_000), ChunkStep::Drop { late: true });
    assert_eq!(judge_chunk(&chunk, i64::MAX, 48_000), ChunkStep::Drop { late: true });
}

#[test]
fn started_chunk_goes_on_to_its_end() {
    let later = 9_000_000;
    assert_eq!(
        judge_chunk(&active(0, 4, Some(3)), later, 48_000),
        ChunkStep::Play { index: 3 }
    );
    assert_eq!(
        judge_chunk(&active(0, 4, Some(4)), later, 48_000),
        ChunkStep::Drop { late: false }
    );
    assert_eq!(
        judge_chunk(&active(0, 4, Some(3)), later, 44_100),
        ChunkStep::Drop { late: true }
    );
}

#[test]
fn queued_audio_is_played_in_order_at_its_time() {
    let mut rig = rig(48_000);
    rig.plugin.process(&mut rig.shared, &mut Vec::new(), 0, START, 0, false);
    let start_us = rig.plugin.render_cursor_us.expect("a running clock");
    rig.queue(1, 480, start_us);
    rig.queue(1_000, 240, start_us + 10_000);
    let first = rig.block(480, START);
    assert_eq!(first, (1..=480).map(Some).collect::<Vec<Option<i32>>>());
    let second = rig.block(480, START);
    let mut expected: Vec<Option<i32>> = (1_000..1_240).map(Some).collect();
    expected.resize(480, None);
    assert_eq!(second, expected);
    assert_eq!(rig.shared.diagnostics_snapshot().late_chunk_count, 0);
    assert_eq!(rig.shared.sync_state(), SyncState::Synchronized);
}

#[test]
fn late_and_foreign_chunks_are_counted() {
    let mut rig = rig(48_000);
    rig.plugin.process(&mut rig.shared, &mut Vec::new(), 0, START, 0, false);
    let start_us = rig.plugin.render_cursor_us.expect("a running clock");
    rig.queue(1, 48, start_us - 5_000);
    rig.queue(500, 480, start_us - 5_000);
    assert_eq!(rig.block(2, START), vec![Some(740), Some(741)]);
    assert_eq!(rig.shared.diagnostics_snapshot().late_chunk_count, 1);
    rig.plugin.sample_rate_hz = 96_000;
    assert_eq!(rig.block(1, START), vec![None]);
    assert_eq!(rig.shared.diagnostics_snapshot().late_chunk_count, 2);
}

#[test]
fn block_is_silent_when_nothing_arrives() {
    let mut rig = rig(48_000);
    for expected in [SyncState::Synchronized, SyncState::Synchronized, SyncState::Error] {
        assert_eq!(rig.block(3, START), vec![None; 3]);
        assert_eq!(rig.shared.sync_state(), expected);
    }
}

#[test]
fn clear_drops_what_is_queued() {
    let mut rig = rig(48_000);
    rig.plugin.process(&mut rig.shared, &mut Vec::new(), 0, START, 0, false);
    let start_us = rig.plugin.render_cursor_us.expect("a running clock");
    rig.queue(1, 480, start_us);
    assert_eq!(rig.block(2, START), vec![Some(1), Some(2)]);
    rig.queue(2_000, 480, start_us);
    rig.shared.request_clear();
    assert_eq!(rig.block(2, START), vec![None; 2]);
    assert!(!rig.shared.take_clear_requested());
    rig.queue(3_000, 480, start_us);
    rig.plugin.reset();
    assert!(rig.plugin.active_chunk.is_none() && rig.plugin.render_cursor_us.is_none());
    assert_eq!(rig.block(1, START), vec![None]);
}

#[test]
fn render_clock_runs_evenly_and_is_set_anew() {
    let mut plugin = SendspinVst3::new(START);
    let wall = plugin.time_anchor.unix_micros;
    assert_eq!(plugin.begin_block(480, START, 5), wall + 15_000);
    assert_eq!(plugin.render_cursor_us, Some(wall + 25_000));
    let near = MonotonicInstant { nanos: START.nanos + 100_000_000 };
    assert_eq!(plugin.begin_block(480, near, 0), wall + 25_000);
    assert_eq!(plugin.render_cursor_us, Some(wall + 35_000));
    let far = MonotonicInstant { nanos: START.nanos + 275_001_000 };
    assert_eq!(plugin.begin_block(480, far, 0), wall + 35_000);
    assert_eq!(plugin.render_cursor_us, Some(wall + 275_001 + 20_000));
    plugin.render_cursor_us = Some(wall);
    let edge = MonotonicInstant { nanos: START.nanos + 240_000_000 };
    plugin.begin_block(480, edge, 0);
    assert_eq!(plugin.render_cursor_us, Some(wall + 10_000));
}

#[test]
fn mix_follows_volume_and_mute() {
    let mut plugin = SendspinVst3::new(START);
    let mut shared = SharedState::new(None);
    let mut out: Vec<Option<PcmFrame>> = Vec::new();
    shared.remote_volume = 40;
    let mix = plugin.process(&mut shared, &mut out, 1, START, 0, false);
    assert_eq!(mix, BlockMix { remote_volume: 40, silent: false });
    let mix = plugin.process(&mut shared, &mut out, 1, START, 0, true);
    assert_eq!(mix, BlockMix { remote_volume: 40, silent: true });
    shared.remote_muted = true;
    shared.remote_volume = 250;
    let mix = plugin.process(&mut shared, &mut out, 1, START, 0, false);
    assert_eq!(mix, BlockMix { remote_volume: 100, silent: true });
    assert_eq!(out.len(), 1);
}

#[test]
fn initialization_takes_over_the_settings() {
    let mut plugin = SendspinVst3::new(START);
    let mut shared = SharedState::new(None);
    plugin.render_cursor_us = Some(3);
    let later = MonotonicInstant { nanos: 5 };
    let saved = plugin.initialize(&mut shared, 96_000, 64, " ", "http://h", Some("Env"), later);
    assert_eq!(saved, ("Env".to_string(), "ws://h/sendspin".to_string()));
    assert_eq!((plugin.sample_rate_hz, plugin.render_cursor_us), (96_000, None));
    assert_eq!(plugin.time_anchor.instant, later);
    assert_eq!((shared.host_sample_rate_hz, shared.host_block_size), (96_000, 64));
    assert_eq!(shared.configured_client_name(), "Env");
    assert_eq!(shared.configured_server_url(), "ws://h/sendspin");
}
