use sendspin_vst3::protocol::{
    build_client_hello, build_player_support, client_state_message, decode_audio_chunk,
    decode_audio_chunk_at, handle_message, pcm_format_request, play_time_us, playable, stream_rate,
    ActiveStream, AudioFormatSpec, ClientMessage, PlaybackState, PlayerCommand, PlayerState,
    ServerMessage, TrackMetadata,
};
use sendspin_vst3::queue::{PcmFrame, TimestampedChunk};
use sendspin_vst3::state::{GroupPlaybackState, PlayerSyncState, SharedState, SyncState};

fn format(codec: &str, channels: u8, sample_rate: u32, bit_depth: u8) -> AudioFormatSpec {
    AudioFormatSpec {
        codec: codec.to_string(),
        channels,
        sample_rate,
        bit_depth,
    }
}

fn stream(channels: u8, bit_depth: u8) -> ActiveStream {
    ActiveStream {
        codec: "pcm".to_string(),
        sample_rate_hz: 48_000,
        channels,
        bit_depth,
    }
}

fn command(name: &str, volume: Option<u8>, mute: Option<bool>) -> ServerMessage {
    ServerMessage::ServerCommand(Some(PlayerCommand {
        command: name.to_string(),
        volume,
        mute,
    }))
}

#[test]
fn greeting_names_client_and_format() {
    let support = build_player_support(96_000);
    assert_eq!(support.supported_formats.len(), 1);
    assert_eq!(support.supported_formats[0].codec, "pcm");
    assert_eq!(support.supported_formats[0].channels, 2);
    assert_eq!(support.supported_formats[0].sample_rate, 96_000);
    assert_eq!(support.supported_formats[0].bit_depth, 24);
    assert_eq!(support.buffer_capacity, 1_048_576);
    assert_eq!(support.supported_commands, vec!["volume", "mute"]);
    let hello = build_client_hello("id", "Deck", support, "1.2.3");
    assert_eq!(hello.client_id, "id");
    assert_eq!(hello.name, "Deck");
    assert_eq!(hello.version, 1);
    assert_eq!(hello.supported_roles, vec!["player@v1", "controller@v1", "metadata@v1"]);
    assert_eq!(hello.device_info.product_name, "Sendspin VST");
    assert_eq!(hello.device_info.manufacturer, "Sendspin");
    assert_eq!(hello.device_info.software_version, "1.2.3");
}

#[test]
fn stream_rate_is_that_of_the_host() {
    assert_eq!(stream_rate(0), 44_100);
    for rate in [1, 8_000, 32_000, 44_099, 44_100, 192_000] {
        assert_eq!(stream_rate(rate), rate);
        let formats = build_player_support(rate).supported_formats;
        assert_eq!(formats.len(), 1);
        assert_eq!((formats[0].sample_rate, formats[0].channels), (rate, 2));
        assert_eq!((formats[0].codec.as_str(), formats[0].bit_depth), ("pcm", 24));
        assert!(playable(&formats[0], rate));
    }
}

#[test]
fn playable_formats() {
    for depth in [16, 24, 32] {
        assert!(playable(&format("pcm", 1, 48_000, depth), 48_000));
        assert!(playable(&format("pcm", 2, 48_000, depth), 48_000));
    }
    assert!(!playable(&format("flac", 2, 48_000, 24), 48_000));
    assert!(!playable(&format("pcm", 3, 48_000, 24), 48_000));
    assert!(!playable(&format("pcm", 2, 44_100, 24), 48_000));
    assert!(!playable(&format("pcm", 2, 48_000, 20), 48_000));
    assert!(playable(&pcm_format_request(stream_rate(0)), 0));
}

#[test]
fn stream_start_takes_up_a_playable_stream() {
    let mut shared = SharedState::new(None);
    shared.set_sync_state(SyncState::Error);
    let mut active = None;
    let start = ServerMessage::StreamStart(Some(format("pcm", 2, 48_000, 32)));
    assert!(handle_message(start, &mut shared, &mut active).is_none());
    let taken = active.expect("a stream");
    assert_eq!((taken.channels, taken.bit_depth, taken.sample_rate_hz), (2, 32, 48_000));
    assert!(shared.stream_active);
    assert_eq!(shared.group_playback_state(), GroupPlaybackState::Playing);
    assert_eq!(shared.sync_state(), SyncState::Synchronized);
    assert!(shared.take_clear_requested());
}

#[test]
fn stream_start_refuses_another_stream() {
    let mut shared = SharedState::new(None);
    shared.set_stream_active(true);
    let mut active = Some(stream(2, 24));
    let start = ServerMessage::StreamStart(Some(format("opus", 2, 48_000, 24)));
    let wanted = handle_message(start, &mut shared, &mut active).expect("a request");
    assert_eq!((wanted.codec.as_str(), wanted.channels), ("pcm", 2));
    assert_eq!((wanted.sample_rate, wanted.bit_depth), (48_000, 24));
    assert!(active.is_none() && !shared.stream_active);
    assert!(shared.take_clear_requested());
    assert!(handle_message(ServerMessage::StreamStart(None), &mut shared, &mut active).is_none());
    assert!(!shared.take_clear_requested());
}

#[test]
fn stream_clear_and_end() {
    let mut shared = SharedState::new(None);
    let mut active = Some(stream(1, 16));
    shared.set_stream_active(true);
    shared.set_sync_state(SyncState::Error);
    handle_message(ServerMessage::StreamClear, &mut shared, &mut active);
    assert!(active.is_some() && shared.stream_active);
    assert!(shared.take_clear_requested());
    assert_eq!(shared.sync_state(), SyncState::Synchronized);
    handle_message(ServerMessage::StreamEnd, &mut shared, &mut active);
    assert!(active.is_none() && !shared.stream_active);
    assert!(shared.take_clear_requested());
    assert_eq!(shared.group_playback_state(), GroupPlaybackState::Stopped);
}

#[test]
fn metadata_and_group_updates() {
    let mut shared = SharedState::new(None);
    let mut active = None;
    let metadata = TrackMetadata {
        artist: Some(" A ".to_string()),
        title: None,
    };
    handle_message(ServerMessage::ServerState(Some(metadata)), &mut shared, &mut active);
    assert_eq!(shared.now_playing(), ("A".to_string(), String::new()));
    handle_message(ServerMessage::ServerState(None), &mut shared, &mut active);
    assert_eq!(shared.now_playing(), ("A".to_string(), String::new()));
    let stopped = ServerMessage::GroupUpdate(Some(PlaybackState::Stopped));
    handle_message(stopped, &mut shared, &mut active);
    assert_eq!(shared.group_playback_state(), GroupPlaybackState::Stopped);
    let playing = ServerMessage::GroupUpdate(Some(PlaybackState::Playing));
    handle_message(playing, &mut shared, &mut active);
    handle_message(ServerMessage::GroupUpdate(None), &mut shared, &mut active);
    handle_message(ServerMessage::Other, &mut shared, &mut active);
    assert_eq!(shared.group_playback_state(), GroupPlaybackState::Playing);
}

#[test]
fn volume_and_mute_commands() {
    let mut shared = SharedState::new(None);
    let mut active = None;
    shared.take_state_dirty();
    handle_message(command("volume", Some(130), Some(true)), &mut shared, &mut active);
    assert_eq!((shared.remote_volume, shared.remote_muted), (100, false));
    assert!(shared.take_state_dirty());
    handle_message(command("volume", Some(40), None), &mut shared, &mut active);
    handle_message(command("mute", Some(1), Some(true)), &mut shared, &mut active);
    assert_eq!((shared.remote_volume, shared.remote_muted), (40, true));
    assert!(shared.take_state_dirty());
    handle_message(command("mute", None, None), &mut shared, &mut active);
    handle_message(command("volume", None, None), &mut shared, &mut active);
    handle_message(command("seek", Some(1), Some(false)), &mut shared, &mut active);
    handle_message(ServerMessage::ServerCommand(None), &mut shared, &mut active);
    assert_eq!((shared.remote_volume, shared.remote_muted), (40, true));
    assert!(!shared.take_state_dirty());
}

#[test]
fn reported_state_is_bounded() {
    let mut shared = SharedState::new(None);
    shared.remote_volume = 200;
    shared.remote_muted = true;
    shared.set_sync_state(SyncState::Error);
    let expected = PlayerState {
        state: PlayerSyncState::Error,
        volume: 100,
        muted: true,
    };
    assert!(matches!(
        client_state_message(&shared),
        ClientMessage::ClientState(state) if state == expected
    ));
}

#[test]
fn audio_is_decoded_into_frames() {
    let bytes = [1, 0, 2, 0, 3, 0, 0xfc, 0xff];
    let chunk = decode_audio_chunk_at(&bytes, &stream(2, 16), Some(77), 0).expect("a chunk");
    assert_eq!(chunk.local_play_time_us(), 77);
    assert_eq!(chunk.sample_rate_hz(), 48_000);
    assert_eq!(chunk.frame_count(), 2);
    assert_eq!(chunk.frame(0), PcmFrame { left: 1, right: 2, full_scale: 32_768 });
    assert_eq!(chunk.frame(1), PcmFrame { left: 3, right: -4, full_scale: 32_768 });
    let mono = decode_audio_chunk_at(&bytes, &stream(1, 16), Some(77), 0).expect("a chunk");
    assert_eq!(mono.frame_count(), 4);
    assert_eq!(mono.frame(3), PcmFrame { left: -4, right: -4, full_scale: 32_768 });
}

#[test]
fn audio_that_is_no_whole_frames_is_refused() {
    assert!(decode_audio_chunk_at(&[], &stream(2, 16), None, 0).is_none());
    assert!(decode_audio_chunk_at(&[0, 0], &stream(2, 16), None, 0).is_none());
    assert!(decode_audio_chunk_at(&[0, 0, 0], &stream(1, 16), None, 0).is_none());
    assert!(decode_audio_chunk_at(&[0, 0, 0, 0], &stream(3, 16), None, 0).is_none());
    let mut other = stream(1, 16);
    other.codec = "flac".to_string();
    assert!(decode_audio_chunk_at(&[0, 0], &other, None, 0).is_none());
}

#[test]
fn unsynchronized_audio_plays_a_moment_later() {
    let now = std::time::SystemTime::now()
        .duration_since(std::time::UNIX_EPOCH)
        .expect("a time after the epoch")
        .as_micros() as i64;
    let chunk = decode_audio_chunk(&[0, 0], &stream(1, 16), None).expect("a chunk");
    let delay = chunk.local_play_time_us() - now;
    assert!((150_000..60_000_000).contains(&delay));
    let timed = decode_audio_chunk(&[0, 0], &stream(1, 16), Some(5)).expect("a chunk");
    assert_eq!(timed.local_play_time_us(), 5);
}

#[test]
fn chunks_hold_whole_frames() {
    assert!(TimestampedChunk::new(0, 48_000, 2, 1, vec![1, 2, 3]).is_none());
    assert!(TimestampedChunk::new(0, 48_000, 0, 1, vec![]).is_none());
    let chunk = TimestampedChunk::new(0, 48_000, 3, 9, vec![1, 2, 3, 4, 5, 6]).expect("a chunk");
    assert_eq!(chunk.frame_count(), 2);
    assert_eq!(chunk.frame(1), PcmFrame { left: 4, right: 5, full_scale: 9 });
}

#[test]
fn play_time_is_converted_or_a_moment_later() {
    assert_eq!(play_time_us(Some(5), 1_000_000), 5);
    assert_eq!(play_time_us(None, 1_000_000), 1_150_000);
    assert_eq!(play_time_us(None, i64::MAX - 1), i64::MAX);
    let late = decode_audio_chunk_at(&[0, 0], &stream(1, 16), None, 7).expect("a chunk");
    assert_eq!(late.local_play_time_us(), 150_007);
}

#[test]
fn format_change_keeps_what_is_queued() {
    let mut shared = SharedState::new(None);
    let mut active = None;
    for (depth, cleared) in [(16, true), (24, false), (32, false)] {
        let start = ServerMessage::StreamStart(Some(format("pcm", 2, 48_000, depth)));
        handle_message(start, &mut shared, &mut active);
        assert_eq!(active.as_ref().map(|taken| taken.bit_depth), Some(depth));
        assert_eq!(shared.take_clear_requested(), cleared);
    }
}

#[test]
fn end_of_a_stream_is_reported() {
    let mut shared = SharedState::new(None);
    let mut active = Some(stream(2, 24));
    shared.take_state_dirty();
    handle_message(ServerMessage::StreamEnd, &mut shared, &mut active);
    assert!(shared.take_state_dirty());
}
