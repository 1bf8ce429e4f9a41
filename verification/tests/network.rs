use sendspin_vst3::clock::{MonotonicInstant, TimeAnchor};
use sendspin_vst3::network::{
    reconnect_action, Attempt, Departure, Flow, NetworkSession, NextMove, PollOutcome,
    PolledCommand, ReconnectAction, WaitEvent, WaitReason,
};
use sendspin_vst3::protocol::{
    AudioFormatSpec, ClientMessage, GoodbyeReason, PlayerCommand, ServerMessage,
};
use sendspin_vst3::state::{
    ConnectionState, GroupPlaybackState, PlayerSyncState, SharedState, SyncState, WorkerCommand,
};
use sendspin_vst3::SendspinVst3;

fn session(shared: &mut SharedState) -> NetworkSession {
    NetworkSession::start("host", "Deck", None, shared)
}

fn set_url(url: &str) -> WorkerCommand {
    WorkerCommand::SetServerUrl(url.to_string())
}

fn set_name(name: &str) -> WorkerCommand {
    WorkerCommand::SetClientName(name.to_string())
}

fn controller(command: &str) -> WorkerCommand {
    WorkerCommand::SendControllerCommand(command.to_string())
}

fn start_message(channels: u8) -> ServerMessage {
    ServerMessage::StreamStart(Some(AudioFormatSpec {
        codec: "pcm".to_string(),
        channels,
        sample_rate: 48_000,
        bit_depth: 16,
    }))
}

#[test]
fn session_starts_with_what_is_configured() {
    let mut shared = SharedState::new(None);
    let session = NetworkSession::start("https://host", "  ", Some("Lounge"), &mut shared);
    assert_eq!(session.reconnect_delay_ms, 1_000);
    assert_eq!(session.active_server_url.as_deref(), Some("wss://host/sendspin"));
    assert_eq!(session.active_client_name, "Lounge");
    assert_eq!(shared.configured_server_url(), "wss://host/sendspin");
    assert_eq!(shared.configured_client_name(), "Lounge");
    let none = NetworkSession::start("", "Deck", None, &mut shared);
    assert!(none.active_server_url.is_none());
    assert_eq!(shared.configured_server_url(), "");
}

#[test]
fn polled_commands_change_the_session() {
    let mut shared = SharedState::new(None);
    let mut session = session(&mut shared);
    let again = session.on_polled(PolledCommand::Command(set_url("other:1")), &mut shared);
    assert_eq!(again, PollOutcome::PollAgain);
    assert_eq!(session.active_server_url.as_deref(), Some("ws://other:1/sendspin"));
    assert_eq!(shared.configured_server_url(), "ws://other:1/sendspin");
    assert_eq!(session.reconnect_delay_ms, 100);
    session.on_polled(PolledCommand::Command(set_url("ftp://x")), &mut shared);
    assert_eq!(session.active_server_url.as_deref(), Some("ws://other:1/sendspin"));
    session.on_polled(PolledCommand::Command(set_name(" New ")), &mut shared);
    assert_eq!(session.active_client_name, "New");
    session.on_polled(PolledCommand::Command(set_name(" ")), &mut shared);
    assert_eq!(shared.configured_client_name(), "New");
    session.on_polled(PolledCommand::Command(controller("play")), &mut shared);
    assert_eq!(session.pending_controller_command.as_deref(), Some("play"));
    assert_eq!(session.on_polled(PolledCommand::Empty, &mut shared), PollOutcome::Proceed);
    assert_eq!(session.on_polled(PolledCommand::Disconnected, &mut shared), PollOutcome::Stop);
    let stop = session.on_polled(PolledCommand::Command(WorkerCommand::Shutdown), &mut shared);
    assert_eq!(stop, PollOutcome::Stop);
}

#[test]
fn attempt_waits_without_a_server() {
    let mut shared = SharedState::new(None);
    shared.set_connection_state(ConnectionState::Error);
    shared.set_now_playing(Some("A"), Some("B"));
    let idle = NetworkSession::start("", "Deck", None, &mut shared);
    assert!(matches!(
        idle.next_attempt(&mut shared, "id", "1"),
        Attempt::Idle { wait_ms: 30_000 }
    ));
    assert_eq!(shared.connection_state(), ConnectionState::Disconnected);
    assert_eq!(shared.now_playing(), (String::new(), String::new()));
}

#[test]
fn attempt_greets_the_server() {
    let mut shared = SharedState::new(None);
    shared.host_sample_rate_hz = 96_000;
    let session = session(&mut shared);
    match session.next_attempt(&mut shared, "id", "1") {
        Attempt::Connect { url, hello } => {
            assert_eq!(url, "ws://host/sendspin");
            assert_eq!((hello.client_id.as_str(), hello.name.as_str()), ("id", "Deck"));
            assert_eq!(hello.player_v1_support.supported_formats[0].sample_rate, 96_000);
        }
        Attempt::Idle { .. } => panic!("there is a server"),
    }
    assert_eq!(shared.connection_state(), ConnectionState::Connecting);
    assert_eq!(session.connect_failed(&mut shared), 1_000);
    assert_eq!(shared.connection_state(), ConnectionState::Error);
}

#[test]
fn reconnect_delay_doubles_up_to_its_bound() {
    let mut shared = SharedState::new(None);
    let mut session = session(&mut shared);
    for expected in [2_000, 4_000, 8_000, 16_000, 30_000, 30_000] {
        let reason = WaitReason::BetweenConnections;
        assert!(session.after_wait(WaitEvent::Elapsed, reason, &mut shared));
        assert_eq!(session.reconnect_delay_ms, expected);
    }
    assert!(session.after_wait(WaitEvent::Elapsed, WaitReason::NoServer, &mut shared));
    assert_eq!(session.reconnect_delay_ms, 30_000);
    session.connected(&mut shared);
    assert_eq!(session.reconnect_delay_ms, 1_000);
}

#[test]
fn waits_end_in_actions() {
    assert!(matches!(reconnect_action(WaitEvent::Elapsed), ReconnectAction::Continue));
    assert!(matches!(reconnect_action(WaitEvent::Disconnected), ReconnectAction::Stop));
    let shutdown = WaitEvent::Command(WorkerCommand::Shutdown);
    assert!(matches!(reconnect_action(shutdown), ReconnectAction::Stop));
    assert!(matches!(
        reconnect_action(WaitEvent::Command(set_url("http://h"))),
        ReconnectAction::UpdateServerUrl(url) if url == "ws://h/sendspin"
    ));
    assert!(matches!(
        reconnect_action(WaitEvent::Command(set_url(""))),
        ReconnectAction::Continue
    ));
    assert!(matches!(
        reconnect_action(WaitEvent::Command(set_name(" N "))),
        ReconnectAction::UpdateClientName(name) if name == "N"
    ));
    assert!(matches!(
        reconnect_action(WaitEvent::Command(set_name(""))),
        ReconnectAction::Continue
    ));
    assert!(matches!(
        reconnect_action(WaitEvent::Command(controller("pause"))),
        ReconnectAction::QueueControllerCommand(command) if command == "pause"
    ));
}

#[test]
fn waits_change_the_session() {
    let mut shared = SharedState::new(None);
    let mut session = session(&mut shared);
    let queued = WaitEvent::Command(controller("play"));
    assert!(session.after_wait(queued, WaitReason::NoServer, &mut shared));
    assert_eq!(session.reconnect_delay_ms, 1_000);
    let queued = WaitEvent::Command(controller("pause"));
    assert!(session.after_wait(queued, WaitReason::BetweenConnections, &mut shared));
    assert_eq!(session.reconnect_delay_ms, 100);
    assert_eq!(session.pending_controller_command.as_deref(), Some("pause"));
    let url = WaitEvent::Command(set_url("x"));
    assert!(session.after_wait(url, WaitReason::NoServer, &mut shared));
    assert_eq!(shared.configured_server_url(), "ws://x/sendspin");
    let name = WaitEvent::Command(set_name("N"));
    assert!(session.after_wait(name, WaitReason::NoServer, &mut shared));
    assert_eq!(shared.configured_client_name(), "N");
    assert!(!session.after_wait(WaitEvent::Disconnected, WaitReason::NoServer, &mut shared));
}

#[test]
fn connection_opens_with_state_and_queued_command() {
    let mut shared = SharedState::new(None);
    let mut session = session(&mut shared);
    session.on_polled(PolledCommand::Command(controller("play")), &mut shared);
    let (connection, messages) = session.connected(&mut shared);
    assert!(connection.active_stream.is_none());
    assert_eq!(connection.last_requested_sample_rate, 48_000);
    assert_eq!(shared.connection_state(), ConnectionState::Connected);
    assert_eq!(messages.len(), 2);
    assert!(matches!(&messages[0], ClientMessage::ClientState(_)));
    assert!(matches!(&messages[1], ClientMessage::ClientCommand(text) if text == "play"));
    assert_eq!(session.connected(&mut shared).1.len(), 1);
}

#[test]
fn commands_during_a_connection() {
    let mut shared = SharedState::new(None);
    let mut session = session(&mut shared);
    let (messages, flow) = session.on_command(Some(set_url("ws://host")), &mut shared);
    assert!(messages.is_empty());
    assert_eq!(flow, Flow::Stay);
    let (messages, flow) = session.on_command(Some(set_name("Deck")), &mut shared);
    assert!(messages.is_empty());
    assert_eq!(flow, Flow::Stay);
    let (messages, flow) = session.on_command(Some(controller("next")), &mut shared);
    assert!(matches!(&messages[0], ClientMessage::ClientCommand(text) if text == "next"));
    assert_eq!(flow, Flow::Stay);
    for change in [set_url("other"), set_name("Other")] {
        let (messages, flow) = session.on_command(Some(change), &mut shared);
        assert!(matches!(&messages[0], ClientMessage::ClientGoodbye(GoodbyeReason::Restart)));
        assert_eq!(flow, Flow::Leave(Departure::ReconnectNow));
    }
    assert_eq!(shared.configured_server_url(), "ws://other/sendspin");
    assert_eq!(shared.configured_client_name(), "Other");
    let (messages, flow) = session.on_command(Some(WorkerCommand::Shutdown), &mut shared);
    assert_eq!(messages.len(), 1);
    assert_eq!(flow, Flow::Leave(Departure::Stop));
    let (messages, flow) = session.on_command(None, &mut shared);
    assert!(messages.is_empty());
    assert_eq!(flow, Flow::Leave(Departure::Stop));
}

#[test]
fn messages_during_a_connection() {
    let mut shared = SharedState::new(None);
    let mut session = session(&mut shared);
    let (mut connection, _) = session.connected(&mut shared);
    let (messages, flow) = connection.on_message(Some(start_message(6)), &mut shared);
    assert!(matches!(
        &messages[0],
        ClientMessage::StreamRequestFormat(format) if format.sample_rate == 48_000
    ));
    assert_eq!(flow, Flow::Stay);
    let (messages, _) = connection.on_message(Some(start_message(2)), &mut shared);
    assert!(messages.is_empty() && connection.active_stream.is_some());
    let (messages, flow) = connection.on_message(None, &mut shared);
    assert!(messages.is_empty());
    assert_eq!(flow, Flow::Leave(Departure::ReconnectLater));
}

#[test]
fn ticks_report_changes_once() {
    let mut shared = SharedState::new(None);
    let mut session = session(&mut shared);
    let (mut connection, _) = session.connected(&mut shared);
    let messages = connection.on_tick(&mut shared);
    assert_eq!(messages.len(), 1);
    assert!(matches!(&messages[0], ClientMessage::ClientState(_)));
    assert!(connection.on_tick(&mut shared).is_empty());
    shared.host_sample_rate_hz = 32_000;
    let messages = connection.on_tick(&mut shared);
    assert!(matches!(
        &messages[0],
        ClientMessage::StreamRequestFormat(format) if format.sample_rate == 32_000
    ));
    assert!(connection.on_tick(&mut shared).is_empty());
    shared.host_sample_rate_hz = 0;
    assert!(connection.on_tick(&mut shared).is_empty());
    assert_eq!(connection.last_requested_sample_rate, 32_000);
}

#[test]
fn audio_is_queued_or_counted() {
    let mut shared = SharedState::new(None);
    let mut plugin = SendspinVst3::new(MonotonicInstant { nanos: 0 });
    let mut producer = plugin.take_chunk_producer().expect("a producer");
    assert!(plugin.take_chunk_producer().is_none());
    let mut session = session(&mut shared);
    let (mut connection, _) = session.connected(&mut shared);
    let bytes = [0_u8; 4];
    let flow = connection.on_audio(Some(&bytes), Some(0), &mut shared, &mut producer);
    assert_eq!(flow, Flow::Stay);
    assert!(!producer.is_full());
    connection.on_message(Some(start_message(2)), &mut shared);
    connection.on_audio(Some(&bytes[..3]), Some(0), &mut shared, &mut producer);
    assert_eq!(shared.diagnostics_snapshot().decode_error_count, 1);
    for _ in 0..512 {
        connection.on_audio(Some(&bytes), Some(0), &mut shared, &mut producer);
    }
    assert_eq!(shared.diagnostics_snapshot().queue_overflow_count, 0);
    assert!(producer.is_full());
    assert_eq!(shared.sync_state(), SyncState::Synchronized);
    connection.on_audio(Some(&bytes), Some(0), &mut shared, &mut producer);
    assert_eq!(shared.diagnostics_snapshot().queue_overflow_count, 1);
    assert_eq!(shared.sync_state(), SyncState::Error);
    connection.on_audio_at(Some(&bytes), None, 0, &mut shared, &mut producer);
    assert_eq!(shared.diagnostics_snapshot().queue_overflow_count, 2);
    let flow = connection.on_audio(None, None, &mut shared, &mut producer);
    assert_eq!(flow, Flow::Leave(Departure::ReconnectLater));
}

#[test]
fn end_of_a_connection_stops_the_stream() {
    for (departure, expected, delay) in [
        (Departure::Stop, NextMove::Stop, 1_000),
        (Departure::ReconnectNow, NextMove::Reconnect, 100),
        (Departure::ReconnectLater, NextMove::Wait { delay_ms: 1_000 }, 1_000),
    ] {
        let mut shared = SharedState::new(None);
        let mut session = session(&mut shared);
        let (mut connection, _) = session.connected(&mut shared);
        connection.on_message(Some(start_message(2)), &mut shared);
        shared.set_now_playing(Some("A"), Some("B"));
        shared.take_clear_requested();
        assert_eq!(session.disconnected(departure, &mut shared), expected);
        assert_eq!(session.reconnect_delay_ms, delay);
        assert!(!shared.stream_active);
        assert!(shared.take_clear_requested());
        assert_eq!(shared.connection_state(), ConnectionState::Disconnected);
        assert_eq!(shared.group_playback_state(), GroupPlaybackState::Unknown);
        assert_eq!(shared.now_playing(), (String::new(), String::new()));
    }
}

#[test]
fn underrun_is_reported_at_the_next_tick() {
    let mut shared = SharedState::new(None);
    let mut plugin = SendspinVst3::new(MonotonicInstant { nanos: 0 });
    let mut session = session(&mut shared);
    let (mut connection, _) = session.connected(&mut shared);
    connection.on_message(Some(start_message(2)), &mut shared);
    connection.on_tick(&mut shared);
    for _ in 0..2 {
        plugin.update_sync_state_for_block(&mut shared, false);
        assert!(connection.on_tick(&mut shared).is_empty());
    }
    plugin.update_sync_state_for_block(&mut shared, false);
    let messages = connection.on_tick(&mut shared);
    assert!(matches!(
        &messages[0],
        ClientMessage::ClientState(state) if state.state == PlayerSyncState::Error
    ));
    plugin.update_sync_state_for_block(&mut shared, false);
    assert!(connection.on_tick(&mut shared).is_empty());
}

#[test]
fn player_commands_are_confirmed_at_the_next_tick() {
    let mut shared = SharedState::new(None);
    let mut session = session(&mut shared);
    let (mut connection, _) = session.connected(&mut shared);
    connection.on_tick(&mut shared);
    let command = PlayerCommand {
        command: "volume".to_string(),
        volume: Some(30),
        mute: None,
    };
    connection.on_message(Some(ServerMessage::ServerCommand(Some(command))), &mut shared);
    let messages = connection.on_tick(&mut shared);
    assert!(matches!(
        &messages[0],
        ClientMessage::ClientState(state) if state.volume == 30 && !state.muted
    ));
    let command = PlayerCommand {
        command: "mute".to_string(),
        volume: None,
        mute: Some(true),
    };
    connection.on_message(Some(ServerMessage::ServerCommand(Some(command))), &mut shared);
    let messages = connection.on_tick(&mut shared);
    assert!(matches!(
        &messages[0],
        ClientMessage::ClientState(state) if state.volume == 30 && state.muted
    ));
}

#[test]
fn unsynchronized_audio_is_queued_for_a_moment_later() {
    let mut shared = SharedState::new(None);
    let start = MonotonicInstant { nanos: 1_000_000_000 };
    let anchor = TimeAnchor::at(start, 5_000_000);
    let mut plugin = SendspinVst3::anchored(anchor);
    let saved = plugin.initialize_anchored(&mut shared, 48_000, 64, "Deck", "host", None, anchor);
    assert_eq!(saved, ("Deck".to_string(), "ws://host/sendspin".to_string()));
    assert_eq!(plugin.time_anchor, anchor);
    let mut producer = plugin.take_chunk_producer().expect("a producer");
    let mut session = session(&mut shared);
    let (mut connection, _) = session.connected(&mut shared);
    connection.on_message(Some(start_message(2)), &mut shared);
    let mut frames = Vec::new();
    plugin.process(&mut shared, &mut frames, 0, start, 0, false);
    connection.on_audio_at(Some(&[1, 0, 2, 0]), None, 5_000_000, &mut shared, &mut producer);
    assert!(plugin.next_frame(&mut shared, 5_148_999, 48_000).is_none());
    let frame = plugin.next_frame(&mut shared, 5_150_000, 48_000).expect("a frame");
    assert_eq!((frame.left, frame.right), (1, 2));
}
