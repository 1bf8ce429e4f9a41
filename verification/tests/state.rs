use sendspin_vst3::state::{
    ConnectionState, DiscoveredServer, GroupPlaybackState, MdnsCommand, PlayerSyncState,
    SharedState, SyncState, WorkerCommand,
};

#[test]
fn states_come_back_from_their_numbers() {
    for state in [SyncState::Synchronized, SyncState::Error] {
        assert_eq!(SyncState::from_u8(state.to_u8()), state);
    }
    assert_eq!(SyncState::from_u8(7), SyncState::Synchronized);
    for state in [
        ConnectionState::Disconnected,
        ConnectionState::Connecting,
        ConnectionState::Connected,
        ConnectionState::Error,
    ] {
        assert_eq!(ConnectionState::from_u8(state.to_u8()), state);
    }
    assert_eq!(ConnectionState::from_u8(4), ConnectionState::Disconnected);
    for state in [
        GroupPlaybackState::Unknown,
        GroupPlaybackState::Stopped,
        GroupPlaybackState::Playing,
    ] {
        assert_eq!(GroupPlaybackState::from_u8(state.to_u8()), state);
    }
    assert_eq!(GroupPlaybackState::from_u8(255), GroupPlaybackState::Unknown);
}

#[test]
fn states_have_names() {
    assert_eq!(ConnectionState::Disconnected.as_str(), "Disconnected");
    assert_eq!(ConnectionState::Connecting.as_str(), "Connecting");
    assert_eq!(ConnectionState::Connected.as_str(), "Connected");
    assert_eq!(ConnectionState::Error.as_str(), "Error");
    assert_eq!(SyncState::Synchronized.as_protocol(), PlayerSyncState::Synchronized);
    assert_eq!(SyncState::Error.as_protocol(), PlayerSyncState::Error);
}

#[test]
fn shared_state_starts_at_rest() {
    let shared = SharedState::new(Some("Lounge"));
    assert_eq!(shared.host_sample_rate_hz, 48_000);
    assert_eq!(shared.host_block_size, 512);
    assert_eq!(shared.remote_volume, 100);
    assert!(!shared.stream_active && !shared.remote_muted && !shared.clear_requested);
    assert_eq!(shared.sync_state(), SyncState::Synchronized);
    assert_eq!(shared.connection_state(), ConnectionState::Disconnected);
    assert_eq!(shared.group_playback_state(), GroupPlaybackState::Unknown);
    assert_eq!(shared.configured_client_name(), "Lounge");
    assert_eq!(shared.configured_server_url(), "");
    assert!(shared.discovered_servers().is_empty());
}

#[test]
fn marks_are_taken_once() {
    let mut shared = SharedState::new(None);
    assert!(shared.take_state_dirty());
    assert!(!shared.take_state_dirty());
    shared.request_clear();
    assert!(shared.take_clear_requested());
    assert!(!shared.take_clear_requested());
}

#[test]
fn only_a_change_of_sync_state_is_reported() {
    let mut shared = SharedState::new(None);
    shared.take_state_dirty();
    shared.set_sync_state(SyncState::Synchronized);
    assert!(!shared.take_state_dirty());
    shared.set_sync_state(SyncState::Error);
    assert!(shared.take_state_dirty());
}

#[test]
fn metadata_is_trimmed() {
    let mut shared = SharedState::new(None);
    shared.set_now_playing(Some(" Artist\n"), Some("  "));
    assert_eq!(shared.now_playing(), ("Artist".to_string(), String::new()));
    shared.set_now_playing(None, Some("Title"));
    assert_eq!(shared.now_playing(), (String::new(), "Title".to_string()));
}

#[test]
fn diagnostics_count() {
    let mut shared = SharedState::new(None);
    shared.record_queue_overflow();
    shared.record_decode_error();
    shared.record_decode_error();
    shared.record_late_chunk();
    shared.record_late_chunk();
    shared.record_late_chunk();
    let counts = shared.diagnostics_snapshot();
    assert_eq!(counts.queue_overflow_count, 1);
    assert_eq!(counts.decode_error_count, 2);
    assert_eq!(counts.late_chunk_count, 3);
}

#[test]
fn requests_reach_attached_workers_only() {
    let mut shared = SharedState::new(None);
    assert!(shared.request_server_switch("ws://a/b".to_string()).is_none());
    assert_eq!(shared.configured_server_url(), "ws://a/b");
    assert!(shared.request_controller_command("play".to_string()).is_none());
    assert!(shared.request_mdns_refresh().is_none());
    shared.attach_worker();
    shared.attach_mdns();
    assert!(matches!(
        shared.request_server_switch("ws://c/d".to_string()),
        Some(WorkerCommand::SetServerUrl(url)) if url == "ws://c/d"
    ));
    assert!(matches!(
        shared.request_client_name_switch("Deck".to_string()),
        Some(WorkerCommand::SetClientName(name)) if name == "Deck"
    ));
    assert_eq!(shared.configured_client_name(), "Deck");
    assert!(matches!(
        shared.request_controller_command("play".to_string()),
        Some(WorkerCommand::SendControllerCommand(command)) if command == "play"
    ));
    assert_eq!(shared.request_mdns_refresh(), Some(MdnsCommand::Refresh));
}

#[test]
fn discovered_servers_are_handed_out_as_copies() {
    let mut shared = SharedState::new(None);
    shared.set_discovered_servers(vec![DiscoveredServer {
        id: "1".to_string(),
        name: "A".to_string(),
        url: "ws://a/b".to_string(),
    }]);
    let servers = shared.discovered_servers();
    assert_eq!(servers.len(), 1);
    assert_eq!(
        (servers[0].id.as_str(), servers[0].name.as_str(), servers[0].url.as_str()),
        ("1", "A", "ws://a/b")
    );
}
