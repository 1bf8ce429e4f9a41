use sendspin_vst3::editor::{
    apply_client_name_selection, apply_server_url_selection, diagnostics_label, entry_label,
    now_playing_label, offset_label, selected_discovered_name, stepped_offset, toggle_command,
    toggle_label, EditorUiState,
};
use sendspin_vst3::state::{
    DiagnosticsSnapshot, DiscoveredServer, GroupPlaybackState, MdnsCommand, SharedState,
    WorkerCommand,
};

fn den() -> DiscoveredServer {
    DiscoveredServer {
        id: "1".to_string(),
        name: "Den".to_string(),
        url: "ws://den/sendspin".to_string(),
    }
}

#[test]
fn client_name_selection() {
    let mut shared = SharedState::new(None);
    shared.attach_worker();
    let (name, command) = apply_client_name_selection(&mut shared, " Deck ").expect("a name");
    assert_eq!(name, "Deck");
    assert!(matches!(command, Some(WorkerCommand::SetClientName(text)) if text == "Deck"));
    assert_eq!(shared.configured_client_name(), "Deck");
    assert!(matches!(
        apply_client_name_selection(&mut shared, " "),
        Err("Client name cannot be empty")
    ));
    assert_eq!(shared.configured_client_name(), "Deck");
}

#[test]
fn server_url_selection() {
    let mut shared = SharedState::new(None);
    let (url, command) = apply_server_url_selection(&mut shared, "https://h").expect("a URL");
    assert_eq!(url, "wss://h/sendspin");
    assert!(command.is_none());
    assert_eq!(shared.configured_server_url(), "wss://h/sendspin");
    assert!(matches!(
        apply_server_url_selection(&mut shared, "ftp://h"),
        Err("Invalid WebSocket URL")
    ));
}

#[test]
fn offset_steps_stay_in_range() {
    assert_eq!(stepped_offset(0, true), 1);
    assert_eq!(stepped_offset(0, false), -1);
    assert_eq!(stepped_offset(stepped_offset(17, true), false), 17);
    assert_eq!(stepped_offset(200, true), 200);
    assert_eq!(stepped_offset(-100, false), -100);
    assert_eq!(stepped_offset(i32::MAX, true), 200);
    assert_eq!(stepped_offset(i32::MIN, false), -100);
    assert_eq!(offset_label(-100), "-100 ms");
    assert_eq!(offset_label(0), "0 ms");
}

#[test]
fn labels_read_as_expected() {
    assert_eq!(now_playing_label("", ""), "Now playing: (metadata unavailable)");
    assert_eq!(now_playing_label("A", ""), "Now playing: A");
    assert_eq!(now_playing_label("", "B"), "Now playing: B");
    assert_eq!(now_playing_label("A", "B"), "Now playing: A - B");
    assert_eq!(
        diagnostics_label(DiagnosticsSnapshot {
            queue_overflow_count: 1,
            decode_error_count: 20,
            late_chunk_count: 300,
        }),
        "Diagnostics: queue_overflow=1 decode_error=20 late_chunk=300"
    );
    assert_eq!(entry_label(&den()), "Den (ws://den/sendspin)");
    assert_eq!(toggle_label(GroupPlaybackState::Playing), "Pause");
    assert_eq!(toggle_label(GroupPlaybackState::Unknown), "Play");
    assert_eq!(toggle_command(GroupPlaybackState::Playing), "pause");
    assert_eq!(toggle_command(GroupPlaybackState::Stopped), "play");
    let servers = [den()];
    assert_eq!(selected_discovered_name(&servers, "ws://den/sendspin"), "Den");
    assert_eq!(selected_discovered_name(&servers, "ws://x/y"), "Other...");
}

#[test]
fn editor_fills_its_inputs_once() {
    let mut shared = SharedState::new(None);
    shared.set_configured_server_url("ws://den/sendspin".to_string());
    shared.set_discovered_servers(vec![den()]);
    let mut editor = EditorUiState::new();
    editor.begin_frame(&shared);
    assert_eq!(editor.client_name_input, "Sendspin VST");
    assert_eq!(editor.custom_url_input, "ws://den/sendspin");
    assert!(!editor.use_custom_url);
    assert!(editor.shows_selected(&den(), "ws://den/sendspin"));
    editor.client_name_input = "typing".to_string();
    editor.custom_url_input = "typing".to_string();
    editor.begin_frame(&shared);
    assert_eq!(editor.client_name_input, "typing");
    assert_eq!(editor.custom_url_input, "typing");
}

#[test]
fn editor_shows_an_undiscovered_server_as_custom() {
    let mut shared = SharedState::new(None);
    shared.set_configured_server_url("ws://attic/sendspin".to_string());
    shared.set_discovered_servers(vec![den()]);
    let mut editor = EditorUiState::new();
    editor.custom_url_initialized = true;
    editor.begin_frame(&shared);
    assert!(editor.use_custom_url);
    assert_eq!(editor.custom_url_input, "ws://attic/sendspin");
    assert!(!editor.shows_selected(&den(), "ws://den/sendspin"));
    editor.custom_url_input = "typing".to_string();
    editor.begin_frame(&shared);
    assert_eq!(editor.custom_url_input, "typing");
}

#[test]
fn editor_buttons_send_commands() {
    let mut shared = SharedState::new(None);
    shared.attach_worker();
    shared.attach_mdns();
    shared.set_group_playback_state(GroupPlaybackState::Playing);
    let mut editor = EditorUiState::new();
    assert!(matches!(
        editor.press_toggle(&shared),
        Some(WorkerCommand::SendControllerCommand(command)) if command == "pause"
    ));
    assert_eq!(editor.last_message, "Sent 'pause' command.");
    assert_eq!(editor.press_refresh(&shared), Some(MdnsCommand::Refresh));
    assert_eq!(editor.last_message, "Refreshing mDNS discovery...");
    editor.client_name_input = " Deck ".to_string();
    let (name, _) = editor.press_apply_name(&mut shared).expect("a name");
    assert_eq!((name.as_str(), editor.client_name_input.as_str()), ("Deck", "Deck"));
    assert_eq!(editor.last_message, "Applying client name and reconnecting...");
    editor.client_name_input = String::new();
    assert!(editor.press_apply_name(&mut shared).is_none());
    assert_eq!(editor.last_message, "Client name cannot be empty");
}

#[test]
fn editor_selects_servers() {
    let mut shared = SharedState::new(None);
    shared.attach_worker();
    let mut editor = EditorUiState::new();
    editor.select_other();
    assert!(editor.use_custom_url);
    let (url, command) = editor.select_entry(&mut shared, "den").expect("a URL");
    assert_eq!(url, "ws://den/sendspin");
    assert!(matches!(command, Some(WorkerCommand::SetServerUrl(text)) if text == url));
    assert!(!editor.use_custom_url);
    assert_eq!(editor.last_message, "Switching to selected server...");
    assert!(editor.select_entry(&mut shared, "").is_none());
    assert_eq!(editor.last_message, "Invalid WebSocket URL");
    editor.custom_url_input = "attic:99".to_string();
    let (url, _) = editor.press_connect(&mut shared).expect("a URL");
    assert_eq!(url, "ws://attic:99/sendspin");
    assert_eq!(editor.custom_url_input, "ws://attic:99/sendspin");
    assert_eq!(editor.last_message, "Switching to custom server...");
    editor.custom_url_input = "ws://".to_string();
    assert!(editor.press_connect(&mut shared).is_none());
    assert_eq!(editor.last_message, "Invalid WebSocket URL");
}
