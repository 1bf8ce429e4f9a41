//! What the editor shows and what its controls do.

use vstd::prelude::*;

use crate::config::{normalize_client_name, try_normalize_server_url};
use crate::constants::{PIPELINE_OFFSET_MAX_MS, PIPELINE_OFFSET_MIN_MS, PIPELINE_OFFSET_STEP_MS};
use crate::mdns::lists_url;
use crate::state::{
    CommandModel, DiagnosticsSnapshot, DiscoveredServer, GroupPlaybackState, MdnsCommand,
    ServerModel, SharedModel, SharedState, WorkerCommand,
};
use crate::text::{decimal_text, joined, same_text, signed_decimal_text};

verus! {

// ---------------------------------------------------------------------------
// Settings

/// Takes up a client name that the user chose, and returns it as it was taken up,
/// with the command for the network worker, if there is one.
pub fn apply_client_name_selection(shared: &mut SharedState, raw_name: &str) -> (r: Result<
    (String, Option<WorkerCommand>),
    &'static str,
>)
    ensures
        match crate::config::client_name(raw_name@) {
            Some(name) => r matches Ok(applied) && applied.0@ == name && crate::state::opt_command(
                applied.1,
            ) == (if old(shared)@.worker_attached {
                Some(CommandModel::SetClientName(name))
            } else {
                None
            }) && final(shared)@ == (SharedModel { configured_client_name: name, ..old(shared)@ }),
            None => r matches Err(message) && message@ == "Client name cannot be empty"@
                && final(shared)@ == old(shared)@,
        },
{
    match normalize_client_name(raw_name) {
        Some(normalized) => {
            let command = shared.request_client_name_switch(normalized.clone());
            Ok((normalized, command))
        },
        None => Err("Client name cannot be empty"),
    }
}

/// Takes up a server URL that the user chose, and returns it as it was taken up, with
/// the command for the network worker, if there is one.
pub fn apply_server_url_selection(shared: &mut SharedState, raw_url: &str) -> (r: Result<
    (String, Option<WorkerCommand>),
    &'static str,
>)
    ensures
        match crate::config::usable_server_url(raw_url@) {
            Some(url) => r matches Ok(applied) && applied.0@ == url && crate::state::opt_command(
                applied.1,
            ) == (if old(shared)@.worker_attached {
                Some(CommandModel::SetServerUrl(url))
            } else {
                None
            }) && final(shared)@ == (SharedModel { configured_server_url: url, ..old(shared)@ }),
            None => r matches Err(message) && message@ == "Invalid WebSocket URL"@ && final(shared)@
                == old(shared)@,
        },
{
    match try_normalize_server_url(raw_url) {
        Some(normalized) => {
            let command = shared.request_server_switch(normalized.clone());
            Ok((normalized, command))
        },
        None => Err("Invalid WebSocket URL"),
    }
}

/// The pipeline offset after a step of `delta_ms`, kept within its range.
pub open spec fn offset_after(current_ms: int, delta_ms: int) -> int {
    if current_ms + delta_ms < PIPELINE_OFFSET_MIN_MS {
        PIPELINE_OFFSET_MIN_MS as int
    } else if current_ms + delta_ms > PIPELINE_OFFSET_MAX_MS {
        PIPELINE_OFFSET_MAX_MS as int
    } else {
        current_ms + delta_ms
    }
}

/// The pipeline offset after a press of one of its buttons.
pub fn stepped_offset(current_ms: i32, later: bool) -> (r: i32)
    ensures
        r == offset_after(
            current_ms as int,
            if later {
                PIPELINE_OFFSET_STEP_MS as int
            } else {
                -PIPELINE_OFFSET_STEP_MS
            },
        ),
{
    let delta_ms: i64 = if later {
        PIPELINE_OFFSET_STEP_MS as i64
    } else {
        -(PIPELINE_OFFSET_STEP_MS as i64)
    };
    let target: i64 = current_ms as i64 + delta_ms;
    if target < PIPELINE_OFFSET_MIN_MS as i64 {
        PIPELINE_OFFSET_MIN_MS
    } else if target > PIPELINE_OFFSET_MAX_MS as i64 {
        PIPELINE_OFFSET_MAX_MS
    } else {
        target as i32
    }
}

/// The pipeline offset never leaves its range, and a step back undoes a step that did
/// not reach the end of the range.
pub proof fn law_offset_stays_in_range(current_ms: int, delta_ms: int)
    ensures
        PIPELINE_OFFSET_MIN_MS <= offset_after(current_ms, delta_ms) <= PIPELINE_OFFSET_MAX_MS,
        PIPELINE_OFFSET_MIN_MS <= current_ms <= PIPELINE_OFFSET_MAX_MS && PIPELINE_OFFSET_MIN_MS
            <= current_ms + delta_ms <= PIPELINE_OFFSET_MAX_MS ==> offset_after(
            offset_after(current_ms, delta_ms),
            -delta_ms,
        ) == current_ms,
{
}

// ---------------------------------------------------------------------------
// Labels

/// The line on what is playing.
pub open spec fn now_playing_line(artist: Seq<char>, title: Seq<char>) -> Seq<char> {
    "Now playing: "@ + if artist.len() == 0 && title.len() == 0 {
        "(metadata unavailable)"@
    } else if title.len() == 0 {
        artist
    } else if artist.len() == 0 {
        title
    } else {
        artist + " - "@ + title
    }
}

/// The line on what is playing.
pub fn now_playing_label(artist: &str, title: &str) -> (r: String)
    ensures
        r@ == now_playing_line(artist@, title@),
{
    let mut line = "Now playing: ".to_owned();
    if artist.is_empty() && title.is_empty() {
        line.append("(metadata unavailable)");
    } else if title.is_empty() {
        line.append(artist);
    } else if artist.is_empty() {
        line.append(title);
    } else {
        line.append(artist);
        line.append(" - ");
        line.append(title);
        assert(line@ =~= now_playing_line(artist@, title@));
    }
    line
}

/// The line on what went wrong with incoming audio.
pub open spec fn diagnostics_line(diagnostics: DiagnosticsSnapshot) -> Seq<char> {
    "Diagnostics: queue_overflow="@ + crate::text::decimal(diagnostics.queue_overflow_count as nat)
        + " decode_error="@ + crate::text::decimal(diagnostics.decode_error_count as nat)
        + " late_chunk="@ + crate::text::decimal(diagnostics.late_chunk_count as nat)
}

/// The line on what went wrong with incoming audio.
pub fn diagnostics_label(diagnostics: DiagnosticsSnapshot) -> (r: String)
    ensures
        r@ == diagnostics_line(diagnostics),
{
    let mut line = "Diagnostics: queue_overflow=".to_owned();
    line.append(&decimal_text(diagnostics.queue_overflow_count));
    line.append(" decode_error=");
    line.append(&decimal_text(diagnostics.decode_error_count));
    line.append(" late_chunk=");
    line.append(&decimal_text(diagnostics.late_chunk_count));
    line
}

/// The line on the pipeline offset.
pub fn offset_label(offset_ms: i32) -> (r: String)
    ensures
        r@ == crate::text::signed_decimal(offset_ms as int) + " ms"@,
{
    joined(&signed_decimal_text(offset_ms), " ms")
}

/// The line on a discovered server: its name, and its URL in brackets.
pub fn entry_label(server: &DiscoveredServer) -> (r: String)
    ensures
        r@ == server@.name + " ("@ + server@.url + ")"@,
{
    let mut line = joined(&server.name, " (");
    line.append(&server.url);
    line.append(")");
    line
}

/// The label of the playback button.
pub open spec fn toggle_text(state: GroupPlaybackState) -> Seq<char> {
    if state == GroupPlaybackState::Playing {
        "Pause"@
    } else {
        "Play"@
    }
}

/// The controller command of the playback button.
pub open spec fn toggle_command_text(state: GroupPlaybackState) -> Seq<char> {
    if state == GroupPlaybackState::Playing {
        "pause"@
    } else {
        "play"@
    }
}

/// The label of the playback button.
pub fn toggle_label(state: GroupPlaybackState) -> (r: &'static str)
    ensures
        r@ == toggle_text(state),
{
    if state == GroupPlaybackState::Playing {
        "Pause"
    } else {
        "Play"
    }
}

/// The controller command of the playback button.
pub fn toggle_command(state: GroupPlaybackState) -> (r: &'static str)
    ensures
        r@ == toggle_command_text(state),
{
    if state == GroupPlaybackState::Playing {
        "pause"
    } else {
        "play"
    }
}

/// The name shown for the configured server: that of the first discovered server with
/// its URL, or a stand-in where there is none.
pub open spec fn selected_name(servers: Seq<ServerModel>, configured_url: Seq<char>) -> Seq<char>
    decreases servers.len(),
{
    if servers.len() == 0 {
        "Other..."@
    } else if servers[0].url == configured_url {
        servers[0].name
    } else {
        selected_name(servers.drop_first(), configured_url)
    }
}

/// The name shown for the configured server.
pub fn selected_discovered_name(servers: &[DiscoveredServer], configured_url: &str) -> (r: String)
    ensures
        r@ == selected_name(crate::state::server_models(servers@), configured_url@),
{
    let ghost models = crate::state::server_models(servers@);
    let mut i: usize = 0;
    assert(models.skip(0) =~= models);
    while i < servers.len()
        invariant
            i <= servers.len(),
            models == crate::state::server_models(servers@),
            selected_name(models, configured_url@) == selected_name(
                models.skip(i as int),
                configured_url@,
            ),
        decreases servers.len() - i,
    {
        assert(models.skip(i as int)[0] == servers@[i as int]@);
        assert(models.skip(i as int).drop_first() =~= models.skip(i + 1));
        if same_text(&servers[i].url, configured_url) {
            return servers[i].name.clone();
        }
        i = i + 1;
    }
    "Other...".to_owned()
}

// ---------------------------------------------------------------------------
// The editor's state

/// What the editor keeps while it is open.
#[derive(Debug)]
pub struct EditorUiState {
    pub client_name_input: String,
    pub client_name_initialized: bool,
    pub use_custom_url: bool,
    pub custom_url_input: String,
    pub custom_url_initialized: bool,
    pub last_message: String,
}

/// What the editor keeps while it is open, with its texts.
pub struct EditorModel {
    pub client_name_input: Seq<char>,
    pub client_name_initialized: bool,
    pub use_custom_url: bool,
    pub custom_url_input: Seq<char>,
    pub custom_url_initialized: bool,
    pub last_message: Seq<char>,
}

impl View for EditorUiState {
    type V = EditorModel;

    open spec fn view(&self) -> EditorModel {
        EditorModel {
            client_name_input: self.client_name_input@,
            client_name_initialized: self.client_name_initialized,
            use_custom_url: self.use_custom_url,
            custom_url_input: self.custom_url_input@,
            custom_url_initialized: self.custom_url_initialized,
            last_message: self.last_message@,
        }
    }
}

/// The editor's state at the start of a frame: inputs are filled the first time, and a
/// configured server that was not discovered is shown as a custom one.
pub open spec fn editor_frame(editor: EditorModel, shared: SharedModel) -> EditorModel {
    let url = shared.configured_server_url;
    let to_custom = !editor.use_custom_url && !crate::mdns::is_discovered(
        url,
        shared.discovered_servers,
    );
    EditorModel {
        client_name_input: if editor.client_name_initialized {
            editor.client_name_input
        } else {
            shared.configured_client_name
        },
        client_name_initialized: true,
        use_custom_url: editor.use_custom_url || to_custom,
        custom_url_input: if editor.custom_url_initialized && !to_custom {
            editor.custom_url_input
        } else {
            url
        },
        custom_url_initialized: true,
        ..editor
    }
}

impl EditorUiState {
    /// The editor's state when it opens.
    pub fn new() -> (r: Self)
        ensures
            r@ == (EditorModel {
                client_name_input: Seq::empty(),
                client_name_initialized: false,
                use_custom_url: false,
                custom_url_input: Seq::empty(),
                custom_url_initialized: false,
                last_message: Seq::empty(),
            }),
    {
        EditorUiState {
            client_name_input: String::new(),
            client_name_initialized: false,
            use_custom_url: false,
            custom_url_input: String::new(),
            custom_url_initialized: false,
            last_message: String::new(),
        }
    }

    /// Brings the editor's state up to date at the start of a frame.
    pub fn begin_frame(&mut self, shared: &SharedState)
        ensures
            final(self)@ == editor_frame(old(self)@, shared@),
    {
        if !self.client_name_initialized {
            self.client_name_input = shared.configured_client_name();
            self.client_name_initialized = true;
        }
        if !self.custom_url_initialized {
            self.custom_url_input = shared.configured_server_url();
            self.custom_url_initialized = true;
        }
        if !lists_url(shared.discovered_servers.as_slice(), &shared.configured_server_url)
            && !self.use_custom_url {
            self.use_custom_url = true;
            self.custom_url_input = shared.configured_server_url();
        }
    }

    /// Whether an entry of the server list is shown as the selected one.
    pub fn shows_selected(&self, server: &DiscoveredServer, configured_url: &str) -> (r: bool)
        ensures
            r == (!self@.use_custom_url && configured_url@ == server@.url),
    {
        !self.use_custom_url && same_text(configured_url, &server.url)
    }

    /// Presses the playback button; the result is the command for the network worker.
    pub fn press_toggle(&mut self, shared: &SharedState) -> (r: Option<WorkerCommand>)
        ensures
            ({
                let text = toggle_command_text(shared@.group_playback_state);
                &&& crate::state::opt_command(r) == (if shared@.worker_attached {
                    Some(CommandModel::SendControllerCommand(text))
                } else {
                    None
                })
                &&& final(self)@ == (EditorModel {
                    last_message: "Sent '"@ + text + "' command."@,
                    ..old(self)@
                })
            }),
    {
        let command = toggle_command(shared.group_playback_state());
        let mut message = joined("Sent '", command);
        message.append("' command.");
        self.last_message = message;
        shared.request_controller_command(command.to_owned())
    }

    /// Applies the client name that was entered. The result is the name, where it was
    /// taken up, and the command for the network worker.
    pub fn press_apply_name(&mut self, shared: &mut SharedState) -> (r: Option<
        (String, Option<WorkerCommand>),
    >)
        ensures
            match crate::config::client_name(old(self)@.client_name_input) {
                Some(name) => r matches Some(applied) && applied.0@ == name
                    && crate::state::opt_command(applied.1) == (if old(shared)@.worker_attached {
                    Some(CommandModel::SetClientName(name))
                } else {
                    None
                }) && final(shared)@ == (SharedModel {
                    configured_client_name: name,
                    ..old(shared)@
                }) && final(self)@ == (EditorModel {
                    client_name_input: name,
                    last_message: "Applying client name and reconnecting..."@,
                    ..old(self)@
                }),
                None => r is None && final(shared)@ == old(shared)@ && final(self)@ == (
                EditorModel { last_message: "Client name cannot be empty"@, ..old(self)@ }),
            },
    {
        match apply_client_name_selection(shared, &self.client_name_input) {
            Ok((name, command)) => {
                self.client_name_input = name.clone();
                self.last_message = "Applying client name and reconnecting...".to_owned();
                Some((name, command))
            },
            Err(message) => {
                self.last_message = message.to_owned();
                None
            },
        }
    }

    /// Selects a discovered server. The result is its URL, where it was taken up, and
    /// the command for the network worker.
    pub fn select_entry(&mut self, shared: &mut SharedState, entry_url: &str) -> (r: Option<
        (String, Option<WorkerCommand>),
    >)
        ensures
            match crate::config::usable_server_url(entry_url@) {
                Some(url) => r matches Some(applied) && applied.0@ == url
                    && crate::state::opt_command(applied.1) == (if old(shared)@.worker_attached {
                    Some(CommandModel::SetServerUrl(url))
                } else {
                    None
                }) && final(shared)@ == (SharedModel {
                    configured_server_url: url,
                    ..old(shared)@
                }) && final(self)@ == (EditorModel {
                    use_custom_url: false,
                    custom_url_input: url,
                    last_message: "Switching to selected server..."@,
                    ..old(self)@
                }),
                None => r is None && final(shared)@ == old(shared)@ && final(self)@ == (
                EditorModel { last_message: "Invalid WebSocket URL"@, ..old(self)@ }),
            },
    {
        match apply_server_url_selection(shared, entry_url) {
            Ok((url, command)) => {
                self.use_custom_url = false;
                self.custom_url_input = url.clone();
                self.last_message = "Switching to selected server...".to_owned();
                Some((url, command))
            },
            Err(message) => {
                self.last_message = message.to_owned();
                None
            },
        }
    }

    /// Selects the entry for a server that was not discovered.
    pub fn select_other(&mut self)
        ensures
            final(self)@ == (EditorModel { use_custom_url: true, ..old(self)@ }),
    {
        self.use_custom_url = true;
    }

    /// Has discovery start over; the result is the command for it.
    pub fn press_refresh(&mut self, shared: &SharedState) -> (r: Option<MdnsCommand>)
        ensures
            r == (if shared@.mdns_attached {
                Some(MdnsCommand::Refresh)
            } else {
                None
            }),
            final(self)@ == (EditorModel {
                last_message: "Refreshing mDNS discovery..."@,
                ..old(self)@
            }),
    {
        self.last_message = "Refreshing mDNS discovery...".to_owned();
        shared.request_mdns_refresh()
    }

    /// Connects to the URL that was entered. The result is the URL, where it was taken
    /// up, and the command for the network worker.
    pub fn press_connect(&mut self, shared: &mut SharedState) -> (r: Option<
        (String, Option<WorkerCommand>),
    >)
        ensures
            match crate::config::usable_server_url(old(self)@.custom_url_input) {
                Some(url) => r matches Some(applied) && applied.0@ == url
                    && crate::state::opt_command(applied.1) == (if old(shared)@.worker_attached {
                    Some(CommandModel::SetServerUrl(url))
                } else {
                    None
                }) && final(shared)@ == (SharedModel {
                    configured_server_url: url,
                    ..old(shared)@
                }) && final(self)@ == (EditorModel {
                    custom_url_input: url,
                    last_message: "Switching to custom server..."@,
                    ..old(self)@
                }),
                None => r is None && final(shared)@ == old(shared)@ && final(self)@ == (
                EditorModel { last_message: "Invalid WebSocket URL"@, ..old(self)@ }),
            },
    {
        match apply_server_url_selection(shared, &self.custom_url_input) {
            Ok((url, command)) => {
                self.custom_url_input = url.clone();
                self.last_message = "Switching to custom server...".to_owned();
                Some((url, command))
            },
            Err(message) => {
                self.last_message = message.to_owned();
                None
            },
        }
    }
}

/// From the first frame on the configured server is shown, either as a discovered one
/// or as a custom one; and another frame without a change in between shows the same.
pub proof fn law_configured_server_is_shown(editor: EditorModel, shared: SharedModel)
    ensures
        ({
            let shown = editor_frame(editor, shared);
            &&& shown.use_custom_url || crate::mdns::is_discovered(
                shared.configured_server_url,
                shared.discovered_servers,
            )
            &&& editor_frame(shown, shared) == shown
        }),
{
}

/// A step changes the pipeline offset by just so much, within -100 to 200 milliseconds,
/// and stops at these.
pub proof fn law_offset_steps_are_exact(current_ms: int, delta_ms: int)
    ensures
        -100 <= current_ms + delta_ms <= 200 ==> offset_after(current_ms, delta_ms) == current_ms
            + delta_ms,
        current_ms + delta_ms < -100 ==> offset_after(current_ms, delta_ms) == -100,
        current_ms + delta_ms > 200 ==> offset_after(current_ms, delta_ms) == 200,
        PIPELINE_OFFSET_STEP_MS == 1,
{
}

/// The line on what is playing names the artist and then the title, or whichever is
/// known, and says so where neither is.
pub proof fn law_line_names_what_is_known(artist: Seq<char>, title: Seq<char>)
    ensures
        ({
            let line = now_playing_line(artist, title);
            &&& artist.len() > 0 && title.len() > 0 ==> line == "Now playing: "@ + (artist + " - "@
                + title)
            &&& artist.len() > 0 && title.len() == 0 ==> line == "Now playing: "@ + artist
            &&& artist.len() == 0 && title.len() > 0 ==> line == "Now playing: "@ + title
            &&& artist.len() == 0 && title.len() == 0 ==> line == "Now playing: "@
                + "(metadata unavailable)"@
        }),
{
}

/// The line on what went wrong gives each count behind its own name.
pub proof fn law_line_gives_each_count(
    diagnostics: DiagnosticsSnapshot,
    overflows: Seq<char>,
    errors: Seq<char>,
    late: Seq<char>,
)
    requires
        overflows == crate::text::decimal(diagnostics.queue_overflow_count as nat),
        errors == crate::text::decimal(diagnostics.decode_error_count as nat),
        late == crate::text::decimal(diagnostics.late_chunk_count as nat),
    ensures
        diagnostics_line(diagnostics) == "Diagnostics: queue_overflow="@ + overflows
            + " decode_error="@ + errors + " late_chunk="@ + late,
{
}

/// The playback button pauses a group that plays, and else has it play; its label says
/// which.
pub proof fn law_button_does_what_it_says(state: GroupPlaybackState)
    ensures
        state == GroupPlaybackState::Playing ==> toggle_text(state) == "Pause"@
            && toggle_command_text(state) == "pause"@,
        state != GroupPlaybackState::Playing ==> toggle_text(state) == "Play"@
            && toggle_command_text(state) == "play"@,
{
}

/// The name shown for the configured server is that of the first server listed with its
/// URL, and `Other...` where none is.
pub proof fn law_first_match_names_the_server(
    servers: Seq<ServerModel>,
    configured_url: Seq<char>,
    at: int,
)
    requires
        0 <= at <= servers.len(),
        forall|i: int| 0 <= i < at ==> (#[trigger] servers[i]).url != configured_url,
        at < servers.len() ==> servers[at].url == configured_url,
    ensures
        selected_name(servers, configured_url) == if at < servers.len() {
            servers[at].name
        } else {
            "Other..."@
        },
    decreases at,
{
    if at > 0 {
        let rest = servers.drop_first();
        assert forall|i: int| 0 <= i < at - 1 implies (#[trigger] rest[i]).url
            != configured_url by {
            assert(rest[i] == servers[i + 1]);
        }
        law_first_match_names_the_server(rest, configured_url, at - 1);
    }
}

/// What the user has entered stays, frame after frame, but for the URL where the
/// configured server turns out not to be listed. The first frame fills the inputs with
/// what is configured.
pub proof fn law_frames_keep_what_was_entered(
    editor: EditorModel,
    shared: SharedModel,
    at: int,
)
    ensures
        ({
            let shown = editor_frame(editor, shared);
            let url = shared.configured_server_url;
            let unlisted = forall|i: int|
                0 <= i < shared.discovered_servers.len() ==> (
                #[trigger] shared.discovered_servers[i]).url != url;
            let listed = 0 <= at < shared.discovered_servers.len()
                && shared.discovered_servers[at].url == url;
            &&& shown.last_message == editor.last_message
            &&& shown.client_name_initialized && shown.custom_url_initialized
            &&& editor.client_name_initialized ==> shown.client_name_input
                == editor.client_name_input
            &&& !editor.client_name_initialized ==> shown.client_name_input
                == shared.configured_client_name
            &&& !editor.custom_url_initialized ==> shown.custom_url_input == url
            &&& editor.use_custom_url ==> shown.use_custom_url
            &&& editor.custom_url_initialized && (editor.use_custom_url || listed)
                ==> shown.custom_url_input == editor.custom_url_input
            &&& listed ==> shown.use_custom_url == editor.use_custom_url
            &&& unlisted ==> shown.use_custom_url
            &&& unlisted && !editor.use_custom_url ==> shown.custom_url_input == url
        }),
{
    let servers = shared.discovered_servers;
    if 0 <= at < servers.len() && servers[at].url == shared.configured_server_url {
        assert(crate::mdns::is_discovered(shared.configured_server_url, servers));
    }
}

/// The model of the editor shows all that the editor keeps.
pub proof fn law_editor_is_seen_whole(editor: EditorUiState)
    ensures
        editor@.client_name_input == editor.client_name_input@,
        editor@.client_name_initialized == editor.client_name_initialized,
        editor@.use_custom_url == editor.use_custom_url,
        editor@.custom_url_input == editor.custom_url_input@,
        editor@.custom_url_initialized == editor.custom_url_initialized,
        editor@.last_message == editor.last_message@,
{
}

} // verus!
