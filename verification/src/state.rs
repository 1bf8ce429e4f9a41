//! State shared by the audio thread, the network worker, discovery and the editor.

use vstd::prelude::*;

use crate::config::default_client_name;
use crate::text::trim;

verus! {

// ---------------------------------------------------------------------------
// Status enumerations

/// Synchronization state as servers know it.
#[derive(Clone, Copy, Debug, PartialEq, Eq, Structural)]
pub enum PlayerSyncState {
    Synchronized,
    Error,
}

/// Whether playback keeps up with the stream.
#[derive(Clone, Copy, Debug, PartialEq, Eq, Structural)]
pub enum SyncState {
    Synchronized,
    Error,
}

impl SyncState {
    /// The number that stands for the state.
    pub open spec fn code(self) -> u8 {
        match self {
            SyncState::Synchronized => 0,
            SyncState::Error => 1,
        }
    }

    /// The number that stands for the state.
    pub fn to_u8(self) -> (r: u8)
        ensures
            r == self.code(),
    {
        match self {
            SyncState::Synchronized => 0,
            SyncState::Error => 1,
        }
    }

    /// The state that a number stands for; any but the error's is synchronized.
    pub fn from_u8(raw: u8) -> (r: SyncState)
        ensures
            r == (if raw == SyncState::Error.code() {
                SyncState::Error
            } else {
                SyncState::Synchronized
            }),
            r.code() == raw || raw > 1,
    {
        if raw == SyncState::Error.to_u8() {
            SyncState::Error
        } else {
            SyncState::Synchronized
        }
    }

    /// The state in the protocol's terms.
    pub fn as_protocol(self) -> (r: PlayerSyncState)
        ensures
            r == (match self {
                SyncState::Synchronized => PlayerSyncState::Synchronized,
                SyncState::Error => PlayerSyncState::Error,
            }),
    {
        match self {
            SyncState::Synchronized => PlayerSyncState::Synchronized,
            SyncState::Error => PlayerSyncState::Error,
        }
    }
}

/// Where the connection to the server stands.
#[derive(Clone, Copy, Debug, PartialEq, Eq, Structural)]
pub enum ConnectionState {
    Disconnected,
    Connecting,
    Connected,
    Error,
}

impl ConnectionState {
    /// The number that stands for the state.
    pub open spec fn code(self) -> u8 {
        match self {
            ConnectionState::Disconnected => 0,
            ConnectionState::Connecting => 1,
            ConnectionState::Connected => 2,
            ConnectionState::Error => 3,
        }
    }

    /// The number that stands for the state.
    pub fn to_u8(self) -> (r: u8)
        ensures
            r == self.code(),
    {
        match self {
            ConnectionState::Disconnected => 0,
            ConnectionState::Connecting => 1,
            ConnectionState::Connected => 2,
            ConnectionState::Error => 3,
        }
    }

    /// The state that a number stands for; an unknown one is disconnected.
    pub fn from_u8(raw: u8) -> (r: ConnectionState)
        ensures
            raw <= 3 ==> r.code() == raw,
            raw > 3 ==> r == ConnectionState::Disconnected,
    {
        match raw {
            1 => ConnectionState::Connecting,
            2 => ConnectionState::Connected,
            3 => ConnectionState::Error,
            _ => ConnectionState::Disconnected,
        }
    }

    /// The state's name.
    pub fn as_str(self) -> (r: &'static str)
        ensures
            r@ == (match self {
                ConnectionState::Disconnected => "Disconnected"@,
                ConnectionState::Connecting => "Connecting"@,
                ConnectionState::Connected => "Connected"@,
                ConnectionState::Error => "Error"@,
            }),
    {
        match self {
            ConnectionState::Disconnected => "Disconnected",
            ConnectionState::Connecting => "Connecting",
            ConnectionState::Connected => "Connected",
            ConnectionState::Error => "Error",
        }
    }
}

/// Whether the group that the player belongs to is playing.
#[derive(Clone, Copy, Debug, PartialEq, Eq, Structural)]
pub enum GroupPlaybackState {
    Unknown,
    Stopped,
    Playing,
}

impl GroupPlaybackState {
    /// The number that stands for the state.
    pub open spec fn code(self) -> u8 {
        match self {
            GroupPlaybackState::Unknown => 0,
            GroupPlaybackState::Stopped => 1,
            GroupPlaybackState::Playing => 2,
        }
    }

    /// The number that stands for the state.
    pub fn to_u8(self) -> (r: u8)
        ensures
            r == self.code(),
    {
        match self {
            GroupPlaybackState::Unknown => 0,
            GroupPlaybackState::Stopped => 1,
            GroupPlaybackState::Playing => 2,
        }
    }

    /// The state that a number stands for; an unknown one is unknown.
    pub fn from_u8(raw: u8) -> (r: GroupPlaybackState)
        ensures
            raw <= 2 ==> r.code() == raw,
            raw > 2 ==> r == GroupPlaybackState::Unknown,
    {
        match raw {
            1 => GroupPlaybackState::Stopped,
            2 => GroupPlaybackState::Playing,
            _ => GroupPlaybackState::Unknown,
        }
    }
}

/// Different states have different numbers, so a state comes back from its number.
pub proof fn law_state_codes_are_distinct(
    s: (SyncState, SyncState),
    c: (ConnectionState, ConnectionState),
    g: (GroupPlaybackState, GroupPlaybackState),
)
    ensures
        s.0.code() == s.1.code() ==> s.0 == s.1,
        c.0.code() == c.1.code() ==> c.0 == c.1,
        g.0.code() == g.1.code() ==> g.0 == g.1,
{
}

// ---------------------------------------------------------------------------
// Discovered servers and commands

/// A server found on the network.
#[derive(Debug)]
pub struct DiscoveredServer {
    pub id: String,
    pub name: String,
    pub url: String,
}

/// The texts of a discovered server.
pub struct ServerModel {
    pub id: Seq<char>,
    pub name: Seq<char>,
    pub url: Seq<char>,
}

impl View for DiscoveredServer {
    type V = ServerModel;

    open spec fn view(&self) -> ServerModel {
        ServerModel { id: self.id@, name: self.name@, url: self.url@ }
    }
}

impl Clone for DiscoveredServer {
    fn clone(&self) -> (r: Self)
        ensures
            r == *self,
    {
        DiscoveredServer { id: self.id.clone(), name: self.name.clone(), url: self.url.clone() }
    }
}

/// The texts of a list of discovered servers.
pub open spec fn server_models(servers: Seq<DiscoveredServer>) -> Seq<ServerModel> {
    servers.map_values(|s: DiscoveredServer| s@)
}

/// A copy of a list of discovered servers.
pub fn copy_servers(servers: &Vec<DiscoveredServer>) -> (r: Vec<DiscoveredServer>)
    ensures
        server_models(r@) == server_models(servers@),
{
    let mut out: Vec<DiscoveredServer> = Vec::new();
    for i in 0..servers.len()
        invariant
            out@.len() == i,
            forall|k: int| 0 <= k < i ==> out@[k] == servers@[k],
    {
        out.push(servers[i].clone());
    }
    assert(server_models(out@) =~= server_models(servers@));
    out
}

/// What the network worker is asked to do.
#[derive(Debug)]
pub enum WorkerCommand {
    Shutdown,
    SetServerUrl(String),
    SetClientName(String),
    SendControllerCommand(String),
}

/// A worker command with its text.
pub enum CommandModel {
    Shutdown,
    SetServerUrl(Seq<char>),
    SetClientName(Seq<char>),
    SendControllerCommand(Seq<char>),
}

impl View for WorkerCommand {
    type V = CommandModel;

    open spec fn view(&self) -> CommandModel {
        match self {
            WorkerCommand::Shutdown => CommandModel::Shutdown,
            WorkerCommand::SetServerUrl(url) => CommandModel::SetServerUrl(url@),
            WorkerCommand::SetClientName(name) => CommandModel::SetClientName(name@),
            WorkerCommand::SendControllerCommand(command) => CommandModel::SendControllerCommand(
                command@,
            ),
        }
    }
}

/// An optional worker command with its text.
pub open spec fn opt_command(command: Option<WorkerCommand>) -> Option<CommandModel> {
    match command {
        Some(c) => Some(c@),
        None => None,
    }
}

/// What discovery is asked to do.
#[derive(Clone, Copy, Debug, PartialEq, Eq, Structural)]
pub enum MdnsCommand {
    Shutdown,
    Refresh,
}

// ---------------------------------------------------------------------------
// Shared state

/// Counts of what went wrong with incoming audio.
#[derive(Clone, Copy, Debug, PartialEq, Eq, Structural)]
pub struct DiagnosticsSnapshot {
    pub queue_overflow_count: u64,
    pub decode_error_count: u64,
    pub late_chunk_count: u64,
}

/// The state that the plugin's threads share.
#[derive(Debug)]
pub struct SharedState {
    pub host_sample_rate_hz: u32,
    pub host_block_size: u32,
    pub stream_active: bool,
    pub clear_requested: bool,
    pub remote_volume: u8,
    pub remote_muted: bool,
    pub sync_state: SyncState,
    pub connection_state: ConnectionState,
    pub group_playback_state: GroupPlaybackState,
    pub state_dirty: bool,
    pub configured_server_url: String,
    pub configured_client_name: String,
    pub now_playing_artist: String,
    pub now_playing_title: String,
    pub discovered_servers: Vec<DiscoveredServer>,
    pub diagnostics: DiagnosticsSnapshot,
    /// Whether a network worker takes commands.
    pub worker_attached: bool,
    /// Whether discovery takes commands.
    pub mdns_attached: bool,
}

/// The shared state with its texts.
pub struct SharedModel {
    pub host_sample_rate_hz: u32,
    pub host_block_size: u32,
    pub stream_active: bool,
    pub clear_requested: bool,
    pub remote_volume: u8,
    pub remote_muted: bool,
    pub sync_state: SyncState,
    pub connection_state: ConnectionState,
    pub group_playback_state: GroupPlaybackState,
    pub state_dirty: bool,
    pub configured_server_url: Seq<char>,
    pub configured_client_name: Seq<char>,
    pub now_playing_artist: Seq<char>,
    pub now_playing_title: Seq<char>,
    pub discovered_servers: Seq<ServerModel>,
    pub diagnostics: DiagnosticsSnapshot,
    pub worker_attached: bool,
    pub mdns_attached: bool,
}

impl View for SharedState {
    type V = SharedModel;

    open spec fn view(&self) -> SharedModel {
        SharedModel {
            host_sample_rate_hz: self.host_sample_rate_hz,
            host_block_size: self.host_block_size,
            stream_active: self.stream_active,
            clear_requested: self.clear_requested,
            remote_volume: self.remote_volume,
            remote_muted: self.remote_muted,
            sync_state: self.sync_state,
            connection_state: self.connection_state,
            group_playback_state: self.group_playback_state,
            state_dirty: self.state_dirty,
            configured_server_url: self.configured_server_url@,
            configured_client_name: self.configured_client_name@,
            now_playing_artist: self.now_playing_artist@,
            now_playing_title: self.now_playing_title@,
            discovered_servers: server_models(self.discovered_servers@),
            diagnostics: self.diagnostics,
            worker_attached: self.worker_attached,
            mdns_attached: self.mdns_attached,
        }
    }
}

/// `n` plus one, on a counter that starts over at zero.
pub open spec fn counted(n: u64) -> u64 {
    if n == u64::MAX {
        0
    } else {
        (n + 1) as u64
    }
}

/// The text shown for an optional piece of metadata.
pub open spec fn shown_text(text: Option<Seq<char>>) -> Seq<char> {
    match text {
        Some(t) => crate::text::trimmed(t),
        None => Seq::empty(),
    }
}

fn shown(text: Option<&str>) -> (r: String)
    ensures
        r@ == shown_text(crate::config::opt_str(text)),
{
    match text {
        Some(t) => trim(t).to_owned(),
        None => String::new(),
    }
}

impl SharedModel {
    /// The state before anything has happened.
    pub open spec fn initial(client_name: Seq<char>) -> SharedModel {
        SharedModel {
            host_sample_rate_hz: 48_000,
            host_block_size: 512,
            stream_active: false,
            clear_requested: false,
            remote_volume: 100,
            remote_muted: false,
            sync_state: SyncState::Synchronized,
            connection_state: ConnectionState::Disconnected,
            group_playback_state: GroupPlaybackState::Unknown,
            state_dirty: true,
            configured_server_url: Seq::empty(),
            configured_client_name: client_name,
            now_playing_artist: Seq::empty(),
            now_playing_title: Seq::empty(),
            discovered_servers: Seq::empty(),
            diagnostics: DiagnosticsSnapshot {
                queue_overflow_count: 0,
                decode_error_count: 0,
                late_chunk_count: 0,
            },
            worker_attached: false,
            mdns_attached: false,
        }
    }

    /// The state with another synchronization state; a change is to be reported.
    pub open spec fn with_sync_state(self, state: SyncState) -> SharedModel {
        SharedModel {
            sync_state: state,
            state_dirty: self.state_dirty || self.sync_state != state,
            ..self
        }
    }

    /// The state with other metadata.
    pub open spec fn with_now_playing(
        self,
        artist: Option<Seq<char>>,
        title: Option<Seq<char>>,
    ) -> SharedModel {
        SharedModel {
            now_playing_artist: shown_text(artist),
            now_playing_title: shown_text(title),
            ..self
        }
    }

    /// The state with one more chunk that came too late.
    pub open spec fn with_late_chunk(self) -> SharedModel {
        SharedModel {
            diagnostics: DiagnosticsSnapshot {
                late_chunk_count: counted(self.diagnostics.late_chunk_count),
                ..self.diagnostics
            },
            ..self
        }
    }

    /// The state with one more chunk that found the queue full.
    pub open spec fn with_queue_overflow(self) -> SharedModel {
        SharedModel {
            diagnostics: DiagnosticsSnapshot {
                queue_overflow_count: counted(self.diagnostics.queue_overflow_count),
                ..self.diagnostics
            },
            ..self
        }
    }

    /// The state with one more chunk that could not be decoded.
    pub open spec fn with_decode_error(self) -> SharedModel {
        SharedModel {
            diagnostics: DiagnosticsSnapshot {
                decode_error_count: counted(self.diagnostics.decode_error_count),
                ..self.diagnostics
            },
            ..self
        }
    }
}

impl SharedState {
    /// The state before anything has happened; `from_environment` is the client name
    /// that the environment gives, if any.
    pub fn new(from_environment: Option<&str>) -> (r: Self)
        ensures
            r@ == SharedModel::initial(
                crate::config::fallback_client_name(crate::config::opt_str(from_environment)),
            ),
    {
        let r = SharedState {
            host_sample_rate_hz: 48_000,
            host_block_size: 512,
            stream_active: false,
            clear_requested: false,
            remote_volume: 100,
            remote_muted: false,
            sync_state: SyncState::Synchronized,
            connection_state: ConnectionState::Disconnected,
            group_playback_state: GroupPlaybackState::Unknown,
            state_dirty: true,
            configured_server_url: String::new(),
            configured_client_name: default_client_name(from_environment),
            now_playing_artist: String::new(),
            now_playing_title: String::new(),
            discovered_servers: Vec::new(),
            diagnostics: DiagnosticsSnapshot {
                queue_overflow_count: 0,
                decode_error_count: 0,
                late_chunk_count: 0,
            },
            worker_attached: false,
            mdns_attached: false,
        };
        assert(server_models(r.discovered_servers@) =~= Seq::empty());
        r
    }

    pub fn set_connection_state(&mut self, state: ConnectionState)
        ensures
            final(self)@ == (SharedModel { connection_state: state, ..old(self)@ }),
    {
        self.connection_state = state;
    }

    pub fn set_stream_active(&mut self, active: bool)
        ensures
            final(self)@ == (SharedModel { stream_active: active, ..old(self)@ }),
    {
        self.stream_active = active;
    }

    pub fn connection_state(&self) -> (r: ConnectionState)
        ensures
            r == self@.connection_state,
    {
        self.connection_state
    }

    pub fn set_group_playback_state(&mut self, state: GroupPlaybackState)
        ensures
            final(self)@ == (SharedModel { group_playback_state: state, ..old(self)@ }),
    {
        self.group_playback_state = state;
    }

    pub fn group_playback_state(&self) -> (r: GroupPlaybackState)
        ensures
            r == self@.group_playback_state,
    {
        self.group_playback_state
    }

    /// Asks the audio thread to drop what is queued.
    pub fn request_clear(&mut self)
        ensures
            final(self)@ == (SharedModel { clear_requested: true, ..old(self)@ }),
    {
        self.clear_requested = true;
    }

    /// Whether the audio thread was asked to drop what is queued; the request is
    /// thereby taken.
    pub fn take_clear_requested(&mut self) -> (r: bool)
        ensures
            r == old(self)@.clear_requested,
            final(self)@ == (SharedModel { clear_requested: false, ..old(self)@ }),
    {
        let r = self.clear_requested;
        self.clear_requested = false;
        r
    }

    /// Sets the synchronization state; a change is to be reported to the server.
    pub fn set_sync_state(&mut self, state: SyncState)
        ensures
            final(self)@ == old(self)@.with_sync_state(state),
    {
        let previous = self.sync_state;
        self.sync_state = state;
        if previous != state {
            self.mark_state_dirty();
        }
    }

    pub fn sync_state(&self) -> (r: SyncState)
        ensures
            r == self@.sync_state,
    {
        self.sync_state
    }

    /// Marks the player state as one to be reported to the server.
    pub fn mark_state_dirty(&mut self)
        ensures
            final(self)@ == (SharedModel { state_dirty: true, ..old(self)@ }),
    {
        self.state_dirty = true;
    }

    /// Whether the player state is to be reported; the mark is thereby taken.
    pub fn take_state_dirty(&mut self) -> (r: bool)
        ensures
            r == old(self)@.state_dirty,
            final(self)@ == (SharedModel { state_dirty: false, ..old(self)@ }),
    {
        let r = self.state_dirty;
        self.state_dirty = false;
        r
    }

    pub fn set_configured_server_url(&mut self, url: String)
        ensures
            final(self)@ == (SharedModel { configured_server_url: url@, ..old(self)@ }),
    {
        self.configured_server_url = url;
    }

    pub fn configured_server_url(&self) -> (r: String)
        ensures
            r@ == self@.configured_server_url,
    {
        self.configured_server_url.clone()
    }

    pub fn set_configured_client_name(&mut self, name: String)
        ensures
            final(self)@ == (SharedModel { configured_client_name: name@, ..old(self)@ }),
    {
        self.configured_client_name = name;
    }

    pub fn configured_client_name(&self) -> (r: String)
        ensures
            r@ == self@.configured_client_name,
    {
        self.configured_client_name.clone()
    }

    /// Sets the metadata of what is playing, trimmed; what is not given is empty.
    pub fn set_now_playing(&mut self, artist: Option<&str>, title: Option<&str>)
        ensures
            final(self)@ == old(self)@.with_now_playing(
                crate::config::opt_str(artist),
                crate::config::opt_str(title),
            ),
    {
        self.now_playing_artist = shown(artist);
        self.now_playing_title = shown(title);
    }

    /// The artist and the title of what is playing.
    pub fn now_playing(&self) -> (r: (String, String))
        ensures
            r.0@ == self@.now_playing_artist,
            r.1@ == self@.now_playing_title,
    {
        (self.now_playing_artist.clone(), self.now_playing_title.clone())
    }

    pub fn set_discovered_servers(&mut self, servers: Vec<DiscoveredServer>)
        ensures
            final(self)@ == (SharedModel {
                discovered_servers: server_models(servers@),
                ..old(self)@
            }),
    {
        self.discovered_servers = servers;
    }

    pub fn discovered_servers(&self) -> (r: Vec<DiscoveredServer>)
        ensures
            server_models(r@) == self@.discovered_servers,
    {
        copy_servers(&self.discovered_servers)
    }

    /// Counts a chunk that found the queue full.
    pub fn record_queue_overflow(&mut self)
        ensures
            final(self)@ == old(self)@.with_queue_overflow(),
    {
        self.diagnostics.queue_overflow_count = self.diagnostics.queue_overflow_count.wrapping_add(
            1,
        );
    }

    /// Counts a chunk that could not be decoded.
    pub fn record_decode_error(&mut self)
        ensures
            final(self)@ == old(self)@.with_decode_error(),
    {
        self.diagnostics.decode_error_count = self.diagnostics.decode_error_count.wrapping_add(1);
    }

    /// Counts a chunk that came too late, or at another sample rate.
    pub fn record_late_chunk(&mut self)
        ensures
            final(self)@ == old(self)@.with_late_chunk(),
    {
        self.diagnostics.late_chunk_count = self.diagnostics.late_chunk_count.wrapping_add(1);
    }

    pub fn diagnostics_snapshot(&self) -> (r: DiagnosticsSnapshot)
        ensures
            r == self@.diagnostics,
    {
        self.diagnostics
    }

    /// Notes that a network worker takes commands from now on.
    pub fn attach_worker(&mut self)
        ensures
            final(self)@ == (SharedModel { worker_attached: true, ..old(self)@ }),
    {
        self.worker_attached = true;
    }

    /// Notes that discovery takes commands from now on.
    pub fn attach_mdns(&mut self)
        ensures
            final(self)@ == (SharedModel { mdns_attached: true, ..old(self)@ }),
    {
        self.mdns_attached = true;
    }

    /// Switches to another server: the URL is configured, and the command for the
    /// worker, if there is one, is returned.
    pub fn request_server_switch(&mut self, url: String) -> (r: Option<WorkerCommand>)
        ensures
            final(self)@ == (SharedModel { configured_server_url: url@, ..old(self)@ }),
            opt_command(r) == (if old(self)@.worker_attached {
                Some(CommandModel::SetServerUrl(url@))
            } else {
                None
            }),
    {
        self.set_configured_server_url(url.clone());
        if self.worker_attached {
            Some(WorkerCommand::SetServerUrl(url))
        } else {
            None
        }
    }

    /// Takes another client name: the name is configured, and the command for the
    /// worker, if there is one, is returned.
    pub fn request_client_name_switch(&mut self, client_name: String) -> (r: Option<WorkerCommand>)
        ensures
            final(self)@ == (SharedModel { configured_client_name: client_name@, ..old(self)@ }),
            opt_command(r) == (if old(self)@.worker_attached {
                Some(CommandModel::SetClientName(client_name@))
            } else {
                None
            }),
    {
        self.set_configured_client_name(client_name.clone());
        if self.worker_attached {
            Some(WorkerCommand::SetClientName(client_name))
        } else {
            None
        }
    }

    /// The command that has the worker, if there is one, send a controller command.
    pub fn request_controller_command(&self, command: String) -> (r: Option<WorkerCommand>)
        ensures
            opt_command(r) == (if self@.worker_attached {
                Some(CommandModel::SendControllerCommand(command@))
            } else {
                None
            }),
    {
        if self.worker_attached {
            Some(WorkerCommand::SendControllerCommand(command))
        } else {
            None
        }
    }

    /// The command that has discovery, if it runs, start over.
    pub fn request_mdns_refresh(&self) -> (r: Option<MdnsCommand>)
        ensures
            r == (if self@.mdns_attached {
                Some(MdnsCommand::Refresh)
            } else {
                None
            }),
    {
        if self.mdns_attached {
            Some(MdnsCommand::Refresh)
        } else {
            None
        }
    }
}

// ---------------------------------------------------------------------------
// Laws of the shared state

/// A change of the synchronization state, and only a change, is marked to be reported;
/// nothing else changes.
pub proof fn law_sync_change_is_marked(shared: SharedModel, state: SyncState)
    ensures
        shared.with_sync_state(state).sync_state == state,
        shared.sync_state != state ==> shared.with_sync_state(state).state_dirty,
        shared.sync_state == state ==> shared.with_sync_state(state) == shared,
        shared.with_sync_state(state) == (SharedModel {
            sync_state: state,
            state_dirty: shared.with_sync_state(state).state_dirty,
            ..shared
        }),
{
}

/// The artist and the title shown are the trimmed ones that were given, each on its own,
/// and empty where none was given; nothing else changes.
pub proof fn law_now_playing_shows_both(
    shared: SharedModel,
    artist: Option<Seq<char>>,
    title: Option<Seq<char>>,
)
    ensures
        ({
            let after = shared.with_now_playing(artist, title);
            &&& artist matches Some(text) ==> after.now_playing_artist == crate::text::trimmed(text)
            &&& title matches Some(text) ==> after.now_playing_title == crate::text::trimmed(text)
            &&& artist is None ==> after.now_playing_artist.len() == 0
            &&& title is None ==> after.now_playing_title.len() == 0
            &&& after == (SharedModel {
                now_playing_artist: after.now_playing_artist,
                now_playing_title: after.now_playing_title,
                ..shared
            })
        }),
{
}

/// Each kind of failure has its own count, which goes up by one, and nothing else
/// changes.
pub proof fn law_failures_are_counted_apart(shared: SharedModel)
    requires
        shared.diagnostics.late_chunk_count < u64::MAX,
        shared.diagnostics.queue_overflow_count < u64::MAX,
        shared.diagnostics.decode_error_count < u64::MAX,
    ensures
        ({
            let before = shared.diagnostics;
            let late = shared.with_late_chunk();
            let full = shared.with_queue_overflow();
            let bad = shared.with_decode_error();
            &&& late.diagnostics.late_chunk_count == before.late_chunk_count + 1
            &&& late.diagnostics.queue_overflow_count == before.queue_overflow_count
            &&& late.diagnostics.decode_error_count == before.decode_error_count
            &&& full.diagnostics.queue_overflow_count == before.queue_overflow_count + 1
            &&& full.diagnostics.late_chunk_count == before.late_chunk_count
            &&& full.diagnostics.decode_error_count == before.decode_error_count
            &&& bad.diagnostics.decode_error_count == before.decode_error_count + 1
            &&& bad.diagnostics.late_chunk_count == before.late_chunk_count
            &&& bad.diagnostics.queue_overflow_count == before.queue_overflow_count
            &&& late == (SharedModel { diagnostics: late.diagnostics, ..shared })
            &&& full == (SharedModel { diagnostics: full.diagnostics, ..shared })
            &&& bad == (SharedModel { diagnostics: bad.diagnostics, ..shared })
        }),
{
}

/// At first there is no connection, no stream, no server and no failure; the volume is
/// full; and the player's state is still to be reported.
pub proof fn law_first_state_is_idle(client_name: Seq<char>)
    ensures
        ({
            let first = SharedModel::initial(client_name);
            &&& first.connection_state == ConnectionState::Disconnected
            &&& first.group_playback_state == GroupPlaybackState::Unknown
            &&& first.sync_state == SyncState::Synchronized
            &&& first.state_dirty && !first.clear_requested && !first.stream_active
            &&& first.remote_volume == 100 && !first.remote_muted
            &&& first.configured_server_url.len() == 0
            &&& first.configured_client_name == client_name
            &&& first.now_playing_artist.len() == 0 && first.now_playing_title.len() == 0
            &&& first.discovered_servers.len() == 0
            &&& first.diagnostics.late_chunk_count == 0
            &&& first.diagnostics.queue_overflow_count == 0
            &&& first.diagnostics.decode_error_count == 0
            &&& !first.worker_attached && !first.mdns_attached
            &&& first.host_sample_rate_hz == 48_000 && first.host_block_size == 512
        }),
{
}

/// The model of the shared state shows all that the state holds.
pub proof fn law_shared_state_is_seen_whole(shared: SharedState)
    ensures
        shared@.host_sample_rate_hz == shared.host_sample_rate_hz,
        shared@.host_block_size == shared.host_block_size,
        shared@.stream_active == shared.stream_active,
        shared@.clear_requested == shared.clear_requested,
        shared@.remote_volume == shared.remote_volume,
        shared@.remote_muted == shared.remote_muted,
        shared@.sync_state == shared.sync_state,
        shared@.connection_state == shared.connection_state,
        shared@.group_playback_state == shared.group_playback_state,
        shared@.state_dirty == shared.state_dirty,
        shared@.configured_server_url == shared.configured_server_url@,
        shared@.configured_client_name == shared.configured_client_name@,
        shared@.now_playing_artist == shared.now_playing_artist@,
        shared@.now_playing_title == shared.now_playing_title@,
        shared@.diagnostics == shared.diagnostics,
        shared@.worker_attached == shared.worker_attached,
        shared@.mdns_attached == shared.mdns_attached,
        shared@.discovered_servers.len() == shared.discovered_servers@.len(),
        forall|i: int|
            0 <= i < shared.discovered_servers@.len() ==> {
                let server = #[trigger] shared.discovered_servers@[i];
                &&& shared@.discovered_servers[i].id == server.id@
                &&& shared@.discovered_servers[i].name == server.name@
                &&& shared@.discovered_servers[i].url == server.url@
            },
{
}

/// The model of a command shows its kind and its text.
pub proof fn law_command_is_seen_whole(command: WorkerCommand)
    ensures
        opt_command(None) is None,
        opt_command(Some(command)) == Some(command@),
        match command {
            WorkerCommand::Shutdown => command@ == CommandModel::Shutdown,
            WorkerCommand::SetServerUrl(url) => command@ == CommandModel::SetServerUrl(url@),
            WorkerCommand::SetClientName(name) => command@ == CommandModel::SetClientName(name@),
            WorkerCommand::SendControllerCommand(text) => command@
                == CommandModel::SendControllerCommand(text@),
        },
{
}

/// The numbers that stand for the states.
pub proof fn law_states_have_their_numbers()
    ensures
        SyncState::Synchronized.code() == 0 && SyncState::Error.code() == 1,
        ConnectionState::Disconnected.code() == 0 && ConnectionState::Connecting.code() == 1,
        ConnectionState::Connected.code() == 2 && ConnectionState::Error.code() == 3,
        GroupPlaybackState::Unknown.code() == 0 && GroupPlaybackState::Stopped.code() == 1,
        GroupPlaybackState::Playing.code() == 2,
{
}

/// A count that has reached its end starts over at zero.
pub proof fn law_counts_start_over(n: u64)
    ensures
        n < u64::MAX ==> counted(n) == n + 1,
        n == u64::MAX ==> counted(n) == 0,
{
}

} // verus!
