//! The life of the connection to a server: when to connect, what to send, and what
//! to do when it ends.

use vstd::prelude::*;

use crate::clock::unix_time_micros;
use crate::config::{configure_client_name, normalize_client_name, try_normalize_server_url};
use crate::constants::{
    INITIAL_RECONNECT_DELAY_MS, MAX_RECONNECT_DELAY_MS, PROMPT_RECONNECT_DELAY_MS,
    UNDERRUN_ERROR_THRESHOLD_BLOCKS,
};
use crate::protocol::{
    build_client_hello, build_player_support, client_state_message, decode_audio_chunk_at,
    handle_message, pcm_format_request, ActiveStream, ClientHello, ClientMessage,
    ClientMessageModel, FormatModel, GoodbyeReason, PlayerState, ServerMessage,
};
use crate::queue::{push_chunk, ChunkModel, TimestampedChunk};
use crate::state::{
    CommandModel, ConnectionState, GroupPlaybackState, PlayerSyncState, SharedModel, SharedState,
    SyncState, WorkerCommand,
};
use crate::text::same_text;

verus! {

// ---------------------------------------------------------------------------
// What persists over connections

/// What the network worker keeps over connections.
#[derive(Debug)]
pub struct NetworkSession {
    pub reconnect_delay_ms: u64,
    pub active_server_url: Option<String>,
    pub active_client_name: String,
    pub pending_controller_command: Option<String>,
}

/// What the network worker keeps over connections, with its texts.
pub struct SessionModel {
    pub reconnect_delay_ms: u64,
    pub active_server_url: Option<Seq<char>>,
    pub active_client_name: Seq<char>,
    pub pending_controller_command: Option<Seq<char>>,
}

impl View for NetworkSession {
    type V = SessionModel;

    open spec fn view(&self) -> SessionModel {
        SessionModel {
            reconnect_delay_ms: self.reconnect_delay_ms,
            active_server_url: crate::config::opt_text(self.active_server_url),
            active_client_name: self.active_client_name@,
            pending_controller_command: crate::config::opt_text(self.pending_controller_command),
        }
    }
}

impl SessionModel {
    /// The reconnect delay is within its bounds, and the server URL is normalized.
    /// Every session starts so and stays so.
    pub open spec fn well_formed(self) -> bool {
        &&& PROMPT_RECONNECT_DELAY_MS <= self.reconnect_delay_ms <= MAX_RECONNECT_DELAY_MS
        &&& self.active_server_url matches Some(url) ==> crate::config::is_server_url(url)
    }

    /// The session with another server, to be connected to soon.
    pub open spec fn with_server(self, url: Seq<char>) -> SessionModel {
        SessionModel {
            active_server_url: Some(url),
            reconnect_delay_ms: PROMPT_RECONNECT_DELAY_MS,
            ..self
        }
    }

    /// The session with another client name, to be announced soon.
    pub open spec fn with_name(self, name: Seq<char>) -> SessionModel {
        SessionModel {
            active_client_name: name,
            reconnect_delay_ms: PROMPT_RECONNECT_DELAY_MS,
            ..self
        }
    }
}

/// The session before the first connection.
pub open spec fn first_session(
    server_url: Seq<char>,
    client_name: Seq<char>,
    from_environment: Option<Seq<char>>,
) -> SessionModel {
    SessionModel {
        reconnect_delay_ms: INITIAL_RECONNECT_DELAY_MS,
        active_server_url: crate::config::usable_server_url(server_url),
        active_client_name: crate::config::configured_name(client_name, from_environment),
        pending_controller_command: None,
    }
}

// ---------------------------------------------------------------------------
// Commands between connections

/// What polling for a command gives.
#[derive(Debug)]
pub enum PolledCommand {
    Command(WorkerCommand),
    Empty,
    Disconnected,
}

/// What follows a poll.
#[derive(Clone, Copy, Debug, PartialEq, Eq, Structural)]
pub enum PollOutcome {
    PollAgain,
    Proceed,
    Stop,
}

/// What follows a poll.
pub open spec fn poll_outcome(polled: PolledCommand) -> PollOutcome {
    match polled {
        PolledCommand::Command(WorkerCommand::Shutdown) => PollOutcome::Stop,
        PolledCommand::Command(_) => PollOutcome::PollAgain,
        PolledCommand::Empty => PollOutcome::Proceed,
        PolledCommand::Disconnected => PollOutcome::Stop,
    }
}

/// The session and the shared state after a command that arrives between
/// connections. A URL or a name that stands for none is passed over.
pub open spec fn after_polled_command(
    command: CommandModel,
    session: SessionModel,
    shared: SharedModel,
) -> (SessionModel, SharedModel) {
    match command {
        CommandModel::Shutdown => (session, shared),
        CommandModel::SetServerUrl(raw) => match crate::config::usable_server_url(raw) {
            Some(url) => (
                session.with_server(url),
                SharedModel { configured_server_url: url, ..shared },
            ),
            None => (session, shared),
        },
        CommandModel::SetClientName(raw) => match crate::config::client_name(raw) {
            Some(name) => (
                session.with_name(name),
                SharedModel { configured_client_name: name, ..shared },
            ),
            None => (session, shared),
        },
        CommandModel::SendControllerCommand(text) => (
            SessionModel { pending_controller_command: Some(text), ..session },
            shared,
        ),
    }
}

/// What ends a wait.
#[derive(Debug)]
pub enum WaitEvent {
    Elapsed,
    Command(WorkerCommand),
    Disconnected,
}

/// What to do after a wait.
#[derive(Debug)]
pub enum ReconnectAction {
    Continue,
    Stop,
    UpdateServerUrl(String),
    UpdateClientName(String),
    QueueControllerCommand(String),
}

/// What to do after a wait, with its text.
pub enum ActionModel {
    Continue,
    Stop,
    UpdateServerUrl(Seq<char>),
    UpdateClientName(Seq<char>),
    QueueControllerCommand(Seq<char>),
}

impl View for ReconnectAction {
    type V = ActionModel;

    open spec fn view(&self) -> ActionModel {
        match self {
            ReconnectAction::Continue => ActionModel::Continue,
            ReconnectAction::Stop => ActionModel::Stop,
            ReconnectAction::UpdateServerUrl(url) => ActionModel::UpdateServerUrl(url@),
            ReconnectAction::UpdateClientName(name) => ActionModel::UpdateClientName(name@),
            ReconnectAction::QueueControllerCommand(command) => ActionModel::QueueControllerCommand(
                command@,
            ),
        }
    }
}

/// What to do after a wait that ended in `event`.
pub open spec fn action_after(event: WaitEvent) -> ActionModel {
    match event {
        WaitEvent::Elapsed => ActionModel::Continue,
        WaitEvent::Disconnected => ActionModel::Stop,
        WaitEvent::Command(WorkerCommand::Shutdown) => ActionModel::Stop,
        WaitEvent::Command(WorkerCommand::SetServerUrl(raw)) => {
            match crate::config::usable_server_url(raw@) {
                Some(url) => ActionModel::UpdateServerUrl(url),
                None => ActionModel::Continue,
            }
        },
        WaitEvent::Command(WorkerCommand::SetClientName(raw)) => {
            match crate::config::client_name(raw@) {
                Some(name) => ActionModel::UpdateClientName(name),
                None => ActionModel::Continue,
            }
        },
        WaitEvent::Command(WorkerCommand::SendControllerCommand(text)) => {
            ActionModel::QueueControllerCommand(text@)
        },
    }
}

/// Decides what to do after a wait. A URL to switch to is normalized.
pub fn reconnect_action(event: WaitEvent) -> (r: ReconnectAction)
    ensures
        r@ == action_after(event),
        r@ matches ActionModel::UpdateServerUrl(url) ==> crate::config::is_server_url(url),
{
    match event {
        WaitEvent::Elapsed => ReconnectAction::Continue,
        WaitEvent::Disconnected => ReconnectAction::Stop,
        WaitEvent::Command(command) => match command {
            WorkerCommand::Shutdown => ReconnectAction::Stop,
            WorkerCommand::SetServerUrl(new_url) => match try_normalize_server_url(&new_url) {
                Some(normalized) => ReconnectAction::UpdateServerUrl(normalized),
                None => ReconnectAction::Continue,
            },
            WorkerCommand::SetClientName(new_name) => match normalize_client_name(&new_name) {
                Some(normalized) => ReconnectAction::UpdateClientName(normalized),
                None => ReconnectAction::Continue,
            },
            WorkerCommand::SendControllerCommand(text) => {
                ReconnectAction::QueueControllerCommand(text)
            },
        },
    }
}

/// Why the worker waits.
#[derive(Clone, Copy, Debug, PartialEq, Eq, Structural)]
pub enum WaitReason {
    /// There is no server to connect to.
    NoServer,
    /// The last connection failed or ended.
    BetweenConnections,
}

/// The delay after the next failure: twice as long, up to the longest.
pub open spec fn next_delay_ms(delay_ms: u64) -> u64 {
    if delay_ms * 2 > MAX_RECONNECT_DELAY_MS {
        MAX_RECONNECT_DELAY_MS
    } else {
        (delay_ms * 2) as u64
    }
}

/// The session and the shared state after a wait. Between connections a wait that
/// just elapsed makes the next one longer, and a queued command makes it short.
pub open spec fn after_wait_action(
    action: ActionModel,
    reason: WaitReason,
    session: SessionModel,
    shared: SharedModel,
) -> (SessionModel, SharedModel) {
    match action {
        ActionModel::Stop => (session, shared),
        ActionModel::Continue => (
            match reason {
                WaitReason::NoServer => session,
                WaitReason::BetweenConnections => SessionModel {
                    reconnect_delay_ms: next_delay_ms(session.reconnect_delay_ms),
                    ..session
                },
            },
            shared,
        ),
        ActionModel::UpdateServerUrl(url) => (
            session.with_server(url),
            SharedModel { configured_server_url: url, ..shared },
        ),
        ActionModel::UpdateClientName(name) => (
            session.with_name(name),
            SharedModel { configured_client_name: name, ..shared },
        ),
        ActionModel::QueueControllerCommand(text) => (
            match reason {
                WaitReason::NoServer => SessionModel {
                    pending_controller_command: Some(text),
                    ..session
                },
                WaitReason::BetweenConnections => SessionModel {
                    pending_controller_command: Some(text),
                    reconnect_delay_ms: PROMPT_RECONNECT_DELAY_MS,
                    ..session
                },
            },
            shared,
        ),
    }
}

// ---------------------------------------------------------------------------
// Connecting

/// What to do next while there is no connection.
#[derive(Debug)]
pub enum Attempt {
    /// Wait for a command, for so many milliseconds at most.
    Idle { wait_ms: u64 },
    /// Connect to a server and greet it.
    Connect { url: String, hello: ClientHello },
}

/// What a connection keeps.
#[derive(Debug)]
pub struct Connection {
    pub active_stream: Option<ActiveStream>,
    pub last_requested_sample_rate: u32,
}

/// How a connection goes on.
#[derive(Clone, Copy, Debug, PartialEq, Eq, Structural)]
pub enum Flow {
    Stay,
    Leave(Departure),
}

/// How a connection is left.
#[derive(Clone, Copy, Debug, PartialEq, Eq, Structural)]
pub enum Departure {
    /// For good.
    Stop,
    /// To connect again at once.
    ReconnectNow,
    /// To connect again after a wait.
    ReconnectLater,
}

/// What follows the end of a connection.
#[derive(Clone, Copy, Debug, PartialEq, Eq, Structural)]
pub enum NextMove {
    Stop,
    Reconnect,
    Wait { delay_ms: u64 },
}

/// The shared state without a connection: nothing plays, and what is queued is to be
/// dropped.
pub open spec fn offline(shared: SharedModel) -> SharedModel {
    SharedModel {
        connection_state: ConnectionState::Disconnected,
        group_playback_state: GroupPlaybackState::Unknown,
        stream_active: false,
        clear_requested: true,
        ..shared.with_now_playing(None, None)
    }
}

/// The messages, and how the connection goes on, after a command that arrives during
/// it, with the session and the shared state that are left. A server or a name that
/// is the active one already changes nothing; another one ends the connection.
pub struct CommandEffect {
    pub messages: Seq<ClientMessageModel>,
    pub flow: Flow,
    pub session: SessionModel,
    pub shared: SharedModel,
}

/// What a command that arrives during a connection leads to; `None` is the end of
/// all commands.
pub open spec fn command_effect(
    command: Option<CommandModel>,
    session: SessionModel,
    shared: SharedModel,
) -> CommandEffect {
    let unchanged = CommandEffect { messages: Seq::empty(), flow: Flow::Stay, session, shared };
    let goodbye = seq![ClientMessageModel::ClientGoodbye(GoodbyeReason::Restart)];
    match command {
        None => CommandEffect { flow: Flow::Leave(Departure::Stop), ..unchanged },
        Some(CommandModel::Shutdown) => CommandEffect {
            messages: goodbye,
            flow: Flow::Leave(Departure::Stop),
            ..unchanged
        },
        Some(CommandModel::SetServerUrl(raw)) => match crate::config::usable_server_url(raw) {
            Some(url) => if session.active_server_url == Some(url) {
                unchanged
            } else {
                CommandEffect {
                    messages: goodbye,
                    flow: Flow::Leave(Departure::ReconnectNow),
                    session: SessionModel { active_server_url: Some(url), ..session },
                    shared: SharedModel { configured_server_url: url, ..shared },
                }
            },
            None => unchanged,
        },
        Some(CommandModel::SetClientName(raw)) => match crate::config::client_name(raw) {
            Some(name) => if session.active_client_name == name {
                unchanged
            } else {
                CommandEffect {
                    messages: goodbye,
                    flow: Flow::Leave(Departure::ReconnectNow),
                    session: SessionModel { active_client_name: name, ..session },
                    shared: SharedModel { configured_client_name: name, ..shared },
                }
            },
            None => unchanged,
        },
        Some(CommandModel::SendControllerCommand(text)) => CommandEffect {
            messages: seq![ClientMessageModel::ClientCommand(text)],
            ..unchanged
        },
    }
}

/// The messages sent first over a connection: the player's state, and the controller
/// command that is pending, if any.
pub open spec fn opening_messages(
    session: SessionModel,
    shared: SharedModel,
) -> Seq<ClientMessageModel> {
    let report = seq![
        ClientMessageModel::ClientState(crate::protocol::reported_state(shared)),
    ];
    match session.pending_controller_command {
        Some(text) => report.push(ClientMessageModel::ClientCommand(text)),
        None => report,
    }
}

/// The messages sent at a tick: the player's state where it is to be reported, and a
/// request for the host's sample rate where that is another than was asked for last.
pub open spec fn tick_messages(
    last_requested_sample_rate: u32,
    shared: SharedModel,
) -> Seq<ClientMessageModel> {
    let report = if shared.state_dirty {
        seq![ClientMessageModel::ClientState(crate::protocol::reported_state(shared))]
    } else {
        Seq::empty()
    };
    if shared.host_sample_rate_hz > 0 && shared.host_sample_rate_hz != last_requested_sample_rate {
        report.push(
            ClientMessageModel::StreamRequestFormat(
                crate::protocol::preferred_format(shared.host_sample_rate_hz),
            ),
        )
    } else {
        report
    }
}

impl NetworkSession {
    /// The session before the first connection. The server URL and the client name
    /// that it starts with are configured.
    pub fn start(
        server_url: &str,
        client_name: &str,
        from_environment: Option<&str>,
        shared: &mut SharedState,
    ) -> (r: Self)
        ensures
            r@ == first_session(
                server_url@,
                client_name@,
                crate::config::opt_str(from_environment),
            ),
            r@.well_formed(),
            final(shared)@ == (SharedModel {
                configured_server_url: crate::config::configured_url(server_url@),
                configured_client_name: r@.active_client_name,
                ..old(shared)@
            }),
    {
        let active_server_url = try_normalize_server_url(server_url);
        let active_client_name = configure_client_name(client_name, from_environment);
        match &active_server_url {
            Some(url) => shared.set_configured_server_url(url.clone()),
            None => shared.set_configured_server_url(String::new()),
        }
        shared.set_configured_client_name(active_client_name.clone());
        NetworkSession {
            reconnect_delay_ms: INITIAL_RECONNECT_DELAY_MS,
            active_server_url,
            active_client_name,
            pending_controller_command: None,
        }
    }

    fn switch_server(&mut self, url: String, shared: &mut SharedState)
        ensures
            final(self)@ == old(self)@.with_server(url@),
            final(shared)@ == (SharedModel { configured_server_url: url@, ..old(shared)@ }),
    {
        self.active_server_url = Some(url.clone());
        shared.set_configured_server_url(url);
        self.reconnect_delay_ms = PROMPT_RECONNECT_DELAY_MS;
    }

    fn switch_name(&mut self, name: String, shared: &mut SharedState)
        ensures
            final(self)@ == old(self)@.with_name(name@),
            final(shared)@ == (SharedModel { configured_client_name: name@, ..old(shared)@ }),
    {
        self.active_client_name = name.clone();
        shared.set_configured_client_name(name);
        self.reconnect_delay_ms = PROMPT_RECONNECT_DELAY_MS;
    }

    /// Takes in what polling for a command gave between connections.
    pub fn on_polled(
        &mut self,
        polled: PolledCommand,
        shared: &mut SharedState,
    ) -> (r: PollOutcome)
        ensures
            r == poll_outcome(polled),
            match polled {
                PolledCommand::Command(command) => (final(self)@, final(shared)@)
                    == after_polled_command(command@, old(self)@, old(shared)@),
                _ => final(self)@ == old(self)@ && final(shared)@ == old(shared)@,
            },
            old(self)@.well_formed() ==> final(self)@.well_formed(),
    {
        match polled {
            PolledCommand::Empty => PollOutcome::Proceed,
            PolledCommand::Disconnected => PollOutcome::Stop,
            PolledCommand::Command(command) => match command {
                WorkerCommand::Shutdown => PollOutcome::Stop,
                WorkerCommand::SetServerUrl(new_url) => {
                    if let Some(normalized) = try_normalize_server_url(&new_url) {
                        self.switch_server(normalized, shared);
                    }
                    PollOutcome::PollAgain
                },
                WorkerCommand::SetClientName(new_name) => {
                    if let Some(normalized) = normalize_client_name(&new_name) {
                        self.switch_name(normalized, shared);
                    }
                    PollOutcome::PollAgain
                },
                WorkerCommand::SendControllerCommand(text) => {
                    self.pending_controller_command = Some(text);
                    PollOutcome::PollAgain
                },
            },
        }
    }

    /// Decides what to do while there is no connection: to wait where there is no
    /// server, and else to connect.
    pub fn next_attempt(
        &self,
        shared: &mut SharedState,
        client_id: &str,
        software_version: &str,
    ) -> (r: Attempt)
        ensures
            match self@.active_server_url {
                None => r == (Attempt::Idle { wait_ms: MAX_RECONNECT_DELAY_MS }) && final(shared)@
                    == (SharedModel {
                    connection_state: ConnectionState::Disconnected,
                    ..old(shared)@.with_now_playing(None, None)
                }),
                Some(active) => r matches Attempt::Connect { url, hello } && url@ == active
                    && hello@ == crate::protocol::hello_of(
                    client_id@,
                    self@.active_client_name,
                    crate::protocol::player_support(old(shared)@.host_sample_rate_hz),
                    software_version@,
                ) && final(shared)@ == (SharedModel {
                    connection_state: ConnectionState::Connecting,
                    group_playback_state: GroupPlaybackState::Unknown,
                    ..old(shared)@.with_now_playing(None, None)
                }),
            },
    {
        match &self.active_server_url {
            None => {
                shared.set_connection_state(ConnectionState::Disconnected);
                shared.set_now_playing(None, None);
                Attempt::Idle { wait_ms: MAX_RECONNECT_DELAY_MS }
            },
            Some(url) => {
                shared.set_connection_state(ConnectionState::Connecting);
                shared.set_group_playback_state(GroupPlaybackState::Unknown);
                shared.set_now_playing(None, None);
                let support = build_player_support(shared.host_sample_rate_hz);
                let hello = build_client_hello(
                    client_id,
                    &self.active_client_name,
                    support,
                    software_version,
                );
                Attempt::Connect { url: url.clone(), hello }
            },
        }
    }

    /// Notes that connecting failed, and returns how long to wait in milliseconds.
    pub fn connect_failed(&self, shared: &mut SharedState) -> (r: u64)
        ensures
            r == self@.reconnect_delay_ms,
            final(shared)@ == (SharedModel {
                connection_state: ConnectionState::Error,
                ..old(shared)@
            }),
    {
        shared.set_connection_state(ConnectionState::Error);
        self.reconnect_delay_ms
    }

    /// Takes in how a wait ended; the result is whether to go on.
    pub fn after_wait(
        &mut self,
        event: WaitEvent,
        reason: WaitReason,
        shared: &mut SharedState,
    ) -> (r: bool)
        ensures
            r == !(action_after(event) is Stop),
            (final(self)@, final(shared)@) == after_wait_action(
                action_after(event),
                reason,
                old(self)@,
                old(shared)@,
            ),
            old(self)@.well_formed() ==> final(self)@.well_formed(),
    {
        let between = reason == WaitReason::BetweenConnections;
        match reconnect_action(event) {
            ReconnectAction::Stop => false,
            ReconnectAction::Continue => {
                if between {
                    self.reconnect_delay_ms = if self.reconnect_delay_ms > MAX_RECONNECT_DELAY_MS
                        / 2 {
                        MAX_RECONNECT_DELAY_MS
                    } else {
                        self.reconnect_delay_ms * 2
                    };
                }
                true
            },
            ReconnectAction::UpdateServerUrl(url) => {
                self.switch_server(url, shared);
                true
            },
            ReconnectAction::UpdateClientName(name) => {
                self.switch_name(name, shared);
                true
            },
            ReconnectAction::QueueControllerCommand(text) => {
                self.pending_controller_command = Some(text);
                if between {
                    self.reconnect_delay_ms = PROMPT_RECONNECT_DELAY_MS;
                }
                true
            },
        }
    }

    /// Notes that a connection stands, and returns what it keeps and the messages to
    /// open it with.
    pub fn connected(&mut self, shared: &mut SharedState) -> (r: (Connection, Vec<ClientMessage>))
        ensures
            r.0.active_stream is None,
            r.0.last_requested_sample_rate == old(shared)@.host_sample_rate_hz,
            final(shared)@ == (SharedModel {
                connection_state: ConnectionState::Connected,
                state_dirty: true,
                ..old(shared)@
            }),
            crate::protocol::message_models(r.1@) == opening_messages(old(self)@, final(shared)@),
            final(self)@ == (SessionModel {
                reconnect_delay_ms: INITIAL_RECONNECT_DELAY_MS,
                pending_controller_command: None,
                ..old(self)@
            }),
            old(self)@.well_formed() ==> final(self)@.well_formed(),
    {
        self.reconnect_delay_ms = INITIAL_RECONNECT_DELAY_MS;
        shared.set_connection_state(ConnectionState::Connected);
        shared.mark_state_dirty();
        let connection = Connection {
            active_stream: None,
            last_requested_sample_rate: shared.host_sample_rate_hz,
        };
        let mut messages: Vec<ClientMessage> = Vec::new();
        messages.push(client_state_message(shared));
        if let Some(text) = self.pending_controller_command.take() {
            messages.push(ClientMessage::ClientCommand(text));
        }
        assert(crate::protocol::message_models(messages@) =~= opening_messages(
            old(self)@,
            shared@,
        ));
        (connection, messages)
    }

    /// Takes in a command that arrives during a connection; `None` is the end of all
    /// commands.
    pub fn on_command(&mut self, command: Option<WorkerCommand>, shared: &mut SharedState) -> (r: (
        Vec<ClientMessage>,
        Flow,
    ))
        ensures
            ({
                let effect = command_effect(
                    crate::state::opt_command(command),
                    old(self)@,
                    old(shared)@,
                );
                &&& crate::protocol::message_models(r.0@) == effect.messages
                &&& r.1 == effect.flow
                &&& final(self)@ == effect.session
                &&& final(shared)@ == effect.shared
            }),
            old(self)@.well_formed() ==> final(self)@.well_formed(),
    {
        let mut messages: Vec<ClientMessage> = Vec::new();
        let mut flow: Flow = Flow::Stay;
        match command {
            None => {
                flow = Flow::Leave(Departure::Stop);
            },
            Some(command) => match command {
                WorkerCommand::Shutdown => {
                    messages.push(ClientMessage::ClientGoodbye(GoodbyeReason::Restart));
                    flow = Flow::Leave(Departure::Stop);
                },
                WorkerCommand::SetServerUrl(new_url) => {
                    if let Some(normalized) = try_normalize_server_url(&new_url) {
                        let same = match &self.active_server_url {
                            Some(active) => same_text(active, &normalized),
                            None => false,
                        };
                        if !same {
                            messages.push(ClientMessage::ClientGoodbye(GoodbyeReason::Restart));
                            self.active_server_url = Some(normalized.clone());
                            shared.set_configured_server_url(normalized);
                            flow = Flow::Leave(Departure::ReconnectNow);
                        }
                    }
                },
                WorkerCommand::SetClientName(new_name) => {
                    if let Some(normalized) = normalize_client_name(&new_name) {
                        if !same_text(&normalized, &self.active_client_name) {
                            messages.push(ClientMessage::ClientGoodbye(GoodbyeReason::Restart));
                            self.active_client_name = normalized.clone();
                            shared.set_configured_client_name(normalized);
                            flow = Flow::Leave(Departure::ReconnectNow);
                        }
                    }
                },
                WorkerCommand::SendControllerCommand(text) => {
                    messages.push(ClientMessage::ClientCommand(text));
                },
            },
        }
        assert(crate::protocol::message_models(messages@) =~= command_effect(
            crate::state::opt_command(command),
            old(self)@,
            old(shared)@,
        ).messages);
        (messages, flow)
    }

    /// Notes that a connection has ended, and decides what follows.
    pub fn disconnected(&mut self, departure: Departure, shared: &mut SharedState) -> (r: NextMove)
        ensures
            final(shared)@ == offline(old(shared)@),
            final(self)@ == (if departure == Departure::ReconnectNow {
                SessionModel { reconnect_delay_ms: PROMPT_RECONNECT_DELAY_MS, ..old(self)@ }
            } else {
                old(self)@
            }),
            r == (match departure {
                Departure::Stop => NextMove::Stop,
                Departure::ReconnectNow => NextMove::Reconnect,
                Departure::ReconnectLater => NextMove::Wait {
                    delay_ms: old(self)@.reconnect_delay_ms,
                },
            }),
            old(self)@.well_formed() ==> final(self)@.well_formed(),
    {
        shared.set_connection_state(ConnectionState::Disconnected);
        shared.set_group_playback_state(GroupPlaybackState::Unknown);
        shared.set_now_playing(None, None);
        shared.set_stream_active(false);
        shared.request_clear();
        match departure {
            Departure::Stop => NextMove::Stop,
            Departure::ReconnectNow => {
                self.reconnect_delay_ms = PROMPT_RECONNECT_DELAY_MS;
                NextMove::Reconnect
            },
            Departure::ReconnectLater => NextMove::Wait { delay_ms: self.reconnect_delay_ms },
        }
    }
}

impl Connection {
    /// Takes in a message from the server; `None` is the end of the connection.
    pub fn on_message(&mut self, message: Option<ServerMessage>, shared: &mut SharedState) -> (r: (
        Vec<ClientMessage>,
        Flow,
    ))
        ensures
            final(self).last_requested_sample_rate == old(self).last_requested_sample_rate,
            match message {
                None => r.1 == Flow::Leave(Departure::ReconnectLater) && r.0@.len() == 0
                    && final(self).active_stream == old(self).active_stream && final(shared)@
                    == old(shared)@,
                Some(message) => {
                    let effect = crate::protocol::message_effect(
                        message,
                        old(shared)@,
                        crate::protocol::opt_stream(old(self).active_stream),
                    );
                    &&& r.1 == Flow::Stay
                    &&& final(shared)@ == effect.shared
                    &&& crate::protocol::opt_stream(final(self).active_stream) == effect.stream
                    &&& crate::protocol::message_models(r.0@) == (match effect.request {
                        Some(format) => seq![ClientMessageModel::StreamRequestFormat(format)],
                        None => Seq::empty(),
                    })
                },
            },
    {
        let mut messages: Vec<ClientMessage> = Vec::new();
        match message {
            None => (messages, Flow::Leave(Departure::ReconnectLater)),
            Some(message) => {
                let ghost effect = crate::protocol::message_effect(
                    message,
                    old(shared)@,
                    crate::protocol::opt_stream(old(self).active_stream),
                );
                if let Some(format) = handle_message(message, shared, &mut self.active_stream) {
                    messages.push(ClientMessage::StreamRequestFormat(format));
                }
                assert(crate::protocol::message_models(messages@) =~= (match effect.request {
                    Some(format) => seq![ClientMessageModel::StreamRequestFormat(format)],
                    None => Seq::empty(),
                }));
                (messages, Flow::Stay)
            },
        }
    }

    /// Takes in a chunk of audio that arrives at `now_us`, and queues it for playback;
    /// `None` is the end of the connection. `converted` is the client's time for the
    /// chunk's timestamp, where the clocks are synchronized. Without a stream the chunk
    /// is passed over. One that cannot be decoded, or finds the queue full, is counted,
    /// and the latter is an error of synchronization.
    pub fn on_audio_at(
        &self,
        data: Option<&[u8]>,
        converted: Option<i64>,
        now_us: i64,
        shared: &mut SharedState,
        producer: &mut rtrb::Producer<TimestampedChunk>,
    ) -> (r: Flow)
        ensures
            r == flow_after_audio(data),
            audio_taken(
                data,
                self.active_stream,
                crate::protocol::play_time_us_of(converted, now_us),
                *old(producer),
                old(shared)@,
                *final(producer),
                final(shared)@,
            ),
    {
        match data {
            None => Flow::Leave(Departure::ReconnectLater),
            Some(bytes) => {
                if let Some(stream) = &self.active_stream {
                    match decode_audio_chunk_at(bytes, stream, converted, now_us) {
                        Some(chunk) => {
                            let ghost model = chunk@;
                            let taken = push_chunk(producer, chunk);
                            assert(offer_models(crate::queue::offered(*old(producer))) =~= seq![
                                (model, taken),
                            ] + offer_models(crate::queue::offered(*producer)));
                            if !taken {
                                shared.record_queue_overflow();
                                shared.set_sync_state(SyncState::Error);
                            }
                        },
                        None => shared.record_decode_error(),
                    }
                }
                Flow::Stay
            },
        }
    }

    /// Takes in a chunk of audio that arrives now, at `now_us` in the contract.
    pub fn on_audio(
        &self,
        data: Option<&[u8]>,
        converted: Option<i64>,
        shared: &mut SharedState,
        producer: &mut rtrb::Producer<TimestampedChunk>,
    ) -> (r: Flow)
        ensures
            r == flow_after_audio(data),
            exists|now_us: i64|
                audio_taken(
                    data,
                    self.active_stream,
                    #[trigger] crate::protocol::play_time_us_of(converted, now_us),
                    *old(producer),
                    old(shared)@,
                    *final(producer),
                    final(shared)@,
                ),
    {
        self.on_audio_at(data, converted, unix_time_micros(), shared, producer)
    }

    /// The messages to send at a tick.
    pub fn on_tick(&mut self, shared: &mut SharedState) -> (r: Vec<ClientMessage>)
        ensures
            crate::protocol::message_models(r@) == tick_messages(
                old(self).last_requested_sample_rate,
                old(shared)@,
            ),
            final(shared)@ == (SharedModel { state_dirty: false, ..old(shared)@ }),
            final(self).active_stream == old(self).active_stream,
            final(self).last_requested_sample_rate == (if old(shared)@.host_sample_rate_hz > 0 {
                old(shared)@.host_sample_rate_hz
            } else {
                old(self).last_requested_sample_rate
            }),
    {
        let mut messages: Vec<ClientMessage> = Vec::new();
        if shared.take_state_dirty() {
            messages.push(client_state_message(shared));
        }
        let current_host_rate = shared.host_sample_rate_hz;
        if current_host_rate > 0 && current_host_rate != self.last_requested_sample_rate {
            let format = pcm_format_request(current_host_rate);
            messages.push(ClientMessage::StreamRequestFormat(format));
            self.last_requested_sample_rate = current_host_rate;
        }
        assert(crate::protocol::message_models(messages@) =~= tick_messages(
            old(self).last_requested_sample_rate,
            old(shared)@,
        ));
        messages
    }
}

/// How a connection goes on after a chunk of audio; `None` is its end.
pub open spec fn flow_after_audio(data: Option<&[u8]>) -> Flow {
    if data is Some {
        Flow::Stay
    } else {
        Flow::Leave(Departure::ReconnectLater)
    }
}

/// What becomes of a chunk of audio that is to be heard at `play_time_us`: without a
/// stream nothing; it is counted where it cannot be decoded, and else queued.
pub open spec fn audio_taken(
    data: Option<&[u8]>,
    stream: Option<ActiveStream>,
    play_time_us: i64,
    producer_before: rtrb::Producer<TimestampedChunk>,
    shared_before: SharedModel,
    producer_after: rtrb::Producer<TimestampedChunk>,
    shared_after: SharedModel,
) -> bool {
    let decoded = match (data, stream) {
        (Some(bytes), Some(stream)) => Some(
            crate::protocol::decoded_chunk(bytes@, stream@, play_time_us),
        ),
        _ => None,
    };
    match decoded {
        None => shared_after == shared_before && producer_after == producer_before,
        Some(None) => shared_after == shared_before.with_decode_error() && producer_after
            == producer_before,
        Some(Some(chunk)) => chunk_queued(
            chunk,
            producer_before,
            shared_before,
            producer_after,
            shared_after,
        ),
    }
}

/// The chunks offered to a queue, as what they hold, each with whether it is accepted.
pub open spec fn offer_models(offers: Seq<(TimestampedChunk, bool)>) -> Seq<(ChunkModel, bool)> {
    offers.map_values(|offer: (TimestampedChunk, bool)| (offer.0@, offer.1))
}

/// How a decoded chunk meets the queue: it is offered, and, where it is not accepted,
/// counted as an overflow. It is accepted while the queue has slots never used.
pub open spec fn chunk_queued(
    chunk: ChunkModel,
    producer_before: rtrb::Producer<TimestampedChunk>,
    shared_before: SharedModel,
    producer_after: rtrb::Producer<TimestampedChunk>,
    shared_after: SharedModel,
) -> bool {
    let before = offer_models(crate::queue::offered(producer_before));
    let after = offer_models(crate::queue::offered(producer_after));
    let taken = before[0].1;
    &&& before == seq![(chunk, taken)] + after
    &&& crate::queue::untouched_slots(producer_before) > 0 ==> taken
    &&& shared_after == if taken {
        shared_before
    } else {
        shared_before.with_queue_overflow().with_sync_state(SyncState::Error)
    }
}

// ---------------------------------------------------------------------------
// Laws of the connection

/// The reconnect delay after `n` waits in a row that just elapsed.
pub open spec fn delay_after_waits_ms(delay_ms: u64, n: nat) -> u64
    decreases n,
{
    if n == 0 {
        delay_ms
    } else {
        next_delay_ms(delay_after_waits_ms(delay_ms, (n - 1) as nat))
    }
}

/// Each failure in a row doubles the reconnect delay, up to the longest one.
pub proof fn law_reconnect_delay_doubles(delay_ms: u64, n: nat)
    requires
        delay_ms <= MAX_RECONNECT_DELAY_MS,
    ensures
        ({
            let doubled = delay_ms * vstd::arithmetic::power2::pow2(n);
            delay_after_waits_ms(delay_ms, n) == if doubled < MAX_RECONNECT_DELAY_MS {
                doubled
            } else {
                MAX_RECONNECT_DELAY_MS as int
            }
        }),
    decreases n,
{
    if n == 0 {
        vstd::arithmetic::power2::lemma2_to64();
    } else {
        let m = (n - 1) as nat;
        law_reconnect_delay_doubles(delay_ms, m);
        vstd::arithmetic::power2::lemma_pow2_unfold(n);
        assert(delay_ms * (2 * vstd::arithmetic::power2::pow2(m)) == 2 * (delay_ms
            * vstd::arithmetic::power2::pow2(m))) by (nonlinear_arith);
    }
}

/// A controller command that comes between connections is sent when the next one
/// stands, right after the player's state.
pub proof fn law_queued_command_opens_connection(
    text: Seq<char>,
    session: SessionModel,
    shared: SharedModel,
    later: SharedModel,
)
    ensures
        ({
            let queued = after_polled_command(
                CommandModel::SendControllerCommand(text),
                session,
                shared,
            );
            &&& queued.1 == shared
            &&& opening_messages(queued.0, later) == seq![
                ClientMessageModel::ClientState(crate::protocol::reported_state(later)),
                ClientMessageModel::ClientCommand(text),
            ]
        }),
{
    let queued = after_polled_command(CommandModel::SendControllerCommand(text), session, shared);
    assert(opening_messages(queued.0, later) =~= seq![
        ClientMessageModel::ClientState(crate::protocol::reported_state(later)),
        ClientMessageModel::ClientCommand(text),
    ]);
}

/// A tick says nothing that was said already: where nothing changed since the last
/// one, no message is sent.
pub proof fn law_quiet_tick_sends_nothing(shared: SharedModel)
    requires
        !shared.state_dirty,
    ensures
        tick_messages(shared.host_sample_rate_hz, shared).len() == 0,
{
}

/// A command during a connection that names the active server or the active client
/// name leaves everything as it is.
pub proof fn law_same_settings_keep_connection(
    raw: Seq<char>,
    session: SessionModel,
    shared: SharedModel,
)
    ensures
        session.active_server_url is Some && crate::config::usable_server_url(raw)
            == session.active_server_url ==> command_effect(
            Some(CommandModel::SetServerUrl(raw)),
            session,
            shared,
        ) == (CommandEffect { messages: Seq::empty(), flow: Flow::Stay, session, shared }),
        crate::config::client_name(raw) == Some(session.active_client_name) ==> command_effect(
            Some(CommandModel::SetClientName(raw)),
            session,
            shared,
        ) == (CommandEffect { messages: Seq::empty(), flow: Flow::Stay, session, shared }),
{
}

/// Whenever a command ends a connection on purpose, the server is told goodbye, and
/// nothing else is sent.
pub proof fn law_commanded_end_says_goodbye(
    command: CommandModel,
    session: SessionModel,
    shared: SharedModel,
)
    ensures
        ({
            let effect = command_effect(Some(command), session, shared);
            effect.flow is Leave ==> effect.messages == seq![
                ClientMessageModel::ClientGoodbye(GoodbyeReason::Restart),
            ]
        }),
{
}

/// After a connection has ended, however that came, no stream is active, and the
/// next block starts with nothing queued.
pub proof fn law_offline_is_silent(shared: SharedModel)
    ensures
        offline(shared).connection_state == ConnectionState::Disconnected,
        !offline(shared).stream_active,
        offline(shared).clear_requested,
        offline(shared).now_playing_artist.len() == 0,
        offline(shared).now_playing_title.len() == 0,
{
}

/// There is no implicit server: where none is configured, a session starts without.
pub proof fn law_no_implicit_server(
    server_url: Seq<char>,
    client_name: Seq<char>,
    from_environment: Option<Seq<char>>,
)
    requires
        crate::text::trimmed(server_url).len() == 0,
    ensures
        first_session(server_url, client_name, from_environment).active_server_url is None,
        crate::config::configured_url(server_url).len() == 0,
{
}

/// A streak of blocks without audio is reported to the server as an error at the next
/// tick.
pub proof fn law_underrun_is_reported(
    streaks: crate::playback::SyncStreaks,
    shared: SharedModel,
    n: nat,
    last_requested_sample_rate: u32,
)
    requires
        shared.stream_active,
        shared.sync_state == SyncState::Synchronized,
        streaks.underrun == 0,
        n >= UNDERRUN_ERROR_THRESHOLD_BLOCKS,
    ensures
        ({
            let after = crate::playback::after_blocks(streaks, shared, false, n).1;
            let messages = tick_messages(last_requested_sample_rate, after);
            &&& messages.len() > 0
            &&& messages[0] matches ClientMessageModel::ClientState(state) && state.state
                == PlayerSyncState::Error
        }),
{
    crate::playback::law_error_takes_an_underrun_streak(streaks, shared, n);
}

/// A volume or mute command from the server is confirmed at the next tick.
pub proof fn law_player_command_is_confirmed(
    command: crate::protocol::PlayerCommand,
    shared: SharedModel,
    stream: Option<FormatModel>,
    last_requested_sample_rate: u32,
)
    ensures
        ({
            let message = ServerMessage::ServerCommand(Some(command));
            let after = crate::protocol::message_effect(message, shared, stream).shared;
            let messages = tick_messages(last_requested_sample_rate, after);
            &&& command.volume matches Some(volume) ==> command.command@ == "volume"@
                ==> messages.len() > 0 && messages[0] == ClientMessageModel::ClientState(
                PlayerState {
                    volume: if volume > 100 {
                        100
                    } else {
                        volume
                    },
                    ..crate::protocol::reported_state(shared)
                },
            )
            &&& command.mute matches Some(muted) ==> command.command@ == "mute"@ ==> messages.len()
                > 0 && messages[0] == ClientMessageModel::ClientState(
                PlayerState { muted, ..crate::protocol::reported_state(shared) },
            )
        }),
{
    reveal_strlit("volume");
    reveal_strlit("mute");
    assert("volume"@.len() != "mute"@.len());
}

/// The end of a stream is reported at the next tick, as synchronized.
pub proof fn law_stream_end_is_reported(
    shared: SharedModel,
    stream: Option<FormatModel>,
    last_requested_sample_rate: u32,
)
    ensures
        ({
            let after = crate::protocol::message_effect(
                ServerMessage::StreamEnd,
                shared,
                stream,
            ).shared;
            let messages = tick_messages(last_requested_sample_rate, after);
            &&& messages.len() > 0
            &&& messages[0] matches ClientMessageModel::ClientState(state) && state.state
                == PlayerSyncState::Synchronized
        }),
{
}

/// What is decoded from a stream that was taken up is whole, and plays at the rate of
/// the host, where that is known.
pub proof fn law_taken_up_audio_plays_at_host_rate(
    data: Seq<u8>,
    stream: FormatModel,
    play_time_us: i64,
    host_sample_rate_hz: u32,
)
    requires
        crate::protocol::is_playable(stream, host_sample_rate_hz),
        host_sample_rate_hz > 0,
    ensures
        crate::protocol::decoded_chunk(data, stream, play_time_us) matches Some(chunk)
            ==> chunk.well_formed() && chunk.frame_count > 0 && chunk.sample_rate_hz
            == crate::playback::playing_rate(host_sample_rate_hz),
{
    if let Some(chunk) = crate::protocol::decoded_chunk(data, stream, play_time_us) {
        let n = chunk.samples.len() as int;
        let channels = stream.channels as int;
        assert(n == (n / channels) * channels && n / channels > 0) by (nonlinear_arith)
            requires
                n % channels == 0,
                n > 0,
                channels > 0,
        ;
    }
}

/// A command during a connection that names a usable server has the session connect to
/// that server next. Another server than the active one ends the connection, so that it
/// is connected to at once, and becomes the configured one; nothing else changes.
pub proof fn law_server_switch_is_followed(
    raw: Seq<char>,
    url: Seq<char>,
    session: SessionModel,
    shared: SharedModel,
)
    requires
        crate::config::usable_server_url(raw) == Some(url),
    ensures
        ({
            let effect = command_effect(Some(CommandModel::SetServerUrl(raw)), session, shared);
            &&& effect.session.active_server_url == Some(url)
            &&& effect.session.active_client_name == session.active_client_name
            &&& effect.session.pending_controller_command == session.pending_controller_command
            &&& effect.session.reconnect_delay_ms == session.reconnect_delay_ms
            &&& session.active_server_url != Some(url) ==> {
                &&& effect.shared.configured_server_url == url
                &&& effect.shared == (SharedModel { configured_server_url: url, ..shared })
                &&& effect.flow == Flow::Leave(Departure::ReconnectNow)
            }
            &&& session.active_server_url == Some(url) ==> {
                &&& effect.shared == shared
                &&& effect.flow == Flow::Stay
                &&& effect.messages.len() == 0
            }
        }),
{
}

/// A command during a connection that gives a usable name has the session use that name.
/// Another name than the active one ends the connection, so that the server is greeted
/// with it, and becomes the configured one; nothing else changes.
pub proof fn law_name_switch_is_followed(
    raw: Seq<char>,
    name: Seq<char>,
    session: SessionModel,
    shared: SharedModel,
)
    requires
        crate::config::client_name(raw) == Some(name),
    ensures
        ({
            let effect = command_effect(Some(CommandModel::SetClientName(raw)), session, shared);
            &&& effect.session.active_client_name == name
            &&& effect.session.active_server_url == session.active_server_url
            &&& effect.session.pending_controller_command == session.pending_controller_command
            &&& effect.session.reconnect_delay_ms == session.reconnect_delay_ms
            &&& session.active_client_name != name ==> {
                &&& effect.shared.configured_client_name == name
                &&& effect.shared == (SharedModel { configured_client_name: name, ..shared })
                &&& effect.flow == Flow::Leave(Departure::ReconnectNow)
            }
            &&& session.active_client_name == name ==> {
                &&& effect.shared == shared
                &&& effect.flow == Flow::Stay
                &&& effect.messages.len() == 0
            }
        }),
{
}

/// A server or a name that stands for none is passed over, during a connection and
/// between connections.
pub proof fn law_unusable_settings_are_ignored(
    raw: Seq<char>,
    session: SessionModel,
    shared: SharedModel,
)
    ensures
        crate::config::usable_server_url(raw) is None ==> {
            let command = CommandModel::SetServerUrl(raw);
            let effect = command_effect(Some(command), session, shared);
            &&& effect.session == session && effect.shared == shared
            &&& effect.flow == Flow::Stay && effect.messages.len() == 0
            &&& after_polled_command(command, session, shared) == (session, shared)
        },
        crate::config::client_name(raw) is None ==> {
            let command = CommandModel::SetClientName(raw);
            let effect = command_effect(Some(command), session, shared);
            &&& effect.session == session && effect.shared == shared
            &&& effect.flow == Flow::Stay && effect.messages.len() == 0
            &&& after_polled_command(command, session, shared) == (session, shared)
        },
{
}

/// During a connection a controller command is sent as it is, once, and the connection
/// stays. The worker ends at a shutdown, and where no more commands can come.
pub proof fn law_other_commands_leave_settings(
    text: Seq<char>,
    session: SessionModel,
    shared: SharedModel,
)
    ensures
        ({
            let sent = command_effect(
                Some(CommandModel::SendControllerCommand(text)),
                session,
                shared,
            );
            &&& sent.messages.len() == 1
            &&& sent.messages[0] == ClientMessageModel::ClientCommand(text)
            &&& sent.flow == Flow::Stay
            &&& sent.session == session && sent.shared == shared
        }),
        ({
            let shut = command_effect(Some(CommandModel::Shutdown), session, shared);
            let lost = command_effect(None, session, shared);
            &&& shut.flow == Flow::Leave(Departure::Stop)
            &&& lost.flow == Flow::Leave(Departure::Stop)
            &&& lost.messages.len() == 0
            &&& shut.session == session && shut.shared == shared
            &&& lost.session == session && lost.shared == shared
        }),
{
}

/// The session's server and name are the configured ones: they are at the start, and no
/// command changes that, whenever it comes.
pub proof fn law_settings_stay_in_step(
    command: WorkerCommand,
    reason: WaitReason,
    session: SessionModel,
    shared: SharedModel,
)
    requires
        session.active_server_url matches Some(active) ==> shared.configured_server_url == active,
        session.active_client_name == shared.configured_client_name,
    ensures
        ({
            let during = command_effect(Some(command@), session, shared);
            let polled = after_polled_command(command@, session, shared);
            let waited = after_wait_action(
                action_after(WaitEvent::Command(command)),
                reason,
                session,
                shared,
            );
            &&& during.session.active_server_url matches Some(active)
                ==> during.shared.configured_server_url == active
            &&& polled.0.active_server_url matches Some(active)
                ==> polled.1.configured_server_url == active
            &&& waited.0.active_server_url matches Some(active)
                ==> waited.1.configured_server_url == active
            &&& during.session.active_client_name == during.shared.configured_client_name
            &&& polled.0.active_client_name == polled.1.configured_client_name
            &&& waited.0.active_client_name == waited.1.configured_client_name
        }),
{
}

/// Between connections a command that names a usable server has the session connect to
/// it within a tenth of a second, whether it is found by polling or ends a wait.
pub proof fn law_server_switch_between_connections(
    raw: String,
    url: Seq<char>,
    reason: WaitReason,
    session: SessionModel,
    shared: SharedModel,
)
    requires
        crate::config::usable_server_url(raw@) == Some(url),
    ensures
        ({
            let polled = after_polled_command(CommandModel::SetServerUrl(raw@), session, shared);
            let event = WaitEvent::Command(WorkerCommand::SetServerUrl(raw));
            &&& polled.0.active_server_url == Some(url)
            &&& polled.0.reconnect_delay_ms == 100
            &&& polled.0.active_client_name == session.active_client_name
            &&& polled.0.pending_controller_command == session.pending_controller_command
            &&& polled.1 == (SharedModel { configured_server_url: url, ..shared })
            &&& after_wait_action(action_after(event), reason, session, shared) == polled
        }),
{
}

/// Between connections a usable client name is used within a tenth of a second, whether
/// it is found by polling or ends a wait.
pub proof fn law_name_switch_between_connections(
    raw: String,
    name: Seq<char>,
    reason: WaitReason,
    session: SessionModel,
    shared: SharedModel,
)
    requires
        crate::config::client_name(raw@) == Some(name),
    ensures
        ({
            let polled = after_polled_command(CommandModel::SetClientName(raw@), session, shared);
            let event = WaitEvent::Command(WorkerCommand::SetClientName(raw));
            &&& polled.0.active_client_name == name
            &&& polled.0.reconnect_delay_ms == 100
            &&& polled.0.active_server_url == session.active_server_url
            &&& polled.0.pending_controller_command == session.pending_controller_command
            &&& polled.1 == (SharedModel { configured_client_name: name, ..shared })
            &&& after_wait_action(action_after(event), reason, session, shared) == polled
        }),
{
}

/// A controller command that comes between connections is kept for the next one, which
/// then comes soon, unless there is no server to connect to.
pub proof fn law_controller_command_is_kept(
    text: String,
    session: SessionModel,
    shared: SharedModel,
)
    ensures
        ({
            let event = WaitEvent::Command(WorkerCommand::SendControllerCommand(text));
            let idle = after_wait_action(
                action_after(event),
                WaitReason::NoServer,
                session,
                shared,
            );
            let between = after_wait_action(
                action_after(event),
                WaitReason::BetweenConnections,
                session,
                shared,
            );
            let polled = after_polled_command(
                CommandModel::SendControllerCommand(text@),
                session,
                shared,
            );
            &&& polled.0.pending_controller_command == Some(text@)
            &&& polled.0.reconnect_delay_ms == session.reconnect_delay_ms
            &&& polled.0.active_server_url == session.active_server_url
            &&& polled.0.active_client_name == session.active_client_name
            &&& polled.1 == shared
            &&& idle == polled
            &&& between.0 == (SessionModel { reconnect_delay_ms: 100, ..polled.0 })
            &&& between.1 == shared
        }),
{
}

/// A wait that just elapses changes nothing but the delay: between connections it
/// doubles, up to half a minute, and without a server it stays. The worker ends at a
/// shutdown, and where no more commands can come, and otherwise goes on.
pub proof fn law_waits_grow_longer(event: WaitEvent, session: SessionModel, shared: SharedModel)
    requires
        session.reconnect_delay_ms <= 30_000,
    ensures
        ({
            let idle = after_wait_action(
                action_after(WaitEvent::Elapsed),
                WaitReason::NoServer,
                session,
                shared,
            );
            let between = after_wait_action(
                action_after(WaitEvent::Elapsed),
                WaitReason::BetweenConnections,
                session,
                shared,
            );
            let doubled = 2 * session.reconnect_delay_ms;
            &&& idle == (session, shared)
            &&& between.1 == shared
            &&& between.0.reconnect_delay_ms == if doubled < 30_000 {
                doubled
            } else {
                30_000
            }
            &&& between.0.active_server_url == session.active_server_url
            &&& between.0.active_client_name == session.active_client_name
            &&& between.0.pending_controller_command == session.pending_controller_command
        }),
        action_after(event) is Stop <==> event is Disconnected || event == WaitEvent::Command(
            WorkerCommand::Shutdown,
        ),
{
}

/// Polling goes on until no command is left, and ends the worker at a shutdown, and
/// where no more commands can come.
pub proof fn law_polling_takes_every_command(command: WorkerCommand)
    ensures
        poll_outcome(PolledCommand::Empty) == PollOutcome::Proceed,
        poll_outcome(PolledCommand::Disconnected) == PollOutcome::Stop,
        command == WorkerCommand::Shutdown ==> poll_outcome(PolledCommand::Command(command))
            == PollOutcome::Stop,
        command != WorkerCommand::Shutdown ==> poll_outcome(PolledCommand::Command(command))
            == PollOutcome::PollAgain,
{
}

/// A connection opens with the player's state, and nothing else where no controller
/// command is pending.
pub proof fn law_connection_opens_with_the_state(session: SessionModel, shared: SharedModel)
    ensures
        ({
            let messages = opening_messages(session, shared);
            &&& messages[0] matches ClientMessageModel::ClientState(state)
            &&& state.volume <= 100 && state.muted == shared.remote_muted
            &&& shared.remote_volume <= 100 ==> state.volume == shared.remote_volume
            &&& state.state == PlayerSyncState::Error <==> shared.sync_state == SyncState::Error
            &&& session.pending_controller_command is None ==> messages.len() == 1
            &&& session.pending_controller_command is Some ==> messages.len() == 2
        }),
{
}

/// At a tick the player's state is reported just where it is marked, and a format is
/// asked for just where the host's rate is known and another than was asked for last:
/// stereo PCM of 24 bits at that rate. The report comes first.
pub proof fn law_tick_reports_what_changed(last_requested_sample_rate: u32, shared: SharedModel)
    ensures
        ({
            let messages = tick_messages(last_requested_sample_rate, shared);
            let rate = shared.host_sample_rate_hz;
            let asked = rate > 0 && rate != last_requested_sample_rate;
            &&& messages.len() == (if shared.state_dirty {
                1int
            } else {
                0
            }) + (if asked {
                1int
            } else {
                0
            })
            &&& shared.state_dirty ==> {
                &&& messages[0] matches ClientMessageModel::ClientState(state)
                &&& state.volume <= 100 && state.muted == shared.remote_muted
                &&& shared.remote_volume <= 100 ==> state.volume == shared.remote_volume
                &&& state.state == PlayerSyncState::Error <==> shared.sync_state
                    == SyncState::Error
            }
            &&& asked ==> messages.last() == ClientMessageModel::StreamRequestFormat(
                FormatModel { codec: "pcm"@, channels: 2, sample_rate: rate, bit_depth: 24 },
            )
        }),
{
}

/// Without a connection nothing but what belongs to one is gone: the settings, the
/// volume, the host's values and the counts stay.
pub proof fn law_offline_keeps_settings(shared: SharedModel)
    ensures
        offline(shared).group_playback_state == GroupPlaybackState::Unknown,
        offline(shared) == (SharedModel {
            connection_state: offline(shared).connection_state,
            group_playback_state: offline(shared).group_playback_state,
            stream_active: offline(shared).stream_active,
            clear_requested: offline(shared).clear_requested,
            now_playing_artist: offline(shared).now_playing_artist,
            now_playing_title: offline(shared).now_playing_title,
            ..shared
        }),
{
}

/// Audio without a stream changes nothing. Audio that cannot be decoded is counted, and
/// changes nothing else; the queue is not touched.
pub proof fn law_unplayable_audio_is_counted(
    data: Option<&[u8]>,
    stream: Option<ActiveStream>,
    play_time_us: i64,
    producer_before: rtrb::Producer<TimestampedChunk>,
    before: SharedModel,
    producer_after: rtrb::Producer<TimestampedChunk>,
    after: SharedModel,
)
    requires
        audio_taken(
            data,
            stream,
            play_time_us,
            producer_before,
            before,
            producer_after,
            after,
        ),
        before.diagnostics.decode_error_count < u64::MAX,
    ensures
        data is None || stream is None ==> after == before && producer_after == producer_before,
        data matches Some(bytes) ==> stream matches Some(format) ==> {
            crate::protocol::decoded_chunk(bytes@, format@, play_time_us) is None ==> {
                &&& producer_after == producer_before
                &&& after.diagnostics.decode_error_count == before.diagnostics.decode_error_count
                    + 1
                &&& after.diagnostics.queue_overflow_count
                    == before.diagnostics.queue_overflow_count
                &&& after.diagnostics.late_chunk_count == before.diagnostics.late_chunk_count
                &&& after == (SharedModel { diagnostics: after.diagnostics, ..before })
            }
        },
        flow_after_audio(data) == Flow::Stay <==> data is Some,
        data is None ==> flow_after_audio(data) == Flow::Leave(Departure::ReconnectLater),
{
}

/// Audio of a stream that can be decoded is offered to the queue, once, and before any
/// other. Where the queue takes it, nothing else changes; where it does not, that is
/// counted and is an error of synchronization to be reported. A queue with slots that
/// were never used takes it.
pub proof fn law_decoded_audio_is_offered(
    bytes: &[u8],
    stream: ActiveStream,
    play_time_us: i64,
    producer_before: rtrb::Producer<TimestampedChunk>,
    before: SharedModel,
    producer_after: rtrb::Producer<TimestampedChunk>,
    after: SharedModel,
)
    requires
        audio_taken(
            Some(bytes),
            Some(stream),
            play_time_us,
            producer_before,
            before,
            producer_after,
            after,
        ),
        crate::protocol::decoded_chunk(bytes@, stream@, play_time_us) is Some,
        before.diagnostics.queue_overflow_count < u64::MAX,
    ensures
        ({
            let chunk = crate::protocol::decoded_chunk(bytes@, stream@, play_time_us)->0;
            let offers = crate::queue::offered(producer_before);
            let left = crate::queue::offered(producer_after);
            &&& offers.len() == left.len() + 1
            &&& offers[0].0@ == chunk
            &&& forall|i: int|
                0 <= i < left.len() ==> #[trigger] left[i].0@ == offers[i + 1].0@ && left[i].1
                    == offers[i + 1].1
            &&& crate::queue::untouched_slots(producer_before) > 0 ==> offers[0].1
            &&& offers[0].1 ==> after == before
            &&& !offers[0].1 ==> {
                &&& after.sync_state == SyncState::Error
                &&& before.sync_state != SyncState::Error ==> after.state_dirty
                &&& before.sync_state == SyncState::Error ==> after.state_dirty
                    == before.state_dirty
                &&& after.diagnostics.queue_overflow_count
                    == before.diagnostics.queue_overflow_count + 1
                &&& after.diagnostics.decode_error_count == before.diagnostics.decode_error_count
                &&& after.diagnostics.late_chunk_count == before.diagnostics.late_chunk_count
                &&& after == (SharedModel {
                    sync_state: after.sync_state,
                    state_dirty: after.state_dirty,
                    diagnostics: after.diagnostics,
                    ..before
                })
            }
        }),
{
    let offers = crate::queue::offered(producer_before);
    let left = crate::queue::offered(producer_after);
    let all = offer_models(offers);
    let rest = offer_models(left);
    let chunk = crate::protocol::decoded_chunk(bytes@, stream@, play_time_us)->0;
    let joint = seq![(chunk, all[0].1)] + rest;
    assert(all == joint);
    assert(joint.len() == rest.len() + 1 && joint[0].0 == chunk);
    assert(all[0] == (offers[0].0@, offers[0].1));
    assert forall|i: int| 0 <= i < left.len() implies #[trigger] left[i].0@ == offers[i + 1].0@
        && left[i].1 == offers[i + 1].1 by {
        assert(joint[i + 1] == rest[i]);
        assert(rest[i] == (left[i].0@, left[i].1));
        assert(all[i + 1] == (offers[i + 1].0@, offers[i + 1].1));
    }
}

/// A session starts with a second's delay, nothing pending, and the server and the name
/// that are then configured.
pub proof fn law_first_session_takes_its_settings(
    server_url: Seq<char>,
    client_name: Seq<char>,
    from_environment: Option<Seq<char>>,
)
    ensures
        ({
            let session = first_session(server_url, client_name, from_environment);
            &&& session.reconnect_delay_ms == 1_000
            &&& session.pending_controller_command is None
            &&& session.active_server_url == crate::config::usable_server_url(server_url)
            &&& session.active_server_url matches Some(url) ==> crate::config::configured_url(
                server_url,
            ) == url
            &&& crate::config::client_name(client_name) matches Some(name)
                ==> session.active_client_name == name
        }),
{
}

/// The model of a session shows all that the session keeps.
pub proof fn law_session_is_seen_whole(a: NetworkSession, b: NetworkSession)
    requires
        a@ == b@,
    ensures
        a.reconnect_delay_ms == b.reconnect_delay_ms,
        a.active_client_name@ == b.active_client_name@,
        a.active_server_url is Some <==> b.active_server_url is Some,
        a.active_server_url matches Some(url) ==> url@ == b.active_server_url->0@,
        a.pending_controller_command is Some <==> b.pending_controller_command is Some,
        a.pending_controller_command matches Some(text) ==> text@
            == b.pending_controller_command->0@,
{
}

} // verus!
