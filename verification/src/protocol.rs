//! The messages exchanged with a Sendspin server and what they do.

use vstd::prelude::*;

use crate::clock::{saturating_sum, unix_time_micros};
use crate::constants::{
    BUFFER_CAPACITY_BYTES, FALLBACK_STREAM_SAMPLE_RATE_HZ, PREFERRED_PCM_BIT_DEPTH, PRODUCT_NAME,
    UNSYNCHRONIZED_PLAY_DELAY_US,
};
use crate::pcm::decode_pcm_samples;
use crate::queue::{ChunkModel, TimestampedChunk};
use crate::state::{
    GroupPlaybackState, PlayerSyncState, SharedModel, SharedState, SyncState,
};
use crate::text::same_text;

verus! {

// ---------------------------------------------------------------------------
// Formats

/// An audio format.
#[derive(Debug)]
pub struct AudioFormatSpec {
    pub codec: String,
    pub channels: u8,
    pub sample_rate: u32,
    pub bit_depth: u8,
}

/// The format of the stream being received.
#[derive(Debug)]
pub struct ActiveStream {
    pub codec: String,
    pub sample_rate_hz: u32,
    pub channels: u8,
    pub bit_depth: u8,
}

/// What a format consists of.
pub struct FormatModel {
    pub codec: Seq<char>,
    pub channels: u8,
    pub sample_rate: u32,
    pub bit_depth: u8,
}

impl View for AudioFormatSpec {
    type V = FormatModel;

    open spec fn view(&self) -> FormatModel {
        FormatModel {
            codec: self.codec@,
            channels: self.channels,
            sample_rate: self.sample_rate,
            bit_depth: self.bit_depth,
        }
    }
}

impl View for ActiveStream {
    type V = FormatModel;

    open spec fn view(&self) -> FormatModel {
        FormatModel {
            codec: self.codec@,
            channels: self.channels,
            sample_rate: self.sample_rate_hz,
            bit_depth: self.bit_depth,
        }
    }
}

/// The format of an optional stream.
pub open spec fn opt_stream(stream: Option<ActiveStream>) -> Option<FormatModel> {
    match stream {
        Some(s) => Some(s@),
        None => None,
    }
}

/// The optional format.
pub open spec fn opt_format(format: Option<AudioFormatSpec>) -> Option<FormatModel> {
    match format {
        Some(f) => Some(f@),
        None => None,
    }
}

/// The sample rate that streams are to have for a host's rate: the host's own, where it
/// is known.
pub open spec fn stream_rate_of(host_sample_rate_hz: u32) -> u32 {
    if host_sample_rate_hz == 0 {
        FALLBACK_STREAM_SAMPLE_RATE_HZ
    } else {
        host_sample_rate_hz
    }
}

/// The sample rate that streams are to have for a host's rate.
pub fn stream_rate(host_sample_rate_hz: u32) -> (r: u32)
    ensures
        r == stream_rate_of(host_sample_rate_hz),
{
    if host_sample_rate_hz == 0 {
        FALLBACK_STREAM_SAMPLE_RATE_HZ
    } else {
        host_sample_rate_hz
    }
}

/// The format asked of servers: stereo PCM of the preferred depth.
pub open spec fn preferred_format(sample_rate: u32) -> FormatModel {
    FormatModel {
        codec: "pcm"@,
        channels: 2,
        sample_rate,
        bit_depth: PREFERRED_PCM_BIT_DEPTH,
    }
}

/// Whether a stream can be played: integer PCM of 16, 24 or 32 bits, mono or stereo,
/// at the rate that the host's rate calls for.
pub open spec fn is_playable(format: FormatModel, host_sample_rate_hz: u32) -> bool {
    &&& format.codec == "pcm"@
    &&& format.sample_rate == stream_rate_of(host_sample_rate_hz)
    &&& format.channels == 1 || format.channels == 2
    &&& crate::pcm::sample_width(format.bit_depth) is Some
}

/// Whether a stream can be played.
pub fn playable(format: &AudioFormatSpec, host_sample_rate_hz: u32) -> (r: bool)
    ensures
        r == is_playable(format@, host_sample_rate_hz),
{
    same_text(&format.codec, "pcm") && format.sample_rate == stream_rate(host_sample_rate_hz) && (
    format.channels == 1 || format.channels == 2) && (format.bit_depth == 16 || format.bit_depth
        == 24 || format.bit_depth == 32)
}

/// What is asked of servers can be played.
pub proof fn law_preferred_format_is_playable(host_sample_rate_hz: u32)
    ensures
        is_playable(preferred_format(stream_rate_of(host_sample_rate_hz)), host_sample_rate_hz),
{
}

// ---------------------------------------------------------------------------
// Messages to the server

/// Why the client says goodbye.
#[derive(Clone, Copy, Debug, PartialEq, Eq, Structural)]
pub enum GoodbyeReason {
    Restart,
}

/// The player's state as it is reported.
#[derive(Clone, Copy, Debug, PartialEq, Eq, Structural)]
pub struct PlayerState {
    pub state: PlayerSyncState,
    pub volume: u8,
    pub muted: bool,
}

/// A message to the server.
#[derive(Debug)]
pub enum ClientMessage {
    /// Asks for another stream format.
    StreamRequestFormat(AudioFormatSpec),
    /// Reports the player's state.
    ClientState(PlayerState),
    /// Sends a controller command.
    ClientCommand(String),
    /// Says goodbye.
    ClientGoodbye(GoodbyeReason),
}

/// A message to the server with its texts.
pub enum ClientMessageModel {
    StreamRequestFormat(FormatModel),
    ClientState(PlayerState),
    ClientCommand(Seq<char>),
    ClientGoodbye(GoodbyeReason),
}

impl View for ClientMessage {
    type V = ClientMessageModel;

    open spec fn view(&self) -> ClientMessageModel {
        match self {
            ClientMessage::StreamRequestFormat(format) => ClientMessageModel::StreamRequestFormat(
                format@,
            ),
            ClientMessage::ClientState(state) => ClientMessageModel::ClientState(*state),
            ClientMessage::ClientCommand(command) => ClientMessageModel::ClientCommand(command@),
            ClientMessage::ClientGoodbye(reason) => ClientMessageModel::ClientGoodbye(*reason),
        }
    }
}

/// A sequence of messages to the server with their texts.
pub open spec fn message_models(messages: Seq<ClientMessage>) -> Seq<ClientMessageModel> {
    messages.map_values(|m: ClientMessage| m@)
}

/// The player's state in a shared state; the volume is a percentage.
pub open spec fn reported_state(shared: SharedModel) -> PlayerState {
    PlayerState {
        state: match shared.sync_state {
            SyncState::Synchronized => PlayerSyncState::Synchronized,
            SyncState::Error => PlayerSyncState::Error,
        },
        volume: if shared.remote_volume > 100 {
            100
        } else {
            shared.remote_volume
        },
        muted: shared.remote_muted,
    }
}

/// The message that reports the player's state.
pub fn client_state_message(shared: &SharedState) -> (r: ClientMessage)
    ensures
        r@ == ClientMessageModel::ClientState(reported_state(shared@)),
{
    ClientMessage::ClientState(
        PlayerState {
            state: shared.sync_state().as_protocol(),
            volume: if shared.remote_volume > 100 {
                100
            } else {
                shared.remote_volume
            },
            muted: shared.remote_muted,
        },
    )
}

/// The format asked of servers.
pub fn pcm_format_request(sample_rate_hz: u32) -> (r: AudioFormatSpec)
    ensures
        r@ == preferred_format(sample_rate_hz),
{
    AudioFormatSpec {
        codec: "pcm".to_owned(),
        channels: 2,
        sample_rate: sample_rate_hz,
        bit_depth: PREFERRED_PCM_BIT_DEPTH,
    }
}

/// What the player supports.
#[derive(Debug)]
pub struct PlayerV1Support {
    pub supported_formats: Vec<AudioFormatSpec>,
    pub buffer_capacity: u32,
    pub supported_commands: Vec<String>,
}

/// What the player supports, with its texts.
pub struct SupportModel {
    pub supported_formats: Seq<FormatModel>,
    pub buffer_capacity: u32,
    pub supported_commands: Seq<Seq<char>>,
}

/// The texts of a list of strings.
pub open spec fn texts(strings: Seq<String>) -> Seq<Seq<char>> {
    strings.map_values(|s: String| s@)
}

impl View for PlayerV1Support {
    type V = SupportModel;

    open spec fn view(&self) -> SupportModel {
        SupportModel {
            supported_formats: self.supported_formats@.map_values(|f: AudioFormatSpec| f@),
            buffer_capacity: self.buffer_capacity,
            supported_commands: texts(self.supported_commands@),
        }
    }
}

/// What a player supports in a host of the given rate: just one format, so that the
/// server cannot choose another, and the volume and mute commands.
pub open spec fn player_support(host_sample_rate_hz: u32) -> SupportModel {
    SupportModel {
        supported_formats: seq![preferred_format(stream_rate_of(host_sample_rate_hz))],
        buffer_capacity: BUFFER_CAPACITY_BYTES,
        supported_commands: seq!["volume"@, "mute"@],
    }
}

/// What the player supports in a host of the given rate.
pub fn build_player_support(host_sample_rate_hz: u32) -> (r: PlayerV1Support)
    ensures
        r@ == player_support(host_sample_rate_hz),
{
    let format = pcm_format_request(stream_rate(host_sample_rate_hz));
    let mut supported_formats: Vec<AudioFormatSpec> = Vec::new();
    supported_formats.push(format);
    let mut supported_commands: Vec<String> = Vec::new();
    supported_commands.push("volume".to_owned());
    supported_commands.push("mute".to_owned());
    let r = PlayerV1Support {
        supported_formats,
        buffer_capacity: BUFFER_CAPACITY_BYTES,
        supported_commands,
    };
    assert(r@.supported_formats =~= player_support(host_sample_rate_hz).supported_formats);
    assert(r@.supported_commands =~= player_support(host_sample_rate_hz).supported_commands);
    r
}

/// The device as it is reported.
#[derive(Debug)]
pub struct DeviceInfo {
    pub product_name: String,
    pub manufacturer: String,
    pub software_version: String,
}

/// The greeting to a server.
#[derive(Debug)]
pub struct ClientHello {
    pub client_id: String,
    pub name: String,
    pub version: u32,
    pub supported_roles: Vec<String>,
    pub device_info: DeviceInfo,
    pub player_v1_support: PlayerV1Support,
}

/// The greeting to a server with its texts.
pub struct HelloModel {
    pub client_id: Seq<char>,
    pub name: Seq<char>,
    pub version: u32,
    pub supported_roles: Seq<Seq<char>>,
    pub product_name: Seq<char>,
    pub manufacturer: Seq<char>,
    pub software_version: Seq<char>,
    pub player_v1_support: SupportModel,
}

impl View for ClientHello {
    type V = HelloModel;

    open spec fn view(&self) -> HelloModel {
        HelloModel {
            client_id: self.client_id@,
            name: self.name@,
            version: self.version,
            supported_roles: texts(self.supported_roles@),
            product_name: self.device_info.product_name@,
            manufacturer: self.device_info.manufacturer@,
            software_version: self.device_info.software_version@,
            player_v1_support: self.player_v1_support@,
        }
    }
}

/// The greeting of a client with the given identity, name and support.
pub open spec fn hello_of(
    client_id: Seq<char>,
    client_name: Seq<char>,
    support: SupportModel,
    software_version: Seq<char>,
) -> HelloModel {
    HelloModel {
        client_id,
        name: client_name,
        version: 1,
        supported_roles: seq!["player@v1"@, "controller@v1"@, "metadata@v1"@],
        product_name: PRODUCT_NAME@,
        manufacturer: "Sendspin"@,
        software_version,
        player_v1_support: support,
    }
}

/// The greeting of a client.
pub fn build_client_hello(
    client_id: &str,
    client_name: &str,
    player_support: PlayerV1Support,
    software_version: &str,
) -> (r: ClientHello)
    ensures
        r@ == hello_of(client_id@, client_name@, player_support@, software_version@),
{
    let mut supported_roles: Vec<String> = Vec::new();
    supported_roles.push("player@v1".to_owned());
    supported_roles.push("controller@v1".to_owned());
    supported_roles.push("metadata@v1".to_owned());
    let r = ClientHello {
        client_id: client_id.to_owned(),
        name: client_name.to_owned(),
        version: 1,
        supported_roles,
        device_info: DeviceInfo {
            product_name: PRODUCT_NAME.to_owned(),
            manufacturer: "Sendspin".to_owned(),
            software_version: software_version.to_owned(),
        },
        player_v1_support: player_support,
    };
    assert(r@.supported_roles =~= seq!["player@v1"@, "controller@v1"@, "metadata@v1"@]);
    r
}

// ---------------------------------------------------------------------------
// Messages from the server

/// Whether a group is playing, as servers report it.
#[derive(Clone, Copy, Debug, PartialEq, Eq, Structural)]
pub enum PlaybackState {
    Playing,
    Stopped,
}

/// The metadata of what is playing.
#[derive(Debug)]
pub struct TrackMetadata {
    pub artist: Option<String>,
    pub title: Option<String>,
}

/// A command to the player.
#[derive(Debug)]
pub struct PlayerCommand {
    pub command: String,
    pub volume: Option<u8>,
    pub mute: Option<bool>,
}

/// A message from the server, as far as the player reads it.
#[derive(Debug)]
pub enum ServerMessage {
    StreamStart(Option<AudioFormatSpec>),
    StreamClear,
    StreamEnd,
    ServerState(Option<TrackMetadata>),
    GroupUpdate(Option<PlaybackState>),
    ServerCommand(Option<PlayerCommand>),
    Other,
}

/// What a message from the server leads to.
pub struct MessageEffect {
    pub shared: SharedModel,
    pub stream: Option<FormatModel>,
    /// The format to ask for, if any.
    pub request: Option<FormatModel>,
}

/// What a message from the server leads to. A stream that can be played is taken up;
/// another is refused with a request for one that can. What is queued is dropped by a
/// clear, by an end, and by a start, unless the start only changes the format of a
/// stream that is there. The end of a stream stops playback and is to be reported.
/// Metadata, group updates and the volume and mute commands are taken over, the
/// commands to be confirmed.
pub open spec fn message_effect(
    message: ServerMessage,
    shared: SharedModel,
    stream: Option<FormatModel>,
) -> MessageEffect {
    match message {
        ServerMessage::StreamStart(Some(format)) => if is_playable(
            format@,
            shared.host_sample_rate_hz,
        ) {
            MessageEffect {
                shared: (SharedModel {
                    stream_active: true,
                    group_playback_state: GroupPlaybackState::Playing,
                    clear_requested: shared.clear_requested || stream is None,
                    ..shared
                }).with_sync_state(SyncState::Synchronized),
                stream: Some(format@),
                request: None,
            }
        } else {
            MessageEffect {
                shared: SharedModel { stream_active: false, clear_requested: true, ..shared },
                stream: None,
                request: Some(preferred_format(stream_rate_of(shared.host_sample_rate_hz))),
            }
        },
        ServerMessage::StreamClear => MessageEffect {
            shared: (SharedModel { clear_requested: true, ..shared }).with_sync_state(
                SyncState::Synchronized,
            ),
            stream,
            request: None,
        },
        ServerMessage::StreamEnd => MessageEffect {
            shared: (SharedModel {
                stream_active: false,
                group_playback_state: GroupPlaybackState::Stopped,
                clear_requested: true,
                state_dirty: true,
                ..shared
            }).with_sync_state(SyncState::Synchronized),
            stream: None,
            request: None,
        },
        ServerMessage::ServerState(Some(metadata)) => MessageEffect {
            shared: shared.with_now_playing(
                crate::config::opt_text(metadata.artist),
                crate::config::opt_text(metadata.title),
            ),
            stream,
            request: None,
        },
        ServerMessage::GroupUpdate(Some(playback)) => MessageEffect {
            shared: SharedModel {
                group_playback_state: match playback {
                    PlaybackState::Playing => GroupPlaybackState::Playing,
                    PlaybackState::Stopped => GroupPlaybackState::Stopped,
                },
                ..shared
            },
            stream,
            request: None,
        },
        ServerMessage::ServerCommand(Some(command)) => MessageEffect {
            shared: if command.command@ == "volume"@ {
                match command.volume {
                    Some(volume) => SharedModel {
                        remote_volume: if volume > 100 {
                            100
                        } else {
                            volume
                        },
                        state_dirty: true,
                        ..shared
                    },
                    None => shared,
                }
            } else if command.command@ == "mute"@ {
                match command.mute {
                    Some(muted) => SharedModel { remote_muted: muted, state_dirty: true, ..shared },
                    None => shared,
                }
            } else {
                shared
            },
            stream,
            request: None,
        },
        _ => MessageEffect { shared, stream, request: None },
    }
}

/// Takes in a message from the server and returns the format to ask for, if any.
pub fn handle_message(
    message: ServerMessage,
    shared: &mut SharedState,
    active_stream: &mut Option<ActiveStream>,
) -> (r: Option<AudioFormatSpec>)
    ensures
        final(shared)@ == message_effect(
            message,
            old(shared)@,
            opt_stream(*old(active_stream)),
        ).shared,
        opt_stream(*final(active_stream)) == message_effect(
            message,
            old(shared)@,
            opt_stream(*old(active_stream)),
        ).stream,
        opt_format(r) == message_effect(
            message,
            old(shared)@,
            opt_stream(*old(active_stream)),
        ).request,
{
    match message {
        ServerMessage::StreamStart(None) => None,
        ServerMessage::StreamStart(Some(player)) => {
            if !playable(&player, shared.host_sample_rate_hz) {
                *active_stream = None;
                shared.set_stream_active(false);
                shared.request_clear();
                return Some(pcm_format_request(stream_rate(shared.host_sample_rate_hz)));
            }
            let fresh = active_stream.is_none();
            *active_stream = Some(
                ActiveStream {
                    codec: player.codec,
                    sample_rate_hz: player.sample_rate,
                    channels: player.channels,
                    bit_depth: player.bit_depth,
                },
            );
            shared.set_stream_active(true);
            shared.set_group_playback_state(GroupPlaybackState::Playing);
            if fresh {
                shared.request_clear();
            }
            shared.set_sync_state(SyncState::Synchronized);
            None
        },
        ServerMessage::StreamClear => {
            shared.request_clear();
            shared.set_sync_state(SyncState::Synchronized);
            None
        },
        ServerMessage::StreamEnd => {
            *active_stream = None;
            shared.set_stream_active(false);
            shared.set_group_playback_state(GroupPlaybackState::Stopped);
            shared.request_clear();
            shared.set_sync_state(SyncState::Synchronized);
            shared.mark_state_dirty();
            None
        },
        ServerMessage::ServerState(metadata) => {
            if let Some(metadata) = metadata {
                let artist = match &metadata.artist {
                    Some(text) => Some(text.as_str()),
                    None => None,
                };
                let title = match &metadata.title {
                    Some(text) => Some(text.as_str()),
                    None => None,
                };
                shared.set_now_playing(artist, title);
            }
            None
        },
        ServerMessage::GroupUpdate(playback_state) => {
            if let Some(playback_state) = playback_state {
                let mapped_state = match playback_state {
                    PlaybackState::Playing => GroupPlaybackState::Playing,
                    PlaybackState::Stopped => GroupPlaybackState::Stopped,
                };
                shared.set_group_playback_state(mapped_state);
            }
            None
        },
        ServerMessage::ServerCommand(player_command) => {
            if let Some(player_command) = player_command {
                if same_text(&player_command.command, "volume") {
                    if let Some(volume) = player_command.volume {
                        shared.remote_volume = if volume > 100 {
                            100
                        } else {
                            volume
                        };
                        shared.mark_state_dirty();
                    }
                } else if same_text(&player_command.command, "mute") {
                    if let Some(muted) = player_command.mute {
                        shared.remote_muted = muted;
                        shared.mark_state_dirty();
                    }
                }
            }
            None
        },
        ServerMessage::Other => None,
    }
}

/// A stream is marked active exactly while there is one, whatever messages come.
pub proof fn law_active_mark_follows_stream(
    message: ServerMessage,
    shared: SharedModel,
    stream: Option<FormatModel>,
)
    requires
        shared.stream_active == (stream is Some),
    ensures
        ({
            let effect = message_effect(message, shared, stream);
            effect.shared.stream_active == (effect.stream is Some)
        }),
{
}

/// Every stream that is taken up can be played, for as long as the host keeps its
/// sample rate.
pub proof fn law_taken_up_stream_is_playable(
    message: ServerMessage,
    shared: SharedModel,
    stream: Option<FormatModel>,
)
    requires
        stream matches Some(format) ==> is_playable(format, shared.host_sample_rate_hz),
    ensures
        ({
            let effect = message_effect(message, shared, stream);
            &&& effect.shared.host_sample_rate_hz == shared.host_sample_rate_hz
            &&& effect.stream matches Some(format) ==> is_playable(
                format,
                shared.host_sample_rate_hz,
            )
        }),
{
}

/// A change of a stream's format leaves alone what is queued; each chunk has its own
/// format.
pub proof fn law_format_change_keeps_queue(
    format: AudioFormatSpec,
    shared: SharedModel,
    stream: Option<FormatModel>,
)
    requires
        stream is Some,
        is_playable(format@, shared.host_sample_rate_hz),
    ensures
        ({
            let message = ServerMessage::StreamStart(Some(format));
            let effect = message_effect(message, shared, stream);
            effect.stream == Some(format@) && effect.shared.clear_requested
                == shared.clear_requested
        }),
{
}

/// The volume stays a percentage.
pub proof fn law_volume_stays_a_percentage(
    message: ServerMessage,
    shared: SharedModel,
    stream: Option<FormatModel>,
)
    requires
        shared.remote_volume <= 100,
    ensures
        message_effect(message, shared, stream).shared.remote_volume <= 100,
{
}

// ---------------------------------------------------------------------------
// Audio

/// The chunk decoded from `data`, to be heard at `play_time_us`: none where the
/// stream is no mono or stereo PCM, where its bytes do not make up whole frames, or
/// where there are none.
pub open spec fn decoded_chunk(
    data: Seq<u8>,
    stream: FormatModel,
    play_time_us: i64,
) -> Option<ChunkModel> {
    if stream.codec != "pcm"@ || (stream.channels != 1 && stream.channels != 2) {
        None
    } else {
        match crate::pcm::pcm_samples(data, stream.channels as nat, stream.bit_depth) {
            None => None,
            Some(samples) => if samples.len() == 0 {
                None
            } else {
                Some(
                    ChunkModel {
                        local_play_time_us: play_time_us,
                        sample_rate_hz: stream.sample_rate,
                        channels: stream.channels as nat,
                        frame_count: samples.len() / stream.channels as nat,
                        full_scale: crate::pcm::full_scale_of(stream.bit_depth) as u32,
                        samples,
                    },
                )
            },
        }
    }
}

/// A decoded chunk gives back the audio of its bytes: the left side of a frame is its
/// first sample, and the right side its second, where the stream is stereo.
pub proof fn law_decoded_frames_are_the_bytes(
    data: Seq<u8>,
    stream: FormatModel,
    play_time_us: i64,
    index: nat,
)
    requires
        decoded_chunk(data, stream, play_time_us) matches Some(chunk) && index < chunk.frame_count,
    ensures
        ({
            let frame = decoded_chunk(data, stream, play_time_us)->0.frame(index as int);
            let width = crate::pcm::sample_width(stream.bit_depth)->0;
            let full_scale = crate::pcm::full_scale_of(stream.bit_depth);
            let at = (index * stream.channels * width) as int;
            &&& frame.full_scale == full_scale
            &&& frame.left == crate::pcm::le_signed(data.subrange(at, at + width), full_scale)
            &&& frame.right == if stream.channels == 1 {
                frame.left as int
            } else {
                crate::pcm::le_signed(data.subrange(at + width, at + width + width), full_scale)
            }
        }),
{
    let chunk = decoded_chunk(data, stream, play_time_us)->0;
    let width = crate::pcm::sample_width(stream.bit_depth)->0;
    let channels = stream.channels as int;
    let n = chunk.samples.len() as int;
    let first = index * channels;
    assert(0 <= first && first + channels <= n) by (nonlinear_arith)
        requires
            first == index * channels,
            0 <= index < n / channels,
            n >= 0,
            channels > 0,
    ;
    assert((first + 1) * width == first * width + width) by (nonlinear_arith);
    crate::pcm::lemma_sample_fits(data, stream.channels as nat, stream.bit_depth, first);
    if channels == 2 {
        crate::pcm::lemma_sample_fits(data, stream.channels as nat, stream.bit_depth, first + 1);
    }
}

/// When a chunk is to be heard: at the client's time for its timestamp, where the
/// clocks are synchronized, and else a moment from `now_us`.
pub open spec fn play_time_us_of(converted: Option<i64>, now_us: i64) -> i64 {
    match converted {
        Some(us) => us,
        None => crate::clock::saturated(now_us + UNSYNCHRONIZED_PLAY_DELAY_US) as i64,
    }
}

/// When a chunk is to be heard that arrives at `now_us`, where `converted` is the
/// client's time for its timestamp, if the clocks are synchronized.
pub fn play_time_us(converted: Option<i64>, now_us: i64) -> (r: i64)
    ensures
        r == play_time_us_of(converted, now_us),
{
    match converted {
        Some(us) => us,
        None => saturating_sum(now_us, UNSYNCHRONIZED_PLAY_DELAY_US),
    }
}

/// Decodes a chunk that arrives at `now_us`. `converted` is the client's time for its
/// timestamp, where the clocks are synchronized.
pub fn decode_audio_chunk_at(
    data: &[u8],
    stream: &ActiveStream,
    converted: Option<i64>,
    now_us: i64,
) -> (r: Option<TimestampedChunk>)
    ensures
        crate::queue::opt_chunk(r) == decoded_chunk(
            data@,
            stream@,
            play_time_us_of(converted, now_us),
        ),
{
    if !same_text(&stream.codec, "pcm") || (stream.channels != 1 && stream.channels != 2) {
        return None;
    }
    let channels: usize = stream.channels as usize;
    match decode_pcm_samples(data, channels, stream.bit_depth) {
        None => None,
        Some(decoded) => {
            if decoded.values.len() == 0 {
                return None;
            }
            TimestampedChunk::new(
                play_time_us(converted, now_us),
                stream.sample_rate_hz,
                channels,
                decoded.full_scale,
                decoded.values,
            )
        },
    }
}

/// Decodes a chunk that arrives now, at `now_us` in the contract. `converted` is the
/// client's time for its timestamp, where the clocks are synchronized.
pub fn decode_audio_chunk(data: &[u8], stream: &ActiveStream, converted: Option<i64>) -> (r: Option<
    TimestampedChunk,
>)
    ensures
        exists|now_us: i64|
            crate::queue::opt_chunk(r) == decoded_chunk(
                data@,
                stream@,
                #[trigger] play_time_us_of(converted, now_us),
            ),
{
    decode_audio_chunk_at(data, stream, converted, unix_time_micros())
}

// ---------------------------------------------------------------------------
// Laws of the messages

/// After a server state with metadata the artist shown is its artist and the title shown
/// is its title, each trimmed and independent of the other, and empty where none is
/// given. Nothing else changes.
pub proof fn law_metadata_is_shown(
    metadata: TrackMetadata,
    shared: SharedModel,
    stream: Option<FormatModel>,
)
    ensures
        ({
            let message = ServerMessage::ServerState(Some(metadata));
            let effect = message_effect(message, shared, stream);
            let after = effect.shared;
            &&& metadata.artist matches Some(artist) ==> after.now_playing_artist
                == crate::text::trimmed(artist@)
            &&& metadata.title matches Some(title) ==> after.now_playing_title
                == crate::text::trimmed(title@)
            &&& metadata.artist is None ==> after.now_playing_artist.len() == 0
            &&& metadata.title is None ==> after.now_playing_title.len() == 0
            &&& after == (SharedModel {
                now_playing_artist: after.now_playing_artist,
                now_playing_title: after.now_playing_title,
                ..shared
            })
            &&& effect.stream == stream
            &&& effect.request is None
        }),
{
}

/// What is shown of the artist does not depend on the title, nor the other way round.
pub proof fn law_artist_and_title_are_independent(
    one: TrackMetadata,
    other: TrackMetadata,
    shared: SharedModel,
    stream: Option<FormatModel>,
)
    ensures
        ({
            let a = message_effect(ServerMessage::ServerState(Some(one)), shared, stream).shared;
            let b = message_effect(ServerMessage::ServerState(Some(other)), shared, stream).shared;
            &&& one.artist == other.artist ==> a.now_playing_artist == b.now_playing_artist
            &&& one.title == other.title ==> a.now_playing_title == b.now_playing_title
        }),
{
}

/// The host's rate is asked for, and where it is not known yet 44100 Hz.
pub proof fn law_host_rate_is_asked_for(host_sample_rate_hz: u32)
    ensures
        host_sample_rate_hz > 0 ==> stream_rate_of(host_sample_rate_hz) == host_sample_rate_hz,
        host_sample_rate_hz == 0 ==> stream_rate_of(host_sample_rate_hz) == 44_100,
{
}

/// What can be played is PCM of 16, 24 or 32 bits in one or two channels, at the host's
/// rate, or at 44100 Hz where that is not known, and all of that.
pub proof fn law_playable_formats(format: FormatModel, host_sample_rate_hz: u32)
    ensures
        is_playable(format, host_sample_rate_hz) <==> {
            &&& format.codec.len() == 3 && format.codec[0] == 'p' && format.codec[1] == 'c'
                && format.codec[2] == 'm'
            &&& 1 <= format.channels <= 2
            &&& format.bit_depth == 16 || format.bit_depth == 24 || format.bit_depth == 32
            &&& host_sample_rate_hz > 0 ==> format.sample_rate == host_sample_rate_hz
            &&& host_sample_rate_hz == 0 ==> format.sample_rate == 44_100
        },
{
    reveal_strlit("pcm");
    if format.codec.len() == 3 && format.codec[0] == 'p' && format.codec[1] == 'c'
        && format.codec[2] == 'm' {
        assert(format.codec =~= "pcm"@);
    }
}

/// A stream in a format that can be played is taken up as it is, at once: it is active,
/// the group plays, and playback counts as synchronized again. Nothing is asked for. What
/// is queued is dropped just where no stream was there before.
pub proof fn law_playable_stream_is_taken_up(
    format: AudioFormatSpec,
    shared: SharedModel,
    stream: Option<FormatModel>,
)
    requires
        is_playable(format@, shared.host_sample_rate_hz),
    ensures
        ({
            let message = ServerMessage::StreamStart(Some(format));
            let effect = message_effect(message, shared, stream);
            let after = effect.shared;
            &&& effect.stream matches Some(taken)
            &&& taken.codec == format.codec@ && taken.channels == format.channels
            &&& taken.sample_rate == format.sample_rate && taken.bit_depth == format.bit_depth
            &&& effect.request is None
            &&& after.stream_active && after.group_playback_state == GroupPlaybackState::Playing
            &&& stream is None ==> after.clear_requested
            &&& stream is Some ==> after.clear_requested == shared.clear_requested
            &&& after.sync_state == SyncState::Synchronized
            &&& shared.sync_state == SyncState::Error ==> after.state_dirty
            &&& shared.sync_state == SyncState::Synchronized ==> after.state_dirty
                == shared.state_dirty
            &&& after == (SharedModel {
                stream_active: after.stream_active,
                group_playback_state: after.group_playback_state,
                clear_requested: after.clear_requested,
                sync_state: after.sync_state,
                state_dirty: after.state_dirty,
                ..shared
            })
        }),
{
}

/// A stream in another format is refused: there is none then, what is queued is dropped,
/// and stereo PCM of 24 bits at the host's rate is asked for, or at 44100 Hz where that
/// is not known. Nothing else changes.
pub proof fn law_other_stream_is_refused(
    format: AudioFormatSpec,
    shared: SharedModel,
    stream: Option<FormatModel>,
)
    requires
        !is_playable(format@, shared.host_sample_rate_hz),
    ensures
        ({
            let message = ServerMessage::StreamStart(Some(format));
            let effect = message_effect(message, shared, stream);
            &&& effect.stream is None
            &&& effect.shared == (SharedModel {
                stream_active: false,
                clear_requested: true,
                ..shared
            })
            &&& effect.request == Some(
                FormatModel {
                    codec: "pcm"@,
                    channels: 2,
                    sample_rate: if shared.host_sample_rate_hz == 0 {
                        44_100
                    } else {
                        shared.host_sample_rate_hz
                    },
                    bit_depth: 24,
                },
            )
        }),
{
}

/// A clear drops what is queued and leaves the stream; an end drops both, stops the
/// group and is to be reported. After either playback counts as synchronized. Nothing
/// else changes, and nothing is asked for.
pub proof fn law_clear_and_end_drop_the_queue(shared: SharedModel, stream: Option<FormatModel>)
    ensures
        ({
            let effect = message_effect(ServerMessage::StreamClear, shared, stream);
            let after = effect.shared;
            &&& effect.stream == stream && effect.request is None
            &&& after.clear_requested && after.sync_state == SyncState::Synchronized
            &&& after.state_dirty == (shared.state_dirty || shared.sync_state == SyncState::Error)
            &&& after == (SharedModel {
                clear_requested: after.clear_requested,
                sync_state: after.sync_state,
                state_dirty: after.state_dirty,
                ..shared
            })
        }),
        ({
            let effect = message_effect(ServerMessage::StreamEnd, shared, stream);
            let after = effect.shared;
            &&& effect.stream is None && effect.request is None
            &&& after.clear_requested && after.sync_state == SyncState::Synchronized
            &&& after.state_dirty && !after.stream_active
            &&& after.group_playback_state == GroupPlaybackState::Stopped
            &&& after == (SharedModel {
                stream_active: after.stream_active,
                group_playback_state: after.group_playback_state,
                clear_requested: after.clear_requested,
                sync_state: after.sync_state,
                state_dirty: after.state_dirty,
                ..shared
            })
        }),
{
}

/// A group update sets whether the group plays, and nothing else.
pub proof fn law_group_update_sets_the_group(
    playback: PlaybackState,
    shared: SharedModel,
    stream: Option<FormatModel>,
)
    ensures
        ({
            let message = ServerMessage::GroupUpdate(Some(playback));
            let effect = message_effect(message, shared, stream);
            let group = effect.shared.group_playback_state;
            &&& playback == PlaybackState::Playing ==> group == GroupPlaybackState::Playing
            &&& playback == PlaybackState::Stopped ==> group == GroupPlaybackState::Stopped
            &&& effect.shared == (SharedModel { group_playback_state: group, ..shared })
            &&& effect.stream == stream && effect.request is None
        }),
{
}

/// A volume command sets the volume, up to 100, a mute command whether the player is
/// muted; each is to be confirmed, and changes nothing else. A command that says neither,
/// or lacks its value, changes nothing.
pub proof fn law_player_commands_set_their_own_value(
    command: PlayerCommand,
    shared: SharedModel,
    stream: Option<FormatModel>,
)
    ensures
        ({
            let message = ServerMessage::ServerCommand(Some(command));
            let effect = message_effect(message, shared, stream);
            let sets_volume = command.command@ == "volume"@ && command.volume is Some;
            let sets_mute = command.command@ == "mute"@ && command.mute is Some;
            &&& effect.stream == stream && effect.request is None
            &&& sets_volume ==> effect.shared == (SharedModel {
                remote_volume: if command.volume->0 < 100 {
                    command.volume->0
                } else {
                    100
                },
                state_dirty: true,
                ..shared
            })
            &&& sets_mute ==> effect.shared == (SharedModel {
                remote_muted: command.mute->0,
                state_dirty: true,
                ..shared
            })
            &&& !sets_volume && !sets_mute ==> effect.shared == shared
        }),
{
    reveal_strlit("volume");
    reveal_strlit("mute");
    assert("volume"@.len() != "mute"@.len());
}

/// A message that says nothing changes nothing.
pub proof fn law_empty_messages_change_nothing(
    message: ServerMessage,
    shared: SharedModel,
    stream: Option<FormatModel>,
)
    requires
        match message {
            ServerMessage::StreamStart(format) => format is None,
            ServerMessage::ServerState(metadata) => metadata is None,
            ServerMessage::GroupUpdate(playback) => playback is None,
            ServerMessage::ServerCommand(command) => command is None,
            ServerMessage::Other => true,
            _ => false,
        },
    ensures
        ({
            let effect = message_effect(message, shared, stream);
            &&& effect.shared == shared
            &&& effect.stream == stream
            &&& effect.request is None
        }),
{
}

/// What is reported of the player is its own volume, as a percentage, whether it is
/// muted, and whether playback keeps up.
pub proof fn law_report_is_the_players_state(shared: SharedModel)
    ensures
        ({
            let report = reported_state(shared);
            &&& shared.remote_volume <= 100 ==> report.volume == shared.remote_volume
            &&& shared.remote_volume > 100 ==> report.volume == 100
            &&& report.muted == shared.remote_muted
            &&& shared.sync_state == SyncState::Error ==> report.state == PlayerSyncState::Error
            &&& shared.sync_state == SyncState::Synchronized ==> report.state
                == PlayerSyncState::Synchronized
        }),
{
}

/// A server is offered one format, stereo PCM of 24 bits at the host's rate, or at
/// 44100 Hz where that is not known, a buffer of one mebibyte, and two commands.
pub proof fn law_one_format_is_offered(host_sample_rate_hz: u32)
    ensures
        ({
            let support = player_support(host_sample_rate_hz);
            &&& support.supported_formats.len() == 1
            &&& support.supported_formats[0] == (FormatModel {
                codec: "pcm"@,
                channels: 2,
                sample_rate: if host_sample_rate_hz == 0 {
                    44_100
                } else {
                    host_sample_rate_hz
                },
                bit_depth: 24,
            })
            &&& support.buffer_capacity == 1024 * 1024
            &&& support.supported_commands.len() == 2
            &&& support.supported_commands[0] == "volume"@
            &&& support.supported_commands[1] == "mute"@
        }),
{
}

/// A greeting carries the client's own identity, name, version and support, and its
/// three roles.
pub proof fn law_greeting_carries_the_client(
    client_id: Seq<char>,
    client_name: Seq<char>,
    support: SupportModel,
    software_version: Seq<char>,
)
    ensures
        ({
            let hello = hello_of(client_id, client_name, support, software_version);
            &&& hello.client_id == client_id && hello.name == client_name
            &&& hello.software_version == software_version && hello.player_v1_support == support
            &&& hello.version == 1
            &&& hello.supported_roles.len() == 3
            &&& hello.supported_roles[0] == "player@v1"@
            &&& hello.supported_roles[1] == "controller@v1"@
            &&& hello.supported_roles[2] == "metadata@v1"@
            &&& hello.product_name == "Sendspin VST"@ && hello.manufacturer == "Sendspin"@
        }),
{
}

/// A chunk is heard at the time that the clocks agreed on, and 150 milliseconds after it
/// arrived where they did not agree yet.
pub proof fn law_unsynchronized_chunks_are_delayed(converted: Option<i64>, now_us: i64)
    ensures
        converted matches Some(us) ==> play_time_us_of(converted, now_us) == us,
        converted is None && now_us + 150_000 <= i64::MAX ==> play_time_us_of(converted, now_us)
            == now_us + 150_000,
        converted is None && now_us + 150_000 > i64::MAX ==> play_time_us_of(converted, now_us)
            == i64::MAX,
{
}

/// Audio is decoded just where the stream is PCM of 16, 24 or 32 bits in one or two
/// channels and the bytes make up frames, at least one and each whole.
pub proof fn law_whole_chunks_are_decoded(data: Seq<u8>, stream: FormatModel, play_time_us: i64)
    ensures
        decoded_chunk(data, stream, play_time_us) is Some <==> {
            &&& stream.codec == "pcm"@
            &&& data.len() > 0
            &&& {
                ||| stream.bit_depth == 16 && stream.channels == 1 && data.len() % 2 == 0
                ||| stream.bit_depth == 16 && stream.channels == 2 && data.len() % 4 == 0
                ||| stream.bit_depth == 24 && stream.channels == 1 && data.len() % 3 == 0
                ||| stream.bit_depth == 24 && stream.channels == 2 && data.len() % 6 == 0
                ||| stream.bit_depth == 32 && stream.channels == 1 && data.len() % 4 == 0
                ||| stream.bit_depth == 32 && stream.channels == 2 && data.len() % 8 == 0
            }
        },
{
    if stream.codec == "pcm"@ && (stream.channels == 1 || stream.channels == 2) {
        crate::pcm::law_whole_frames_are_decoded(data, stream.channels as nat, stream.bit_depth);
        lemma_frames_of_channels(data.len() / 2, stream.channels);
        lemma_frames_of_channels(data.len() / 3, stream.channels);
        lemma_frames_of_channels(data.len() / 4, stream.channels);
    }
}

/// How samples divide into frames of one channel and of two.
proof fn lemma_frames_of_channels(n: nat, channels: u8)
    by (nonlinear_arith)
    requires
        channels == 1 || channels == 2,
    ensures
        channels == 1 ==> n % channels as nat == 0 && n / channels as nat == n,
        channels == 2 ==> n % channels as nat == n % 2 && n / channels as nat == n / 2,
{
}

/// A decoded chunk is to be heard at the time given, at the rate and in the channels of
/// its stream, and has all frames of its bytes.
pub proof fn law_decoded_chunk_keeps_its_stream(
    data: Seq<u8>,
    stream: FormatModel,
    play_time_us: i64,
)
    ensures
        decoded_chunk(data, stream, play_time_us) matches Some(chunk) ==> {
            let mono = stream.channels == 1;
            &&& chunk.local_play_time_us == play_time_us
            &&& chunk.sample_rate_hz == stream.sample_rate
            &&& chunk.channels == stream.channels
            &&& stream.bit_depth == 16 && mono ==> chunk.frame_count * 2 == data.len()
            &&& stream.bit_depth == 16 && !mono ==> chunk.frame_count * 4 == data.len()
            &&& stream.bit_depth == 24 && mono ==> chunk.frame_count * 3 == data.len()
            &&& stream.bit_depth == 24 && !mono ==> chunk.frame_count * 6 == data.len()
            &&& stream.bit_depth == 32 && mono ==> chunk.frame_count * 4 == data.len()
            &&& stream.bit_depth == 32 && !mono ==> chunk.frame_count * 8 == data.len()
            &&& stream.bit_depth == 16 ==> chunk.full_scale == 0x8000
            &&& stream.bit_depth == 24 ==> chunk.full_scale == 0x80_0000
            &&& stream.bit_depth == 32 ==> chunk.full_scale == 0x8000_0000
        },
{
    if decoded_chunk(data, stream, play_time_us) is Some {
        crate::pcm::law_whole_frames_are_decoded(data, stream.channels as nat, stream.bit_depth);
        lemma_frames_of_channels(data.len() / 2, stream.channels);
        lemma_frames_of_channels(data.len() / 3, stream.channels);
        lemma_frames_of_channels(data.len() / 4, stream.channels);
    }
}

/// The models of messages and formats show all that these hold.
pub proof fn law_messages_are_seen_whole(
    a: ClientMessage,
    b: ClientMessage,
    spec: AudioFormatSpec,
    stream: ActiveStream,
)
    ensures
        a@ == b@ ==> match (a, b) {
            (ClientMessage::StreamRequestFormat(x), ClientMessage::StreamRequestFormat(y)) => {
                x@ == y@
            },
            (ClientMessage::ClientState(x), ClientMessage::ClientState(y)) => x == y,
            (ClientMessage::ClientCommand(x), ClientMessage::ClientCommand(y)) => x@ == y@,
            (ClientMessage::ClientGoodbye(x), ClientMessage::ClientGoodbye(y)) => x == y,
            _ => false,
        },
        spec@.codec == spec.codec@ && spec@.channels == spec.channels,
        spec@.sample_rate == spec.sample_rate && spec@.bit_depth == spec.bit_depth,
        stream@.codec == stream.codec@ && stream@.channels == stream.channels,
        stream@.sample_rate == stream.sample_rate_hz && stream@.bit_depth == stream.bit_depth,
{
}

} // verus!
